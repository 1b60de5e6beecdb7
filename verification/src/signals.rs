//! Host signals and the rules that derive them from raw observations.
//!
//! Reading the host is the caller's business. What it read arrives here as a
//! [`HostObservations`] value, and every rule below is total: an observation
//! that is missing or unreadable maps to a fallback signal, never to an error.

use vstd::prelude::*;
use crate::text::{contains_seq, contains_text, lowercase, lowercase_of};

verus! {

/// The windowing protocol of the session the launcher runs in.
#[derive(Clone, Copy, Debug, PartialEq, Eq, Structural)]
pub enum DisplayProtocol {
    X11,
    Wayland,
    Unknown,
}

/// The vendor of the GPU driver that is loaded on the host.
#[derive(Clone, Copy, Debug, PartialEq, Eq, Structural)]
pub enum GpuVendor {
    Nvidia,
    Other,
    Unknown,
}

/// The hypervisor the host runs under, as far as it could be told.
#[derive(Clone, Copy, Debug, PartialEq, Eq, Structural)]
pub enum VirtualizationVendor {
    VirtualBox,
    VMware,
    /// No known hypervisor was recognised.
    NoneDetected,
    /// The identification could not be read.
    Unknown,
}

/// Whether the launcher was built for development or for release.
#[derive(Clone, Copy, Debug, PartialEq, Eq, Structural)]
pub enum BuildMode {
    Debug,
    Release,
}

/// The class of operating system the launcher was built for.
#[derive(Clone, Copy, Debug, PartialEq, Eq, Structural)]
pub enum TargetOs {
    Linux,
    Other,
}

/// What the launcher knows about its host, computed once per process start.
#[derive(Clone, Copy, Debug, PartialEq, Eq, Structural)]
pub struct HostSignals {
    pub display_protocol: DisplayProtocol,
    pub gpu_vendor: GpuVendor,
    pub virtualization_vendor: VirtualizationVendor,
    pub build_mode: BuildMode,
}

/// The outcome of reading the hardware product-name file.
#[derive(Debug)]
pub enum ProductNameRead {
    /// The file does not exist.
    Absent,
    /// The file exists but could not be read as text.
    Unreadable,
    /// The text of the file.
    Text(String),
}

/// Everything the caller read from the host before startup.
#[derive(Debug)]
pub struct HostObservations {
    pub target: TargetOs,
    /// The value of the session indicator variable, if it is set.
    pub session_indicator: Option<String>,
    /// Whether the marker path of the Nvidia driver exists.
    pub gpu_marker_present: bool,
    pub product_name: ProductNameRead,
    /// Whether the build carries debug assertions.
    pub debug_assertions: bool,
}

/// The process environment as a mapping from variable names to values.
pub type Environment = Map<Seq<char>, Seq<char>>;

/// The name of the variable that announces a Wayland session.
pub open spec fn session_variable_chars() -> Seq<char> {
    "WAYLAND_DISPLAY"@
}

/// The name of the variable that announces a Wayland session.
pub fn session_variable() -> (name: &'static str)
    ensures
        name@ == session_variable_chars(),
{
    "WAYLAND_DISPLAY"
}

/// The path whose presence marks a loaded Nvidia driver.
pub fn gpu_marker_path() -> (path: &'static str)
    ensures
        path@ == "/proc/driver/nvidia/version"@,
{
    "/proc/driver/nvidia/version"
}

/// The path of the file that holds the hardware product name.
pub fn product_name_path() -> (path: &'static str)
    ensures
        path@ == "/sys/devices/virtual/dmi/id/product_name"@,
{
    "/sys/devices/virtual/dmi/id/product_name"
}

/// The session indicator as an environment holds it.
pub open spec fn session_indicator_in(environment: Environment) -> Option<Seq<char>> {
    if environment.dom().contains(session_variable_chars()) {
        Some(environment[session_variable_chars()])
    } else {
        None
    }
}

/// The display protocol that follows from the target and from the value of
/// the session indicator, `None` standing for an indicator that is not set.
///
/// Off Linux nothing is probed. On Linux a session that does not announce
/// Wayland is taken to be an X11 session.
pub open spec fn display_protocol_of(target: TargetOs, indicator: Option<Seq<char>>) -> DisplayProtocol {
    match target {
        TargetOs::Other => DisplayProtocol::Unknown,
        TargetOs::Linux => match indicator {
            Some(value) => if value.len() > 0 {
                DisplayProtocol::Wayland
            } else {
                DisplayProtocol::X11
            },
            None => DisplayProtocol::X11,
        },
    }
}

/// The characters of an optional string slice.
pub open spec fn indicator_chars(indicator: Option<&str>) -> Option<Seq<char>> {
    match indicator {
        Some(value) => Some(value@),
        None => None,
    }
}

/// Derives the display protocol from the session indicator.
pub fn detect_display_protocol(target: TargetOs, indicator: Option<&str>) -> (protocol: DisplayProtocol)
    ensures
        protocol == display_protocol_of(target, indicator_chars(indicator)),
{
    match target {
        TargetOs::Other => DisplayProtocol::Unknown,
        TargetOs::Linux => match indicator {
            Some(value) => if value.is_empty() {
                DisplayProtocol::X11
            } else {
                DisplayProtocol::Wayland
            },
            None => DisplayProtocol::X11,
        },
    }
}

/// The GPU vendor that follows from the presence of the driver marker.
pub open spec fn gpu_vendor_of(marker_present: bool) -> GpuVendor {
    if marker_present {
        GpuVendor::Nvidia
    } else {
        GpuVendor::Other
    }
}

/// Derives the GPU vendor from the presence of the driver marker.
pub fn detect_gpu_vendor(marker_present: bool) -> (vendor: GpuVendor)
    ensures
        vendor == gpu_vendor_of(marker_present),
{
    if marker_present {
        GpuVendor::Nvidia
    } else {
        GpuVendor::Other
    }
}

/// The hypervisor that a product name names, once the name is in lowercase.
/// A name that mentions both is counted for VirtualBox.
pub open spec fn vendor_named_in(lowered: Seq<char>) -> VirtualizationVendor {
    if contains_seq(lowered, "virtualbox"@) {
        VirtualizationVendor::VirtualBox
    } else if contains_seq(lowered, "vmware"@) {
        VirtualizationVendor::VMware
    } else {
        VirtualizationVendor::NoneDetected
    }
}

/// Looks for the known hypervisor names in a product name that is already
/// in lowercase.
pub fn classify_lowered_product_name(lowered: &str) -> (vendor: VirtualizationVendor)
    ensures
        vendor == vendor_named_in(lowered@),
{
    if contains_text(lowered, "virtualbox") {
        VirtualizationVendor::VirtualBox
    } else if contains_text(lowered, "vmware") {
        VirtualizationVendor::VMware
    } else {
        VirtualizationVendor::NoneDetected
    }
}

/// The hypervisor that a product name names, whatever its letter case.
pub open spec fn vendor_of_product_name(name: Seq<char>) -> VirtualizationVendor {
    vendor_named_in(lowercase_of(name))
}

/// Looks for the known hypervisor names in a product name, ignoring case.
pub fn classify_product_name(name: &str) -> (vendor: VirtualizationVendor)
    ensures
        vendor == vendor_of_product_name(name@),
{
    let lowered = lowercase(name);
    classify_lowered_product_name(lowered.as_str())
}

/// The virtualization vendor that follows from reading the product name.
pub open spec fn virtualization_vendor_of(read: ProductNameRead) -> VirtualizationVendor {
    match read {
        ProductNameRead::Absent => VirtualizationVendor::NoneDetected,
        ProductNameRead::Unreadable => VirtualizationVendor::Unknown,
        ProductNameRead::Text(name) => vendor_of_product_name(name@),
    }
}

/// Derives the virtualization vendor from the product-name read.
pub fn detect_virtualization_vendor(read: &ProductNameRead) -> (vendor: VirtualizationVendor)
    ensures
        vendor == virtualization_vendor_of(*read),
{
    match read {
        ProductNameRead::Absent => VirtualizationVendor::NoneDetected,
        ProductNameRead::Unreadable => VirtualizationVendor::Unknown,
        ProductNameRead::Text(name) => classify_product_name(name.as_str()),
    }
}

/// The build mode that follows from the build's debug-assertion setting.
pub open spec fn build_mode_of(debug_assertions: bool) -> BuildMode {
    if debug_assertions {
        BuildMode::Debug
    } else {
        BuildMode::Release
    }
}

/// Names the build mode. The setting is fixed when the launcher is built,
/// so the caller passes it in rather than probing for it.
pub fn detect_build_mode(debug_assertions: bool) -> (mode: BuildMode)
    ensures
        mode == build_mode_of(debug_assertions),
{
    if debug_assertions {
        BuildMode::Debug
    } else {
        BuildMode::Release
    }
}

/// The characters of an optional owned string.
pub open spec fn owned_indicator_chars(indicator: Option<String>) -> Option<Seq<char>> {
    match indicator {
        Some(value) => Some(value@),
        None => None,
    }
}

/// The signals that follow from the single observations.
pub open spec fn signals_from(
    target: TargetOs,
    indicator: Option<Seq<char>>,
    gpu_marker_present: bool,
    product_name: ProductNameRead,
    debug_assertions: bool,
) -> HostSignals {
    HostSignals {
        display_protocol: display_protocol_of(target, indicator),
        gpu_vendor: gpu_vendor_of(gpu_marker_present),
        virtualization_vendor: virtualization_vendor_of(product_name),
        build_mode: build_mode_of(debug_assertions),
    }
}

/// The signals that a set of observations amounts to.
pub open spec fn signals_of(observations: HostObservations) -> HostSignals {
    signals_from(
        observations.target,
        owned_indicator_chars(observations.session_indicator),
        observations.gpu_marker_present,
        observations.product_name,
        observations.debug_assertions,
    )
}

/// Turns the caller's observations into host signals.
pub fn probe(observations: &HostObservations) -> (signals: HostSignals)
    ensures
        signals == signals_of(*observations),
{
    let indicator: Option<&str> = match &observations.session_indicator {
        Some(value) => Some(value.as_str()),
        None => None,
    };
    HostSignals {
        display_protocol: detect_display_protocol(observations.target, indicator),
        gpu_vendor: detect_gpu_vendor(observations.gpu_marker_present),
        virtualization_vendor: detect_virtualization_vendor(&observations.product_name),
        build_mode: detect_build_mode(observations.debug_assertions),
    }
}

} // verus!
