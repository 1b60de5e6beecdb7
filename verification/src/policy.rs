//! The workaround policy: which compensating overrides a host calls for,
//! and what applying them does to the process environment.

use vstd::prelude::*;
use crate::signals::{
    session_indicator_in, session_variable_chars, signals_from, DisplayProtocol, Environment,
    GpuVendor, HostSignals, ProductNameRead, TargetOs, VirtualizationVendor,
};

verus! {

/// A startup-time adjustment of the renderer.
#[derive(Clone, Copy, Debug, PartialEq, Eq, Structural)]
pub enum Override {
    /// Keep the renderer away from DMA-buffer sharing.
    DisableDmabufRenderer,
    /// Keep the renderer out of compositing mode.
    DisableCompositing,
}

impl Override {
    /// The name under which the override is known.
    pub open spec fn name_chars(self) -> Seq<char> {
        match self {
            Override::DisableDmabufRenderer => "disableDmabufRenderer"@,
            Override::DisableCompositing => "disableCompositing"@,
        }
    }

    /// The name under which the override is known.
    pub fn name(&self) -> (name: &'static str)
        ensures
            name@ == self.name_chars(),
    {
        match self {
            Override::DisableDmabufRenderer => "disableDmabufRenderer",
            Override::DisableCompositing => "disableCompositing",
        }
    }

    /// The environment variable through which the renderer learns of the
    /// override.
    pub open spec fn variable_chars(self) -> Seq<char> {
        match self {
            Override::DisableDmabufRenderer => "WEBKIT_DISABLE_DMABUF_RENDERER"@,
            Override::DisableCompositing => "WEBKIT_DISABLE_COMPOSITING_MODE"@,
        }
    }

    /// The environment variable through which the renderer learns of the
    /// override.
    pub fn variable(&self) -> (variable: &'static str)
        ensures
            variable@ == self.variable_chars(),
    {
        match self {
            Override::DisableDmabufRenderer => "WEBKIT_DISABLE_DMABUF_RENDERER",
            Override::DisableCompositing => "WEBKIT_DISABLE_COMPOSITING_MODE",
        }
    }

    /// The value that switches an override on.
    pub open spec fn value_chars() -> Seq<char> {
        "1"@
    }

    /// The value that switches an override on.
    pub fn value() -> (value: &'static str)
        ensures
            value@ == Override::value_chars(),
    {
        "1"
    }
}

/// A set of overrides, held as one named flag per override.
#[derive(Clone, Copy, Debug, PartialEq, Eq, Structural)]
pub struct WorkaroundSet {
    pub disable_dmabuf_renderer: bool,
    pub disable_compositing: bool,
}

impl View for WorkaroundSet {
    type V = Set<Override>;

    open spec fn view(&self) -> Set<Override> {
        Set::new(
            |o: Override|
                match o {
                    Override::DisableDmabufRenderer => self.disable_dmabuf_renderer,
                    Override::DisableCompositing => self.disable_compositing,
                },
        )
    }
}

/// The overrides of a set in the order in which they are applied.
pub open spec fn listing_of(set: Set<Override>) -> Seq<Override> {
    let dmabuf = if set.contains(Override::DisableDmabufRenderer) {
        seq![Override::DisableDmabufRenderer]
    } else {
        Seq::empty()
    };
    let compositing = if set.contains(Override::DisableCompositing) {
        seq![Override::DisableCompositing]
    } else {
        Seq::empty()
    };
    dmabuf + compositing
}

impl WorkaroundSet {
    /// The set without any override.
    pub fn empty() -> (set: WorkaroundSet)
        ensures
            set@ == Set::<Override>::empty(),
    {
        WorkaroundSet { disable_dmabuf_renderer: false, disable_compositing: false }
    }

    /// Whether the set holds `item`.
    pub fn contains(&self, item: Override) -> (present: bool)
        ensures
            present == self@.contains(item),
    {
        match item {
            Override::DisableDmabufRenderer => self.disable_dmabuf_renderer,
            Override::DisableCompositing => self.disable_compositing,
        }
    }

    /// Adds `item`; adding it a second time changes nothing.
    pub fn insert(&mut self, item: Override)
        ensures
            final(self)@ == old(self)@.insert(item),
    {
        match item {
            Override::DisableDmabufRenderer => {
                self.disable_dmabuf_renderer = true;
            },
            Override::DisableCompositing => {
                self.disable_compositing = true;
            },
        }
    }

    /// The overrides that are in either set.
    pub fn union(&self, other: &WorkaroundSet) -> (both: WorkaroundSet)
        ensures
            both@ == self@.union(other@),
    {
        WorkaroundSet {
            disable_dmabuf_renderer: self.disable_dmabuf_renderer || other.disable_dmabuf_renderer,
            disable_compositing: self.disable_compositing || other.disable_compositing,
        }
    }

    /// Whether the set holds no override.
    pub fn is_empty(&self) -> (empty: bool)
        ensures
            empty == (self@ == Set::<Override>::empty()),
    {
        let empty = !self.disable_dmabuf_renderer && !self.disable_compositing;
        proof {
            if self.disable_dmabuf_renderer {
                assert(self@.contains(Override::DisableDmabufRenderer));
            }
            if self.disable_compositing {
                assert(self@.contains(Override::DisableCompositing));
            }
            if empty {
                assert(self@ =~= Set::<Override>::empty());
            }
        }
        empty
    }

    /// The overrides of the set in the order in which they are applied.
    pub fn listing(&self) -> (items: Vec<Override>)
        ensures
            items@ == listing_of(self@),
    {
        let mut items: Vec<Override> = Vec::new();
        if self.disable_dmabuf_renderer {
            items.push(Override::DisableDmabufRenderer);
        }
        if self.disable_compositing {
            items.push(Override::DisableCompositing);
        }
        items
    }
}

/// The record that holds exactly the overrides of `set`.
pub open spec fn record_of(set: Set<Override>) -> WorkaroundSet {
    WorkaroundSet {
        disable_dmabuf_renderer: set.contains(Override::DisableDmabufRenderer),
        disable_compositing: set.contains(Override::DisableCompositing),
    }
}

/// A record and the set it stands for determine each other.
pub proof fn lemma_record_of_view(set: Set<Override>, record: WorkaroundSet)
    ensures
        record_of(set)@ == set,
        record_of(record@) == record,
{
    assert(record_of(set)@ =~= set);
}

/// Which form of the policy is in force. The two forms differ on hosts
/// without an Nvidia GPU, so one of them has to be chosen.
#[derive(Clone, Copy, Debug, PartialEq, Eq, Structural)]
pub enum PolicyVariant {
    /// The DMA-buffer renderer is disabled only where a rule calls for it.
    Conditional,
    /// The DMA-buffer renderer is disabled on every host.
    Unconditional,
}

/// Whether the host runs under one of the hypervisors the policy knows.
pub open spec fn is_known_hypervisor(vendor: VirtualizationVendor) -> bool {
    vendor == VirtualizationVendor::VirtualBox || vendor == VirtualizationVendor::VMware
}

/// An Nvidia GPU under Wayland calls for disabling the DMA-buffer renderer.
pub open spec fn rule_nvidia_on_wayland(signals: HostSignals) -> Set<Override> {
    if signals.gpu_vendor == GpuVendor::Nvidia && signals.display_protocol
        == DisplayProtocol::Wayland {
        set![Override::DisableDmabufRenderer]
    } else {
        Set::empty()
    }
}

/// An Nvidia GPU calls for disabling compositing, whatever the protocol.
pub open spec fn rule_nvidia(signals: HostSignals) -> Set<Override> {
    if signals.gpu_vendor == GpuVendor::Nvidia {
        set![Override::DisableCompositing]
    } else {
        Set::empty()
    }
}

/// A known hypervisor under Wayland calls for disabling the DMA-buffer
/// renderer.
pub open spec fn rule_virtualized_wayland(signals: HostSignals) -> Set<Override> {
    if signals.display_protocol == DisplayProtocol::Wayland && is_known_hypervisor(
        signals.virtualization_vendor,
    ) {
        set![Override::DisableDmabufRenderer]
    } else {
        Set::empty()
    }
}

/// What the chosen form of the policy adds on every host.
pub open spec fn rule_always(policy: PolicyVariant) -> Set<Override> {
    match policy {
        PolicyVariant::Conditional => Set::empty(),
        PolicyVariant::Unconditional => set![Override::DisableDmabufRenderer],
    }
}

/// The overrides a host calls for: the union of what each rule adds.
pub open spec fn overrides_for(policy: PolicyVariant, signals: HostSignals) -> Set<Override> {
    rule_always(policy).union(rule_nvidia_on_wayland(signals)).union(rule_nvidia(signals)).union(
        rule_virtualized_wayland(signals),
    )
}

/// Membership in the computed set, override by override.
pub proof fn lemma_overrides_membership(policy: PolicyVariant, signals: HostSignals)
    ensures
        overrides_for(policy, signals).contains(Override::DisableDmabufRenderer) <==> (policy
            == PolicyVariant::Unconditional || (signals.display_protocol
            == DisplayProtocol::Wayland && (signals.gpu_vendor == GpuVendor::Nvidia
            || is_known_hypervisor(signals.virtualization_vendor)))),
        overrides_for(policy, signals).contains(Override::DisableCompositing) <==> signals.gpu_vendor
            == GpuVendor::Nvidia,
{
}

/// Computes the overrides that the host signals call for.
///
/// The rules are independent and their results are unioned, so the same
/// signals always give the same set.
pub fn compute_overrides(policy: PolicyVariant, signals: &HostSignals) -> (set: WorkaroundSet)
    ensures
        set@ == overrides_for(policy, *signals),
        set == record_of(overrides_for(policy, *signals)),
        signals.gpu_vendor == GpuVendor::Nvidia && signals.display_protocol
            == DisplayProtocol::Wayland ==> set@.contains(Override::DisableDmabufRenderer)
            && set@.contains(Override::DisableCompositing),
        policy == PolicyVariant::Conditional && signals.gpu_vendor == GpuVendor::Other
            && signals.virtualization_vendor == VirtualizationVendor::NoneDetected ==> set@
            == Set::<Override>::empty(),
{
    let nvidia = signals.gpu_vendor == GpuVendor::Nvidia;
    let wayland = signals.display_protocol == DisplayProtocol::Wayland;
    let virtualized = signals.virtualization_vendor == VirtualizationVendor::VirtualBox
        || signals.virtualization_vendor == VirtualizationVendor::VMware;
    let mut set = WorkaroundSet::empty();
    if policy == PolicyVariant::Unconditional {
        set.insert(Override::DisableDmabufRenderer);
    }
    if nvidia && wayland {
        set.insert(Override::DisableDmabufRenderer);
    }
    if nvidia {
        set.insert(Override::DisableCompositing);
    }
    if wayland && virtualized {
        set.insert(Override::DisableDmabufRenderer);
    }
    proof {
        lemma_overrides_membership(policy, *signals);
        assert(set@ =~= overrides_for(policy, *signals));
        lemma_record_of_view(set@, set);
    }
    set
}

/// The overrides that are written on `target`. The variables are read by
/// the Linux renderer only, so on other targets nothing is written.
pub open spec fn writes_for(target: TargetOs, set: Set<Override>) -> Set<Override> {
    match target {
        TargetOs::Linux => set,
        TargetOs::Other => Set::empty(),
    }
}

/// Selects the overrides that are written on `target`.
pub fn applicable_overrides(target: TargetOs, set: &WorkaroundSet) -> (writes: WorkaroundSet)
    ensures
        writes@ == writes_for(target, set@),
        writes == record_of(writes_for(target, set@)),
{
    proof {
        lemma_record_of_view(writes_for(target, set@), *set);
    }
    match target {
        TargetOs::Linux => *set,
        TargetOs::Other => WorkaroundSet::empty(),
    }
}

/// The environment after the variables of `items` were set, one after the
/// other.
pub open spec fn apply_in_order(environment: Environment, items: Seq<Override>) -> Environment
    decreases items.len(),
{
    if items.len() == 0 {
        environment
    } else {
        apply_in_order(
            environment.insert(items[0].variable_chars(), Override::value_chars()),
            items.drop_first(),
        )
    }
}

/// The environment after a set of overrides was applied to it: the variable
/// of each override in the set is set, and nothing else is touched.
pub open spec fn apply_overrides(environment: Environment, set: Set<Override>) -> Environment {
    apply_in_order(environment, listing_of(set))
}

/// Whether applying `set` writes the variable `variable`.
pub open spec fn is_written(set: Set<Override>, variable: Seq<char>) -> bool {
    exists|o: Override| set.contains(o) && #[trigger] o.variable_chars() == variable
}

/// Applying a set is two conditional writes.
proof fn lemma_apply_overrides_unfolded(environment: Environment, set: Set<Override>)
    ensures
        apply_overrides(environment, set) == {
            let first = if set.contains(Override::DisableDmabufRenderer) {
                environment.insert(
                    Override::DisableDmabufRenderer.variable_chars(),
                    Override::value_chars(),
                )
            } else {
                environment
            };
            if set.contains(Override::DisableCompositing) {
                first.insert(Override::DisableCompositing.variable_chars(), Override::value_chars())
            } else {
                first
            }
        },
{
    reveal_with_fuel(apply_in_order, 3);
    let items = listing_of(set);
    if items.len() == 2 {
        assert(items.drop_first() =~= seq![Override::DisableCompositing]);
        assert(items.drop_first().drop_first() =~= Seq::<Override>::empty());
    } else if items.len() == 1 {
        assert(items.drop_first() =~= Seq::<Override>::empty());
    }
}

/// What applying a set does to a single variable: a variable of the set
/// reads as switched on, every other variable is as it was. No variable is
/// ever removed.
pub proof fn lemma_apply_overrides_pointwise(
    environment: Environment,
    set: Set<Override>,
    variable: Seq<char>,
)
    ensures
        apply_overrides(environment, set).dom().contains(variable) <==> (
        environment.dom().contains(variable) || is_written(set, variable)),
        is_written(set, variable) ==> apply_overrides(environment, set)[variable]
            == Override::value_chars(),
        !is_written(set, variable) ==> apply_overrides(environment, set)[variable]
            == environment[variable],
{
    lemma_apply_overrides_unfolded(environment, set);
    let dmabuf = Override::DisableDmabufRenderer;
    let compositing = Override::DisableCompositing;
    if set.contains(dmabuf) && dmabuf.variable_chars() == variable {
        assert(is_written(set, variable));
    }
    if set.contains(compositing) && compositing.variable_chars() == variable {
        assert(is_written(set, variable));
    }
}

/// Applying a set twice leaves the environment that applying it once
/// leaves.
pub proof fn lemma_apply_overrides_idempotent(environment: Environment, set: Set<Override>)
    ensures
        apply_overrides(apply_overrides(environment, set), set) == apply_overrides(
            environment,
            set,
        ),
{
    let once = apply_overrides(environment, set);
    lemma_apply_overrides_unfolded(environment, set);
    lemma_apply_overrides_unfolded(once, set);
    assert(apply_overrides(once, set) =~= once);
}

/// No override is written to the variable that the probe reads.
pub proof fn lemma_session_variable_is_never_written(set: Set<Override>)
    ensures
        !is_written(set, session_variable_chars()),
{
    reveal_strlit("WAYLAND_DISPLAY");
    reveal_strlit("WEBKIT_DISABLE_DMABUF_RENDERER");
    reveal_strlit("WEBKIT_DISABLE_COMPOSITING_MODE");
    assert forall|o: Override| set.contains(o) implies #[trigger] o.variable_chars()
        != session_variable_chars() by {
        assert(o.variable_chars().len() != session_variable_chars().len());
    }
}

/// Probing again after any set of overrides was applied gives the signals
/// that were probed before, as long as the host itself is unchanged.
pub proof fn lemma_application_preserves_signals(
    environment: Environment,
    written: Set<Override>,
    target: TargetOs,
    gpu_marker_present: bool,
    product_name: ProductNameRead,
    debug_assertions: bool,
)
    ensures
        signals_from(
            target,
            session_indicator_in(apply_overrides(environment, written)),
            gpu_marker_present,
            product_name,
            debug_assertions,
        ) == signals_from(
            target,
            session_indicator_in(environment),
            gpu_marker_present,
            product_name,
            debug_assertions,
        ),
{
    lemma_session_variable_is_never_written(written);
    lemma_apply_overrides_pointwise(environment, written, session_variable_chars());
}

/// The policy is idempotent across application: computing the overrides,
/// applying them to the environment and computing again from a fresh probe
/// of the same host gives the set that was computed first.
pub proof fn lemma_overrides_stable_under_application(
    policy: PolicyVariant,
    environment: Environment,
    target: TargetOs,
    gpu_marker_present: bool,
    product_name: ProductNameRead,
    debug_assertions: bool,
)
    ensures
        ({
            let signals = signals_from(
                target,
                session_indicator_in(environment),
                gpu_marker_present,
                product_name,
                debug_assertions,
            );
            let overrides = overrides_for(policy, signals);
            let reprobed = signals_from(
                target,
                session_indicator_in(apply_overrides(environment, overrides)),
                gpu_marker_present,
                product_name,
                debug_assertions,
            );
            overrides_for(policy, reprobed) == overrides
        }),
{
    let signals = signals_from(
        target,
        session_indicator_in(environment),
        gpu_marker_present,
        product_name,
        debug_assertions,
    );
    lemma_application_preserves_signals(
        environment,
        overrides_for(policy, signals),
        target,
        gpu_marker_present,
        product_name,
        debug_assertions,
    );
}

} // verus!
