//! The feature gate: which auxiliary subsystems a build of the launcher
//! brings up, and who consumes its log records.

use vstd::prelude::*;
use crate::logging::Consumer;
use crate::signals::BuildMode;

verus! {

/// The class of platform the launcher was built for.
#[derive(Clone, Copy, Debug, PartialEq, Eq, Structural)]
pub enum PlatformClass {
    Desktop,
    Mobile,
}

/// A subsystem that the launcher can do without.
#[derive(Clone, Copy, Debug, PartialEq, Eq, Structural)]
pub enum Auxiliary {
    /// The relay that shows log records in the interactive inspector.
    InspectorRelay,
    /// Opening the inspector window once and closing it at once, to see
    /// that the inspector is there.
    InspectorSmokeTest,
    /// Registering the launcher to start with the session.
    AutostartRegistration,
}

/// A set of auxiliary subsystems, held as one flag per subsystem.
#[derive(Clone, Copy, Debug, PartialEq, Eq, Structural)]
pub struct AuxiliarySet {
    pub inspector_relay: bool,
    pub inspector_smoke_test: bool,
    pub autostart_registration: bool,
}

impl View for AuxiliarySet {
    type V = Set<Auxiliary>;

    open spec fn view(&self) -> Set<Auxiliary> {
        Set::new(
            |a: Auxiliary|
                match a {
                    Auxiliary::InspectorRelay => self.inspector_relay,
                    Auxiliary::InspectorSmokeTest => self.inspector_smoke_test,
                    Auxiliary::AutostartRegistration => self.autostart_registration,
                },
        )
    }
}

/// The subsystems that a build mode and a platform class select. A debug
/// build selects the inspector relay and the inspector smoke test, a
/// desktop platform selects autostart registration, and nothing else
/// selects anything.
pub open spec fn auxiliaries_for(mode: BuildMode, platform: PlatformClass) -> AuxiliarySet {
    AuxiliarySet {
        inspector_relay: mode == BuildMode::Debug,
        inspector_smoke_test: mode == BuildMode::Debug,
        autostart_registration: platform == PlatformClass::Desktop,
    }
}

/// The consumer that a build mode binds to the logging facade: the console
/// relay in a debug build, the plain sink in a release build.
pub open spec fn consumer_for(mode: BuildMode) -> Consumer {
    match mode {
        BuildMode::Debug => Consumer::ConsoleRelay,
        BuildMode::Release => Consumer::PlainSink,
    }
}

/// The subsystems of `selected` that are still to be initialized once the
/// facade is bound. The inspector relay is not among them: it is installed
/// together with the bind, whose consumer it is.
pub open spec fn deferred(selected: AuxiliarySet) -> AuxiliarySet {
    AuxiliarySet { inspector_relay: false, ..selected }
}

impl AuxiliarySet {
    /// Whether the set holds `item`.
    pub fn contains(&self, item: Auxiliary) -> (present: bool)
        ensures
            present == self@.contains(item),
    {
        match item {
            Auxiliary::InspectorRelay => self.inspector_relay,
            Auxiliary::InspectorSmokeTest => self.inspector_smoke_test,
            Auxiliary::AutostartRegistration => self.autostart_registration,
        }
    }

    /// Whether the set holds no subsystem.
    pub fn is_empty(&self) -> (empty: bool)
        ensures
            empty == (self@ == Set::<Auxiliary>::empty()),
    {
        let empty = !self.inspector_relay && !self.inspector_smoke_test
            && !self.autostart_registration;
        proof {
            if self.inspector_relay {
                assert(self@.contains(Auxiliary::InspectorRelay));
            }
            if self.inspector_smoke_test {
                assert(self@.contains(Auxiliary::InspectorSmokeTest));
            }
            if self.autostart_registration {
                assert(self@.contains(Auxiliary::AutostartRegistration));
            }
            if empty {
                assert(self@ =~= Set::<Auxiliary>::empty());
            }
        }
        empty
    }

    /// The subsystems of the set that are initialized after the bind.
    pub fn after_bind(&self) -> (rest: AuxiliarySet)
        ensures
            rest == deferred(*self),
            rest@ == self@.remove(Auxiliary::InspectorRelay),
    {
        let rest = AuxiliarySet {
            inspector_relay: false,
            inspector_smoke_test: self.inspector_smoke_test,
            autostart_registration: self.autostart_registration,
        };
        assert(rest@ =~= self@.remove(Auxiliary::InspectorRelay));
        rest
    }
}

/// Selects the auxiliary subsystems of a build.
pub fn select_auxiliaries(mode: BuildMode, platform: PlatformClass) -> (selected: AuxiliarySet)
    ensures
        selected == auxiliaries_for(mode, platform),
        selected@.contains(Auxiliary::InspectorRelay) <==> mode == BuildMode::Debug,
        selected@.contains(Auxiliary::InspectorSmokeTest) <==> mode == BuildMode::Debug,
        selected@.contains(Auxiliary::AutostartRegistration) <==> platform
            == PlatformClass::Desktop,
        mode == BuildMode::Release && platform == PlatformClass::Mobile ==> selected@
            == Set::<Auxiliary>::empty(),
{
    let debug = mode == BuildMode::Debug;
    let selected = AuxiliarySet {
        inspector_relay: debug,
        inspector_smoke_test: debug,
        autostart_registration: platform == PlatformClass::Desktop,
    };
    proof {
        if mode == BuildMode::Release && platform == PlatformClass::Mobile {
            assert(selected@ =~= Set::<Auxiliary>::empty());
        }
    }
    selected
}

/// Selects the consumer of the logging facade.
pub fn select_consumer(mode: BuildMode) -> (consumer: Consumer)
    ensures
        consumer == consumer_for(mode),
        forall|platform: PlatformClass|
            (consumer == Consumer::ConsoleRelay) == (#[trigger] auxiliaries_for(
                mode,
                platform,
            )).inspector_relay,
{
    match mode {
        BuildMode::Debug => Consumer::ConsoleRelay,
        BuildMode::Release => Consumer::PlainSink,
    }
}

} // verus!
