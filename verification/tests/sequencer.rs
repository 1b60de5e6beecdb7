use std::collections::HashMap;

use garuda_apps_lib::features::{AuxiliarySet, PlatformClass};
use garuda_apps_lib::logging::{
    Consumer, LogSink, LogTargets, LoggingFacade, RotationPolicy, Stage, TimezonePolicy,
};
use garuda_apps_lib::policy::{Override, PolicyVariant, WorkaroundSet};
use garuda_apps_lib::sequencer::{
    Action, AuxiliaryOutcome, BootstrapConfig, BootstrapContext, Event, FatalError, Phase,
    Sequencer,
};
use garuda_apps_lib::signals::{
    BuildMode, DisplayProtocol, GpuVendor, HostObservations, HostSignals, ProductNameRead,
    TargetOs, VirtualizationVendor,
};

fn config(policy: PolicyVariant, platform: PlatformClass) -> BootstrapConfig {
    BootstrapConfig { policy, platform, sink: LogSink::standard() }
}

fn nvidia_wayland_release() -> HostObservations {
    HostObservations {
        target: TargetOs::Linux,
        session_indicator: Some(String::from("wayland-0")),
        gpu_marker_present: true,
        product_name: ProductNameRead::Absent,
        debug_assertions: false,
    }
}

fn virtualbox_x11_debug() -> HostObservations {
    HostObservations {
        target: TargetOs::Linux,
        session_indicator: None,
        gpu_marker_present: false,
        product_name: ProductNameRead::Text(String::from("VirtualBox\n")),
        debug_assertions: true,
    }
}

fn every_event() -> Vec<Event> {
    vec![
        Event::HostObserved(nvidia_wayland_release()),
        Event::OverridesApplied,
        Event::SinkConstructed,
        Event::SinkFailed,
        Event::ConsumerBound,
        Event::FacadeConflict,
        Event::AuxiliariesFinished(AuxiliaryOutcome::AllReady),
        Event::AuxiliariesFinished(AuxiliaryOutcome::SomeFailed),
    ]
}

fn advanced_to(phase: Phase) -> Sequencer {
    let mut sequencer = Sequencer::new(
        config(PolicyVariant::Conditional, PlatformClass::Desktop),
        LoggingFacade::unbound(),
    );
    let events = vec![
        Event::HostObserved(nvidia_wayland_release()),
        Event::OverridesApplied,
        Event::SinkConstructed,
        Event::ConsumerBound,
        Event::AuxiliariesFinished(AuxiliaryOutcome::AllReady),
    ];
    for event in events {
        if sequencer.phase() == phase {
            break;
        }
        sequencer.step(event);
    }
    assert_eq!(sequencer.phase(), phase);
    sequencer
}

#[test]
fn nvidia_wayland_release_startup() {
    let mut sequencer = Sequencer::new(
        config(PolicyVariant::Conditional, PlatformClass::Desktop),
        LoggingFacade::unbound(),
    );
    assert_eq!(sequencer.phase(), Phase::AwaitingObservations);
    assert_eq!(sequencer.context(), None);

    let both = WorkaroundSet { disable_dmabuf_renderer: true, disable_compositing: true };
    assert_eq!(
        sequencer.step(Event::HostObserved(nvidia_wayland_release())),
        Action::ApplyOverrides(both)
    );
    assert_eq!(sequencer.phase(), Phase::ApplyingOverrides);
    assert_eq!(
        sequencer.context(),
        Some(BootstrapContext {
            signals: HostSignals {
                display_protocol: DisplayProtocol::Wayland,
                gpu_vendor: GpuVendor::Nvidia,
                virtualization_vendor: VirtualizationVendor::NoneDetected,
                build_mode: BuildMode::Release,
            },
            overrides: both,
            sink: LogSink::standard(),
        })
    );

    assert_eq!(
        sequencer.step(Event::OverridesApplied),
        Action::ConstructSink(LogSink::standard())
    );
    assert_eq!(sequencer.phase(), Phase::ConstructingSink);
    assert_eq!(sequencer.facade_consumer(), None);

    assert_eq!(sequencer.step(Event::SinkConstructed), Action::BindConsumer(Consumer::PlainSink));
    assert_eq!(sequencer.phase(), Phase::BindingConsumer);
    assert_eq!(sequencer.facade_consumer(), Some(Consumer::PlainSink));

    assert_eq!(
        sequencer.step(Event::ConsumerBound),
        Action::InitializeAuxiliaries(AuxiliarySet {
            inspector_relay: false,
            inspector_smoke_test: false,
            autostart_registration: true,
        })
    );
    assert_eq!(sequencer.phase(), Phase::InitializingAuxiliaries);

    assert_eq!(
        sequencer.step(Event::AuxiliariesFinished(AuxiliaryOutcome::AllReady)),
        Action::HandOff
    );
    assert_eq!(sequencer.phase(), Phase::HandedOff);
    assert_eq!(sequencer.context(), None);
    assert_eq!(
        sequencer.logging_stage(),
        Stage::Bound(LogSink::standard(), Consumer::PlainSink)
    );
}

#[test]
fn virtualbox_x11_debug_startup() {
    let mut sequencer = Sequencer::new(
        config(PolicyVariant::Conditional, PlatformClass::Desktop),
        LoggingFacade::unbound(),
    );
    assert_eq!(
        sequencer.step(Event::HostObserved(virtualbox_x11_debug())),
        Action::ApplyOverrides(WorkaroundSet::empty())
    );
    assert_eq!(
        sequencer.context().map(|context| context.signals),
        Some(HostSignals {
            display_protocol: DisplayProtocol::X11,
            gpu_vendor: GpuVendor::Other,
            virtualization_vendor: VirtualizationVendor::VirtualBox,
            build_mode: BuildMode::Debug,
        })
    );
    assert_eq!(
        sequencer.step(Event::OverridesApplied),
        Action::ConstructSink(LogSink::standard())
    );
    assert_eq!(
        sequencer.step(Event::SinkConstructed),
        Action::BindConsumer(Consumer::ConsoleRelay)
    );
    assert_eq!(sequencer.facade_consumer(), Some(Consumer::ConsoleRelay));
    assert_eq!(
        sequencer.step(Event::ConsumerBound),
        Action::InitializeAuxiliaries(AuxiliarySet {
            inspector_relay: false,
            inspector_smoke_test: true,
            autostart_registration: true,
        })
    );
    assert_eq!(
        sequencer.step(Event::AuxiliariesFinished(AuxiliaryOutcome::AllReady)),
        Action::HandOff
    );
    assert_eq!(
        sequencer.logging_stage(),
        Stage::Bound(LogSink::standard(), Consumer::ConsoleRelay)
    );
}

#[test]
fn overrides_are_in_the_environment_when_sink_construction_starts() {
    let mut environment: HashMap<String, String> = HashMap::new();
    let mut sequencer = Sequencer::new(
        config(PolicyVariant::Conditional, PlatformClass::Desktop),
        LoggingFacade::unbound(),
    );
    let mut action = sequencer.step(Event::HostObserved(nvidia_wayland_release()));
    let mut sink_requests = 0;
    loop {
        let event = match action {
            Action::ApplyOverrides(overrides) => {
                assert_eq!(sequencer.logging_stage(), Stage::Uninitialized);
                assert!(!sequencer.environment_ready());
                for item in overrides.listing() {
                    environment
                        .insert(String::from(item.variable()), String::from(Override::value()));
                }
                Event::OverridesApplied
            }
            Action::ConstructSink(_) => {
                sink_requests += 1;
                assert!(sequencer.environment_ready());
                assert_eq!(
                    environment.get("WEBKIT_DISABLE_DMABUF_RENDERER"),
                    Some(&String::from("1"))
                );
                assert_eq!(
                    environment.get("WEBKIT_DISABLE_COMPOSITING_MODE"),
                    Some(&String::from("1"))
                );
                Event::SinkConstructed
            }
            Action::BindConsumer(_) => Event::ConsumerBound,
            Action::InitializeAuxiliaries(_) => {
                Event::AuxiliariesFinished(AuxiliaryOutcome::AllReady)
            }
            Action::HandOff => break,
            Action::Abort(error) => panic!("{}", error.message()),
        };
        action = sequencer.step(event);
    }
    assert_eq!(sink_requests, 1);
    assert_eq!(sequencer.phase(), Phase::HandedOff);
}

#[test]
fn logging_does_not_begin_before_the_overrides_are_applied() {
    for event in every_event() {
        let mut sequencer = advanced_to(Phase::ApplyingOverrides);
        assert_eq!(sequencer.logging_stage(), Stage::Uninitialized);
        let is_report = matches!(event, Event::OverridesApplied);
        let action = sequencer.step(event);
        if is_report {
            assert_eq!(action, Action::ConstructSink(LogSink::standard()));
            assert!(sequencer.environment_ready());
        } else {
            assert_eq!(action, Action::Abort(FatalError::OutOfSequence));
            assert_eq!(sequencer.logging_stage(), Stage::Uninitialized);
        }
    }
    for event in every_event() {
        let mut sequencer = advanced_to(Phase::AwaitingObservations);
        let action = sequencer.step(event);
        assert!(!matches!(action, Action::ConstructSink(_)));
        assert_eq!(sequencer.logging_stage(), Stage::Uninitialized);
        assert!(!sequencer.environment_ready());
    }
}

#[test]
fn auxiliary_failure_does_not_stop_the_sequence() {
    let mut sequencer = advanced_to(Phase::InitializingAuxiliaries);
    assert_eq!(
        sequencer.step(Event::AuxiliariesFinished(AuxiliaryOutcome::SomeFailed)),
        Action::HandOff
    );
    assert_eq!(sequencer.phase(), Phase::HandedOff);
}

#[test]
fn sink_failure_aborts_before_hand_off() {
    let mut sequencer = advanced_to(Phase::ConstructingSink);
    assert_eq!(
        sequencer.step(Event::SinkFailed),
        Action::Abort(FatalError::SinkConstructionFailed)
    );
    assert_eq!(sequencer.phase(), Phase::Aborted(FatalError::SinkConstructionFailed));
    assert_eq!(sequencer.context(), None);
    for event in every_event() {
        assert_eq!(sequencer.step(event), Action::Abort(FatalError::SinkConstructionFailed));
        assert_eq!(sequencer.phase(), Phase::Aborted(FatalError::SinkConstructionFailed));
    }
}

#[test]
fn facade_conflict_is_fatal() {
    let mut sequencer = advanced_to(Phase::BindingConsumer);
    assert_eq!(
        sequencer.step(Event::FacadeConflict),
        Action::Abort(FatalError::FacadeAlreadyBound)
    );
    assert_eq!(sequencer.phase(), Phase::Aborted(FatalError::FacadeAlreadyBound));
    assert_eq!(
        sequencer.step(Event::AuxiliariesFinished(AuxiliaryOutcome::AllReady)),
        Action::Abort(FatalError::FacadeAlreadyBound)
    );
}

#[test]
fn a_facade_claimed_beforehand_is_fatal_at_the_bind() {
    let mut sequencer = Sequencer::new(
        config(PolicyVariant::Conditional, PlatformClass::Desktop),
        LoggingFacade::claimed_by(Consumer::PlainSink),
    );
    sequencer.step(Event::HostObserved(virtualbox_x11_debug()));
    assert_eq!(
        sequencer.step(Event::OverridesApplied),
        Action::ConstructSink(LogSink::standard())
    );
    assert_eq!(
        sequencer.step(Event::SinkConstructed),
        Action::Abort(FatalError::FacadeAlreadyBound)
    );
    assert_eq!(sequencer.phase(), Phase::Aborted(FatalError::FacadeAlreadyBound));
    assert_eq!(sequencer.facade_consumer(), Some(Consumer::PlainSink));
    assert_eq!(sequencer.logging_stage(), Stage::Constructed(LogSink::standard()));
}

#[test]
fn an_invalid_sink_configuration_is_fatal() {
    let sink = LogSink {
        targets: LogTargets { console: false, stdout: true, log_directory: true },
        max_file_size_bytes: 0,
        rotation_policy: RotationPolicy::KeepOne,
        timezone_policy: TimezonePolicy::Local,
    };
    let mut sequencer = Sequencer::new(
        BootstrapConfig {
            policy: PolicyVariant::Conditional,
            platform: PlatformClass::Desktop,
            sink,
        },
        LoggingFacade::unbound(),
    );
    assert_eq!(
        sequencer.step(Event::HostObserved(nvidia_wayland_release())),
        Action::ApplyOverrides(WorkaroundSet {
            disable_dmabuf_renderer: true,
            disable_compositing: true
        })
    );
    assert_eq!(
        sequencer.step(Event::OverridesApplied),
        Action::Abort(FatalError::InvalidSinkConfiguration)
    );
    assert_eq!(sequencer.phase(), Phase::Aborted(FatalError::InvalidSinkConfiguration));
    assert_eq!(sequencer.logging_stage(), Stage::Uninitialized);
    assert!(sequencer.environment_ready());
}

#[test]
fn an_event_out_of_sequence_aborts() {
    let phases = [
        Phase::AwaitingObservations,
        Phase::ApplyingOverrides,
        Phase::ConstructingSink,
        Phase::BindingConsumer,
        Phase::InitializingAuxiliaries,
    ];
    for phase in phases {
        for event in every_event() {
            let expected = match (phase, &event) {
                (Phase::AwaitingObservations, Event::HostObserved(_)) => None,
                (Phase::ApplyingOverrides, Event::OverridesApplied) => None,
                (Phase::ConstructingSink, Event::SinkConstructed) => None,
                (Phase::ConstructingSink, Event::SinkFailed) => {
                    Some(FatalError::SinkConstructionFailed)
                }
                (Phase::BindingConsumer, Event::ConsumerBound) => None,
                (Phase::BindingConsumer, Event::FacadeConflict) => {
                    Some(FatalError::FacadeAlreadyBound)
                }
                (Phase::InitializingAuxiliaries, Event::AuxiliariesFinished(_)) => None,
                _ => Some(FatalError::OutOfSequence),
            };
            let mut sequencer = advanced_to(phase);
            let action = sequencer.step(event);
            match expected {
                Some(error) => {
                    assert_eq!(action, Action::Abort(error));
                    assert_eq!(sequencer.phase(), Phase::Aborted(error));
                    assert_eq!(sequencer.context(), None);
                }
                None => {
                    assert!(!matches!(action, Action::Abort(_)));
                    assert!(!matches!(sequencer.phase(), Phase::Aborted(_)));
                }
            }
        }
    }
}

#[test]
fn a_second_bind_report_is_an_error() {
    let mut sequencer = advanced_to(Phase::InitializingAuxiliaries);
    assert_eq!(sequencer.step(Event::ConsumerBound), Action::Abort(FatalError::OutOfSequence));
    let mut repeated = advanced_to(Phase::BindingConsumer);
    assert_eq!(repeated.step(Event::SinkConstructed), Action::Abort(FatalError::OutOfSequence));
    assert_eq!(repeated.facade_consumer(), Some(Consumer::PlainSink));
}

#[test]
fn a_handed_off_sequence_stays_handed_off() {
    let mut sequencer = advanced_to(Phase::HandedOff);
    for event in every_event() {
        assert_eq!(sequencer.step(event), Action::HandOff);
        assert_eq!(sequencer.phase(), Phase::HandedOff);
        assert_eq!(sequencer.context(), None);
        assert_eq!(sequencer.facade_consumer(), Some(Consumer::PlainSink));
    }
}

#[test]
fn nothing_is_written_off_linux() {
    let mut sequencer = Sequencer::new(
        config(PolicyVariant::Unconditional, PlatformClass::Desktop),
        LoggingFacade::unbound(),
    );
    let observations = HostObservations {
        target: TargetOs::Other,
        session_indicator: Some(String::from("wayland-0")),
        gpu_marker_present: true,
        product_name: ProductNameRead::Absent,
        debug_assertions: false,
    };
    assert_eq!(
        sequencer.step(Event::HostObserved(observations)),
        Action::ApplyOverrides(WorkaroundSet::empty())
    );
    assert_eq!(
        sequencer.context().map(|context| context.overrides),
        Some(WorkaroundSet { disable_dmabuf_renderer: true, disable_compositing: true })
    );
}

#[test]
fn the_unconditional_policy_writes_the_dmabuf_override_on_linux() {
    let mut sequencer = Sequencer::new(
        config(PolicyVariant::Unconditional, PlatformClass::Mobile),
        LoggingFacade::unbound(),
    );
    assert_eq!(
        sequencer.step(Event::HostObserved(virtualbox_x11_debug())),
        Action::ApplyOverrides(WorkaroundSet {
            disable_dmabuf_renderer: true,
            disable_compositing: false
        })
    );
    sequencer.step(Event::OverridesApplied);
    sequencer.step(Event::SinkConstructed);
    assert_eq!(
        sequencer.step(Event::ConsumerBound),
        Action::InitializeAuxiliaries(AuxiliarySet {
            inspector_relay: false,
            inspector_smoke_test: true,
            autostart_registration: false,
        })
    );
}

#[test]
fn fatal_errors_have_a_diagnostic() {
    assert_eq!(
        FatalError::InvalidSinkConfiguration.message(),
        "the log sink configuration is invalid: the maximal file size must be positive"
    );
    assert_eq!(
        FatalError::SinkConstructionFailed.message(),
        "the log sink could not be constructed"
    );
    assert_eq!(
        FatalError::FacadeAlreadyBound.message(),
        "the logging facade is already bound to a consumer"
    );
    assert_eq!(
        FatalError::OutOfSequence.message(),
        "a startup step was reported out of sequence"
    );
}

fn is_finished(phase: Phase) -> bool {
    matches!(phase, Phase::HandedOff | Phase::Aborted(_))
}

#[test]
fn five_events_finish_every_sequence() {
    let kinds = every_event().len();
    let mut code = 0;
    while code < kinds * kinds * kinds * kinds * kinds {
        let mut sequencer = Sequencer::new(
            config(PolicyVariant::Conditional, PlatformClass::Desktop),
            LoggingFacade::unbound(),
        );
        let mut rest = code;
        let mut handed_off_at = None;
        for step in 0..5 {
            let event = every_event().swap_remove(rest % kinds);
            rest /= kinds;
            let action = sequencer.step(event);
            if action == Action::HandOff && handed_off_at.is_none() {
                handed_off_at = Some(step);
            }
        }
        assert!(is_finished(sequencer.phase()));
        if sequencer.phase() == Phase::HandedOff {
            assert_eq!(handed_off_at, Some(4));
            assert!(sequencer.environment_ready());
            assert_eq!(sequencer.facade_consumer(), Some(Consumer::PlainSink));
        }
        code += 1;
    }
}
