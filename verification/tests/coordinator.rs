use core_api::shutdown::{Coordinator, CoordinatorState, StartupError, TerminateSource, Trigger};

fn armed(source: TerminateSource) -> Coordinator {
    Coordinator::arm(true, source, true).unwrap()
}

#[test]
fn interrupt_alone_completes_exactly_once() {
    let mut c = armed(TerminateSource::RealTrigger);
    assert!(c.observe(Trigger::Interrupt));
    assert_eq!(c.state, CoordinatorState::Fired);
    // a repeated interrupt after the win is discarded silently
    assert!(!c.observe(Trigger::Interrupt));
    assert_eq!(c.completions, 1);
}

#[test]
fn terminate_alone_completes_exactly_once() {
    let mut c = armed(TerminateSource::RealTrigger);
    assert!(c.observe(Trigger::Terminate));
    assert_eq!(c.state, CoordinatorState::Fired);
    assert!(!c.observe(Trigger::Terminate));
    assert_eq!(c.completions, 1);
}

#[test]
fn both_sources_yield_one_completion() {
    let mut c = armed(TerminateSource::RealTrigger);
    assert!(c.observe(Trigger::Interrupt));
    // the losing branch's firing is not observed as a second completion
    assert!(!c.observe(Trigger::Terminate));
    assert_eq!(c.completions, 1);

    let mut c = armed(TerminateSource::RealTrigger);
    assert!(c.observe(Trigger::Terminate));
    assert!(!c.observe(Trigger::Interrupt));
    assert_eq!(c.completions, 1);
}

#[test]
fn one_interrupt_requests_shutdown() {
    let mut c = armed(TerminateSource::RealTrigger);
    assert!(!c.shutdown_requested());
    assert!(c.observe(Trigger::Interrupt));
    assert!(c.shutdown_requested());
}

#[test]
fn zero_triggers_stay_armed() {
    let c = armed(TerminateSource::RealTrigger);
    assert_eq!(c.state, CoordinatorState::Armed);
    assert!(!c.shutdown_requested());
    assert_eq!(c.completions, 0);
}

#[test]
fn placeholder_source_never_completes() {
    let mut c = armed(TerminateSource::NeverTrigger);
    for _ in 0..3 {
        assert!(!c.observe(Trigger::Terminate));
        assert_eq!(c.state, CoordinatorState::Armed);
    }
    // only the interrupt source can ever resolve the race on such a platform
    assert!(c.observe(Trigger::Interrupt));
    assert!(c.shutdown_requested());
}

#[test]
fn interrupt_registration_failure_is_fatal() {
    assert_eq!(
        Coordinator::arm(false, TerminateSource::RealTrigger, true),
        Err(StartupError::InterruptRegistration)
    );
    assert_eq!(
        Coordinator::arm(false, TerminateSource::NeverTrigger, true),
        Err(StartupError::InterruptRegistration)
    );
}

#[test]
fn terminate_registration_failure_is_fatal() {
    assert_eq!(
        Coordinator::arm(true, TerminateSource::RealTrigger, false),
        Err(StartupError::TerminateRegistration)
    );
}

#[test]
fn placeholder_source_needs_no_registration() {
    let c = Coordinator::arm(true, TerminateSource::NeverTrigger, false).unwrap();
    assert_eq!(c.state, CoordinatorState::Armed);
    assert_eq!(c.terminate_source, TerminateSource::NeverTrigger);
}
