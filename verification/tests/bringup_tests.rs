use netif_bringup::bringup::{
    Action, BringupState, Controller, DriverStage, Event, FatalError, LIVENESS_WINDOW_SECS,
};
use netif_bringup::configuration::{AddressingMode, ConfigError};
use netif_bringup::events::{EventCategory, ReadinessSignal};
use netif_bringup::probe::{ProbeRequest, ProbeSummary};

const MAC: [u8; 6] = [0x79, 0xe4, 0x23, 0xd4, 0x44, 0x12];

const AWAIT: Action = Action::AwaitSignal { window_secs: 5 };

const SIGNAL: Event = Event::SignalReceived(ReadinessSignal::IpAssigned);

/// A controller that holds every subscription and was asked to build the
/// configuration.
fn subscribed() -> Controller {
    let mut controller = Controller::new();
    assert_eq!(controller.pending(), Action::Subscribe(EventCategory::SystemGeneric));
    assert_eq!(
        controller.step(Event::Subscribed(EventCategory::SystemGeneric)),
        Action::Subscribe(EventCategory::Wireless)
    );
    assert_eq!(
        controller.step(Event::Subscribed(EventCategory::Wireless)),
        Action::Subscribe(EventCategory::IpLease)
    );
    assert_eq!(
        controller.step(Event::Subscribed(EventCategory::IpLease)),
        Action::Subscribe(EventCategory::Wired)
    );
    assert_eq!(
        controller.step(Event::Subscribed(EventCategory::Wired)),
        Action::BuildConfiguration
    );
    assert_eq!(controller.state(), BringupState::Uninitialized);
    controller
}

/// A controller driven through the given successes after the subscriptions.
fn driven(events: &[Event]) -> Controller {
    let mut controller = subscribed();
    for event in events {
        controller.step(*event);
    }
    controller
}

fn awaiting_lease() -> Controller {
    driven(&[
        Event::ConfigurationBuilt,
        Event::DriverInstalled,
        Event::InterfaceAttached,
        Event::Started,
    ])
}

fn monitoring() -> Controller {
    let controller = driven(&[
        Event::ConfigurationBuilt,
        Event::DriverInstalled,
        Event::InterfaceAttached,
        Event::Started,
        Event::ReadyConfirmed,
        Event::ProbeCompleted(ProbeSummary { transmitted: 10, received: 10, elapsed_ms: 30 }),
    ]);
    assert_eq!(controller.state(), BringupState::Monitoring);
    controller
}

#[test]
fn the_liveness_window_is_five_seconds() {
    assert_eq!(LIVENESS_WINDOW_SECS, 5);
}

#[test]
fn a_new_controller_is_uninitialized() {
    let controller = Controller::new();
    assert_eq!(controller.state(), BringupState::Uninitialized);
    assert_eq!(controller.pending(), Action::Subscribe(EventCategory::SystemGeneric));
    assert!(!controller.is_subscribed(EventCategory::SystemGeneric));
    assert!(!controller.is_subscribed(EventCategory::IpLease));
}

#[test]
fn end_to_end_bring_up() {
    let mut controller = subscribed();
    assert!(controller.is_subscribed(EventCategory::SystemGeneric));
    assert!(controller.is_subscribed(EventCategory::Wireless));
    assert!(controller.is_subscribed(EventCategory::IpLease));
    assert!(controller.is_subscribed(EventCategory::Wired));

    let (configuration, action) = controller.configure(
        "eth1",
        "desceth1",
        Some(MAC),
        AddressingMode::ClientDhcp,
        Some("a.cum.uz"),
    );
    let configuration = configuration.expect("the configuration is within bounds");
    assert_eq!(configuration.identity(), "eth1");
    assert_eq!(configuration.description(), "desceth1");
    assert_eq!(configuration.mode(), AddressingMode::ClientDhcp);
    assert_eq!(configuration.hostname(), Some("a.cum.uz"));
    assert_eq!(configuration.mac_override(), Some(MAC));
    assert_eq!(action, Action::InstallDriver);
    assert_eq!(controller.state(), BringupState::Configured);

    assert_eq!(controller.step(Event::DriverInstalled), Action::AttachInterface);
    assert_eq!(controller.state(), BringupState::DriverStarted);

    assert_eq!(controller.step(Event::InterfaceAttached), Action::Start);
    assert_eq!(controller.state(), BringupState::AwaitingLink);

    assert_eq!(controller.step(Event::Started), Action::WaitForReady);
    assert_eq!(controller.state(), BringupState::AwaitingLease);

    let action = controller.step(Event::ReadyConfirmed);
    assert_eq!(controller.state(), BringupState::Ready);
    let request = match action {
        Action::Probe(request) => request,
        other => panic!("expected a probe, got {:?}", other),
    };
    assert_eq!(request, ProbeRequest::health_check());
    assert_eq!(request.count, 10);

    let summary = ProbeSummary { transmitted: 10, received: 9, elapsed_ms: 120 };
    assert!(summary.received <= request.count);
    assert_eq!(controller.step(Event::ProbeCompleted(summary)), AWAIT);
    assert_eq!(controller.state(), BringupState::Monitoring);

    // One signal per renewal, each within the window: the monitor never
    // gives up.
    for _ in 0..50 {
        assert_eq!(controller.step(SIGNAL), AWAIT);
        assert_eq!(controller.state(), BringupState::Monitoring);
    }
}

#[test]
fn wait_for_ready_failure_is_fatal_and_never_probes() {
    let mut controller = subscribed();
    let mut asked = vec![
        controller.step(Event::ConfigurationBuilt),
        controller.step(Event::DriverInstalled),
        controller.step(Event::InterfaceAttached),
        controller.step(Event::Started),
    ];
    let last = controller.step(Event::ReadyFailed);
    assert_eq!(last, Action::Terminate(FatalError::Driver(DriverStage::WaitForReady)));
    assert_eq!(
        controller.state(),
        BringupState::Failed(FatalError::Driver(DriverStage::WaitForReady))
    );
    assert_eq!(FatalError::Driver(DriverStage::WaitForReady).stage(), "wait-for-ready");
    asked.push(last);
    // Whatever is reported afterwards, no probe is asked for.
    asked.push(controller.step(Event::ReadyConfirmed));
    asked.push(controller.step(Event::ProbeCompleted(ProbeSummary {
        transmitted: 10,
        received: 10,
        elapsed_ms: 1,
    })));
    asked.push(controller.step(SIGNAL));
    for action in asked {
        assert!(!matches!(action, Action::Probe(_)));
    }
    assert_eq!(
        controller.state(),
        BringupState::Failed(FatalError::Driver(DriverStage::WaitForReady))
    );
}

#[test]
fn the_probe_follows_readiness_only() {
    // Every state but the one that awaits the lease answers the readiness
    // confirmation with a termination, never with a probe.
    let prefixes: Vec<Vec<Event>> = vec![
        vec![],
        vec![Event::ConfigurationBuilt],
        vec![Event::ConfigurationBuilt, Event::DriverInstalled],
        vec![Event::ConfigurationBuilt, Event::DriverInstalled, Event::InterfaceAttached],
    ];
    for prefix in prefixes {
        let mut controller = driven(&prefix);
        assert_eq!(
            controller.step(Event::ReadyConfirmed),
            Action::Terminate(FatalError::UnexpectedEvent)
        );
    }
    let mut controller = awaiting_lease();
    assert_eq!(
        controller.step(Event::ReadyConfirmed),
        Action::Probe(ProbeRequest::health_check())
    );
    // Once ready, a second confirmation does not probe again.
    assert_eq!(
        controller.step(Event::ReadyConfirmed),
        Action::Terminate(FatalError::UnexpectedEvent)
    );
}

#[test]
fn a_probe_with_total_loss_still_completes() {
    let mut controller = awaiting_lease();
    controller.step(Event::ReadyConfirmed);
    let summary = ProbeSummary { transmitted: 10, received: 0, elapsed_ms: 0 };
    assert_eq!(controller.step(Event::ProbeCompleted(summary)), AWAIT);
    assert_eq!(controller.state(), BringupState::Monitoring);
}

#[test]
fn probe_failure_is_fatal() {
    let mut controller = awaiting_lease();
    controller.step(Event::ReadyConfirmed);
    assert_eq!(controller.step(Event::ProbeFailed), Action::Terminate(FatalError::Probe));
    assert_eq!(controller.state(), BringupState::Failed(FatalError::Probe));
}

#[test]
fn silence_is_fatal() {
    let mut controller = monitoring();
    assert_eq!(
        controller.step(Event::WindowElapsed),
        Action::Terminate(FatalError::LivenessTimeout)
    );
    assert_eq!(controller.state(), BringupState::Failed(FatalError::LivenessTimeout));
    // A late signal does not revive the supervision.
    assert_eq!(controller.step(SIGNAL), Action::Terminate(FatalError::LivenessTimeout));
    assert_eq!(controller.state(), BringupState::Failed(FatalError::LivenessTimeout));
}

#[test]
fn silence_after_many_signals_is_still_fatal() {
    let mut controller = monitoring();
    for _ in 0..7 {
        assert_eq!(controller.step(SIGNAL), AWAIT);
    }
    assert_eq!(
        controller.step(Event::WindowElapsed),
        Action::Terminate(FatalError::LivenessTimeout)
    );
}

#[test]
fn duplicate_signals_are_tolerated() {
    let mut controller = monitoring();
    for _ in 0..1000 {
        assert_eq!(controller.step(SIGNAL), AWAIT);
        assert_eq!(controller.state(), BringupState::Monitoring);
    }
}

#[test]
fn subscription_refusal_is_fatal() {
    let mut controller = Controller::new();
    controller.step(Event::Subscribed(EventCategory::SystemGeneric));
    assert_eq!(
        controller.step(Event::SubscriptionRefused(EventCategory::Wireless)),
        Action::Terminate(FatalError::Subscription(EventCategory::Wireless))
    );
    assert_eq!(
        controller.state(),
        BringupState::Failed(FatalError::Subscription(EventCategory::Wireless))
    );
    // No retry: a later success changes nothing.
    assert_eq!(
        controller.step(Event::Subscribed(EventCategory::Wireless)),
        Action::Terminate(FatalError::Subscription(EventCategory::Wireless))
    );
}

#[test]
fn a_repeated_subscription_is_accepted() {
    let mut controller = Controller::new();
    assert_eq!(
        controller.step(Event::Subscribed(EventCategory::SystemGeneric)),
        Action::Subscribe(EventCategory::Wireless)
    );
    assert_eq!(
        controller.step(Event::Subscribed(EventCategory::SystemGeneric)),
        Action::Subscribe(EventCategory::Wireless)
    );
    assert_eq!(controller.state(), BringupState::Uninitialized);
}

#[test]
fn subscriptions_in_another_order_are_completed() {
    let mut controller = Controller::new();
    assert_eq!(
        controller.step(Event::Subscribed(EventCategory::Wired)),
        Action::Subscribe(EventCategory::SystemGeneric)
    );
    assert_eq!(
        controller.step(Event::Subscribed(EventCategory::IpLease)),
        Action::Subscribe(EventCategory::SystemGeneric)
    );
    assert_eq!(
        controller.step(Event::Subscribed(EventCategory::SystemGeneric)),
        Action::Subscribe(EventCategory::Wireless)
    );
    assert_eq!(
        controller.step(Event::Subscribed(EventCategory::Wireless)),
        Action::BuildConfiguration
    );
}

#[test]
fn a_configuration_before_the_subscriptions_is_refused() {
    let mut controller = Controller::new();
    controller.step(Event::Subscribed(EventCategory::SystemGeneric));
    controller.step(Event::Subscribed(EventCategory::Wireless));
    controller.step(Event::Subscribed(EventCategory::Wired));
    assert_eq!(
        controller.step(Event::ConfigurationBuilt),
        Action::Terminate(FatalError::UnexpectedEvent)
    );
    assert_eq!(controller.state(), BringupState::Failed(FatalError::UnexpectedEvent));
}

#[test]
fn configure_before_the_subscriptions_hands_out_nothing() {
    let mut controller = Controller::new();
    let (configuration, action) =
        controller.configure("eth1", "desceth1", None, AddressingMode::ClientDhcp, None);
    assert!(configuration.is_none());
    assert_eq!(action, Action::Terminate(FatalError::UnexpectedEvent));
}

#[test]
fn a_rejection_before_the_subscriptions_is_out_of_order() {
    let mut controller = Controller::new();
    let (configuration, action) = controller.configure(
        "eth1",
        "description",
        None,
        AddressingMode::ClientDhcp,
        None,
    );
    assert!(configuration.is_none());
    assert_eq!(action, Action::Terminate(FatalError::UnexpectedEvent));
    let mut controller = Controller::new();
    assert_eq!(
        controller.step(Event::ConfigurationRejected(ConfigError::HostnameTooLong)),
        Action::Terminate(FatalError::UnexpectedEvent)
    );
}

#[test]
fn a_rejected_configuration_is_fatal() {
    let mut controller = subscribed();
    let (configuration, action) = controller.configure(
        "eth1",
        "description",
        Some(MAC),
        AddressingMode::ClientDhcp,
        Some("a.cum.uz"),
    );
    assert!(configuration.is_none());
    assert_eq!(
        action,
        Action::Terminate(FatalError::Config(ConfigError::DescriptionTooLong))
    );
    assert_eq!(
        controller.state(),
        BringupState::Failed(FatalError::Config(ConfigError::DescriptionTooLong))
    );
    // No hardware action follows.
    assert_eq!(
        controller.step(Event::DriverInstalled),
        Action::Terminate(FatalError::Config(ConfigError::DescriptionTooLong))
    );
}

#[test]
fn each_configuration_error_is_reported() {
    let long = "x".repeat(64);
    let mut controller = subscribed();
    let (_, action) =
        controller.configure(&long, "eth", None, AddressingMode::ClientDhcp, None);
    assert_eq!(action, Action::Terminate(FatalError::Config(ConfigError::IdentityTooLong)));
    let mut controller = subscribed();
    let (_, action) =
        controller.configure("eth1", "eth", None, AddressingMode::ClientDhcp, Some(&long));
    assert_eq!(action, Action::Terminate(FatalError::Config(ConfigError::HostnameTooLong)));
    let mut controller = subscribed();
    assert_eq!(
        controller.step(Event::ConfigurationRejected(ConfigError::IdentityTooLong)),
        Action::Terminate(FatalError::Config(ConfigError::IdentityTooLong))
    );
}

#[test]
fn driver_failures_name_their_stage() {
    let mut controller = driven(&[Event::ConfigurationBuilt]);
    assert_eq!(
        controller.step(Event::DriverInstallFailed),
        Action::Terminate(FatalError::Driver(DriverStage::Install))
    );
    let mut controller = driven(&[Event::ConfigurationBuilt, Event::DriverInstalled]);
    assert_eq!(
        controller.step(Event::InterfaceAttachFailed),
        Action::Terminate(FatalError::Driver(DriverStage::Attach))
    );
    let mut controller = driven(&[
        Event::ConfigurationBuilt,
        Event::DriverInstalled,
        Event::InterfaceAttached,
    ]);
    assert_eq!(
        controller.step(Event::StartFailed),
        Action::Terminate(FatalError::Driver(DriverStage::Start))
    );
    assert_eq!(controller.state(), BringupState::Failed(FatalError::Driver(DriverStage::Start)));
}

#[test]
fn stage_names() {
    assert_eq!(FatalError::Config(ConfigError::IdentityTooLong).stage(), "configuration");
    assert_eq!(FatalError::Subscription(EventCategory::IpLease).stage(), "subscription");
    assert_eq!(FatalError::Driver(DriverStage::Install).stage(), "driver-install");
    assert_eq!(FatalError::Driver(DriverStage::Attach).stage(), "driver-attach");
    assert_eq!(FatalError::Driver(DriverStage::Start).stage(), "start");
    assert_eq!(FatalError::Driver(DriverStage::WaitForReady).stage(), "wait-for-ready");
    assert_eq!(FatalError::Probe.stage(), "probe");
    assert_eq!(FatalError::LivenessTimeout.stage(), "liveness");
    assert_eq!(FatalError::UnexpectedEvent.stage(), "unexpected-event");
}

#[test]
fn an_outcome_nobody_waited_for_is_fatal() {
    let mut controller = driven(&[Event::ConfigurationBuilt]);
    assert_eq!(controller.step(Event::Started), Action::Terminate(FatalError::UnexpectedEvent));
    let mut controller = monitoring();
    assert_eq!(
        controller.step(Event::ReadyConfirmed),
        Action::Terminate(FatalError::UnexpectedEvent)
    );
    let mut controller = subscribed();
    assert_eq!(controller.step(SIGNAL), Action::Terminate(FatalError::UnexpectedEvent));
    let mut controller = awaiting_lease();
    assert_eq!(
        controller.step(Event::WindowElapsed),
        Action::Terminate(FatalError::UnexpectedEvent)
    );
}

#[test]
fn each_state_waits_for_one_action() {
    let mut controller = subscribed();
    assert_eq!(controller.pending(), Action::BuildConfiguration);
    let expected = [
        (Event::ConfigurationBuilt, Action::InstallDriver),
        (Event::DriverInstalled, Action::AttachInterface),
        (Event::InterfaceAttached, Action::Start),
        (Event::Started, Action::WaitForReady),
        (Event::ReadyConfirmed, Action::Probe(ProbeRequest::health_check())),
        (
            Event::ProbeCompleted(ProbeSummary { transmitted: 10, received: 8, elapsed_ms: 77 }),
            AWAIT,
        ),
        (SIGNAL, AWAIT),
        (Event::WindowElapsed, Action::Terminate(FatalError::LivenessTimeout)),
    ];
    for (event, action) in expected {
        assert_eq!(controller.step(event), action);
        assert_eq!(controller.pending(), action);
    }
}

#[test]
fn no_state_is_skipped() {
    let mut controller = subscribed();
    let expected = [
        (Event::ConfigurationBuilt, BringupState::Configured),
        (Event::DriverInstalled, BringupState::DriverStarted),
        (Event::InterfaceAttached, BringupState::AwaitingLink),
        (Event::Started, BringupState::AwaitingLease),
        (Event::ReadyConfirmed, BringupState::Ready),
        (
            Event::ProbeCompleted(ProbeSummary { transmitted: 10, received: 10, elapsed_ms: 9 }),
            BringupState::Monitoring,
        ),
    ];
    for (event, state) in expected {
        controller.step(event);
        assert_eq!(controller.state(), state);
    }
}
