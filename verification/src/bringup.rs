//! The bring-up controller: one linear pass from an untouched interface to a
//! supervised one, in which every failure is final.
//!
//! The controller performs nothing itself. It hands out the next [`Action`],
//! the caller performs it and reports what came back as an [`Event`].

use vstd::prelude::*;
use crate::configuration::{
    checked_configuration,
    AddressingMode,
    ConfigError,
    ConfigurationView,
    InterfaceConfiguration,
};
use crate::events::{
    first_missing,
    EventCategory,
    ReadinessSignal,
    SubscriptionRegistry,
};
use crate::probe::{health_check_spec, ProbeRequest, ProbeSummary};

verus! {

/// Seconds the monitor waits for a readiness signal before it gives up.
pub const LIVENESS_WINDOW_SECS: u64 = 5;

/// The step of the driver's work at which a failure arose.
#[derive(Clone, Copy, Debug, PartialEq, Eq, Structural)]
pub enum DriverStage {
    /// Creating the interface and installing its driver.
    Install,
    /// Attaching the driver to the network stack.
    Attach,
    /// The blocking start.
    Start,
    /// The blocking wait for an address.
    WaitForReady,
}

/// Why the supervisor gave up. Each of these ends the process.
#[derive(Clone, Copy, Debug, PartialEq, Eq, Structural)]
pub enum FatalError {
    /// The configuration was refused.
    Config(ConfigError),
    /// The bus refused a subscription to the category.
    Subscription(EventCategory),
    /// The driver reported an error at the stage.
    Driver(DriverStage),
    /// The connectivity probe could not be completed.
    Probe,
    /// No readiness signal arrived within the liveness window.
    LivenessTimeout,
    /// An outcome was reported that the controller was not waiting for.
    UnexpectedEvent,
}

/// Where the bring-up stands.
#[derive(Clone, Copy, Debug, PartialEq, Eq, Structural)]
pub enum BringupState {
    /// Nothing is built; subscriptions are being made.
    Uninitialized,
    /// The configuration is accepted; the driver is being installed.
    Configured,
    /// The driver runs; it is being attached to the network stack.
    DriverStarted,
    /// The blocking start was issued.
    AwaitingLink,
    /// The link is up; the blocking wait for an address was issued.
    AwaitingLease,
    /// An address is held; the connectivity probe runs.
    Ready,
    /// The steady state: waiting for readiness signals, window by window.
    Monitoring,
    /// The terminal state, with its cause.
    Failed(FatalError),
}

/// What the caller has to perform next.
#[derive(Clone, Copy, Debug, PartialEq, Eq)]
pub enum Action {
    /// Subscribe to the category on the event bus.
    Subscribe(EventCategory),
    /// Build the interface configuration.
    BuildConfiguration,
    /// Create the interface from the configuration and install its driver.
    InstallDriver,
    /// Attach the driver to the network stack.
    AttachInterface,
    /// Call the blocking start.
    Start,
    /// Call the blocking wait for an address.
    WaitForReady,
    /// Run the connectivity probe.
    Probe(ProbeRequest),
    /// Wait on the readiness channel for at most this many seconds.
    AwaitSignal { window_secs: u64 },
    /// End the process with a diagnostic that names the error.
    Terminate(FatalError),
}

/// What came back from the action that was performed.
#[derive(Clone, Copy, Debug, PartialEq, Eq)]
pub enum Event {
    Subscribed(EventCategory),
    SubscriptionRefused(EventCategory),
    ConfigurationBuilt,
    ConfigurationRejected(ConfigError),
    DriverInstalled,
    DriverInstallFailed,
    InterfaceAttached,
    InterfaceAttachFailed,
    Started,
    StartFailed,
    ReadyConfirmed,
    ReadyFailed,
    ProbeCompleted(ProbeSummary),
    ProbeFailed,
    SignalReceived(ReadinessSignal),
    WindowElapsed,
}

/// The controller as a mathematical value.
pub struct ControllerView {
    pub state: BringupState,
    pub subscribed: Set<EventCategory>,
}

/// The controller before anything has happened.
pub open spec fn initial() -> ControllerView {
    ControllerView { state: BringupState::Uninitialized, subscribed: Set::empty() }
}

/// The position of a state in the bring-up order; the terminal state comes
/// last.
pub open spec fn rank(state: BringupState) -> nat {
    match state {
        BringupState::Uninitialized => 0,
        BringupState::Configured => 1,
        BringupState::DriverStarted => 2,
        BringupState::AwaitingLink => 3,
        BringupState::AwaitingLease => 4,
        BringupState::Ready => 5,
        BringupState::Monitoring => 6,
        BringupState::Failed(_) => 7,
    }
}

/// The state that a success leads to. Monitoring is steady: a success there
/// leads back to it.
pub open spec fn successor(state: BringupState) -> BringupState {
    match state {
        BringupState::Uninitialized => BringupState::Configured,
        BringupState::Configured => BringupState::DriverStarted,
        BringupState::DriverStarted => BringupState::AwaitingLink,
        BringupState::AwaitingLink => BringupState::AwaitingLease,
        BringupState::AwaitingLease => BringupState::Ready,
        BringupState::Ready => BringupState::Monitoring,
        BringupState::Monitoring => BringupState::Monitoring,
        BringupState::Failed(error) => BringupState::Failed(error),
    }
}

/// The action whose outcome the controller waits for. Each state waits for
/// one; while uninitialized it is the next subscription in the fixed order,
/// and the configuration once every subscription is held.
pub open spec fn pending(view: ControllerView) -> Action {
    match view.state {
        BringupState::Uninitialized => match first_missing(view.subscribed) {
            Some(missing) => Action::Subscribe(missing),
            None => Action::BuildConfiguration,
        },
        BringupState::Configured => Action::InstallDriver,
        BringupState::DriverStarted => Action::AttachInterface,
        BringupState::AwaitingLink => Action::Start,
        BringupState::AwaitingLease => Action::WaitForReady,
        BringupState::Ready => Action::Probe(health_check_spec()),
        BringupState::Monitoring => Action::AwaitSignal { window_secs: LIVENESS_WINDOW_SECS },
        BringupState::Failed(error) => Action::Terminate(error),
    }
}

/// What an event means to a controller that waits for an action's outcome.
pub enum Verdict {
    /// The action succeeded.
    Success,
    /// The bring-up is over, for this cause.
    Failure(FatalError),
}

/// What `event` means while `action` is awaited: the success of that action,
/// its failure, or, being the outcome of some other action, an error of the
/// caller. A subscription is welcome as long as the controller is
/// uninitialized, whichever category it is for and whether or not that
/// category already holds one.
pub open spec fn verdict(action: Action, event: Event) -> Verdict {
    match (action, event) {
        (Action::Subscribe(_), Event::Subscribed(_)) => Verdict::Success,
        (Action::BuildConfiguration, Event::Subscribed(_)) => Verdict::Success,
        (Action::Subscribe(_), Event::SubscriptionRefused(category)) => Verdict::Failure(
            FatalError::Subscription(category),
        ),
        (Action::BuildConfiguration, Event::SubscriptionRefused(category)) => Verdict::Failure(
            FatalError::Subscription(category),
        ),
        (Action::BuildConfiguration, Event::ConfigurationBuilt) => Verdict::Success,
        (Action::BuildConfiguration, Event::ConfigurationRejected(error)) => Verdict::Failure(
            FatalError::Config(error),
        ),
        (Action::InstallDriver, Event::DriverInstalled) => Verdict::Success,
        (Action::InstallDriver, Event::DriverInstallFailed) => Verdict::Failure(
            FatalError::Driver(DriverStage::Install),
        ),
        (Action::AttachInterface, Event::InterfaceAttached) => Verdict::Success,
        (Action::AttachInterface, Event::InterfaceAttachFailed) => Verdict::Failure(
            FatalError::Driver(DriverStage::Attach),
        ),
        (Action::Start, Event::Started) => Verdict::Success,
        (Action::Start, Event::StartFailed) => Verdict::Failure(
            FatalError::Driver(DriverStage::Start),
        ),
        (Action::WaitForReady, Event::ReadyConfirmed) => Verdict::Success,
        (Action::WaitForReady, Event::ReadyFailed) => Verdict::Failure(
            FatalError::Driver(DriverStage::WaitForReady),
        ),
        (Action::Probe(_), Event::ProbeCompleted(_)) => Verdict::Success,
        (Action::Probe(_), Event::ProbeFailed) => Verdict::Failure(FatalError::Probe),
        (Action::AwaitSignal { .. }, Event::SignalReceived(_)) => Verdict::Success,
        (Action::AwaitSignal { .. }, Event::WindowElapsed) => Verdict::Failure(
            FatalError::LivenessTimeout,
        ),
        (Action::Terminate(error), _) => Verdict::Failure(error),
        _ => Verdict::Failure(FatalError::UnexpectedEvent),
    }
}

/// The controller after `event`: a failure is final, a subscription is
/// noted, and any other success leads to the state that follows.
pub open spec fn after(before: ControllerView, event: Event) -> ControllerView {
    match verdict(pending(before), event) {
        Verdict::Failure(error) => ControllerView {
            state: BringupState::Failed(error),
            subscribed: before.subscribed,
        },
        Verdict::Success => match event {
            Event::Subscribed(category) => ControllerView {
                state: before.state,
                subscribed: before.subscribed.insert(category),
            },
            _ => ControllerView { state: successor(before.state), subscribed: before.subscribed },
        },
    }
}

/// The transition function: the controller after `event`, and the action it
/// then waits for.
pub open spec fn next(before: ControllerView, event: Event) -> (ControllerView, Action) {
    (after(before, event), pending(after(before, event)))
}

/// The stage that a diagnostic names for the error.
pub open spec fn stage_name(error: FatalError) -> Seq<char> {
    match error {
        FatalError::Config(_) => "configuration"@,
        FatalError::Subscription(_) => "subscription"@,
        FatalError::Driver(DriverStage::Install) => "driver-install"@,
        FatalError::Driver(DriverStage::Attach) => "driver-attach"@,
        FatalError::Driver(DriverStage::Start) => "start"@,
        FatalError::Driver(DriverStage::WaitForReady) => "wait-for-ready"@,
        FatalError::Probe => "probe"@,
        FatalError::LivenessTimeout => "liveness"@,
        FatalError::UnexpectedEvent => "unexpected-event"@,
    }
}

impl FatalError {
    /// The name of the failing stage, for the diagnostic that ends the
    /// process.
    pub fn stage(&self) -> (name: &'static str)
        ensures
            name@ == stage_name(*self),
    {
        match self {
            FatalError::Config(_) => "configuration",
            FatalError::Subscription(_) => "subscription",
            FatalError::Driver(DriverStage::Install) => "driver-install",
            FatalError::Driver(DriverStage::Attach) => "driver-attach",
            FatalError::Driver(DriverStage::Start) => "start",
            FatalError::Driver(DriverStage::WaitForReady) => "wait-for-ready",
            FatalError::Probe => "probe",
            FatalError::LivenessTimeout => "liveness",
            FatalError::UnexpectedEvent => "unexpected-event",
        }
    }
}

/// The event that reports how checking a configuration ended.
pub open spec fn configuration_event(checked: Result<ConfigurationView, ConfigError>) -> Event {
    match checked {
        Ok(_) => Event::ConfigurationBuilt,
        Err(error) => Event::ConfigurationRejected(error),
    }
}

/// The bring-up controller.
pub struct Controller {
    state: BringupState,
    subscriptions: SubscriptionRegistry,
}

impl View for Controller {
    type V = ControllerView;

    closed spec fn view(&self) -> ControllerView {
        ControllerView { state: self.state, subscribed: self.subscriptions@ }
    }
}

impl Controller {
    /// A controller that has seen nothing yet. It waits for the first
    /// subscription.
    pub fn new() -> (controller: Controller)
        ensures
            controller@ == initial(),
            pending(controller@) == Action::Subscribe(EventCategory::SystemGeneric),
    {
        Controller {
            state: BringupState::Uninitialized,
            subscriptions: SubscriptionRegistry::new(),
        }
    }

    /// The action whose outcome the controller waits for.
    pub fn pending(&self) -> (action: Action)
        ensures
            action == pending(self@),
    {
        match self.state {
            BringupState::Uninitialized => match self.subscriptions.next_missing() {
                Some(missing) => Action::Subscribe(missing),
                None => Action::BuildConfiguration,
            },
            BringupState::Configured => Action::InstallDriver,
            BringupState::DriverStarted => Action::AttachInterface,
            BringupState::AwaitingLink => Action::Start,
            BringupState::AwaitingLease => Action::WaitForReady,
            BringupState::Ready => Action::Probe(ProbeRequest::health_check()),
            BringupState::Monitoring => Action::AwaitSignal { window_secs: LIVENESS_WINDOW_SECS },
            BringupState::Failed(error) => Action::Terminate(error),
        }
    }

    /// Where the bring-up stands.
    pub fn state(&self) -> (state: BringupState)
        ensures
            state == self@.state,
    {
        self.state
    }

    /// Whether the category holds a subscription.
    pub fn is_subscribed(&self, category: EventCategory) -> (held: bool)
        ensures
            held == self@.subscribed.contains(category),
    {
        self.subscriptions.is_subscribed(category)
    }

    fn give_up(&mut self, error: FatalError) -> (action: Action)
        ensures
            final(self)@ == (ControllerView {
                state: BringupState::Failed(error),
                subscribed: old(self)@.subscribed,
            }),
            action == Action::Terminate(error),
    {
        self.state = BringupState::Failed(error);
        Action::Terminate(error)
    }

    fn move_on(&mut self, state: BringupState, action: Action) -> (asked: Action)
        ensures
            final(self)@ == (ControllerView { state, subscribed: old(self)@.subscribed }),
            asked == action,
    {
        self.state = state;
        action
    }

    /// Takes in the outcome of the action performed last and says what to do
    /// next.
    pub fn step(&mut self, event: Event) -> (action: Action)
        ensures
            (final(self)@, action) == next(old(self)@, event),
    {
        match self.state {
            BringupState::Failed(error) => Action::Terminate(error),
            BringupState::Uninitialized => match event {
                Event::Subscribed(category) => {
                    self.subscriptions.record(category);
                    match self.subscriptions.next_missing() {
                        Some(missing) => Action::Subscribe(missing),
                        None => Action::BuildConfiguration,
                    }
                },
                Event::SubscriptionRefused(category) => self.give_up(
                    FatalError::Subscription(category),
                ),
                Event::ConfigurationBuilt => match self.subscriptions.next_missing() {
                    None => self.move_on(BringupState::Configured, Action::InstallDriver),
                    Some(_) => self.give_up(FatalError::UnexpectedEvent),
                },
                Event::ConfigurationRejected(error) => match self.subscriptions.next_missing() {
                    None => self.give_up(FatalError::Config(error)),
                    Some(_) => self.give_up(FatalError::UnexpectedEvent),
                },
                _ => self.give_up(FatalError::UnexpectedEvent),
            },
            BringupState::Configured => match event {
                Event::DriverInstalled => self.move_on(
                    BringupState::DriverStarted,
                    Action::AttachInterface,
                ),
                Event::DriverInstallFailed => self.give_up(
                    FatalError::Driver(DriverStage::Install),
                ),
                _ => self.give_up(FatalError::UnexpectedEvent),
            },
            BringupState::DriverStarted => match event {
                Event::InterfaceAttached => self.move_on(
                    BringupState::AwaitingLink,
                    Action::Start,
                ),
                Event::InterfaceAttachFailed => self.give_up(
                    FatalError::Driver(DriverStage::Attach),
                ),
                _ => self.give_up(FatalError::UnexpectedEvent),
            },
            BringupState::AwaitingLink => match event {
                Event::Started => self.move_on(BringupState::AwaitingLease, Action::WaitForReady),
                Event::StartFailed => self.give_up(FatalError::Driver(DriverStage::Start)),
                _ => self.give_up(FatalError::UnexpectedEvent),
            },
            BringupState::AwaitingLease => match event {
                Event::ReadyConfirmed => self.move_on(
                    BringupState::Ready,
                    Action::Probe(ProbeRequest::health_check()),
                ),
                Event::ReadyFailed => self.give_up(FatalError::Driver(DriverStage::WaitForReady)),
                _ => self.give_up(FatalError::UnexpectedEvent),
            },
            BringupState::Ready => match event {
                Event::ProbeCompleted(_) => self.move_on(
                    BringupState::Monitoring,
                    Action::AwaitSignal { window_secs: LIVENESS_WINDOW_SECS },
                ),
                Event::ProbeFailed => self.give_up(FatalError::Probe),
                _ => self.give_up(FatalError::UnexpectedEvent),
            },
            BringupState::Monitoring => match event {
                Event::SignalReceived(_) => self.move_on(
                    BringupState::Monitoring,
                    Action::AwaitSignal { window_secs: LIVENESS_WINDOW_SECS },
                ),
                Event::WindowElapsed => self.give_up(FatalError::LivenessTimeout),
                _ => self.give_up(FatalError::UnexpectedEvent),
            },
        }
    }

    /// Performs [`Action::BuildConfiguration`]: checks the fields, reports the
    /// outcome to the controller and returns what it asks for next. The
    /// configuration is handed out only where the controller accepted it.
    pub fn configure(
        &mut self,
        identity: &str,
        description: &str,
        mac_override: Option<[u8; 6]>,
        mode: AddressingMode,
        hostname: Option<&str>,
    ) -> (outcome: (Option<InterfaceConfiguration>, Action))
        ensures
            ({
                let checked = checked_configuration(
                    identity@,
                    description@,
                    mac_override,
                    mode,
                    match hostname {
                        Some(h) => Some(h@),
                        None => None,
                    },
                );
                &&& (final(self)@, outcome.1) == next(old(self)@, configuration_event(checked))
                &&& outcome.0 is Some <==> checked is Ok && final(self)@.state
                    == BringupState::Configured
                &&& outcome.0 is Some ==> checked == Ok::<ConfigurationView, ConfigError>(
                    outcome.0->0@,
                )
            }),
    {
        match InterfaceConfiguration::build(identity, description, mac_override, mode, hostname) {
            Ok(configuration) => {
                let action = self.step(Event::ConfigurationBuilt);
                match self.state {
                    BringupState::Configured => (Some(configuration), action),
                    _ => (None, action),
                }
            },
            Err(error) => {
                let action = self.step(Event::ConfigurationRejected(error));
                (None, action)
            },
        }
    }
}

} // verus!
