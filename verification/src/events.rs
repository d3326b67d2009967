//! Events of the system bus, and what a subscriber does with each.

use vstd::prelude::*;

verus! {

/// A category of bus events that can be subscribed to.
#[derive(Clone, Copy, Debug, PartialEq, Eq, Structural)]
pub enum EventCategory {
    /// Every event of the system loop, undecoded.
    SystemGeneric,
    /// State changes of the wireless link.
    Wireless,
    /// Address leases gained and lost.
    IpLease,
    /// State changes of the wired link.
    Wired,
}

/// An event as the bus delivers it. The payload stays with the bus: it is
/// valid only while the callback runs and no decision depends on it.
#[derive(Clone, Copy, Debug, PartialEq, Eq, Structural)]
pub enum LifecycleEvent {
    SystemGeneric,
    LinkStateChanged,
    IpLeaseAssigned,
    IpLeaseReleased,
    IpLeaseAssignedSecondary,
    IpV6LeaseAssigned,
}

/// What travels over the readiness channel.
#[derive(Clone, Copy, Debug, PartialEq, Eq, Structural)]
pub enum ReadinessSignal {
    /// A lease was newly acquired.
    IpAssigned,
}

/// What a callback has to do with the event it was handed.
#[derive(Clone, Copy, Debug, PartialEq, Eq, Structural)]
pub enum HandlerOutcome {
    /// Put the signal on the readiness channel; a full or closed channel
    /// drops it silently.
    Enqueue(ReadinessSignal),
    /// Nothing beyond a diagnostic line.
    Diagnostic,
    /// The event belongs to an address family this supervisor does not
    /// serve.
    Unsupported,
}

/// The outcome for each event: only a newly acquired IPv4 lease is signalled,
/// an IPv6 lease is set apart as unsupported, and the rest is diagnostic.
pub open spec fn outcome_of(event: LifecycleEvent) -> HandlerOutcome {
    match event {
        LifecycleEvent::IpLeaseAssigned => HandlerOutcome::Enqueue(ReadinessSignal::IpAssigned),
        LifecycleEvent::IpV6LeaseAssigned => HandlerOutcome::Unsupported,
        _ => HandlerOutcome::Diagnostic,
    }
}

/// Decides what the callback of a subscription does with `event`. It neither
/// blocks nor keeps the event.
pub fn handle_event(event: LifecycleEvent) -> (outcome: HandlerOutcome)
    ensures
        outcome == outcome_of(event),
        outcome is Enqueue <==> event == LifecycleEvent::IpLeaseAssigned,
{
    match event {
        LifecycleEvent::IpLeaseAssigned => HandlerOutcome::Enqueue(ReadinessSignal::IpAssigned),
        LifecycleEvent::IpLeaseAssignedSecondary => HandlerOutcome::Diagnostic,
        LifecycleEvent::IpLeaseReleased => HandlerOutcome::Diagnostic,
        LifecycleEvent::IpV6LeaseAssigned => HandlerOutcome::Unsupported,
        LifecycleEvent::SystemGeneric => HandlerOutcome::Diagnostic,
        LifecycleEvent::LinkStateChanged => HandlerOutcome::Diagnostic,
    }
}

/// The categories that must be subscribed before bring-up starts.
pub open spec fn required_categories() -> Set<EventCategory> {
    set![
        EventCategory::SystemGeneric,
        EventCategory::Wireless,
        EventCategory::IpLease,
        EventCategory::Wired,
    ]
}

/// Whether every required category holds a subscription.
pub open spec fn established(subscribed: Set<EventCategory>) -> bool {
    required_categories().subset_of(subscribed)
}

/// The first required category, in subscription order, that `subscribed`
/// lacks.
pub open spec fn first_missing(subscribed: Set<EventCategory>) -> Option<EventCategory> {
    if !subscribed.contains(EventCategory::SystemGeneric) {
        Some(EventCategory::SystemGeneric)
    } else if !subscribed.contains(EventCategory::Wireless) {
        Some(EventCategory::Wireless)
    } else if !subscribed.contains(EventCategory::IpLease) {
        Some(EventCategory::IpLease)
    } else if !subscribed.contains(EventCategory::Wired) {
        Some(EventCategory::Wired)
    } else {
        None
    }
}

/// Which categories hold a subscription. Subscribing twice to one category
/// is accepted and leaves the registry as it was: the bus then delivers
/// twice, which every consumer tolerates.
#[derive(Clone, Copy, Debug, PartialEq, Eq)]
pub struct SubscriptionRegistry {
    system_generic: bool,
    wireless: bool,
    ip_lease: bool,
    wired: bool,
}

impl View for SubscriptionRegistry {
    type V = Set<EventCategory>;

    closed spec fn view(&self) -> Set<EventCategory> {
        Set::new(
            |category: EventCategory|
                match category {
                    EventCategory::SystemGeneric => self.system_generic,
                    EventCategory::Wireless => self.wireless,
                    EventCategory::IpLease => self.ip_lease,
                    EventCategory::Wired => self.wired,
                },
        )
    }
}

impl SubscriptionRegistry {
    /// A registry without subscriptions.
    pub fn new() -> (registry: SubscriptionRegistry)
        ensures
            registry@ == Set::<EventCategory>::empty(),
    {
        let registry = SubscriptionRegistry {
            system_generic: false,
            wireless: false,
            ip_lease: false,
            wired: false,
        };
        assert(registry@ =~= Set::<EventCategory>::empty());
        registry
    }

    /// Notes that `category` now holds a subscription.
    pub fn record(&mut self, category: EventCategory)
        ensures
            final(self)@ == old(self)@.insert(category),
    {
        match category {
            EventCategory::SystemGeneric => {
                self.system_generic = true;
            },
            EventCategory::Wireless => {
                self.wireless = true;
            },
            EventCategory::IpLease => {
                self.ip_lease = true;
            },
            EventCategory::Wired => {
                self.wired = true;
            },
        }
        assert(self@ =~= old(self)@.insert(category));
    }

    /// Whether `category` holds a subscription.
    pub fn is_subscribed(&self, category: EventCategory) -> (held: bool)
        ensures
            held == self@.contains(category),
    {
        match category {
            EventCategory::SystemGeneric => self.system_generic,
            EventCategory::Wireless => self.wireless,
            EventCategory::IpLease => self.ip_lease,
            EventCategory::Wired => self.wired,
        }
    }

    /// The next category to subscribe to, or `None` once all required ones
    /// are held.
    pub fn next_missing(&self) -> (missing: Option<EventCategory>)
        ensures
            missing == first_missing(self@),
            missing is None <==> established(self@),
            missing is Some ==> !self@.contains(missing->0),
    {
        if !self.system_generic {
            Some(EventCategory::SystemGeneric)
        } else if !self.wireless {
            Some(EventCategory::Wireless)
        } else if !self.ip_lease {
            Some(EventCategory::IpLease)
        } else if !self.wired {
            Some(EventCategory::Wired)
        } else {
            None
        }
    }
}

} // verus!
