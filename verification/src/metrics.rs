//! Debug counters for stem-press ownership decisions and reconnects.
use vstd::prelude::*;

verus! {

/// Who handles a stem press.
#[derive(Debug, Copy, Clone, Eq, PartialEq, Structural)]
pub enum StemOwner {
    Service,
    Device,
}

/// The name of each stem owner.
pub open spec fn stem_owner_text(owner: StemOwner) -> Seq<char> {
    match owner {
        StemOwner::Service => "service"@,
        StemOwner::Device => "device"@,
    }
}

impl StemOwner {
    /// `service` or `device`.
    pub fn as_str(self) -> (s: &'static str)
        ensures
            s@ == stem_owner_text(self),
    {
        match self {
            StemOwner::Service => "service",
            StemOwner::Device => "device",
        }
    }
}

/// Why a reconnect was attempted.
#[derive(Debug, Copy, Clone)]
pub enum ReconnectCategory {
    Warm,
    Backoff,
    Manual,
}

/// The name of each reconnect category.
pub open spec fn category_text(category: ReconnectCategory) -> Seq<char> {
    match category {
        ReconnectCategory::Warm => "warm"@,
        ReconnectCategory::Backoff => "backoff"@,
        ReconnectCategory::Manual => "manual"@,
    }
}

impl ReconnectCategory {
    /// `warm`, `backoff` or `manual`.
    pub fn as_str(self) -> (s: &'static str)
        ensures
            s@ == category_text(self),
    {
        match self {
            ReconnectCategory::Warm => "warm",
            ReconnectCategory::Backoff => "backoff",
            ReconnectCategory::Manual => "manual",
        }
    }
}

/// The counters at one moment.
#[derive(Debug, Copy, Clone)]
pub struct MetricsSnapshot {
    pub service_owner_decisions: u64,
    pub device_owner_decisions: u64,
    pub blocked_stem_commands: u64,
    pub reconnect_attempts: u64,
    pub reconnect_successes: u64,
    pub reconnect_failures: u64,
}

/// Debug counters. Each counts up by one and wraps to 0 after `u64::MAX`.
pub struct DebugMetrics {
    service_owner_decisions: u64,
    device_owner_decisions: u64,
    blocked_stem_commands: u64,
    reconnect_attempts: u64,
    reconnect_successes: u64,
    reconnect_failures: u64,
}

impl View for DebugMetrics {
    type V = MetricsSnapshot;

    closed spec fn view(&self) -> MetricsSnapshot {
        MetricsSnapshot {
            service_owner_decisions: self.service_owner_decisions,
            device_owner_decisions: self.device_owner_decisions,
            blocked_stem_commands: self.blocked_stem_commands,
            reconnect_attempts: self.reconnect_attempts,
            reconnect_successes: self.reconnect_successes,
            reconnect_failures: self.reconnect_failures,
        }
    }
}

/// A counter after one more event: one more, wrapping to 0 after `u64::MAX`.
pub open spec fn bumped(count: u64) -> u64 {
    if count == u64::MAX {
        0
    } else {
        (count + 1) as u64
    }
}

/// All counters at zero.
pub open spec fn zero_snapshot() -> MetricsSnapshot {
    MetricsSnapshot {
        service_owner_decisions: 0,
        device_owner_decisions: 0,
        blocked_stem_commands: 0,
        reconnect_attempts: 0,
        reconnect_successes: 0,
        reconnect_failures: 0,
    }
}

/// The counters after an ownership decision for `owner`.
pub open spec fn after_owner_decision(m: MetricsSnapshot, owner: StemOwner) -> MetricsSnapshot {
    match owner {
        StemOwner::Service => MetricsSnapshot {
            service_owner_decisions: bumped(m.service_owner_decisions),
            ..m
        },
        StemOwner::Device => MetricsSnapshot {
            device_owner_decisions: bumped(m.device_owner_decisions),
            ..m
        },
    }
}

/// The counters after a stem event: a press that was not forwarded counts as
/// blocked.
pub open spec fn after_stem_event(m: MetricsSnapshot, forwarded: bool) -> MetricsSnapshot {
    if forwarded {
        m
    } else {
        MetricsSnapshot { blocked_stem_commands: bumped(m.blocked_stem_commands), ..m }
    }
}

/// The counters after a reconnect attempt.
pub open spec fn after_reconnect_attempt(m: MetricsSnapshot) -> MetricsSnapshot {
    MetricsSnapshot { reconnect_attempts: bumped(m.reconnect_attempts), ..m }
}

/// The counters after the result of a reconnect.
pub open spec fn after_reconnect_result(m: MetricsSnapshot, success: bool) -> MetricsSnapshot {
    if success {
        MetricsSnapshot { reconnect_successes: bumped(m.reconnect_successes), ..m }
    } else {
        MetricsSnapshot { reconnect_failures: bumped(m.reconnect_failures), ..m }
    }
}

/// One counted event, as the `note_*` methods report it.
pub enum MetricsEvent {
    /// `note_owner_decision` for this owner.
    OwnerDecision(StemOwner),
    /// `note_stem_event`, forwarded or not.
    StemEvent(bool),
    /// `note_reconnect_attempt`.
    ReconnectAttempt,
    /// `note_reconnect_result`, successful or not.
    ReconnectResult(bool),
}

/// The counters after one event, as the matching `note_*` method leaves them.
pub open spec fn after_event(m: MetricsSnapshot, e: MetricsEvent) -> MetricsSnapshot {
    match e {
        MetricsEvent::OwnerDecision(owner) => after_owner_decision(m, owner),
        MetricsEvent::StemEvent(forwarded) => after_stem_event(m, forwarded),
        MetricsEvent::ReconnectAttempt => after_reconnect_attempt(m),
        MetricsEvent::ReconnectResult(success) => after_reconnect_result(m, success),
    }
}

/// The counters after the events in order.
pub open spec fn after_events(m: MetricsSnapshot, events: Seq<MetricsEvent>) -> MetricsSnapshot
    decreases events.len(),
{
    if events.len() == 0 {
        m
    } else {
        after_event(after_events(m, events.drop_last()), events.last())
    }
}

/// How many of the events satisfy `is_kind`.
pub open spec fn count_events(events: Seq<MetricsEvent>, is_kind: spec_fn(MetricsEvent) -> bool) -> nat
    decreases events.len(),
{
    if events.len() == 0 {
        0
    } else {
        count_events(events.drop_last(), is_kind) + if is_kind(events.last()) {
            1nat
        } else {
            0nat
        }
    }
}

/// Ownership decisions for the service.
pub open spec fn is_service_decision(e: MetricsEvent) -> bool {
    e matches MetricsEvent::OwnerDecision(StemOwner::Service)
}

/// Ownership decisions for the device.
pub open spec fn is_device_decision(e: MetricsEvent) -> bool {
    e matches MetricsEvent::OwnerDecision(StemOwner::Device)
}

/// Stem events that were not forwarded.
pub open spec fn is_blocked_stem_event(e: MetricsEvent) -> bool {
    e matches MetricsEvent::StemEvent(false)
}

/// Reconnect attempts.
pub open spec fn is_reconnect_attempt(e: MetricsEvent) -> bool {
    e matches MetricsEvent::ReconnectAttempt
}

/// Successful reconnects.
pub open spec fn is_reconnect_success(e: MetricsEvent) -> bool {
    e matches MetricsEvent::ReconnectResult(true)
}

/// Failed reconnects.
pub open spec fn is_reconnect_failure(e: MetricsEvent) -> bool {
    e matches MetricsEvent::ReconnectResult(false)
}

/// The snapshot that counts each kind of event in `events`.
pub open spec fn counted(events: Seq<MetricsEvent>) -> MetricsSnapshot {
    MetricsSnapshot {
        service_owner_decisions: count_events(events, |e: MetricsEvent| is_service_decision(e)) as u64,
        device_owner_decisions: count_events(events, |e: MetricsEvent| is_device_decision(e)) as u64,
        blocked_stem_commands: count_events(events, |e: MetricsEvent| is_blocked_stem_event(e)) as u64,
        reconnect_attempts: count_events(events, |e: MetricsEvent| is_reconnect_attempt(e)) as u64,
        reconnect_successes: count_events(events, |e: MetricsEvent| is_reconnect_success(e)) as u64,
        reconnect_failures: count_events(events, |e: MetricsEvent| is_reconnect_failure(e)) as u64,
    }
}

/// Each kind of event occurs fewer than 2^64 times in `events`.
pub open spec fn counts_fit(events: Seq<MetricsEvent>) -> bool {
    &&& count_events(events, |e: MetricsEvent| is_service_decision(e)) < 0x1_0000_0000_0000_0000
    &&& count_events(events, |e: MetricsEvent| is_device_decision(e)) < 0x1_0000_0000_0000_0000
    &&& count_events(events, |e: MetricsEvent| is_blocked_stem_event(e)) < 0x1_0000_0000_0000_0000
    &&& count_events(events, |e: MetricsEvent| is_reconnect_attempt(e)) < 0x1_0000_0000_0000_0000
    &&& count_events(events, |e: MetricsEvent| is_reconnect_success(e)) < 0x1_0000_0000_0000_0000
    &&& count_events(events, |e: MetricsEvent| is_reconnect_failure(e)) < 0x1_0000_0000_0000_0000
}

/// A prefix has no more events of a kind than the whole.
proof fn lemma_count_prefix(events: Seq<MetricsEvent>, is_kind: spec_fn(MetricsEvent) -> bool)
    requires
        events.len() > 0,
    ensures
        count_events(events.drop_last(), is_kind) <= count_events(events, is_kind),
{
}

/// The counters count every event: after any sequence of `note_*` calls on
/// fresh counters, with fewer than 2^64 events of each kind, the snapshot
/// holds the number of ownership decisions for each owner, of stem presses
/// that were not forwarded, of reconnect attempts, and of successful and of
/// failed reconnects.
pub proof fn lemma_snapshot_counts_events(events: Seq<MetricsEvent>)
    requires
        counts_fit(events),
    ensures
        after_events(zero_snapshot(), events) == counted(events),
    decreases events.len(),
{
    if events.len() > 0 {
        let rest = events.drop_last();
        lemma_count_prefix(events, |e: MetricsEvent| is_service_decision(e));
        lemma_count_prefix(events, |e: MetricsEvent| is_device_decision(e));
        lemma_count_prefix(events, |e: MetricsEvent| is_blocked_stem_event(e));
        lemma_count_prefix(events, |e: MetricsEvent| is_reconnect_attempt(e));
        lemma_count_prefix(events, |e: MetricsEvent| is_reconnect_success(e));
        lemma_count_prefix(events, |e: MetricsEvent| is_reconnect_failure(e));
        lemma_snapshot_counts_events(rest);
    }
}

fn bump(count: u64) -> (r: u64)
    ensures
        r == bumped(count),
{
    if count == u64::MAX {
        0
    } else {
        count + 1
    }
}

impl DebugMetrics {
    /// All counters at zero.
    pub fn new() -> (m: Self)
        ensures
            m@ == zero_snapshot(),
    {
        DebugMetrics {
            service_owner_decisions: 0,
            device_owner_decisions: 0,
            blocked_stem_commands: 0,
            reconnect_attempts: 0,
            reconnect_successes: 0,
            reconnect_failures: 0,
        }
    }

    /// Counts a stem-owner decision for `owner`; the reason is only for logs.
    pub fn note_owner_decision(&mut self, owner: StemOwner, reason: &str)
        ensures
            final(self)@ == after_owner_decision(old(self)@, owner),
    {
        match owner {
            StemOwner::Service => {
                self.service_owner_decisions = bump(self.service_owner_decisions);
            },
            StemOwner::Device => {
                self.device_owner_decisions = bump(self.device_owner_decisions);
            },
        }
    }

    /// Counts a stem event: one that was not forwarded is a blocked command.
    /// The address, owner, reason and press type are only for logs.
    pub fn note_stem_event(
        &mut self,
        address: &str,
        owner: StemOwner,
        forwarded: bool,
        reason: &str,
        press_type: &str,
    )
        ensures
            final(self)@ == after_stem_event(old(self)@, forwarded),
    {
        if !forwarded {
            self.blocked_stem_commands = bump(self.blocked_stem_commands);
        }
    }

    /// Counts a reconnect attempt; the category is only for logs.
    pub fn note_reconnect_attempt(&mut self, category: ReconnectCategory)
        ensures
            final(self)@ == after_reconnect_attempt(old(self)@),
    {
        self.reconnect_attempts = bump(self.reconnect_attempts);
    }

    /// Counts the result of a reconnect; the context is only for logs.
    pub fn note_reconnect_result(&mut self, success: bool, context: &str)
        ensures
            final(self)@ == after_reconnect_result(old(self)@, success),
    {
        if success {
            self.reconnect_successes = bump(self.reconnect_successes);
        } else {
            self.reconnect_failures = bump(self.reconnect_failures);
        }
    }

    /// The counters now.
    pub fn snapshot(&self) -> (s: MetricsSnapshot)
        ensures
            s == self@,
    {
        MetricsSnapshot {
            service_owner_decisions: self.service_owner_decisions,
            device_owner_decisions: self.device_owner_decisions,
            blocked_stem_commands: self.blocked_stem_commands,
            reconnect_attempts: self.reconnect_attempts,
            reconnect_successes: self.reconnect_successes,
            reconnect_failures: self.reconnect_failures,
        }
    }
}

} // verus!
