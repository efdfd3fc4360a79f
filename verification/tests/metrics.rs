use kairpods_service::metrics::{DebugMetrics, ReconnectCategory, StemOwner};

#[test]
fn names_of_owners_and_categories() {
    assert_eq!(StemOwner::Service.as_str(), "service");
    assert_eq!(StemOwner::Device.as_str(), "device");
    assert_eq!(ReconnectCategory::Warm.as_str(), "warm");
    assert_eq!(ReconnectCategory::Backoff.as_str(), "backoff");
    assert_eq!(ReconnectCategory::Manual.as_str(), "manual");
}

#[test]
fn counters_start_at_zero_and_count_each_event() {
    let mut m = DebugMetrics::new();
    let s = m.snapshot();
    assert_eq!(s.service_owner_decisions, 0);
    assert_eq!(s.device_owner_decisions, 0);
    assert_eq!(s.blocked_stem_commands, 0);
    assert_eq!(s.reconnect_attempts, 0);
    assert_eq!(s.reconnect_successes, 0);
    assert_eq!(s.reconnect_failures, 0);

    m.note_owner_decision(StemOwner::Service, "phone idle");
    m.note_owner_decision(StemOwner::Service, "phone idle");
    m.note_owner_decision(StemOwner::Device, "remote owner");
    m.note_stem_event("AA:BB:CC:DD:EE:FF", StemOwner::Device, false, "blocked", "single");
    m.note_stem_event("AA:BB:CC:DD:EE:FF", StemOwner::Service, true, "ok", "double");
    m.note_reconnect_attempt(ReconnectCategory::Backoff);
    m.note_reconnect_result(true, "ok");
    m.note_reconnect_result(false, "timeout");
    m.note_reconnect_result(false, "timeout");

    let s = m.snapshot();
    assert_eq!(s.service_owner_decisions, 2);
    assert_eq!(s.device_owner_decisions, 1);
    assert_eq!(s.blocked_stem_commands, 1);
    assert_eq!(s.reconnect_attempts, 1);
    assert_eq!(s.reconnect_successes, 1);
    assert_eq!(s.reconnect_failures, 2);
}

#[test]
fn snapshot_counts_a_mixed_sequence() {
    let mut m = DebugMetrics::new();
    for i in 0..10u32 {
        m.note_owner_decision(if i % 3 == 0 { StemOwner::Device } else { StemOwner::Service }, "r");
        m.note_stem_event("addr", StemOwner::Service, i % 2 == 0, "r", "press");
        if i % 5 == 0 {
            m.note_reconnect_attempt(ReconnectCategory::Warm);
            m.note_reconnect_result(i == 0, "c");
        }
    }
    let s = m.snapshot();
    assert_eq!(s.device_owner_decisions, 4);
    assert_eq!(s.service_owner_decisions, 6);
    assert_eq!(s.blocked_stem_commands, 5);
    assert_eq!(s.reconnect_attempts, 2);
    assert_eq!(s.reconnect_successes, 1);
    assert_eq!(s.reconnect_failures, 1);
}
