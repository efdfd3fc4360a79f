//! Media control: which MPRIS players to pause and later resume, the short-lived
//! cache of playing players, and the observed owner of media control.
use crate::bus_names::{
    any_bridge_player, any_local_player, is_bridge_player_name, is_kdeconnect_bus_name, is_local_player_name,
    is_mpris_bus_name, same_text, scan_players, BusFailure,
};
use vstd::prelude::*;

verus! {

/// How long a listing of playing players may be served from the cache, in
/// nanoseconds (300 ms).
pub const PLAYING_PLAYERS_CACHE_TTL_NS: u64 = 300_000_000;

/// Who was last observed to own media control.
#[derive(Clone, Copy, Debug, PartialEq, Eq, Structural)]
pub enum ControlOwner {
    Linux,
    Remote,
    Unknown,
}

/// The name of each owner.
pub open spec fn owner_text(owner: ControlOwner) -> Seq<char> {
    match owner {
        ControlOwner::Linux => "linux"@,
        ControlOwner::Remote => "remote"@,
        ControlOwner::Unknown => "unknown"@,
    }
}

impl ControlOwner {
    /// The owner's name: `linux`, `remote` or `unknown`.
    pub fn as_str(self) -> (s: &'static str)
        ensures
            s@ == owner_text(self),
    {
        match self {
            ControlOwner::Linux => "linux",
            ControlOwner::Remote => "remote",
            ControlOwner::Unknown => "unknown",
        }
    }
}

/// What was recorded when the owner last changed. The confidence is in
/// hundredths (90 stands for 0.9).
#[derive(Debug)]
pub struct ControlOwnerDetails {
    pub reason: String,
    pub observed_at_ms: u64,
    pub owner_since_ms: u64,
    pub last_transition_ms: u64,
    pub confidence_percent: u8,
}

/// `ControlOwnerDetails` with its reason as text.
pub struct ControlOwnerDetailsView {
    pub reason: Seq<char>,
    pub observed_at_ms: u64,
    pub owner_since_ms: u64,
    pub last_transition_ms: u64,
    pub confidence_percent: u8,
}

impl View for ControlOwnerDetails {
    type V = ControlOwnerDetailsView;

    open spec fn view(&self) -> ControlOwnerDetailsView {
        ControlOwnerDetailsView {
            reason: self.reason@,
            observed_at_ms: self.observed_at_ms,
            owner_since_ms: self.owner_since_ms,
            last_transition_ms: self.last_transition_ms,
            confidence_percent: self.confidence_percent,
        }
    }
}

impl Clone for ControlOwnerDetails {
    fn clone(&self) -> (c: Self)
        ensures
            c@ == self@,
    {
        ControlOwnerDetails {
            reason: self.reason.clone(),
            observed_at_ms: self.observed_at_ms,
            owner_since_ms: self.owner_since_ms,
            last_transition_ms: self.last_transition_ms,
            confidence_percent: self.confidence_percent,
        }
    }
}

/// The observed owner and the details of its last change.
#[derive(Debug)]
pub struct ControlOwnerState {
    pub owner: ControlOwner,
    pub details: Option<ControlOwnerDetails>,
}

/// `ControlOwnerState` with its details viewed.
pub struct ControlOwnerStateView {
    pub owner: ControlOwner,
    pub details: Option<ControlOwnerDetailsView>,
}

impl View for ControlOwnerState {
    type V = ControlOwnerStateView;

    open spec fn view(&self) -> ControlOwnerStateView {
        ControlOwnerStateView {
            owner: self.owner,
            details: match self.details {
                Some(d) => Some(d@),
                None => None,
            },
        }
    }
}

/// The state after reporting `owner` at time `now`: unchanged if `owner` is
/// already the owner, else the new owner with details stamped `now`.
pub open spec fn updated_owner_state(
    old: ControlOwnerStateView,
    owner: ControlOwner,
    reason: Seq<char>,
    confidence_percent: u8,
    now: u64,
) -> ControlOwnerStateView {
    if old.owner == owner {
        old
    } else {
        ControlOwnerStateView {
            owner,
            details: Some(
                ControlOwnerDetailsView {
                    reason,
                    observed_at_ms: now,
                    owner_since_ms: now,
                    last_transition_ms: now,
                    confidence_percent,
                },
            ),
        }
    }
}

/// The time at which the details were recorded (0 when there are none).
pub open spec fn stamp_of(s: ControlOwnerStateView) -> u64 {
    match s.details {
        Some(d) => d.observed_at_ms,
        None => 0,
    }
}

impl ControlOwnerState {
    /// No owner observed yet.
    pub fn new() -> (s: Self)
        ensures
            s.owner == ControlOwner::Unknown,
            s.details is None,
    {
        ControlOwnerState { owner: ControlOwner::Unknown, details: None }
    }
}

/// Milliseconds since the Unix epoch by the system clock, 0 if the clock is
/// before the epoch. Calls `std::time::SystemTime::now`; nothing is promised
/// of the value, which is the time.
#[verifier::external_body]
pub fn now_ms() -> u64 {
    std::time::SystemTime::now().duration_since(std::time::UNIX_EPOCH).map_or(
        0,
        |d| d.as_millis() as u64,
    )
}

/// Records `owner` as observed at `now`; returns whether the owner changed.
pub fn update_control_owner_at(
    state: &mut ControlOwnerState,
    owner: ControlOwner,
    reason: String,
    confidence_percent: u8,
    now: u64,
) -> (changed: bool)
    ensures
        changed == (old(state).owner != owner),
        final(state)@ == updated_owner_state(old(state)@, owner, reason@, confidence_percent, now),
{
    if state.owner == owner {
        return false;
    }
    state.owner = owner;
    state.details = Some(
        ControlOwnerDetails {
            reason,
            observed_at_ms: now,
            owner_since_ms: now,
            last_transition_ms: now,
            confidence_percent,
        },
    );
    true
}

/// Records `owner` as observed now, by the system clock; returns whether the
/// owner changed. When it did, the three timestamps are the same clock reading.
pub fn update_control_owner(
    state: &mut ControlOwnerState,
    owner: ControlOwner,
    reason: String,
    confidence_percent: u8,
) -> (changed: bool)
    ensures
        changed == (old(state).owner != owner),
        final(state)@ == updated_owner_state(
            old(state)@,
            owner,
            reason@,
            confidence_percent,
            stamp_of(final(state)@),
        ),
{
    let now: u64 = now_ms();
    update_control_owner_at(state, owner, reason, confidence_percent, now)
}


/// The owner that a listing of the session bus shows: any local MPRIS player
/// means Linux, only KDE Connect bridges mean the remote device, and no player
/// or no listing means unknown.
pub open spec fn observed_owner(bus_names: Result<Vec<String>, BusFailure>) -> ControlOwner {
    match bus_names {
        Ok(names) => if any_local_player(names@) {
            ControlOwner::Linux
        } else if any_bridge_player(names@) {
            ControlOwner::Remote
        } else {
            ControlOwner::Unknown
        },
        Err(_) => ControlOwner::Unknown,
    }
}

/// The reason recorded with `observed_owner`: the caller's reason, a colon,
/// and what was seen.
pub open spec fn observed_reason(reason: Seq<char>, bus_names: Result<Vec<String>, BusFailure>) -> Seq<
    char,
> {
    reason + match bus_names {
        Err(BusFailure::SessionBus(_)) => ": session bus unavailable"@,
        Err(BusFailure::DbusProxy(e)) => ": dbus proxy failed: "@ + e@,
        Err(BusFailure::ListNames(e)) => ": list_names failed: "@ + e@,
        Ok(names) => if any_local_player(names@) {
            ": local mpris players present"@
        } else if any_bridge_player(names@) {
            ": only kdeconnect mpris players present"@
        } else {
            ": no mpris players detected"@
        },
    }
}

/// The confidence recorded with `observed_owner`, in hundredths.
pub open spec fn observed_confidence(bus_names: Result<Vec<String>, BusFailure>) -> u8 {
    match bus_names {
        Ok(names) => if any_local_player(names@) {
            90
        } else if any_bridge_player(names@) {
            75
        } else {
            30
        },
        Err(_) => 20,
    }
}

/// What a listing of the session bus (or its failure) shows of the owner:
/// the owner, the reason to record, and the confidence in hundredths.
pub fn observe_control_owner(reason: &str, bus_names: &Result<Vec<String>, BusFailure>) -> (r: (
    ControlOwner,
    String,
    u8,
))
    ensures
        r.0 == observed_owner(*bus_names),
        r.1@ == observed_reason(reason@, *bus_names),
        r.2 == observed_confidence(*bus_names),
        bus_names matches Ok(names) ==> ((r.0 == ControlOwner::Linux) <==> exists|i: int|
            0 <= i < names@.len() && #[trigger] is_local_player_name(names@[i]@)),
{
    proof {
        if let Ok(names) = bus_names {
            lemma_observation_by_any_name(reason@, *names);
        }
    }
    let mut text = String::from_str(reason);
    match bus_names {
        Err(BusFailure::SessionBus(_)) => {
            text.append(": session bus unavailable");
            (ControlOwner::Unknown, text, 20)
        },
        Err(BusFailure::DbusProxy(e)) => {
            text.append(": dbus proxy failed: ");
            text.append(e.as_str());
            (ControlOwner::Unknown, text, 20)
        },
        Err(BusFailure::ListNames(e)) => {
            text.append(": list_names failed: ");
            text.append(e.as_str());
            (ControlOwner::Unknown, text, 20)
        },
        Ok(names) => {
            let (has_local, has_bridge) = scan_players(names);
            if has_local {
                text.append(": local mpris players present");
                (ControlOwner::Linux, text, 90)
            } else if has_bridge {
                text.append(": only kdeconnect mpris players present");
                (ControlOwner::Remote, text, 75)
            } else {
                text.append(": no mpris players detected");
                (ControlOwner::Unknown, text, 30)
            }
        },
    }
}

/// A listing of playing players and when it was taken, in nanoseconds of a
/// monotonic clock.
#[derive(Debug)]
pub struct PlayingPlayersCache {
    pub updated_at_ns: u64,
    pub players: Vec<String>,
}

/// The process-wide media-control state.
#[derive(Debug)]
pub struct MediaControlState {
    /// Whether automatic play/pause is on.
    pub enabled: bool,
    /// The players that were paused by us, to be resumed.
    pub paused_players: Vec<String>,
    /// The last non-empty listing of playing players.
    pub playing_players_cache: Option<PlayingPlayersCache>,
    /// The observed owner of media control.
    pub control: ControlOwnerState,
}

impl MediaControlState {
    /// Disabled, nothing paused, nothing cached, owner unknown.
    pub fn new() -> (s: Self)
        ensures
            !s.enabled,
            s.paused_players@.len() == 0,
            s.playing_players_cache is None,
            s.control.owner == ControlOwner::Unknown,
            s.control.details is None,
    {
        MediaControlState {
            enabled: false,
            paused_players: Vec::new(),
            playing_players_cache: None,
            control: ControlOwnerState::new(),
        }
    }
}

/// The name of the observed owner of media control.
pub fn control_owner(state: &MediaControlState) -> (s: &'static str)
    ensures
        s@ == owner_text(state.control.owner),
{
    state.control.owner.as_str()
}

/// A copy of the details of the last change of owner, if there was one.
pub fn control_owner_details(state: &MediaControlState) -> (d: Option<ControlOwnerDetails>)
    ensures
        match state.control.details {
            Some(x) => d is Some && d->0@ == x@,
            None => d is None,
        },
{
    match &state.control.details {
        Some(details) => Some(details.clone()),
        None => None,
    }
}

/// Records the owner that a listing of the session bus shows, stamped with the
/// system clock; returns whether the owner changed.
pub fn refresh_control_owner(
    state: &mut MediaControlState,
    reason: &str,
    bus_names: &Result<Vec<String>, BusFailure>,
) -> (changed: bool)
    ensures
        changed == (old(state).control.owner != observed_owner(*bus_names)),
        final(state).control@ == updated_owner_state(
            old(state).control@,
            observed_owner(*bus_names),
            observed_reason(reason@, *bus_names),
            observed_confidence(*bus_names),
            stamp_of(final(state).control@),
        ),
        final(state).enabled == old(state).enabled,
        final(state).paused_players@ == old(state).paused_players@,
        final(state).playing_players_cache == old(state).playing_players_cache,
{
    let (owner, text, confidence) = observe_control_owner(reason, bus_names);
    update_control_owner(&mut state.control, owner, text, confidence)
}

/// Turns automatic play/pause on or off.
pub fn set_enabled(state: &mut MediaControlState, enabled: bool)
    ensures
        final(state).enabled == enabled,
        final(state).paused_players@ == old(state).paused_players@,
        final(state).playing_players_cache == old(state).playing_players_cache,
        final(state).control@ == old(state).control@,
{
    state.enabled = enabled;
}

/// Whether automatic play/pause is on.
pub fn is_enabled(state: &MediaControlState) -> (b: bool)
    ensures
        b == state.enabled,
{
    state.enabled
}


/// The players whose pause command succeeded (`paused[i]` for `playing[i]`),
/// in their order.
pub open spec fn successfully_paused(playing: Seq<String>, paused: Seq<bool>) -> Seq<String>
    decreases playing.len(),
{
    if playing.len() == 0 {
        Seq::empty()
    } else {
        let rest = successfully_paused(playing.drop_last(), paused);
        if paused[playing.len() - 1] {
            rest.push(playing.last())
        } else {
            rest
        }
    }
}

/// The players to resume: those we paused, when automatic play/pause is on
/// and we paused any.
pub open spec fn resume_list(state: MediaControlState) -> Option<Seq<String>> {
    if state.enabled && state.paused_players@.len() > 0 {
        Some(state.paused_players@)
    } else {
        None
    }
}

/// The players that a play command should resume, or `None` when automatic
/// play/pause is off or we paused nothing.
pub fn players_to_resume(state: &MediaControlState) -> (r: Option<Vec<String>>)
    ensures
        match r {
            Some(v) => resume_list(*state) == Some(v@),
            None => resume_list(*state) is None,
        },
{
    if !state.enabled || state.paused_players.len() == 0 {
        return None;
    }
    let players = state.paused_players.clone();
    assert(players@ =~= state.paused_players@);
    Some(players)
}

/// Forgets the paused players once they have been resumed.
pub fn finish_resume(state: &mut MediaControlState)
    ensures
        final(state).paused_players@.len() == 0,
        final(state).enabled == old(state).enabled,
        final(state).playing_players_cache == old(state).playing_players_cache,
        final(state).control@ == old(state).control@,
{
    state.paused_players = Vec::new();
}

/// Stores, for a later resume, the players whose pause command succeeded
/// (`paused[i]` tells of `playing[i]`), when there is any.
pub fn record_paused_players(state: &mut MediaControlState, playing: &Vec<String>, paused: &Vec<bool>)
    requires
        playing@.len() == paused@.len(),
    ensures
        successfully_paused(playing@, paused@).len() > 0 ==> final(state).paused_players@
            == successfully_paused(playing@, paused@),
        successfully_paused(playing@, paused@).len() == 0 ==> final(state).paused_players@ == old(
            state,
        ).paused_players@,
        successfully_paused(playing@, paused@) == Seq::new(playing@.len(), |i: int| i).filter(
            |i: int| paused@[i],
        ).map_values(|i: int| playing@[i]),
        final(state).enabled == old(state).enabled,
        final(state).playing_players_cache == old(state).playing_players_cache,
        final(state).control@ == old(state).control@,
{
    proof {
        lemma_paused_are_the_successful_ones(playing@, paused@);
    }
    let mut stored: Vec<String> = Vec::new();
    let mut i: usize = 0;
    while i < playing.len()
        invariant
            i <= playing@.len(),
            playing@.len() == paused@.len(),
            stored@ == successfully_paused(playing@.take(i as int), paused@),
        decreases playing.len() - i,
    {
        proof {
            assert(playing@.take(i + 1).drop_last() =~= playing@.take(i as int));
        }
        if paused[i] {
            stored.push(playing[i].clone());
        }
        i = i + 1;
    }
    assert(playing@.take(playing@.len() as int) =~= playing@);
    if stored.len() > 0 {
        state.paused_players = stored;
    }
}

/// What the cache serves at `now_ns`: its players when they were listed at
/// most the time to live before `now_ns` (and not after it).
pub open spec fn cache_lookup(cache: Option<PlayingPlayersCache>, now_ns: u64) -> Option<Seq<String>> {
    match cache {
        Some(c) => if c.updated_at_ns <= now_ns && now_ns - c.updated_at_ns
            <= PLAYING_PLAYERS_CACHE_TTL_NS {
            Some(c.players@)
        } else {
            None
        },
        None => None,
    }
}

/// The cached listing of playing players, if it is still fresh at `now_ns`.
pub fn get_cached_playing_players(state: &MediaControlState, now_ns: u64) -> (r: Option<Vec<String>>)
    ensures
        match r {
            Some(v) => cache_lookup(state.playing_players_cache, now_ns) == Some(v@),
            None => cache_lookup(state.playing_players_cache, now_ns) is None,
        },
{
    match &state.playing_players_cache {
        Some(cache) => {
            if cache.updated_at_ns <= now_ns && now_ns - cache.updated_at_ns
                <= PLAYING_PLAYERS_CACHE_TTL_NS {
                let players = cache.players.clone();
                assert(players@ =~= cache.players@);
                Some(players)
            } else {
                None
            }
        },
        None => None,
    }
}

/// Caches a listing of playing players taken at `now_ns`.
pub fn set_cached_playing_players(state: &mut MediaControlState, players: Vec<String>, now_ns: u64)
    ensures
        final(state).playing_players_cache matches Some(c) && c.updated_at_ns == now_ns
            && c.players@ == players@,
        final(state).enabled == old(state).enabled,
        final(state).paused_players@ == old(state).paused_players@,
        final(state).control@ == old(state).control@,
{
    state.playing_players_cache = Some(PlayingPlayersCache { updated_at_ns: now_ns, players });
}

/// Caches a fresh listing of playing players taken at `now_ns`, unless it is
/// empty.
pub fn remember_playing_players(state: &mut MediaControlState, players: Vec<String>, now_ns: u64)
    ensures
        players@.len() > 0 ==> (final(state).playing_players_cache matches Some(c)
            && c.updated_at_ns == now_ns && c.players@ == players@),
        players@.len() == 0 ==> final(state).playing_players_cache == old(
            state,
        ).playing_players_cache,
        final(state).enabled == old(state).enabled,
        final(state).paused_players@ == old(state).paused_players@,
        final(state).control@ == old(state).control@,
{
    if players.len() > 0 {
        set_cached_playing_players(state, players, now_ns);
    }
}

/// The names of `names` that are local MPRIS players, in their order.
pub open spec fn supported_players(names: Seq<String>) -> Seq<String>
    decreases names.len(),
{
    if names.len() == 0 {
        Seq::empty()
    } else {
        let rest = supported_players(names.drop_last());
        if is_local_player_name(names.last()@) {
            rest.push(names.last())
        } else {
            rest
        }
    }
}

/// Whether `service_name` is an MPRIS player that can be controlled here: an
/// MPRIS name that is not a KDE Connect bridge.
pub fn is_supported_mpris_service_name(service_name: &str) -> (b: bool)
    ensures
        b == is_local_player_name(service_name@),
{
    is_mpris_bus_name(service_name) && !is_kdeconnect_bus_name(service_name)
}

/// The local MPRIS players among the names on the bus, in their order.
pub fn supported_mpris_players(names: &Vec<String>) -> (r: Vec<String>)
    ensures
        r@ == supported_players(names@),
        r@ == names@.filter(|s: String| is_local_player_name(s@)),
{
    proof {
        lemma_discovery_keeps_every_local_player(names@);
    }
    let mut players: Vec<String> = Vec::new();
    let mut i: usize = 0;
    while i < names.len()
        invariant
            i <= names@.len(),
            players@ == supported_players(names@.take(i as int)),
        decreases names.len() - i,
    {
        proof {
            assert(names@.take(i + 1).drop_last() =~= names@.take(i as int));
        }
        if is_supported_mpris_service_name(names[i].as_str()) {
            players.push(names[i].clone());
        }
        i = i + 1;
    }
    assert(names@.take(names@.len() as int) =~= names@);
    players
}

/// The first local MPRIS player among the names on the bus.
pub fn first_mpris_player(names: &Vec<String>) -> (r: Option<String>)
    ensures
        supported_players(names@).len() > 0 ==> r == Some(supported_players(names@)[0]),
        supported_players(names@).len() == 0 ==> r is None,
{
    let players = supported_mpris_players(names);
    if players.len() > 0 {
        Some(players[0].clone())
    } else {
        None
    }
}

/// The services whose playback status came back `Playing` (`probes[i]` tells
/// of `services[i]`: `None` when the status could not be read).
pub open spec fn confirmed_playing(services: Seq<String>, probes: Seq<Option<bool>>) -> Seq<String>
    decreases services.len(),
{
    if services.len() == 0 {
        Seq::empty()
    } else {
        let rest = confirmed_playing(services.drop_last(), probes);
        if probes[services.len() - 1] == Some(true) {
            rest.push(services.last())
        } else {
            rest
        }
    }
}

/// Whether a reported playback status means the player is playing.
pub fn is_playing_status(status: &str) -> (b: bool)
    ensures
        b == (status@ == "Playing"@),
{
    same_text(status, "Playing")
}

/// The services that were found playing, in their order.
pub fn playing_players(services: &Vec<String>, probes: &Vec<Option<bool>>) -> (r: Vec<String>)
    requires
        services@.len() == probes@.len(),
    ensures
        r@ == confirmed_playing(services@, probes@),
        r@ == Seq::new(services@.len(), |i: int| i).filter(|i: int| probes@[i] == Some(true)).map_values(
            |i: int| services@[i],
        ),
{
    proof {
        lemma_playing_by_own_probe(services@, probes@);
    }
    let mut playing: Vec<String> = Vec::new();
    let mut i: usize = 0;
    while i < services.len()
        invariant
            i <= services@.len(),
            services@.len() == probes@.len(),
            playing@ == confirmed_playing(services@.take(i as int), probes@),
        decreases services.len() - i,
    {
        proof {
            assert(services@.take(i + 1).drop_last() =~= services@.take(i as int));
        }
        if probes[i] == Some(true) {
            playing.push(services[i].clone());
        }
        i = i + 1;
    }
    assert(services@.take(services@.len() as int) =~= services@);
    playing
}


/// The owner that a refresh observes and the owner that the ownership engine
/// decides agree: Linux where a local player is seen, the remote device where
/// only a KDE Connect bridge is, and, where the refresh sees no owner, the
/// engine falls back to Linux.
pub proof fn lemma_decision_agrees_with_observation(bus_names: Result<Vec<String>, BusFailure>)
    ensures
        observed_owner(bus_names) == ControlOwner::Linux ==> crate::control_ownership::decided_owner(
            bus_names,
        ) == crate::control_ownership::ControlOwner::Linux,
        observed_owner(bus_names) == ControlOwner::Remote <==> crate::control_ownership::decided_owner(
            bus_names,
        ) == crate::control_ownership::ControlOwner::Remote,
        observed_owner(bus_names) == ControlOwner::Unknown ==> crate::control_ownership::decided_owner(
            bus_names,
        ) == crate::control_ownership::ControlOwner::Linux,
{
}

/// Reporting the owner that was just recorded changes nothing, whatever reason,
/// confidence and time come with the second report.
pub proof fn lemma_repeated_report_changes_nothing(
    s: ControlOwnerStateView,
    owner: ControlOwner,
    reason1: Seq<char>,
    confidence1: u8,
    now1: u64,
    reason2: Seq<char>,
    confidence2: u8,
    now2: u64,
)
    ensures
        ({
            let s1 = updated_owner_state(s, owner, reason1, confidence1, now1);
            &&& s1.owner == owner
            &&& updated_owner_state(s1, owner, reason2, confidence2, now2) == s1
        }),
{
}

/// What is resumed is exactly what the last pause stored: after a pause that
/// paused some player, with automatic play/pause on, the players to resume
/// are those whose pause succeeded, in order.
pub proof fn lemma_resume_returns_paused(
    after: MediaControlState,
    playing: Seq<String>,
    paused: Seq<bool>,
)
    requires
        after.enabled,
        playing.len() == paused.len(),
        successfully_paused(playing, paused).len() > 0,
        after.paused_players@ == successfully_paused(playing, paused),
    ensures
        resume_list(after) == Some(successfully_paused(playing, paused)),
{
}

/// Once resumed, nothing is left to resume.
pub proof fn lemma_nothing_after_resume(after: MediaControlState)
    requires
        after.paused_players@.len() == 0,
    ensures
        resume_list(after) is None,
{
}

/// With automatic play/pause off, nothing is resumed.
pub proof fn lemma_disabled_resumes_nothing(state: MediaControlState)
    requires
        !state.enabled,
    ensures
        resume_list(state) is None,
{
}

/// Only players that were playing are stored as paused: each stored player is
/// one of the playing players.
pub proof fn lemma_paused_were_playing(playing: Seq<String>, paused: Seq<bool>)
    requires
        playing.len() <= paused.len(),
    ensures
        forall|k: int|
            0 <= k < successfully_paused(playing, paused).len() ==> playing.contains(
                #[trigger] successfully_paused(playing, paused)[k],
            ),
    decreases playing.len(),
{
    if playing.len() > 0 {
        let rest = playing.drop_last();
        lemma_paused_were_playing(rest, paused);
        let out = successfully_paused(playing, paused);
        assert forall|k: int| 0 <= k < out.len() implies playing.contains(#[trigger] out[k]) by {
            let r = successfully_paused(rest, paused);
            if k < r.len() {
                let i: int = choose|i: int| 0 <= i < rest.len() && rest[i] == r[k];
                assert(playing[i] == rest[i]);
            } else {
                assert(playing[playing.len() - 1] == out[k]);
            }
        }
    }
}

/// The cache honors its time to live: a listing stored at `stored_at` is
/// served at `now` exactly when `stored_at <= now <= stored_at + 300 ms`.
pub proof fn lemma_cache_honors_ttl(
    cache: Option<PlayingPlayersCache>,
    players: Seq<String>,
    stored_at: u64,
    now: u64,
)
    requires
        cache matches Some(c) && c.updated_at_ns == stored_at && c.players@ == players,
    ensures
        cache_lookup(cache, now) == if stored_at <= now && now - stored_at
            <= PLAYING_PLAYERS_CACHE_TTL_NS {
            Some(players)
        } else {
            None
        },
{
}

/// The players found are local MPRIS players that the bus listed.
pub proof fn lemma_supported_players_are_local(names: Seq<String>)
    ensures
        forall|k: int|
            0 <= k < supported_players(names).len() ==> is_local_player_name(
                #[trigger] supported_players(names)[k]@,
            ) && names.contains(supported_players(names)[k]),
    decreases names.len(),
{
    if names.len() > 0 {
        let rest = names.drop_last();
        lemma_supported_players_are_local(rest);
        let out = supported_players(names);
        assert forall|k: int| 0 <= k < out.len() implies is_local_player_name(#[trigger] out[k]@)
            && names.contains(out[k]) by {
            let r = supported_players(rest);
            if k < r.len() {
                assert(is_local_player_name(r[k]@));
                assert(rest.contains(r[k]));
                let i: int = choose|i: int| 0 <= i < rest.len() && rest[i] == r[k];
                assert(names[i] == rest[i]);
            } else {
                assert(names[names.len() - 1] == out[k]);
            }
        }
    }
}


/// The positions `0..n` in order.
proof fn lemma_positions_step(n: int)
    requires
        n > 0,
    ensures
        Seq::new(n as nat, |i: int| i).drop_last() == Seq::new((n - 1) as nat, |i: int| i),
        Seq::new(n as nat, |i: int| i).last() == n - 1,
{
    assert(Seq::new(n as nat, |i: int| i).drop_last() =~= Seq::new((n - 1) as nat, |i: int| i));
}

proof fn lemma_paused_prefix(all: Seq<String>, paused: Seq<bool>, m: int)
    requires
        0 <= m <= all.len(),
        all.len() <= paused.len(),
    ensures
        successfully_paused(all.take(m), paused) == Seq::new(m as nat, |i: int| i).filter(
            |i: int| paused[i],
        ).map_values(|i: int| all[i]),
    decreases m,
{
    reveal_with_fuel(Seq::filter, 1);
    let idx = Seq::new(m as nat, |i: int| i);
    if m == 0 {
        assert(successfully_paused(all.take(0), paused) =~= Seq::<String>::empty());
        assert(idx.filter(|i: int| paused[i]).map_values(|i: int| all[i]) =~= Seq::<String>::empty());
    } else {
        lemma_paused_prefix(all, paused, m - 1);
        lemma_positions_step(m);
        assert(all.take(m).drop_last() =~= all.take(m - 1));
        let sub = Seq::new((m - 1) as nat, |i: int| i).filter(|i: int| paused[i]);
        if paused[m - 1] {
            assert(idx.filter(|i: int| paused[i]) == sub.push(m - 1));
            assert(sub.push(m - 1).map_values(|i: int| all[i]) =~= sub.map_values(|i: int| all[i]).push(
                all[m - 1],
            ));
        } else {
            assert(idx.filter(|i: int| paused[i]) == sub);
        }
    }
}

/// Every player whose pause succeeded is stored, and only those, in order:
/// the stored players are `playing[i]` for the positions `i` with
/// `paused[i]`, ascending.
pub proof fn lemma_paused_are_the_successful_ones(playing: Seq<String>, paused: Seq<bool>)
    requires
        playing.len() == paused.len(),
    ensures
        successfully_paused(playing, paused) == Seq::new(playing.len(), |i: int| i).filter(
            |i: int| paused[i],
        ).map_values(|i: int| playing[i]),
        forall|i: int|
            0 <= i < playing.len() && paused[i] ==> successfully_paused(playing, paused).contains(
                #[trigger] playing[i],
            ),
{
    lemma_paused_prefix(playing, paused, playing.len() as int);
    assert(playing.take(playing.len() as int) =~= playing);
    let idx = Seq::new(playing.len(), |i: int| i);
    idx.filter_lemma(|i: int| paused[i]);
    let f = idx.filter(|i: int| paused[i]);
    assert forall|i: int| 0 <= i < playing.len() && paused[i] implies successfully_paused(
        playing,
        paused,
    ).contains(#[trigger] playing[i]) by {
        assert(idx[i] == i);
        assert(f.contains(i));
        let k = choose|k: int| 0 <= k < f.len() && f[k] == i;
        assert(f.map_values(|j: int| playing[j])[k] == playing[i]);
    }
}

proof fn lemma_playing_prefix(all: Seq<String>, probes: Seq<Option<bool>>, m: int)
    requires
        0 <= m <= all.len(),
        all.len() <= probes.len(),
    ensures
        confirmed_playing(all.take(m), probes) == Seq::new(m as nat, |i: int| i).filter(
            |i: int| probes[i] == Some(true),
        ).map_values(|i: int| all[i]),
    decreases m,
{
    reveal_with_fuel(Seq::filter, 1);
    let idx = Seq::new(m as nat, |i: int| i);
    if m == 0 {
        assert(confirmed_playing(all.take(0), probes) =~= Seq::<String>::empty());
        assert(idx.filter(|i: int| probes[i] == Some(true)).map_values(|i: int| all[i])
            =~= Seq::<String>::empty());
    } else {
        lemma_playing_prefix(all, probes, m - 1);
        lemma_positions_step(m);
        assert(all.take(m).drop_last() =~= all.take(m - 1));
        let sub = Seq::new((m - 1) as nat, |i: int| i).filter(|i: int| probes[i] == Some(true));
        if probes[m - 1] == Some(true) {
            assert(idx.filter(|i: int| probes[i] == Some(true)) == sub.push(m - 1));
            assert(sub.push(m - 1).map_values(|i: int| all[i]) =~= sub.map_values(|i: int| all[i]).push(
                all[m - 1],
            ));
        } else {
            assert(idx.filter(|i: int| probes[i] == Some(true)) == sub);
        }
    }
}

/// A service is reported playing by its own probe: the result is
/// `services[i]` for the positions `i` whose probe is `Some(true)`, ascending.
pub proof fn lemma_playing_by_own_probe(services: Seq<String>, probes: Seq<Option<bool>>)
    requires
        services.len() == probes.len(),
    ensures
        confirmed_playing(services, probes) == Seq::new(services.len(), |i: int| i).filter(
            |i: int| probes[i] == Some(true),
        ).map_values(|i: int| services[i]),
        forall|i: int|
            0 <= i < services.len() && probes[i] == Some(true) ==> confirmed_playing(
                services,
                probes,
            ).contains(#[trigger] services[i]),
{
    lemma_playing_prefix(services, probes, services.len() as int);
    assert(services.take(services.len() as int) =~= services);
    let idx = Seq::new(services.len(), |i: int| i);
    idx.filter_lemma(|i: int| probes[i] == Some(true));
    let f = idx.filter(|i: int| probes[i] == Some(true));
    assert forall|i: int| 0 <= i < services.len() && probes[i] == Some(true) implies confirmed_playing(
        services,
        probes,
    ).contains(#[trigger] services[i]) by {
        assert(idx[i] == i);
        assert(f.contains(i));
        let k = choose|k: int| 0 <= k < f.len() && f[k] == i;
        assert(f.map_values(|j: int| services[j])[k] == services[i]);
    }
}

/// Discovery keeps every local player on the bus and nothing else, in the
/// bus's order: it is the listing filtered by `is_local_player_name`.
pub proof fn lemma_discovery_keeps_every_local_player(names: Seq<String>)
    ensures
        supported_players(names) == names.filter(|s: String| is_local_player_name(s@)),
        forall|i: int|
            0 <= i < names.len() && is_local_player_name(names[i]@) ==> supported_players(
                names,
            ).contains(#[trigger] names[i]),
    decreases names.len(),
{
    reveal_with_fuel(Seq::filter, 1);
    if names.len() > 0 {
        lemma_discovery_keeps_every_local_player(names.drop_last());
    }
    names.filter_lemma(|s: String| is_local_player_name(s@));
}

/// A refresh observes Linux exactly when some name anywhere in the listing is
/// a local MPRIS player, and then records `<reason>: local mpris players
/// present` with confidence 90; it observes the remote device exactly when
/// no name is a local player and some name is a KDE Connect bridge.
pub proof fn lemma_observation_by_any_name(reason: Seq<char>, names: Vec<String>)
    ensures
        (observed_owner(Ok(names)) == ControlOwner::Linux) <==> (exists|i: int|
            0 <= i < names@.len() && #[trigger] is_local_player_name(names@[i]@)),
        (exists|i: int| 0 <= i < names@.len() && #[trigger] is_local_player_name(names@[i]@)) ==> (
        observed_reason(reason, Ok(names)) == reason + ": local mpris players present"@
            && observed_confidence(Ok(names)) == 90),
        (observed_owner(Ok(names)) == ControlOwner::Remote) <==> (!(exists|i: int|
            0 <= i < names@.len() && #[trigger] is_local_player_name(names@[i]@)) && exists|i: int|
            0 <= i < names@.len() && #[trigger] is_bridge_player_name(names@[i]@)),
{
}

} // verus!
