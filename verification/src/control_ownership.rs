//! Ownership engine for deciding whether media control should be handled
//! locally on Linux or delegated to a remote controller.
use crate::bus_names::{
    any_bridge_player, any_local_player, concat3, is_bridge_player_name, is_local_player_name,
    scan_players, BusFailure,
};
use vstd::prelude::*;

verus! {

/// Who handles a media command.
#[derive(Debug, Clone, Copy, PartialEq, Eq, Structural)]
pub enum ControlOwner {
    Linux,
    Remote,
}

/// The last ear-detection report.
#[derive(Debug, Clone, Copy, PartialEq, Eq, Structural)]
pub enum EarHint {
    BothIn,
    OneOrMoreOut,
}

/// The owner chosen for a media command, and why.
#[derive(Debug)]
pub struct OwnershipDecision {
    pub owner: ControlOwner,
    pub reason: String,
}

impl Clone for OwnershipDecision {
    fn clone(&self) -> (c: Self)
        ensures
            c.owner == self.owner,
            c.reason@ == self.reason@,
    {
        OwnershipDecision { owner: self.owner, reason: self.reason.clone() }
    }
}

/// Per-process ownership engine.
#[derive(Debug)]
pub struct OwnershipEngine {
    last_ear_hint: Option<EarHint>,
}

impl View for OwnershipEngine {
    type V = Option<EarHint>;

    /// The last ear-detection hint, if one was reported.
    closed spec fn view(&self) -> Option<EarHint> {
        self.last_ear_hint
    }
}

/// The hint that an ear-detection report leaves behind.
pub open spec fn hint_of(both_in_ear: bool) -> EarHint {
    if both_in_ear {
        EarHint::BothIn
    } else {
        EarHint::OneOrMoreOut
    }
}

/// How the last hint is described in a decision's reason.
pub open spec fn hint_reason(hint: Option<EarHint>) -> Seq<char> {
    match hint {
        Some(EarHint::BothIn) => "last ear-detection hint: both in-ear"@,
        Some(EarHint::OneOrMoreOut) => "last ear-detection hint: one or more out-of-ear"@,
        None => "no ear-detection hint available"@,
    }
}

/// The owner chosen for a media command, given the last hint and what listing
/// the session bus gave.
pub open spec fn decided_owner(bus_names: Result<Vec<String>, BusFailure>) -> ControlOwner {
    match bus_names {
        Ok(names) => if !any_local_player(names@) && any_bridge_player(names@) {
            ControlOwner::Remote
        } else {
            ControlOwner::Linux
        },
        Err(_) => ControlOwner::Linux,
    }
}

/// The reason that goes with `decided_owner`.
pub open spec fn decided_reason(hint: Option<EarHint>, bus_names: Result<Vec<String>, BusFailure>) -> Seq<char> {
    match bus_names {
        Err(BusFailure::SessionBus(e)) =>
            "defaulting to local ownership (failed to connect to session bus: "@ + e@ + ")"@,
        Err(BusFailure::DbusProxy(e)) =>
            "defaulting to local ownership (failed to create D-Bus proxy: "@ + e@ + ")"@,
        Err(BusFailure::ListNames(e)) =>
            "defaulting to local ownership (failed to list bus names: "@ + e@ + ")"@,
        Ok(names) => if any_local_player(names@) {
            "local MPRIS player detected"@
        } else if any_bridge_player(names@) {
            "no local MPRIS player but KDE Connect MPRIS bridge is present"@
        } else {
            "defaulting to local ownership ("@ + hint_reason(hint) + ")"@
        },
    }
}

impl OwnershipEngine {
    /// An engine that has seen no ear-detection report.
    pub fn new() -> (e: Self)
        ensures
            e@ == None::<EarHint>,
    {
        OwnershipEngine { last_ear_hint: None }
    }

    /// Records an ear-detection report.
    pub fn on_ear_detection(&mut self, both_in_ear: bool)
        ensures
            final(self)@ == Some(hint_of(both_in_ear)),
    {
        let hint = if both_in_ear {
            EarHint::BothIn
        } else {
            EarHint::OneOrMoreOut
        };
        self.last_ear_hint = Some(hint);
    }

    /// Decides who handles a media command from the names on the session bus
    /// (or why they could not be listed): a local MPRIS player keeps control on
    /// Linux, a KDE Connect bridge alone hands it to the remote device, and
    /// anything else defaults to Linux, naming the last ear-detection hint.
    pub fn decide_for_media_command(&self, bus_names: &Result<Vec<String>, BusFailure>) -> (d:
        OwnershipDecision)
        ensures
            d.owner == decided_owner(*bus_names),
            d.reason@ == decided_reason(self@, *bus_names),
            bus_names matches Ok(names) ==> ((exists|i: int|
                0 <= i < names@.len() && #[trigger] is_local_player_name(names@[i]@)) ==> (d.owner
                == ControlOwner::Linux && d.reason@ == "local MPRIS player detected"@)),
    {
        match bus_names {
            Err(BusFailure::SessionBus(e)) => OwnershipDecision {
                owner: ControlOwner::Linux,
                reason: concat3(
                    "defaulting to local ownership (failed to connect to session bus: ",
                    e.as_str(),
                    ")",
                ),
            },
            Err(BusFailure::DbusProxy(e)) => OwnershipDecision {
                owner: ControlOwner::Linux,
                reason: concat3(
                    "defaulting to local ownership (failed to create D-Bus proxy: ",
                    e.as_str(),
                    ")",
                ),
            },
            Err(BusFailure::ListNames(e)) => OwnershipDecision {
                owner: ControlOwner::Linux,
                reason: concat3(
                    "defaulting to local ownership (failed to list bus names: ",
                    e.as_str(),
                    ")",
                ),
            },
            Ok(names) => {
                let (has_local, has_bridge) = scan_players(names);
                if has_local {
                    OwnershipDecision {
                        owner: ControlOwner::Linux,
                        reason: String::from_str("local MPRIS player detected"),
                    }
                } else if has_bridge {
                    OwnershipDecision {
                        owner: ControlOwner::Remote,
                        reason: String::from_str(
                            "no local MPRIS player but KDE Connect MPRIS bridge is present",
                        ),
                    }
                } else {
                    let hint_text = match self.last_ear_hint {
                        Some(EarHint::BothIn) => "last ear-detection hint: both in-ear",
                        Some(EarHint::OneOrMoreOut) => "last ear-detection hint: one or more out-of-ear",
                        None => "no ear-detection hint available",
                    };
                    OwnershipDecision {
                        owner: ControlOwner::Linux,
                        reason: concat3("defaulting to local ownership (", hint_text, ")"),
                    }
                }
            },
        }
    }
}

impl Default for OwnershipEngine {
    fn default() -> (e: Self)
        ensures
            e@ == None::<EarHint>,
    {
        OwnershipEngine::new()
    }
}


/// The ear-detection hint shows only in the reason of a decision made when the
/// bus lists no MPRIS player at all: whatever two hints are given, the
/// decisions have the same owner, and the same reason in every other case.
pub proof fn lemma_hint_only_breaks_ties(
    h1: Option<EarHint>,
    h2: Option<EarHint>,
    bus_names: Result<Vec<String>, BusFailure>,
)
    ensures
        decided_reason(h1, bus_names) != decided_reason(h2, bus_names) ==> (bus_names matches Ok(
            names,
        ) && !any_local_player(names@) && !any_bridge_player(names@)),
{
}

/// After an ear-detection report, a decision with no MPRIS player on the bus
/// names that report: `defaulting to local ownership (<hint>)`.
pub proof fn lemma_default_names_last_report(
    after: Option<EarHint>,
    both_in_ear: bool,
    bus_names: Result<Vec<String>, BusFailure>,
)
    requires
        after == Some(hint_of(both_in_ear)),
        bus_names matches Ok(names) && !any_local_player(names@) && !any_bridge_player(names@),
    ensures
        decided_owner(bus_names) == ControlOwner::Linux,
        decided_reason(after, bus_names) == "defaulting to local ownership ("@ + (if both_in_ear {
            "last ear-detection hint: both in-ear"@
        } else {
            "last ear-detection hint: one or more out-of-ear"@
        }) + ")"@,
{
}

/// A failure to list the bus names always leaves control on Linux.
pub proof fn lemma_bus_failure_defaults_to_linux(failure: BusFailure)
    ensures
        decided_owner(Err(failure)) == ControlOwner::Linux,
{
}


/// A local MPRIS player anywhere in the listing keeps control on Linux: for
/// every listing and every position holding a local player name, the decision
/// is Linux with reason `local MPRIS player detected`, whatever the hint.
pub proof fn lemma_any_local_player_keeps_linux(
    hint: Option<EarHint>,
    names: Vec<String>,
    i: int,
)
    requires
        0 <= i < names@.len(),
        is_local_player_name(names@[i]@),
    ensures
        decided_owner(Ok(names)) == ControlOwner::Linux,
        decided_reason(hint, Ok(names)) == "local MPRIS player detected"@,
{
    assert(any_local_player(names@));
}

/// The decision hands control to the remote device exactly when no name is a
/// local MPRIS player and some name is a KDE Connect bridge.
pub proof fn lemma_remote_only_for_bridge_alone(names: Vec<String>)
    ensures
        (decided_owner(Ok(names)) == ControlOwner::Remote) <==> (!(exists|i: int|
            0 <= i < names@.len() && #[trigger] is_local_player_name(names@[i]@)) && exists|i: int|
            0 <= i < names@.len() && #[trigger] is_bridge_player_name(names@[i]@)),
{
}

/// The decision does not depend on where, or how often, names stand in the
/// listing: two listings with the same names get the same decision.
pub proof fn lemma_decision_ignores_order(hint: Option<EarHint>, a: Vec<String>, b: Vec<String>)
    requires
        forall|x: String| a@.contains(x) <==> b@.contains(x),
    ensures
        decided_owner(Ok(a)) == decided_owner(Ok(b)),
        decided_reason(hint, Ok(a)) == decided_reason(hint, Ok(b)),
{
    assert(any_local_player(a@) == any_local_player(b@)) by {
        if any_local_player(a@) {
            let i = choose|i: int| 0 <= i < a@.len() && #[trigger] is_local_player_name(a@[i]@);
            assert(a@.contains(a@[i]));
            let j = choose|j: int| 0 <= j < b@.len() && b@[j] == a@[i];
            assert(is_local_player_name(b@[j]@));
        }
        if any_local_player(b@) {
            let i = choose|i: int| 0 <= i < b@.len() && #[trigger] is_local_player_name(b@[i]@);
            assert(b@.contains(b@[i]));
            let j = choose|j: int| 0 <= j < a@.len() && a@[j] == b@[i];
            assert(is_local_player_name(a@[j]@));
        }
    }
    assert(any_bridge_player(a@) == any_bridge_player(b@)) by {
        if any_bridge_player(a@) {
            let i = choose|i: int| 0 <= i < a@.len() && #[trigger] is_bridge_player_name(a@[i]@);
            assert(a@.contains(a@[i]));
            let j = choose|j: int| 0 <= j < b@.len() && b@[j] == a@[i];
            assert(is_bridge_player_name(b@[j]@));
        }
        if any_bridge_player(b@) {
            let i = choose|i: int| 0 <= i < b@.len() && #[trigger] is_bridge_player_name(b@[i]@);
            assert(b@.contains(b@[i]));
            let j = choose|j: int| 0 <= j < a@.len() && a@[j] == b@[i];
            assert(is_bridge_player_name(a@[j]@));
        }
    }
}

} // verus!
