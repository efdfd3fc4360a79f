//! Classification of session-bus names: MPRIS players, and the KDE Connect
//! bridge that forwards a phone's media session as an MPRIS player.
use vstd::prelude::*;

verus! {

/// `p` is a prefix of `s`.
pub open spec fn spec_starts_with(s: Seq<char>, p: Seq<char>) -> bool {
    p.len() <= s.len() && s.subrange(0, p.len() as int) == p
}

/// `p` occurs in `s` starting at position `i`.
pub open spec fn occurs_at(s: Seq<char>, p: Seq<char>, i: int) -> bool {
    0 <= i && i + p.len() <= s.len() && s.subrange(i, i + p.len()) == p
}

/// `p` occurs somewhere in `s`.
pub open spec fn spec_contains(s: Seq<char>, p: Seq<char>) -> bool {
    exists|i: int| #[trigger] occurs_at(s, p, i)
}

/// Whether `s` starts with `prefix`.
pub fn starts_with(s: &str, prefix: &str) -> (b: bool)
    ensures
        b == spec_starts_with(s@, prefix@),
{
    let n: usize = s.unicode_len();
    let m: usize = prefix.unicode_len();
    if m > n {
        return false;
    }
    let mut i: usize = 0;
    while i < m
        invariant
            n == s@.len(),
            m == prefix@.len(),
            m <= n,
            i <= m,
            forall|j: int| 0 <= j < i ==> s@[j] == prefix@[j],
        decreases m - i,
    {
        if s.get_char(i) != prefix.get_char(i) {
            assert(s@.subrange(0, m as int)[i as int] != prefix@[i as int]);
            return false;
        }
        i = i + 1;
    }
    assert(s@.subrange(0, m as int) =~= prefix@);
    true
}

/// A string made of three pieces.
pub fn concat3(a: &str, b: &str, c: &str) -> (s: String)
    ensures
        s@ == a@ + b@ + c@,
{
    let mut s = String::from_str(a);
    s.append(b);
    s.append(c);
    s
}

/// Whether `a` and `b` hold the same text.
pub fn same_text(a: &str, b: &str) -> (r: bool)
    ensures
        r == (a@ == b@),
{
    let equal = a.unicode_len() == b.unicode_len() && starts_with(a, b);
    proof {
        if a@.len() == b@.len() && spec_starts_with(a@, b@) {
            assert(a@ =~= a@.subrange(0, b@.len() as int));
        }
        if a@ == b@ {
            assert(a@.subrange(0, b@.len() as int) =~= b@);
        }
    }
    equal
}

/// Whether `p` occurs at character position `i` of `s`.
fn matches_at(s: &str, p: &str, i: usize) -> (b: bool)
    requires
        i + p@.len() <= s@.len(),
    ensures
        b == occurs_at(s@, p@, i as int),
{
    let n: usize = s.unicode_len();
    let m: usize = p.unicode_len();
    let mut k: usize = 0;
    while k < m
        invariant
            m == p@.len(),
            n == s@.len(),
            i + m <= n,
            k <= m,
            forall|j: int| 0 <= j < k ==> s@[i + j] == p@[j],
        decreases m - k,
    {
        if s.get_char(i + k) != p.get_char(k) {
            assert(s@.subrange(i as int, i + m)[k as int] != p@[k as int]);
            return false;
        }
        k = k + 1;
    }
    assert(s@.subrange(i as int, i + m) =~= p@);
    true
}

/// Whether `p` occurs somewhere in `s`.
pub fn contains(s: &str, p: &str) -> (b: bool)
    ensures
        b == spec_contains(s@, p@),
{
    let n: usize = s.unicode_len();
    let m: usize = p.unicode_len();
    if m > n {
        assert(forall|i: int| !occurs_at(s@, p@, i));
        return false;
    }
    if m == 0 {
        assert(s@.subrange(0, 0) =~= p@);
        assert(occurs_at(s@, p@, 0));
        return true;
    }
    let mut i: usize = 0;
    while i <= n - m
        invariant
            n == s@.len(),
            m == p@.len(),
            0 < m <= n,
            i <= n - m + 1,
            forall|j: int| 0 <= j < i ==> !occurs_at(s@, p@, j),
        decreases n - m + 1 - i,
    {
        if matches_at(s, p, i) {
            return true;
        }
        i = i + 1;
    }
    assert forall|j: int| !occurs_at(s@, p@, j) by {
        if 0 <= j && j + m <= n {
            assert(j < i);
        }
    }
    false
}


/// Why the list of session-bus names could not be had; each variant carries
/// the error text that the bus reported.
pub enum BusFailure {
    /// No connection to the session bus.
    SessionBus(String),
    /// The `org.freedesktop.DBus` proxy could not be created.
    DbusProxy(String),
    /// The `ListNames` call failed.
    ListNames(String),
}

/// The name belongs to an MPRIS media player.
pub open spec fn is_mpris_name(name: Seq<char>) -> bool {
    spec_starts_with(name, "org.mpris.MediaPlayer2."@)
}

/// The name is that of the KDE Connect bridge (either spelling).
pub open spec fn is_kdeconnect_name(name: Seq<char>) -> bool {
    spec_contains(name, "kdeconnect"@) || spec_contains(name, "KDEConnect"@)
}

/// An MPRIS player that runs on this machine.
pub open spec fn is_local_player_name(name: Seq<char>) -> bool {
    is_mpris_name(name) && !is_kdeconnect_name(name)
}

/// An MPRIS player that KDE Connect bridges in from another device.
pub open spec fn is_bridge_player_name(name: Seq<char>) -> bool {
    is_mpris_name(name) && is_kdeconnect_name(name)
}

/// Some name of `names` is a local MPRIS player.
pub open spec fn any_local_player(names: Seq<String>) -> bool {
    exists|i: int| 0 <= i < names.len() && #[trigger] is_local_player_name(names[i]@)
}

/// Some name of `names` is a KDE Connect MPRIS bridge.
pub open spec fn any_bridge_player(names: Seq<String>) -> bool {
    exists|i: int| 0 <= i < names.len() && #[trigger] is_bridge_player_name(names[i]@)
}

/// Whether `name` starts with the MPRIS bus-name prefix.
pub fn is_mpris_bus_name(name: &str) -> (b: bool)
    ensures
        b == is_mpris_name(name@),
{
    starts_with(name, "org.mpris.MediaPlayer2.")
}

/// Whether `name` mentions KDE Connect.
pub fn is_kdeconnect_bus_name(name: &str) -> (b: bool)
    ensures
        b == is_kdeconnect_name(name@),
{
    contains(name, "kdeconnect") || contains(name, "KDEConnect")
}

/// Scans the names once: is there a local MPRIS player, is there a KDE
/// Connect bridge player.
pub fn scan_players(names: &Vec<String>) -> (r: (bool, bool))
    ensures
        r.0 == any_local_player(names@),
        r.1 == any_bridge_player(names@),
        r.0 <==> exists|j: int| 0 <= j < names@.len() && #[trigger] is_local_player_name(names@[j]@),
        r.1 <==> exists|j: int| 0 <= j < names@.len() && #[trigger] is_bridge_player_name(names@[j]@),
{
    let mut has_local = false;
    let mut has_bridge = false;
    let mut i: usize = 0;
    while i < names.len()
        invariant
            i <= names.len(),
            has_local == exists|j: int| 0 <= j < i && #[trigger] is_local_player_name(names@[j]@),
            has_bridge == exists|j: int| 0 <= j < i && #[trigger] is_bridge_player_name(names@[j]@),
        decreases names.len() - i,
    {
        let name = names[i].as_str();
        if is_mpris_bus_name(name) {
            if is_kdeconnect_bus_name(name) {
                has_bridge = true;
            } else {
                has_local = true;
            }
        }
        proof {
            assert(is_local_player_name(names@[i as int]@) == (is_mpris_name(name@)
                && !is_kdeconnect_name(name@)));
            assert(is_bridge_player_name(names@[i as int]@) == (is_mpris_name(name@)
                && is_kdeconnect_name(name@)));
        }
        i = i + 1;
    }
    (has_local, has_bridge)
}

} // verus!
