//! Object paths and bookkeeping of the BlueZ battery provider, which exposes
//! one `org.bluez.BatteryProvider1` object per connected device so that BlueZ
//! (and UPower) report its battery level. A Bluetooth address is held as its
//! six bytes, most significant first, as `bluer::Address` holds it.
use crate::bus_names::concat3;
use vstd::prelude::*;
use std::collections::HashMap;
use vstd::std_specs::iter::IteratorSpec;
use zbus::zvariant::OwnedObjectPath;

verus! {

/// Root path under which the battery objects are exposed.
pub const PROVIDER_ROOT: &'static str = "/org/kairpods/battery";

/// The interface that marks an adapter able to take battery providers.
pub const PROVIDER_MANAGER_INTERFACE: &'static str = "org.bluez.BatteryProviderManager1";

/// The upper-case hexadecimal digit of `n` (below 16).
pub open spec fn hex_digit(n: u8) -> char {
    if n < 10 {
        (48 + n) as char
    } else {
        (55 + n) as char
    }
}

/// The two upper-case hexadecimal digits of a byte.
pub open spec fn hex_pair(b: u8) -> Seq<char> {
    seq![hex_digit(b / 16), hex_digit(b % 16)]
}

/// A Bluetooth address as text: `AA:BB:CC:DD:EE:FF`.
pub open spec fn address_text_of(a: Seq<u8>) -> Seq<char> {
    hex_pair(a[0]) + seq![':'] + hex_pair(a[1]) + seq![':'] + hex_pair(a[2]) + seq![':']
        + hex_pair(a[3]) + seq![':'] + hex_pair(a[4]) + seq![':'] + hex_pair(a[5])
}

/// `s` with each `:` replaced by `_`.
pub open spec fn colons_to_underscores(s: Seq<char>) -> Seq<char> {
    s.map_values(|c: char| if c == ':' { '_' } else { c })
}

/// The BlueZ object-path component of a device: `dev_AA_BB_CC_DD_EE_FF`.
pub open spec fn dev_component(a: Seq<u8>) -> Seq<char> {
    "dev_"@ + colons_to_underscores(address_text_of(a))
}

/// The text of a Bluetooth address, as `bluer::Address` displays it.
/// Calls `<bluer::Address as Display>::fmt` through `to_string`; its source
/// writes the six bytes as two upper-case hexadecimal digits each, joined by
/// `:`, which is what the contract states.
#[verifier::external_body]
fn address_text(address: [u8; 6]) -> (s: String)
    ensures
        s@ == address_text_of(address@),
{
    bluer::Address::new(address).to_string()
}

/// Converts a Bluetooth address to a BlueZ device object path component:
/// `AA:BB:CC:DD:EE:FF` becomes `dev_AA_BB_CC_DD_EE_FF`.
pub fn address_to_dev(address: [u8; 6]) -> (s: String)
    ensures
        s@ == dev_component(address@),
{
    let text = address_text(address);
    let t = text.as_str();
    let n: usize = t.unicode_len();
    let mut out = String::from_str("dev_");
    let mut i: usize = 0;
    while i < n
        invariant
            n == t@.len(),
            t@ == address_text_of(address@),
            i <= n,
            out@ == "dev_"@ + colons_to_underscores(t@.take(i as int)),
        decreases n - i,
    {
        let c = t.get_char(i);
        let piece = if c == ':' {
            "_"
        } else {
            t.substring_char(i, i + 1)
        };
        proof {
            reveal_strlit("_");
            assert(piece@ =~= seq![if c == ':' { '_' } else { c }]);
            assert(colons_to_underscores(t@.take(i + 1)) =~= colons_to_underscores(
                t@.take(i as int),
            ).push(if c == ':' { '_' } else { c }));
        }
        out.append(piece);
        proof {
            assert(out@ =~= "dev_"@ + colons_to_underscores(t@.take(i + 1)));
        }
        i = i + 1;
    }
    assert(t@.take(n as int) =~= t@);
    out
}


/// A character that may stand in an element of a D-Bus object path:
/// an ASCII letter or digit, or `_`.
pub open spec fn is_path_element_char(c: char) -> bool {
    let n: u32 = c as u32;
    (48 <= n <= 57) || (65 <= n <= 90) || (97 <= n <= 122) || n == 95
}

/// A D-Bus object path: `/`, or `/` followed by non-empty elements separated
/// by single `/`.
pub open spec fn is_object_path(p: Seq<char>) -> bool {
    &&& p.len() >= 1
    &&& p[0] == '/'
    &&& p.len() > 1 ==> p[p.len() - 1] != '/'
    &&& forall|i: int|
        1 <= i < p.len() ==> (is_path_element_char(#[trigger] p[i]) || (p[i] == '/' && p[i - 1]
            != '/'))
}

/// Every character of the device component may stand in a path element.
proof fn lemma_dev_component_chars(a: Seq<u8>)
    requires
        a.len() == 6,
    ensures
        dev_component(a).len() == 21,
        forall|i: int| 0 <= i < 21 ==> is_path_element_char(#[trigger] dev_component(a)[i]),
{
    reveal_strlit("dev_");
    assert forall|b: u8| #[trigger] hex_pair(b).len() == 2 && is_path_element_char(hex_pair(b)[0])
        && is_path_element_char(hex_pair(b)[1]) by {
        assert(b / 16 < 16);
        assert(b % 16 < 16);
    }
    let t = address_text_of(a);
    assert(t.len() == 17);
    assert forall|i: int| 0 <= i < 17 implies (is_path_element_char(#[trigger] t[i]) || t[i]
        == ':') by {
        let p0 = hex_pair(a[0]);
        let p1 = hex_pair(a[1]);
        let p2 = hex_pair(a[2]);
        let p3 = hex_pair(a[3]);
        let p4 = hex_pair(a[4]);
        let p5 = hex_pair(a[5]);
        assert(t =~= seq![p0[0], p0[1], ':', p1[0], p1[1], ':', p2[0], p2[1], ':', p3[0], p3[1], ':',
            p4[0], p4[1], ':', p5[0], p5[1]]);
    }
    let u = colons_to_underscores(t);
    assert forall|i: int| 0 <= i < 17 implies is_path_element_char(#[trigger] u[i]) by {
        assert(u[i] == if t[i] == ':' { '_' } else { t[i] });
    }
    let d = dev_component(a);
    assert forall|i: int| 0 <= i < 21 implies is_path_element_char(#[trigger] d[i]) by {
        if i >= 4 {
            assert(d[i] == u[i - 4]);
        }
    }
}

/// Where the digits of each byte stand in the device component.
proof fn lemma_dev_component_digits(a: Seq<u8>, j: int)
    requires
        a.len() == 6,
        0 <= j < 6,
    ensures
        dev_component(a)[4 + 3 * j] == hex_digit(a[j] / 16),
        dev_component(a)[5 + 3 * j] == hex_digit(a[j] % 16),
{
    reveal_strlit("dev_");
    let t = address_text_of(a);
    let p0 = hex_pair(a[0]);
    let p1 = hex_pair(a[1]);
    let p2 = hex_pair(a[2]);
    let p3 = hex_pair(a[3]);
    let p4 = hex_pair(a[4]);
    let p5 = hex_pair(a[5]);
    assert(t =~= seq![p0[0], p0[1], ':', p1[0], p1[1], ':', p2[0], p2[1], ':', p3[0], p3[1], ':',
        p4[0], p4[1], ':', p5[0], p5[1]]);
    assert(hex_digit(a[j] / 16) as u32 != 58);
    assert(hex_digit(a[j] % 16) as u32 != 58);
    let d = dev_component(a);
    assert(d[4 + 3 * j] == colons_to_underscores(t)[3 * j]);
    assert(d[5 + 3 * j] == colons_to_underscores(t)[3 * j + 1]);
}

/// Distinct hexadecimal digits for distinct values below 16.
proof fn lemma_hex_digit_injective(n: u8, m: u8)
    requires
        n < 16,
        m < 16,
        hex_digit(n) == hex_digit(m),
    ensures
        n == m,
{
    assert(hex_digit(n) as u32 == hex_digit(m) as u32);
}

/// Distinct devices get distinct device components, and so distinct object
/// paths: no two devices share a battery object.
pub proof fn lemma_distinct_devices_distinct_paths(a: Seq<u8>, b: Seq<u8>)
    requires
        a.len() == 6,
        b.len() == 6,
        a != b,
    ensures
        dev_component(a) != dev_component(b),
        provider_path_text(a) != provider_path_text(b),
{
    if dev_component(a) == dev_component(b) {
        assert forall|j: int| 0 <= j < 6 implies a[j] == b[j] by {
            lemma_dev_component_digits(a, j);
            lemma_dev_component_digits(b, j);
            lemma_hex_digit_injective(a[j] / 16, b[j] / 16);
            lemma_hex_digit_injective(a[j] % 16, b[j] % 16);
        }
        assert(a =~= b);
    }
    if provider_path_text(a) == provider_path_text(b) {
        let n: int = (PROVIDER_ROOT@.len() + "/"@.len()) as int;
        assert(provider_path_text(a).subrange(n, provider_path_text(a).len() as int) =~= dev_component(a));
        assert(provider_path_text(b).subrange(n, provider_path_text(b).len() as int) =~= dev_component(b));
    }
}

/// A valid path other than `/`, then `/`, then a non-empty element, is a
/// valid path.
proof fn lemma_child_path(parent: Seq<char>, element: Seq<char>)
    requires
        is_object_path(parent),
        parent.len() > 1,
        element.len() > 0,
        forall|i: int| 0 <= i < element.len() ==> is_path_element_char(#[trigger] element[i]),
    ensures
        is_object_path(parent + seq!['/'] + element),
{
    let p = parent + seq!['/'] + element;
    assert forall|i: int| 1 <= i < p.len() implies (is_path_element_char(#[trigger] p[i]) || (p[i]
        == '/' && p[i - 1] != '/')) by {
        if i < parent.len() {
            assert(p[i] == parent[i]);
            assert(p[i - 1] == parent[i - 1]);
        } else if i == parent.len() {
            assert(p[i - 1] == parent[parent.len() - 1]);
        } else {
            assert(p[i] == element[i - parent.len() - 1]);
        }
    }
    assert(p[p.len() - 1] == element[element.len() - 1]);
}

/// The path of our battery object for a device:
/// `/org/kairpods/battery/dev_AA_BB_CC_DD_EE_FF`.
pub open spec fn provider_path_text(a: Seq<u8>) -> Seq<char> {
    PROVIDER_ROOT@ + "/"@ + dev_component(a)
}

/// The BlueZ path of a device under an adapter: `<adapter>/dev_AA_BB_CC_DD_EE_FF`.
pub open spec fn device_path_text(adapter_path: Seq<char>, a: Seq<u8>) -> Seq<char> {
    adapter_path + "/"@ + dev_component(a)
}

/// The provider path of every device is a valid object path.
pub proof fn lemma_provider_path_valid(a: Seq<u8>)
    requires
        a.len() == 6,
    ensures
        is_object_path(provider_path_text(a)),
{
    reveal_strlit("/org/kairpods/battery");
    reveal_strlit("/");
    let root = PROVIDER_ROOT@;
    assert(root =~= seq!['/', 'o', 'r', 'g', '/', 'k', 'a', 'i', 'r', 'p', 'o', 'd', 's', '/', 'b', 'a', 't', 't', 'e', 'r', 'y']);
    assert(is_object_path(root));
    lemma_dev_component_chars(a);
    lemma_child_path(root, dev_component(a));
    assert(provider_path_text(a) =~= root + seq!['/'] + dev_component(a));
}

/// The path of our battery object for a device, as text.
pub fn provider_object_path_text(address: [u8; 6]) -> (s: String)
    ensures
        s@ == provider_path_text(address@),
        is_object_path(s@),
{
    let dev = address_to_dev(address);
    proof {
        lemma_provider_path_valid(address@);
    }
    concat3(PROVIDER_ROOT, "/", dev.as_str())
}

/// The BlueZ path of a device under an adapter, as text.
pub fn bluez_device_path_text(adapter_path: &str, address: [u8; 6]) -> (s: String)
    ensures
        s@ == device_path_text(adapter_path@, address@),
        is_object_path(adapter_path@) && adapter_path@.len() > 1 ==> is_object_path(s@),
{
    let dev = address_to_dev(address);
    proof {
        reveal_strlit("/");
        lemma_dev_component_chars(address@);
        if is_object_path(adapter_path@) && adapter_path@.len() > 1 {
            lemma_child_path(adapter_path@, dev_component(address@));
            assert(device_path_text(adapter_path@, address@) =~= adapter_path@ + seq!['/']
                + dev_component(address@));
        }
    }
    concat3(adapter_path, "/", dev.as_str())
}


#[verifier::external_type_specification]
#[verifier::external_body]
pub struct ExOwnedObjectPath(zbus::zvariant::OwnedObjectPath);

#[verifier::external_type_specification]
#[verifier::external_body]
pub struct ExZvariantError(zbus::zvariant::Error);

/// The D-Bus object path that zvariant makes of a valid path text.
pub uninterp spec fn object_path_of(text: Seq<char>) -> OwnedObjectPath;

/// Makes a D-Bus object path of a string. Calls
/// `<zbus::zvariant::OwnedObjectPath as TryFrom<String>>::try_from`, which
/// accepts exactly the strings that its validation rules (at least one
/// character, a leading `/`, no trailing `/`, no `//`, only ASCII letters,
/// digits, `_` and `/`) admit; that is what the contract states. The path it
/// makes is named `object_path_of` of the string's text: the conversion
/// depends on the text alone (it validates it and keeps it as the path).
#[verifier::external_body]
fn owned_object_path(path: String) -> (r: Result<OwnedObjectPath, zbus::zvariant::Error>)
    ensures
        r is Ok <==> is_object_path(path@),
        r matches Ok(p) ==> p == object_path_of(path@),
{
    OwnedObjectPath::try_from(path)
}

/// Makes a D-Bus object path of a string that is one.
fn valid_object_path(path: String) -> (p: OwnedObjectPath)
    requires
        is_object_path(path@),
    ensures
        p == object_path_of(path@),
{
    match owned_object_path(path) {
        Ok(p) => p,
        Err(_) => vstd::pervasive::unreached(),
    }
}

/// The BlueZ device object path for an adapter and an address, e.g.
/// `/org/bluez/hci0/dev_AA_BB_CC_DD_EE_FF`, made of `bluez_device_path_text`.
/// The adapter path must be an object path other than `/`.
pub fn bluez_device_path(adapter_path: &str, address: [u8; 6]) -> (p: OwnedObjectPath)
    requires
        is_object_path(adapter_path@),
        adapter_path@.len() > 1,
    ensures
        p == object_path_of(device_path_text(adapter_path@, address@)),
{
    valid_object_path(bluez_device_path_text(adapter_path, address))
}

/// Our provider-side object path for a device, e.g.
/// `/org/kairpods/battery/dev_AA_BB_CC_DD_EE_FF`, made of
/// `provider_object_path_text`.
pub fn provider_object_path(address: [u8; 6]) -> (p: OwnedObjectPath)
    ensures
        p == object_path_of(provider_path_text(address@)),
{
    valid_object_path(provider_object_path_text(address))
}

/// The root path of the provider as a D-Bus object path.
pub fn provider_root_path() -> (p: OwnedObjectPath)
    ensures
        p == object_path_of(PROVIDER_ROOT@),
{
    proof {
        reveal_strlit("/org/kairpods/battery");
        assert(PROVIDER_ROOT@ =~= seq!['/', 'o', 'r', 'g', '/', 'k', 'a', 'i', 'r', 'p', 'o', 'd', 's', '/', 'b', 'a', 't', 't', 'e', 'r', 'y']);
    }
    valid_object_path(String::from_str(PROVIDER_ROOT))
}


/// The interfaces of an object include the battery-provider manager.
pub open spec fn offers_provider_manager(interfaces: Seq<String>) -> bool {
    exists|j: int| 0 <= j < interfaces.len() && #[trigger] interfaces[j]@ == PROVIDER_MANAGER_INTERFACE@
}

/// Finds the first BlueZ object that exposes `BatteryProviderManager1`, given
/// the interface names of each managed object in the order listed; returns its
/// position.
pub fn find_adapter(objects: &Vec<Vec<String>>) -> (r: Option<usize>)
    ensures
        match r {
            Some(i) => i < objects@.len() && offers_provider_manager(objects@[i as int]@) && forall|
                j: int,
            | 0 <= j < i ==> !offers_provider_manager(#[trigger] objects@[j]@),
            None => forall|j: int|
                0 <= j < objects@.len() ==> !offers_provider_manager(#[trigger] objects@[j]@),
        },
{
    let mut i: usize = 0;
    while i < objects.len()
        invariant
            i <= objects@.len(),
            forall|j: int| 0 <= j < i ==> !offers_provider_manager(#[trigger] objects@[j]@),
        decreases objects.len() - i,
    {
        let interfaces = &objects[i];
        let mut k: usize = 0;
        while k < interfaces.len()
            invariant
                i < objects@.len(),
                *interfaces == objects@[i as int],
                forall|j: int| 0 <= j < i ==> !offers_provider_manager(#[trigger] objects@[j]@),
                k <= interfaces@.len(),
                forall|j: int| 0 <= j < k ==> #[trigger] interfaces@[j]@ != PROVIDER_MANAGER_INTERFACE@,
            decreases interfaces.len() - k,
        {
            if crate::bus_names::same_text(interfaces[k].as_str(), PROVIDER_MANAGER_INTERFACE) {
                assert(interfaces@[k as int]@ == PROVIDER_MANAGER_INTERFACE@);
                return Some(i);
            }
            k = k + 1;
        }
        assert(!offers_provider_manager(objects@[i as int]@));
        i = i + 1;
    }
    None
}

/// The number that keys an address: its six bytes, most significant first.
pub open spec fn address_key(a: Seq<u8>) -> u64 {
    ((a[0] as u64) << 40u64) | ((a[1] as u64) << 32u64) | ((a[2] as u64) << 24u64) | ((a[3] as u64)
        << 16u64) | ((a[4] as u64) << 8u64) | (a[5] as u64)
}

/// The address that a key stands for.
pub open spec fn key_address(k: u64) -> Seq<u8> {
    seq![
        (k >> 40u64) as u8,
        (k >> 32u64) as u8,
        (k >> 24u64) as u8,
        (k >> 16u64) as u8,
        (k >> 8u64) as u8,
        k as u8,
    ]
}

/// Keys are 48-bit numbers, and an address is got back from its key.
proof fn lemma_address_key(a: Seq<u8>)
    requires
        a.len() == 6,
    ensures
        address_key(a) < 0x1_0000_0000_0000,
        key_address(address_key(a)) == a,
{
    let (b0, b1, b2, b3, b4, b5) = (a[0], a[1], a[2], a[3], a[4], a[5]);
    let k: u64 = address_key(a);
    assert(k == ((b0 as u64) << 40u64) | ((b1 as u64) << 32u64) | ((b2 as u64) << 24u64) | ((
    b3 as u64) << 16u64) | ((b4 as u64) << 8u64) | (b5 as u64));
    assert(k < 0x1_0000_0000_0000 && (k >> 40u64) as u8 == b0 && (k >> 32u64) as u8 == b1 && (k
        >> 24u64) as u8 == b2 && (k >> 16u64) as u8 == b3 && (k >> 8u64) as u8 == b4 && k as u8
        == b5) by (bit_vector)
        requires
            k == ((b0 as u64) << 40u64) | ((b1 as u64) << 32u64) | ((b2 as u64) << 24u64) | ((
            b3 as u64) << 16u64) | ((b4 as u64) << 8u64) | (b5 as u64),
    ;
    assert(key_address(k) =~= a);
}

/// A 48-bit key is the key of the address it stands for.
proof fn lemma_key_address(k: u64)
    requires
        k < 0x1_0000_0000_0000,
    ensures
        address_key(key_address(k)) == k,
{
    let a = key_address(k);
    let (b0, b1, b2, b3, b4, b5) = (a[0], a[1], a[2], a[3], a[4], a[5]);
    assert(((b0 as u64) << 40u64) | ((b1 as u64) << 32u64) | ((b2 as u64) << 24u64) | ((b3 as u64)
        << 16u64) | ((b4 as u64) << 8u64) | (b5 as u64) == k) by (bit_vector)
        requires
            k < 0x1_0000_0000_0000,
            b0 == (k >> 40u64) as u8,
            b1 == (k >> 32u64) as u8,
            b2 == (k >> 24u64) as u8,
            b3 == (k >> 16u64) as u8,
            b4 == (k >> 8u64) as u8,
            b5 == k as u8,
    ;
}

fn key_of(address: [u8; 6]) -> (k: u64)
    ensures
        k == address_key(address@),
        k < 0x1_0000_0000_0000,
        key_address(k) == address@,
{
    proof {
        lemma_address_key(address@);
    }
    ((address[0] as u64) << 40u64) | ((address[1] as u64) << 32u64) | ((address[2] as u64) << 24u64)
        | ((address[3] as u64) << 16u64) | ((address[4] as u64) << 8u64) | (address[5] as u64)
}

fn address_of(k: u64) -> (a: [u8; 6])
    requires
        k < 0x1_0000_0000_0000,
    ensures
        a@ == key_address(k),
        address_key(a@) == k,
{
    proof {
        lemma_key_address(k);
    }
    let a = [
        (k >> 40u64) as u8,
        (k >> 32u64) as u8,
        (k >> 24u64) as u8,
        (k >> 16u64) as u8,
        (k >> 8u64) as u8,
        k as u8,
    ];
    assert(a@ =~= key_address(k));
    a
}

/// The battery objects that we have registered, by device: each device's
/// object lives at its provider path.
pub struct BatteryObjects {
    objects: HashMap<u64, String>,
}

impl BatteryObjects {
    #[verifier::type_invariant]
    spec fn well_formed(self) -> bool {
        forall|k: u64|
            #[trigger] self.objects@.contains_key(k) ==> k < 0x1_0000_0000_0000
                && self.objects@[k]@ == provider_path_text(key_address(k))
    }
}

impl View for BatteryObjects {
    type V = Set<Seq<u8>>;

    /// The addresses of the devices with a battery object.
    closed spec fn view(&self) -> Set<Seq<u8>> {
        Set::new(|a: Seq<u8>| a.len() == 6 && self.objects@.contains_key(address_key(a)))
    }
}

impl BatteryObjects {
    /// No battery object yet.
    pub fn new() -> (b: Self)
        ensures
            b@ == Set::<Seq<u8>>::empty(),
    {
        let b = BatteryObjects { objects: HashMap::new() };
        assert(b@ =~= Set::<Seq<u8>>::empty());
        b
    }

    /// Whether the device has a battery object.
    pub fn contains(&self, address: [u8; 6]) -> (b: bool)
        ensures
            b == self@.contains(address@),
    {
        broadcast use vstd::std_specs::hash::group_hash_axioms;
        let k: u64 = key_of(address);
        self.objects.contains_key(&k)
    }

    /// Records the battery object of a device, at its provider path.
    pub fn insert(&mut self, address: [u8; 6])
        ensures
            final(self)@ == old(self)@.insert(address@),
    {
        broadcast use vstd::std_specs::hash::group_hash_axioms;
        proof {
            use_type_invariant(&*self);
        }
        let k: u64 = key_of(address);
        let path = provider_object_path_text(address);
        let mut objects = HashMap::new();
        std::mem::swap(&mut objects, &mut self.objects);
        objects.insert(k, path);
        proof {
            lemma_address_key(address@);
        }
        self.objects = objects;
        proof {
            assert forall|a: Seq<u8>| #[trigger] self@.contains(a) == old(self)@.insert(address@).contains(a) by {
                if a.len() == 6 && a != address@ {
                    lemma_address_key(a);
                }
            }
        }
        assert(self@ =~= old(self)@.insert(address@));
    }

    /// Records the battery object of a device once serving it on the bus has
    /// succeeded; a failed serve leaves the record as it was.
    pub fn record_served(&mut self, address: [u8; 6], served: bool)
        ensures
            served ==> final(self)@ == old(self)@.insert(address@),
            !served ==> final(self)@ == old(self)@,
    {
        if served {
            self.insert(address);
        }
    }

    /// Forgets the battery object of a device; returns its path if there was one.
    pub fn remove(&mut self, address: [u8; 6]) -> (r: Option<String>)
        ensures
            r is Some <==> old(self)@.contains(address@),
            r matches Some(p) ==> p@ == provider_path_text(address@),
            final(self)@ == old(self)@.remove(address@),
    {
        broadcast use vstd::std_specs::hash::group_hash_axioms;
        proof {
            use_type_invariant(&*self);
        }
        let k: u64 = key_of(address);
        let mut objects = HashMap::new();
        std::mem::swap(&mut objects, &mut self.objects);
        let r = objects.remove(&k);
        self.objects = objects;
        proof {
            assert forall|a: Seq<u8>| #[trigger] self@.contains(a) == old(self)@.remove(address@).contains(a) by {
                if a.len() == 6 && a != address@ {
                    lemma_address_key(a);
                }
            }
        }
        assert(self@ =~= old(self)@.remove(address@));
        r
    }

    /// The addresses of all devices with a battery object, each once, in no
    /// particular order.
    pub fn addresses(&self) -> (r: Vec<[u8; 6]>)
        ensures
            forall|i: int| 0 <= i < r@.len() ==> self@.contains(#[trigger] r@[i]@),
            forall|a: Seq<u8>| #[trigger] self@.contains(a) ==> exists|i: int| 0 <= i < r@.len() && #[trigger] r@[i]@ == a,
            forall|i: int, j: int| 0 <= i < j < r@.len() ==> #[trigger] r@[i]@ != #[trigger] r@[j]@,
    {
        broadcast use vstd::std_specs::hash::group_hash_axioms;
        proof {
            use_type_invariant(self);
        }
        let keys = self.objects.keys();
        let ghost ks = keys.remaining().unref();
        proof {
            assert(ks.to_set() == self.objects@.dom());
            assert(keys.remaining().no_duplicates());
            assert(ks.no_duplicates());
            assert(ks.len() == keys.remaining().len());
        }
        let mut r: Vec<[u8; 6]> = Vec::new();
        for k in it: keys
            invariant
                forall|k: u64| #[trigger] self.objects@.contains_key(k) ==> k < 0x1_0000_0000_0000,
                it.seq().unref() == ks,
                ks.to_set() == self.objects@.dom(),
                ks.no_duplicates(),
                r@.len() == it.index(),
                forall|i: int| 0 <= i < r@.len() ==> #[trigger] r@[i]@ == key_address(ks[i]),
        {
            assert(ks[it.index()] == *k);
            assert(ks.to_set().contains(*k));
            let a = address_of(*k);
            r.push(a);
        }
        proof {
            assert forall|i: int| 0 <= i < r@.len() implies self@.contains(#[trigger] r@[i]@) by {
                assert(ks.to_set().contains(ks[i]));
                lemma_key_address(ks[i]);
            }
            assert forall|a: Seq<u8>| #[trigger] self@.contains(a) implies exists|i: int|
                0 <= i < r@.len() && #[trigger] r@[i]@ == a by {
                lemma_address_key(a);
                assert(ks.to_set().contains(address_key(a)));
                let i: int = choose|i: int| 0 <= i < ks.len() && ks[i] == address_key(a);
                assert(r@[i]@ == a);
            }
            assert forall|i: int, j: int| 0 <= i < j < r@.len() implies #[trigger] r@[i]@
                != #[trigger] r@[j]@ by {
                assert(ks.to_set().contains(ks[i]));
                assert(ks.to_set().contains(ks[j]));
                lemma_key_address(ks[i]);
                lemma_key_address(ks[j]);
            }
        }
        r
    }
}


/// Sets the percentage that a battery object reports; returns whether it
/// changed, which is when BlueZ must be told.
pub fn apply_percentage(current: &mut u8, percentage: u8) -> (changed: bool)
    ensures
        changed == (*old(current) != percentage),
        *final(current) == percentage,
{
    if *current != percentage {
        *current = percentage;
        true
    } else {
        false
    }
}

/// A battery object recorded and then forgotten leaves the other devices as
/// they were; forgetting it again finds nothing.
pub proof fn lemma_remove_undoes_insert(before: Set<Seq<u8>>, address: Seq<u8>)
    requires
        !before.contains(address),
    ensures
        before.insert(address).remove(address) == before,
        !before.insert(address).remove(address).contains(address),
{
    assert(before.insert(address).remove(address) =~= before);
}

} // verus!
