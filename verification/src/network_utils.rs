//! Helpers for network interface names.

use vstd::prelude::*;
use vstd::string::*;
use crate::adapter::{AdapterInfo, AdapterType};
use crate::text::{
    chars_of, contains_text, has_substring, is_digit, parse_decimal, parse_u32, parse_u32_spec,
    parse_u64, range_equals, range_starts_with, starts_with, to_uppercase, trim, trim_bounds,
    trimmed_equals, uppercase,
};

verus! {

/// Whether an interface of the name `name` is taken for a virtual one: a
/// bridge, a tunnel, a container interface and the like.
pub open spec fn virtual_name(name: Seq<char>) -> bool {
    ||| starts_with(name, "veth"@)
    ||| starts_with(name, "br"@)
    ||| starts_with(name, "virbr"@)
    ||| starts_with(name, "docker"@)
    ||| starts_with(name, "vnet"@)
    ||| starts_with(name, "tun"@)
    ||| starts_with(name, "tap"@)
    ||| starts_with(name, "bond"@)
    ||| starts_with(name, "team"@)
    ||| starts_with(name, "vlan"@)
    ||| has_substring(name, "podman"@)
}

fn name_starts_with(chars: &Vec<char>, prefix: &str) -> (r: bool)
    ensures
        r == starts_with(chars@, prefix@),
{
    let p: Vec<char> = chars_of(prefix);
    assert(chars@.subrange(0, chars@.len() as int) =~= chars@);
    range_starts_with(chars, 0, chars.len(), &p)
}

/// Whether the interface name `name` suggests a virtual interface.
pub fn is_virtual_interface(name: &str) -> (r: bool)
    ensures
        r == virtual_name(name@),
{
    let chars: Vec<char> = chars_of(name);
    let podman: Vec<char> = chars_of("podman");
    name_starts_with(&chars, "veth") || name_starts_with(&chars, "br") || name_starts_with(
        &chars,
        "virbr",
    ) || name_starts_with(&chars, "docker") || name_starts_with(&chars, "vnet") || name_starts_with(
        &chars,
        "tun",
    ) || name_starts_with(&chars, "tap") || name_starts_with(&chars, "bond") || name_starts_with(
        &chars,
        "team",
    ) || name_starts_with(&chars, "vlan") || contains_text(&chars, &podman)
}

/// The characters of `s` that are digits (`digits` set) or that are not, in order.
pub open spec fn keep(s: Seq<char>, digits: bool) -> Seq<char>
    decreases s.len(),
{
    if s.len() == 0 {
        Seq::empty()
    } else if is_digit(s.last()) == digits {
        keep(s.drop_last(), digits).push(s.last())
    } else {
        keep(s.drop_last(), digits)
    }
}

/// The number by which a name is sorted: the one that its digits spell
/// when read in a row, or 0 where they spell no `u32`.
pub open spec fn sort_number(s: Seq<char>) -> u32 {
    match parse_u32_spec(keep(s, true)) {
        Some(n) => n,
        None => 0,
    }
}

/// The key by which interface names sort naturally, `eth2` before `eth10`:
/// the name without its digits, and the number that its digits spell.
pub fn natural_sort_key(s: &str) -> (r: (String, u32))
    ensures
        r.0@ == keep(s@, false),
        r.1 == sort_number(s@),
{
    let n: usize = s.unicode_len();
    let mut prefix: String = String::new();
    let mut digits: Vec<char> = Vec::new();
    let mut i: usize = 0;
    assert(s@.subrange(0, 0) =~= Seq::<char>::empty());
    while i < n
        invariant
            n == s@.len(),
            i <= n,
            prefix@ == keep(s@.subrange(0, i as int), false),
            digits@ == keep(s@.subrange(0, i as int), true),
        decreases n - i,
    {
        let c: char = s.get_char(i);
        let ghost upto = s@.subrange(0, i + 1);
        assert(upto.drop_last() =~= s@.subrange(0, i as int));
        assert(upto.last() == c);
        if '0' <= c && c <= '9' {
            digits.push(c);
        } else {
            let piece: &str = s.substring_char(i, i + 1);
            assert(piece@ =~= seq![c]);
            prefix.append(piece);
            assert(prefix@ =~= keep(upto, false));
        }
        i += 1;
    }
    assert(s@.subrange(0, n as int) =~= s@);
    assert(digits@.subrange(0, digits@.len() as int) =~= digits@);
    let num: u32 = match parse_u32(&digits, 0, digits.len()) {
        Some(v) => v,
        None => 0,
    };
    (prefix, num)
}

/// What the system tells of one network interface, as far as it could be read.
#[derive(Clone, Debug)]
pub struct AdapterFacts {
    /// Whether the interface has a directory of wireless settings.
    pub has_wireless_dir: bool,
    /// The text of its `uevent` file.
    pub uevent: Option<String>,
    /// The text of its `type` file: the number of its hardware type.
    pub type_text: Option<String>,
    /// The text of its `address` file.
    pub address: Option<String>,
    /// The text of its `operstate` file.
    pub operstate: Option<String>,
    /// The text of its `speed` file.
    pub speed: Option<String>,
    /// The name of its driver.
    pub driver: Option<String>,
}

/// The text of an optional string.
pub open spec fn text_of(s: Option<String>) -> Option<Seq<char>> {
    match s {
        Some(t) => Some(t@),
        None => None,
    }
}

/// The hardware type that the `type` file names: the number it holds, 0
/// where it holds none; nothing where the file could not be read.
pub open spec fn hardware_type(type_text: Option<Seq<char>>) -> Option<u32> {
    match type_text {
        Some(text) => Some(
            match parse_u32_spec(trim(text)) {
                Some(n) => n,
                None => 0,
            },
        ),
        None => None,
    }
}

/// The name starts like that of a Wi-Fi interface.
pub open spec fn wifi_name(name: Seq<char>) -> bool {
    starts_with(name, "wl"@) || starts_with(name, "wlan"@) || starts_with(name, "wifi"@)
}

/// The name starts like that of an Ethernet interface.
pub open spec fn ethernet_name(name: Seq<char>) -> bool {
    starts_with(name, "en"@) || starts_with(name, "eth"@)
}

/// The kind of an interface, from what the system tells of it and from its name.
///
/// Wireless settings or a device type of `wlan` make it Wi-Fi. Else the
/// hardware type decides where it is Ethernet (1) or loopback (772); an
/// Ethernet interface with the name of a virtual one is virtual. Else the
/// name decides.
pub open spec fn adapter_kind(
    has_wireless_dir: bool,
    uevent: Option<Seq<char>>,
    type_text: Option<Seq<char>>,
    name: Seq<char>,
) -> AdapterType {
    if has_wireless_dir {
        AdapterType::Wifi
    } else if uevent is Some && has_substring(uevent.unwrap(), "DEVTYPE=wlan"@) {
        AdapterType::Wifi
    } else if hardware_type(type_text) == Some(1u32) {
        if virtual_name(name) {
            AdapterType::Virtual
        } else {
            AdapterType::Ethernet
        }
    } else if hardware_type(type_text) == Some(772u32) {
        AdapterType::Loopback
    } else if wifi_name(name) {
        AdapterType::Wifi
    } else if virtual_name(name) {
        AdapterType::Virtual
    } else if ethernet_name(name) {
        AdapterType::Ethernet
    } else {
        AdapterType::Other
    }
}

/// Tells the kind of the interface `name` from what the system tells of it.
pub fn determine_adapter_type(facts: &AdapterFacts, name: &str) -> (r: AdapterType)
    ensures
        r == adapter_kind(
            facts.has_wireless_dir,
            text_of(facts.uevent),
            text_of(facts.type_text),
            name@,
        ),
{
    if facts.has_wireless_dir {
        return AdapterType::Wifi;
    }
    match &facts.uevent {
        Some(uevent) => {
            let hay: Vec<char> = chars_of(uevent.as_str());
            let needle: Vec<char> = chars_of("DEVTYPE=wlan");
            if contains_text(&hay, &needle) {
                return AdapterType::Wifi;
            }
        },
        None => {},
    }
    match &facts.type_text {
        Some(text) => {
            let chars: Vec<char> = chars_of(text.as_str());
            assert(chars@.subrange(0, chars@.len() as int) =~= text@);
            let (a, b) = trim_bounds(&chars, 0, chars.len());
            let type_num: u32 = match parse_u32(&chars, a, b) {
                Some(n) => n,
                None => 0,
            };
            if type_num == 1 {
                if is_virtual_interface(name) {
                    return AdapterType::Virtual;
                }
                return AdapterType::Ethernet;
            }
            if type_num == 772 {
                return AdapterType::Loopback;
            }
        },
        None => {},
    }
    let chars: Vec<char> = chars_of(name);
    if name_starts_with(&chars, "wl") || name_starts_with(&chars, "wlan") || name_starts_with(
        &chars,
        "wifi",
    ) {
        return AdapterType::Wifi;
    }
    if is_virtual_interface(name) {
        return AdapterType::Virtual;
    }
    if name_starts_with(&chars, "en") || name_starts_with(&chars, "eth") {
        return AdapterType::Ethernet;
    }
    AdapterType::Other
}

/// Whether an interface of this name and kind is listed: not the loopback
/// interface `lo`, and neither virtual nor loopback by kind.
pub open spec fn listed(name: Seq<char>, kind: AdapterType) -> bool {
    name != "lo"@ && kind != AdapterType::Virtual && kind != AdapterType::Loopback
}

/// The hardware address that is shown: the text of the `address` file,
/// trimmed and in upper case, unless it is empty or all zeros.
pub open spec fn shown_address(address: Option<Seq<char>>) -> Option<Seq<char>> {
    match address {
        Some(text) => {
            let mac = uppercase(trim(text));
            if mac.len() > 0 && mac != "00:00:00:00:00:00"@ {
                Some(mac)
            } else {
                None
            }
        },
        None => None,
    }
}

/// The speed that is shown: the positive number that the `speed` file holds.
pub open spec fn shown_speed(speed: Option<Seq<char>>) -> Option<u32> {
    match speed {
        Some(text) => match parse_decimal(trim(text), i32::MAX as nat) {
            Some(n) => if n > 0 {
                Some(n as u32)
            } else {
                None
            },
            None => None,
        },
        None => None,
    }
}

/// Describes the interface `name` from what the system tells of it, or
/// returns `None` for an interface that is not listed.
pub fn describe_adapter(name: &str, facts: &AdapterFacts) -> (r: Option<AdapterInfo>)
    ensures
        ({
            let kind = adapter_kind(
                facts.has_wireless_dir,
                text_of(facts.uevent),
                text_of(facts.type_text),
                name@,
            );
            match r {
                None => !listed(name@, kind),
                Some(info) => {
                    &&& listed(name@, kind)
                    &&& info.name@ == name@
                    &&& info.adapter_type == kind
                    &&& text_of(info.mac_address) == shown_address(text_of(facts.address))
                    &&& info.is_connected == (facts.operstate matches Some(state) && trim(state@)
                        == "up"@)
                    &&& info.speed_mbps == shown_speed(text_of(facts.speed))
                    &&& info.description == facts.driver
                },
            }
        }),
{
    let name_chars: Vec<char> = chars_of(name);
    let lo: Vec<char> = chars_of("lo");
    assert(name_chars@.subrange(0, name_chars@.len() as int) =~= name@);
    if range_equals(&name_chars, 0, name_chars.len(), &lo) {
        return None;
    }
    let kind: AdapterType = determine_adapter_type(facts, name);
    if kind == AdapterType::Virtual || kind == AdapterType::Loopback {
        return None;
    }
    let mut info = AdapterInfo::new(name, kind);
    match &facts.address {
        Some(text) => {
            let chars: Vec<char> = chars_of(text.as_str());
            assert(chars@.subrange(0, chars@.len() as int) =~= text@);
            let (a, b) = trim_bounds(&chars, 0, chars.len());
            let mac: String = to_uppercase(text.as_str().substring_char(a, b));
            let zeros: String = String::from_str("00:00:00:00:00:00");
            if mac.as_str().unicode_len() > 0 && !(mac == zeros) {
                info.mac_address = Some(mac);
            }
        },
        None => {},
    }
    match &facts.operstate {
        Some(state) => {
            info.is_connected = trimmed_equals(state.as_str(), "up");
        },
        None => {},
    }
    match &facts.speed {
        Some(text) => {
            let chars: Vec<char> = chars_of(text.as_str());
            assert(chars@.subrange(0, chars@.len() as int) =~= text@);
            let (a, b) = trim_bounds(&chars, 0, chars.len());
            match parse_u64(&chars, a, b) {
                Some(speed) => {
                    if 0 < speed && speed <= 0x7FFF_FFFF {
                        info.speed_mbps = Some(speed as u32);
                    }
                },
                None => {},
            }
        },
        None => {},
    }
    info.description = facts.driver.clone();
    Some(info)
}

/// `a` comes before `b` in the order of a dictionary, character by character.
pub open spec fn lex_less(a: Seq<char>, b: Seq<char>) -> bool
    decreases a.len(),
{
    if b.len() == 0 {
        false
    } else if a.len() == 0 {
        true
    } else if a[0] != b[0] {
        a[0] < b[0]
    } else {
        lex_less(a.skip(1), b.skip(1))
    }
}

/// The order of a dictionary is transitive.
pub proof fn lemma_lex_less_transitive(a: Seq<char>, b: Seq<char>, c: Seq<char>)
    requires
        lex_less(a, b),
        lex_less(b, c),
    ensures
        lex_less(a, c),
    decreases a.len(),
{
    if a.len() > 0 && a[0] == b[0] && b[0] == c[0] {
        lemma_lex_less_transitive(a.skip(1), b.skip(1), c.skip(1));
    }
}

/// How two texts stand to each other in the order of a dictionary.
#[derive(Clone, Copy, Debug, PartialEq, Eq, Structural)]
pub enum Rank {
    Before,
    Same,
    After,
}

/// Tells how `a` stands to `b` in the order of a dictionary.
pub fn rank_texts(a: &Vec<char>, b: &Vec<char>) -> (r: Rank)
    ensures
        r == Rank::Before ==> lex_less(a@, b@),
        r == Rank::Same ==> a@ == b@,
        r == Rank::After ==> lex_less(b@, a@),
{
    let mut i: usize = 0;
    assert(a@.skip(0) =~= a@ && b@.skip(0) =~= b@);
    while i < a.len() && i < b.len()
        invariant
            i <= a@.len(),
            i <= b@.len(),
            a@.subrange(0, i as int) == b@.subrange(0, i as int),
            lex_less(a@, b@) == lex_less(a@.skip(i as int), b@.skip(i as int)),
            lex_less(b@, a@) == lex_less(b@.skip(i as int), a@.skip(i as int)),
        decreases a@.len() - i,
    {
        let ghost ra = a@.skip(i as int);
        let ghost rb = b@.skip(i as int);
        assert(ra[0] == a@[i as int] && rb[0] == b@[i as int]);
        if a[i] < b[i] {
            return Rank::Before;
        }
        if b[i] < a[i] {
            return Rank::After;
        }
        assert(ra.skip(1) =~= a@.skip(i + 1) && rb.skip(1) =~= b@.skip(i + 1));
        assert(a@.subrange(0, i + 1) =~= a@.subrange(0, i as int).push(a@[i as int]));
        assert(b@.subrange(0, i + 1) =~= b@.subrange(0, i as int).push(b@[i as int]));
        i += 1;
    }
    if i < b.len() {
        Rank::Before
    } else if i < a.len() {
        Rank::After
    } else {
        assert(a@.subrange(0, i as int) =~= a@ && b@.subrange(0, i as int) =~= b@);
        Rank::Same
    }
}

/// The sort key of a name, as plain values.
pub open spec fn sort_key(name: Seq<char>) -> (Seq<char>, u32) {
    (keep(name, false), sort_number(name))
}

/// The first key sorts before the second: by the texts, and by the numbers
/// where the texts are equal.
pub open spec fn key_less(a: (Seq<char>, u32), b: (Seq<char>, u32)) -> bool {
    lex_less(a.0, b.0) || (a.0 == b.0 && a.1 < b.1)
}

/// Of the names `names`, the one at `i` is listed before the one at `j`: its
/// key sorts first, or the keys are equal and it stands first.
pub open spec fn listed_before(names: Seq<Seq<char>>, i: int, j: int) -> bool {
    &&& 0 <= i < names.len()
    &&& 0 <= j < names.len()
    &&& (key_less(sort_key(names[i]), sort_key(names[j])) || (sort_key(names[i]) == sort_key(
        names[j],
    ) && i < j))
}

/// The place `i` occurs in `order`.
pub open spec fn holds_place(order: Seq<usize>, i: int) -> bool {
    exists|k: int| 0 <= k < order.len() && #[trigger] order[k] == i
}

/// `order` lists the places of all names, each once, sorted by their keys;
/// names of one key keep their order.
pub open spec fn is_natural_order(names: Seq<Seq<char>>, order: Seq<usize>) -> bool {
    &&& order.len() == names.len()
    &&& forall|a: int, b: int|
        0 <= a < b < order.len() ==> listed_before(
            names,
            #[trigger] order[a] as int,
            #[trigger] order[b] as int,
        )
    &&& forall|i: int| 0 <= i < names.len() ==> #[trigger] holds_place(order, i)
}

/// The names of the adapters.
pub open spec fn adapter_names(adapters: Seq<AdapterInfo>) -> Seq<Seq<char>> {
    adapters.map_values(|a: AdapterInfo| a.name@)
}

/// The order in which adapters are listed: naturally by name, `eth2` before `eth10`.
pub fn natural_order(adapters: &[AdapterInfo]) -> (order: Vec<usize>)
    ensures
        is_natural_order(adapter_names(adapters@), order@),
{
    let ghost names = adapter_names(adapters@);
    let mut keys: Vec<(Vec<char>, u32)> = Vec::new();
    let mut order: Vec<usize> = Vec::new();
    let mut i: usize = 0;
    while i < adapters.len()
        invariant
            i <= adapters@.len(),
            names == adapter_names(adapters@),
            keys@.len() == i,
            order@.len() == i,
            forall|k: int|
                0 <= k < i ==> (#[trigger] keys@[k]).0@ == sort_key(names[k]).0 && keys@[k].1
                    == sort_key(names[k]).1,
            forall|k: int| 0 <= k < order@.len() ==> (#[trigger] order@[k]) < i,
            forall|a: int, b: int|
                0 <= a < b < order@.len() ==> listed_before(
                    names,
                    #[trigger] order@[a] as int,
                    #[trigger] order@[b] as int,
                ),
            forall|j: int| 0 <= j < i ==> #[trigger] holds_place(order@, j),
        decreases adapters@.len() - i,
    {
        let (prefix, number) = natural_sort_key(adapters[i].name.as_str());
        let own: Vec<char> = chars_of(prefix.as_str());
        let ghost own_key = sort_key(names[i as int]);
        assert(own@ == own_key.0 && number == own_key.1);
        let mut pos: usize = 0;
        while pos < order.len() && !key_sorts_before(&own, number, &keys[order[pos]])
            invariant
                pos <= order@.len(),
                order@.len() == i,
                keys@.len() == i,
                i < adapters@.len(),
                names == adapter_names(adapters@),
                own@ == own_key.0,
                number == own_key.1,
                own_key == sort_key(names[i as int]),
                forall|k: int|
                    0 <= k < i ==> (#[trigger] keys@[k]).0@ == sort_key(names[k]).0 && keys@[k].1
                        == sort_key(names[k]).1,
                forall|k: int| 0 <= k < order@.len() ==> (#[trigger] order@[k]) < i,
                forall|a: int|
                    0 <= a < pos ==> !key_less(own_key, sort_key(names[#[trigger] order@[a] as int])),
            decreases order@.len() - pos,
        {
            pos += 1;
        }
        let ghost before = order@;
        proof {
            assert forall|a: int| 0 <= a < pos implies listed_before(
                names,
                #[trigger] before[a] as int,
                i as int,
            ) by {
                let other = sort_key(names[before[a] as int]);
                lemma_keys_compare(other, own_key);
            }
            assert forall|b: int| pos <= b < before.len() implies listed_before(
                names,
                i as int,
                #[trigger] before[b] as int,
            ) by {
                if b > pos {
                    assert(listed_before(names, before[pos as int] as int, before[b] as int));
                    lemma_key_less_transitive(
                        own_key,
                        sort_key(names[before[pos as int] as int]),
                        sort_key(names[before[b] as int]),
                    );
                }
            }
        }
        order.insert(pos, i);
        keys.push((own, number));
        proof {
            assert forall|a: int, b: int| 0 <= a < b < order@.len() implies listed_before(
                names,
                #[trigger] order@[a] as int,
                #[trigger] order@[b] as int,
            ) by {
                if b < pos {
                    assert(order@[a] == before[a] && order@[b] == before[b]);
                } else if b == pos {
                    assert(order@[a] == before[a]);
                } else if a < pos {
                    assert(order@[a] == before[a] && order@[b] == before[b - 1]);
                } else if a == pos {
                    assert(order@[b] == before[b - 1]);
                } else {
                    assert(order@[a] == before[a - 1] && order@[b] == before[b - 1]);
                }
            }
            assert forall|j: int| 0 <= j < i + 1 implies #[trigger] holds_place(order@, j) by {
                if j == i {
                    assert(order@[pos as int] == j);
                } else {
                    assert(holds_place(before, j));
                    let k = choose|k: int| 0 <= k < before.len() && #[trigger] before[k] == j;
                    if k < pos {
                        assert(order@[k] == j);
                    } else {
                        assert(order@[k + 1] == j);
                    }
                }
            }
            assert forall|k: int| 0 <= k < order@.len() implies (#[trigger] order@[k]) < i + 1 by {
                if k < pos {
                    assert(order@[k] == before[k]);
                } else if k > pos {
                    assert(order@[k] == before[k - 1]);
                }
            }
        }
        i += 1;
    }
    order
}

/// Whether the key `(text, number)` sorts before `other`.
fn key_sorts_before(text: &Vec<char>, number: u32, other: &(Vec<char>, u32)) -> (r: bool)
    ensures
        r == key_less((text@, number), (other.0@, other.1)),
{
    proof {
        lemma_lex_less_irreflexive(text@);
        if lex_less(text@, other.0@) && lex_less(other.0@, text@) {
            lemma_lex_less_transitive(text@, other.0@, text@);
        }
    }
    match rank_texts(text, &other.0) {
        Rank::Before => true,
        Rank::Same => number < other.1,
        Rank::After => false,
    }
}

/// No text comes before itself.
pub proof fn lemma_lex_less_irreflexive(a: Seq<char>)
    ensures
        !lex_less(a, a),
    decreases a.len(),
{
    if a.len() > 0 {
        lemma_lex_less_irreflexive(a.skip(1));
    }
}

/// Of two texts that differ, one comes before the other.
pub proof fn lemma_lex_less_total(a: Seq<char>, b: Seq<char>)
    ensures
        lex_less(a, b) || lex_less(b, a) || a == b,
    decreases a.len(),
{
    if a.len() > 0 && b.len() > 0 && a[0] == b[0] {
        lemma_lex_less_total(a.skip(1), b.skip(1));
        if a.skip(1) == b.skip(1) {
            assert(a =~= seq![a[0]] + a.skip(1));
            assert(b =~= seq![b[0]] + b.skip(1));
        }
    } else if a.len() == 0 && b.len() == 0 {
        assert(a =~= b);
    }
}

/// Of two keys, one sorts before the other or they are equal.
proof fn lemma_keys_compare(a: (Seq<char>, u32), b: (Seq<char>, u32))
    ensures
        key_less(a, b) || key_less(b, a) || a == b,
{
    lemma_lex_less_total(a.0, b.0);
}

/// The order of keys is transitive.
pub proof fn lemma_key_less_transitive(
    a: (Seq<char>, u32),
    b: (Seq<char>, u32),
    c: (Seq<char>, u32),
)
    requires
        key_less(a, b),
        key_less(b, c) || b == c,
    ensures
        key_less(a, c),
{
    if lex_less(a.0, b.0) && lex_less(b.0, c.0) {
        lemma_lex_less_transitive(a.0, b.0, c.0);
    }
}

} // verus!
