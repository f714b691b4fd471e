//! Reading the network state out of what the system tools print.
//!
//! The tools are run by the caller. This module takes their output as text
//! and finds in it the SSID of the Wi-Fi network in use, the address of the
//! default gateway and the MAC address of a neighbour.

use vstd::prelude::*;
use vstd::string::*;
use crate::autoswitch::AutoSwitchService;
use crate::text::{
    bounds_within, chars_of, contains_text, copy_range, has_substring, lowercase, pieces_of,
    range_starts_with, split, split_bounds, split_words, starts_with, texts_of, to_lowercase, words,
};

verus! {

/// How many lines a text has that the line feeds cut into `pieces`: a last
/// piece that is empty is no line.
pub open spec fn line_count(pieces: Seq<Seq<char>>) -> nat {
    if pieces.len() > 0 && pieces.last().len() == 0 {
        (pieces.len() - 1) as nat
    } else {
        pieces.len()
    }
}

/// The `k`-th line: the `k`-th piece, without the carriage return before the
/// line feed that ended it, if there was one.
pub open spec fn line_text(pieces: Seq<Seq<char>>, k: int) -> Seq<char> {
    let piece = pieces[k];
    if k < pieces.len() - 1 && piece.len() > 0 && piece.last() == '\r' {
        piece.drop_last()
    } else {
        piece
    }
}

/// The lines of a text. A line ends with a line feed, or with a carriage
/// return and a line feed; the last line may end with the text.
pub open spec fn lines_of(s: Seq<char>) -> Seq<Seq<char>> {
    let pieces = split(s, '\n');
    Seq::new(line_count(pieces), |k: int| line_text(pieces, k))
}

/// The bounds of the lines of `chars`.
pub fn line_bounds(chars: &Vec<char>) -> (r: Vec<(usize, usize)>)
    ensures
        bounds_within(r@, chars@.len()),
        pieces_of(chars@, r@) == lines_of(chars@),
{
    let pieces: Vec<(usize, usize)> = split_bounds(chars, '\n');
    let ghost texts = split(chars@, '\n');
    let n: usize = pieces.len();
    let (last_start, last_end) = pieces[n - 1];
    assert(pieces_of(chars@, pieces@)[n - 1] == texts[n - 1]);
    let count: usize = if last_start == last_end {
        n - 1
    } else {
        n
    };
    assert(count == line_count(texts));
    let mut r: Vec<(usize, usize)> = Vec::new();
    let mut k: usize = 0;
    while k < count
        invariant
            k <= count <= n,
            n == pieces@.len(),
            texts == split(chars@, '\n'),
            pieces_of(chars@, pieces@) == texts,
            bounds_within(pieces@, chars@.len()),
            bounds_within(r@, chars@.len()),
            r@.len() == k,
            forall|j: int|
                0 <= j < k ==> chars@.subrange((#[trigger] r@[j]).0 as int, r@[j].1 as int)
                    == line_text(texts, j),
        decreases count - k,
    {
        let (a, b) = pieces[k];
        assert(pieces_of(chars@, pieces@)[k as int] == texts[k as int]);
        let end: usize = if k < n - 1 && a < b && chars[b - 1] == '\r' {
            assert(chars@.subrange(a as int, b as int).drop_last() =~= chars@.subrange(
                a as int,
                b - 1,
            ));
            b - 1
        } else {
            b
        };
        r.push((a, end));
        k += 1;
    }
    assert(pieces_of(chars@, r@) =~= lines_of(chars@));
    r
}

/// `s` without the copies of `prefix` that it starts with.
pub open spec fn strip_repeated(s: Seq<char>, prefix: Seq<char>) -> Seq<char>
    decreases s.len(),
{
    if prefix.len() > 0 && starts_with(s, prefix) {
        strip_repeated(s.skip(prefix.len() as int), prefix)
    } else {
        s
    }
}

/// The SSID that a list of Wi-Fi networks marks as the one in use: what
/// follows `yes:` on the first line that starts with it.
pub open spec fn active_ssid(lines: Seq<Seq<char>>) -> Option<Seq<char>>
    decreases lines.len(),
{
    if lines.len() == 0 {
        None
    } else if starts_with(lines[0], "yes:"@) {
        Some(strip_repeated(lines[0], "yes:"@))
    } else {
        active_ssid(lines.skip(1))
    }
}

/// The `n`-th word of the first line of `output`, if there is one.
pub open spec fn first_line_word(output: Seq<char>, n: int) -> Option<Seq<char>> {
    let lines = lines_of(output);
    if lines.len() == 0 {
        None
    } else if 0 <= n < words(lines[0]).len() {
        Some(words(lines[0])[n])
    } else {
        None
    }
}

/// The address of the default gateway in the output of `ip route show
/// default`: the third word of its first line.
pub open spec fn gateway_address_of(output: Seq<char>) -> Option<Seq<char>> {
    first_line_word(output, 2)
}

/// The MAC address in the output of `ip neigh show` for one address: the
/// fifth word of its first line, in lower case.
pub open spec fn neighbour_mac_of(output: Seq<char>) -> Option<Seq<char>> {
    match first_line_word(output, 4) {
        Some(word) => Some(lowercase(word)),
        None => None,
    }
}

/// The text of an optional string.
pub open spec fn text_of(s: Option<String>) -> Option<Seq<char>> {
    match s {
        Some(t) => Some(t@),
        None => None,
    }
}

/// The `n`-th word of the first line of `output`, counted from 0.
pub fn word_of_first_line(output: &str, n: usize) -> (r: Option<String>)
    ensures
        text_of(r) == first_line_word(output@, n as int),
{
    let chars: Vec<char> = chars_of(output);
    let lines: Vec<(usize, usize)> = line_bounds(&chars);
    if lines.len() == 0 {
        return None;
    }
    let (a, b) = lines[0];
    assert(pieces_of(chars@, lines@)[0] == lines_of(output@)[0]);
    let line: Vec<char> = copy_range(&chars, a, b);
    let found: Vec<(usize, usize)> = split_words(&line);
    if n >= found.len() {
        return None;
    }
    let (x, y) = found[n];
    assert(pieces_of(line@, found@)[n as int] == words(line@)[n as int]);
    assert(line@.subrange(x as int, y as int) =~= chars@.subrange(a + x, a + y));
    Some(String::from_str(output.substring_char(a + x, a + y)))
}

impl AutoSwitchService {
    /// Finds the SSID of the Wi-Fi network in use in the output of
    /// `nmcli -t -f active,ssid dev wifi`.
    pub fn get_current_ssid(wifi_list: &str) -> (r: Option<String>)
        ensures
            text_of(r) == active_ssid(lines_of(wifi_list@)),
    {
        let chars: Vec<char> = chars_of(wifi_list);
        let marker: Vec<char> = chars_of("yes:");
        proof {
            reveal_strlit("yes:");
        }
        let lines: Vec<(usize, usize)> = line_bounds(&chars);
        let ghost all = lines_of(wifi_list@);
        let mut k: usize = 0;
        assert(all.skip(0) =~= all);
        while k < lines.len()
            invariant
                k <= lines@.len(),
                chars@ == wifi_list@,
                marker@ == "yes:"@,
                marker@.len() == 4,
                all == lines_of(wifi_list@),
                bounds_within(lines@, chars@.len()),
                pieces_of(chars@, lines@) == all,
                active_ssid(all) == active_ssid(all.skip(k as int)),
            decreases lines@.len() - k,
        {
            let (a, b) = lines[k];
            assert(pieces_of(chars@, lines@)[k as int] == all[k as int]);
            assert(all.skip(k as int)[0] == all[k as int]);
            assert(all.skip(k as int).skip(1) =~= all.skip(k + 1));
            if range_starts_with(&chars, a, b, &marker) {
                let mut start: usize = a;
                while range_starts_with(&chars, start, b, &marker)
                    invariant
                        a <= start <= b <= chars@.len(),
                        marker@ == "yes:"@,
                        marker@.len() == 4,
                        strip_repeated(chars@.subrange(a as int, b as int), marker@)
                            == strip_repeated(chars@.subrange(start as int, b as int), marker@),
                    decreases b - start,
                {
                    assert(chars@.subrange(start as int, b as int).skip(4) =~= chars@.subrange(
                        start + 4,
                        b as int,
                    ));
                    start += 4;
                }
                return Some(String::from_str(wifi_list.substring_char(start, b)));
            }
            k += 1;
        }
        None
    }

    /// Finds the address of the default gateway in the output of
    /// `ip route show default`.
    pub fn gateway_address(routes: &str) -> (r: Option<String>)
        ensures
            text_of(r) == gateway_address_of(routes@),
    {
        word_of_first_line(routes, 2)
    }

    /// Finds the MAC address of the gateway in the output of `ip neigh show`
    /// for its address, and returns it in lower case.
    pub fn get_gateway_mac(neighbours: &str) -> (r: Option<String>)
        ensures
            text_of(r) == neighbour_mac_of(neighbours@),
    {
        match word_of_first_line(neighbours, 4) {
            Some(word) => Some(to_lowercase(word.as_str())),
            None => None,
        }
    }
}

/// The name of the VPN connection that a line of `NAME:TYPE` names: what
/// stands before the first colon, where what stands between the first and
/// the second holds `vpn`.
pub open spec fn vpn_name(line: Seq<char>) -> Option<Seq<char>> {
    let parts = split(line, ':');
    if parts.len() >= 2 && has_substring(parts[1], "vpn"@) {
        Some(parts[0])
    } else {
        None
    }
}

/// The names of the VPN connections that the lines name, in their order.
pub open spec fn vpn_names(lines: Seq<Seq<char>>) -> Seq<Seq<char>>
    decreases lines.len(),
{
    if lines.len() == 0 {
        Seq::empty()
    } else {
        match vpn_name(lines.last()) {
            Some(name) => vpn_names(lines.drop_last()).push(name),
            None => vpn_names(lines.drop_last()),
        }
    }
}

/// Finds the VPN connections in the output of
/// `nmcli -t -f NAME,TYPE connection show`.
pub fn detect_vpn_connections(output: &str) -> (r: Vec<String>)
    ensures
        texts_of(r@) == vpn_names(lines_of(output@)),
{
    let chars: Vec<char> = chars_of(output);
    let needle: Vec<char> = chars_of("vpn");
    let lines: Vec<(usize, usize)> = line_bounds(&chars);
    let ghost all = lines_of(output@);
    let mut out: Vec<String> = Vec::new();
    let mut k: usize = 0;
    assert(all.subrange(0, 0) =~= Seq::<Seq<char>>::empty());
    assert(texts_of(out@) =~= Seq::<Seq<char>>::empty());
    while k < lines.len()
        invariant
            k <= lines@.len(),
            chars@ == output@,
            needle@ == "vpn"@,
            all == lines_of(output@),
            bounds_within(lines@, chars@.len()),
            pieces_of(chars@, lines@) == all,
            texts_of(out@) == vpn_names(all.subrange(0, k as int)),
        decreases lines@.len() - k,
    {
        let (a, b) = lines[k];
        assert(pieces_of(chars@, lines@)[k as int] == all[k as int]);
        assert(all.subrange(0, k + 1).drop_last() =~= all.subrange(0, k as int));
        assert(all.subrange(0, k + 1).last() == all[k as int]);
        let line: Vec<char> = copy_range(&chars, a, b);
        let parts: Vec<(usize, usize)> = split_bounds(&line, ':');
        if parts.len() >= 2 {
            let (x, y) = parts[1];
            let (n0, n1) = parts[0];
            assert(pieces_of(line@, parts@)[1] == split(line@, ':')[1]);
            assert(pieces_of(line@, parts@)[0] == split(line@, ':')[0]);
            let kind: Vec<char> = copy_range(&line, x, y);
            if contains_text(&kind, &needle) {
                let ghost before = texts_of(out@);
                assert(line@.subrange(n0 as int, n1 as int) =~= chars@.subrange(a + n0, a + n1));
                out.push(String::from_str(output.substring_char(a + n0, a + n1)));
                assert(texts_of(out@) =~= before.push(line@.subrange(n0 as int, n1 as int)));
            }
        }
        k += 1;
    }
    assert(all.subrange(0, k as int) =~= all);
    out
}

/// No text occurs twice in `names`.
pub open spec fn all_different(names: Seq<Seq<char>>) -> bool {
    forall|a: int, b: int| 0 <= a < b < names.len() ==> #[trigger] names[a] != #[trigger] names[b]
}

/// Finds the Wi-Fi networks in the output of
/// `nmcli -t -f SSID device wifi list`: its lines that are not empty, each
/// once, in the order in which they first occur.
pub fn detect_wifi_networks(output: &str) -> (r: Vec<String>)
    ensures
        all_different(texts_of(r@)),
        forall|k: int|
            0 <= k < r@.len() ==> (#[trigger] r@[k])@.len() > 0 && lines_of(output@).contains(
                r@[k]@,
            ),
        forall|j: int|
            0 <= j < lines_of(output@).len() && (#[trigger] lines_of(output@)[j]).len() > 0
                ==> texts_of(r@).contains(lines_of(output@)[j]),
{
    let chars: Vec<char> = chars_of(output);
    let lines: Vec<(usize, usize)> = line_bounds(&chars);
    let ghost all = lines_of(output@);
    let mut out: Vec<String> = Vec::new();
    let mut k: usize = 0;
    while k < lines.len()
        invariant
            k <= lines@.len(),
            chars@ == output@,
            all == lines_of(output@),
            bounds_within(lines@, chars@.len()),
            pieces_of(chars@, lines@) == all,
            all_different(texts_of(out@)),
            forall|i: int|
                0 <= i < out@.len() ==> (#[trigger] out@[i])@.len() > 0 && all.contains(out@[i]@),
            forall|j: int|
                0 <= j < k && (#[trigger] all[j]).len() > 0 ==> texts_of(out@).contains(all[j]),
        decreases lines@.len() - k,
    {
        let (a, b) = lines[k];
        assert(pieces_of(chars@, lines@)[k as int] == all[k as int]);
        if a < b {
            let line: String = String::from_str(output.substring_char(a, b));
            let mut seen: bool = false;
            let mut i: usize = 0;
            while i < out.len()
                invariant
                    i <= out@.len(),
                    seen == exists|m: int| 0 <= m < i && (#[trigger] out@[m])@ == line@,
                decreases out@.len() - i,
            {
                if out[i] == line {
                    seen = true;
                }
                i += 1;
            }
            let ghost before = texts_of(out@);
            if !seen {
                out.push(line);
                proof {
                    let after = texts_of(out@);
                    assert(after =~= before.push(all[k as int]));
                    assert forall|j: int| 0 <= j < k + 1 && (#[trigger] all[j]).len()
                        > 0 implies after.contains(all[j]) by {
                        if j < k {
                            let m = choose|m: int| 0 <= m < before.len() && before[m] == all[j];
                            assert(after[m] == all[j]);
                        } else {
                            assert(after[before.len() as int] == all[j]);
                        }
                    }
                    assert forall|x: int, y: int| 0 <= x < y < after.len() implies #[trigger] after[x]
                        != #[trigger] after[y] by {
                        if y == before.len() {
                            assert(out@[x]@ == before[x]);
                        } else {
                            assert(before[x] != before[y]);
                        }
                    }
                }
            } else {
                proof {
                    let m = choose|m: int| 0 <= m < out@.len() && (#[trigger] out@[m])@ == line@;
                    assert(before[m] == all[k as int]);
                }
            }
        }
        k += 1;
    }
    out
}

} // verus!
