//! Comparison of release versions.

use vstd::prelude::*;
use vstd::string::*;
use crate::text::{chars_of, parse_decimal, parse_u64, pieces_of, split, split_bounds};

verus! {

/// A release that is newer than the running one.
#[derive(Clone, Debug)]
pub struct UpdateInfo {
    /// The version of the release, such as `1.2.0`.
    pub latest_version: String,
    /// Where the release can be had.
    pub download_url: String,
    /// The title of the release; may be empty.
    pub release_name: String,
}

/// The number that one part of a version spells; 0 where it spells none.
pub open spec fn part_number(part: Seq<char>) -> nat {
    match parse_decimal(part, u64::MAX as nat) {
        Some(n) => n,
        None => 0,
    }
}

/// The numbers of a version: its parts between the dots, each read as a number.
pub open spec fn version_numbers(version: Seq<char>) -> Seq<nat> {
    split(version, '.').map_values(|part: Seq<char>| part_number(part))
}

/// The `i`-th number of a version; 0 past its end.
pub open spec fn component(numbers: Seq<nat>, i: int) -> nat {
    if 0 <= i < numbers.len() {
        numbers[i]
    } else {
        0
    }
}

/// `remote` is greater than `local` at the first place where they differ,
/// the shorter one taken to go on with zeros.
pub open spec fn newer(remote: Seq<nat>, local: Seq<nat>) -> bool {
    exists|i: int|
        0 <= i && #[trigger] component(remote, i) > component(local, i) && forall|j: int|
            0 <= j < i ==> component(remote, j) == component(local, j)
}

/// Whether the version `remote` is strictly newer than the version `local`.
///
/// Versions are compared number by number. A part that is no number counts as 0.
pub fn is_newer(remote: &str, local: &str) -> (r: bool)
    ensures
        r == newer(version_numbers(remote@), version_numbers(local@)),
{
    let rc: Vec<char> = chars_of(remote);
    let lc: Vec<char> = chars_of(local);
    let rb: Vec<(usize, usize)> = split_bounds(&rc, '.');
    let lb: Vec<(usize, usize)> = split_bounds(&lc, '.');
    let ghost rn = version_numbers(remote@);
    let ghost ln = version_numbers(local@);
    let max_len: usize = if rb.len() > lb.len() {
        rb.len()
    } else {
        lb.len()
    };
    let mut i: usize = 0;
    while i < max_len
        invariant
            i <= max_len,
            rc@ == remote@,
            lc@ == local@,
            rn == version_numbers(remote@),
            ln == version_numbers(local@),
            rb@.len() == rn.len(),
            lb@.len() == ln.len(),
            max_len >= rb@.len(),
            max_len >= lb@.len(),
            pieces_of(rc@, rb@) == split(rc@, '.'),
            pieces_of(lc@, lb@) == split(lc@, '.'),
            crate::text::bounds_within(rb@, rc@.len()),
            crate::text::bounds_within(lb@, lc@.len()),
            forall|j: int| 0 <= j < i ==> component(rn, j) == component(ln, j),
        decreases max_len - i,
    {
        let rv: u64 = number_at(&rc, &rb, i);
        let lv: u64 = number_at(&lc, &lb, i);
        assert(rv == component(rn, i as int)) by {
            if i < rb@.len() {
                assert(pieces_of(rc@, rb@)[i as int] == split(rc@, '.')[i as int]);
            }
        }
        assert(lv == component(ln, i as int)) by {
            if i < lb@.len() {
                assert(pieces_of(lc@, lb@)[i as int] == split(lc@, '.')[i as int]);
            }
        }
        if rv > lv {
            return true;
        }
        if rv < lv {
            assert forall|k: int| 0 <= k && #[trigger] component(rn, k) > component(
                ln,
                k,
            ) implies !(forall|j: int| 0 <= j < k ==> component(rn, j) == component(ln, j)) by {
                if k > i {
                    assert(component(rn, i as int) != component(ln, i as int));
                }
            }
            return false;
        }
        i += 1;
    }
    assert forall|k: int| 0 <= k implies !(#[trigger] component(rn, k) > component(ln, k)) by {
        if k >= max_len {
            assert(component(rn, k) == 0);
        }
    }
    false
}

/// The number of the `i`-th piece; 0 where there is no such piece or it is no number.
fn number_at(chars: &Vec<char>, bounds: &Vec<(usize, usize)>, i: usize) -> (r: u64)
    requires
        crate::text::bounds_within(bounds@, chars@.len()),
    ensures
        i < bounds@.len() ==> r == part_number(
            chars@.subrange(bounds@[i as int].0 as int, bounds@[i as int].1 as int),
        ),
        i >= bounds@.len() ==> r == 0,
{
    if i < bounds.len() {
        let (a, b) = bounds[i];
        match parse_u64(chars, a, b) {
            Some(v) => v,
            None => 0,
        }
    } else {
        0
    }
}

/// The most bytes of an answer of the release server that are looked at.
pub const MAX_RESPONSE_BYTES: usize = 524288;

/// Whether an answer of `len` bytes is looked at.
pub fn response_fits(len: usize) -> (r: bool)
    ensures
        r == (len <= MAX_RESPONSE_BYTES),
{
    len <= MAX_RESPONSE_BYTES
}

/// `s` without the copies of `c` that it starts with.
pub open spec fn strip_leading(s: Seq<char>, c: char) -> Seq<char>
    decreases s.len(),
{
    if s.len() > 0 && s[0] == c {
        strip_leading(s.skip(1), c)
    } else {
        s
    }
}

/// The version that the tag of a release names: the tag without the small
/// `v`s in front of it and without the capital `V`s that follow them.
pub open spec fn release_version(tag: Seq<char>) -> Seq<char> {
    strip_leading(strip_leading(tag, 'v'), 'V')
}

/// The number of copies of `c` that `chars[lo..]` starts with, as the place
/// where they end.
fn skip_leading(chars: &Vec<char>, lo: usize, c: char) -> (r: usize)
    requires
        lo <= chars.len(),
    ensures
        lo <= r <= chars.len(),
        chars@.skip(r as int) == strip_leading(chars@.skip(lo as int), c),
{
    let mut i: usize = lo;
    while i < chars.len() && chars[i] == c
        invariant
            lo <= i <= chars.len(),
            strip_leading(chars@.skip(lo as int), c) == strip_leading(chars@.skip(i as int), c),
        decreases chars.len() - i,
    {
        assert(chars@.skip(i as int).skip(1) =~= chars@.skip(i + 1));
        i += 1;
    }
    i
}

/// Decides whether a release is an update: its tag names a version that is
/// newer than `current_version`. The update then carries that version, the
/// address of the release and its title, empty where it has none.
pub fn newer_release(
    current_version: &str,
    tag_name: &str,
    html_url: &str,
    name: Option<&str>,
) -> (r: Option<UpdateInfo>)
    ensures
        match r {
            Some(info) => {
                &&& newer(
                    version_numbers(release_version(tag_name@)),
                    version_numbers(current_version@),
                )
                &&& info.latest_version@ == release_version(tag_name@)
                &&& info.download_url@ == html_url@
                &&& info.release_name@ == match name {
                    Some(title) => title@,
                    None => Seq::<char>::empty(),
                }
            },
            None => !newer(
                version_numbers(release_version(tag_name@)),
                version_numbers(current_version@),
            ),
        },
{
    let chars: Vec<char> = chars_of(tag_name);
    assert(chars@.skip(0) =~= chars@);
    let a: usize = skip_leading(&chars, 0, 'v');
    let b: usize = skip_leading(&chars, a, 'V');
    assert(chars@.skip(b as int) =~= chars@.subrange(b as int, chars@.len() as int));
    let latest: &str = tag_name.substring_char(b, chars.len());
    if is_newer(latest, current_version) {
        Some(
            UpdateInfo {
                latest_version: String::from_str(latest),
                download_url: String::from_str(html_url),
                release_name: match name {
                    Some(title) => String::from_str(title),
                    None => String::new(),
                },
            },
        )
    } else {
        None
    }
}

} // verus!
