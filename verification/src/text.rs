//! Character-level helpers shared by the parsers of this crate.
//!
//! Text is handled as a vector of characters; every function here is stated
//! over the `Seq<char>` that such a vector (or a `str`) denotes.

use vstd::prelude::*;
use vstd::string::*;

verus! {

/// The characters that carry the Unicode `White_Space` property.
pub open spec fn is_whitespace(c: char) -> bool {
    let n = c as u32;
    ||| 0x09 <= n <= 0x0D
    ||| n == 0x20
    ||| n == 0x85
    ||| n == 0xA0
    ||| n == 0x1680
    ||| 0x2000 <= n <= 0x200A
    ||| n == 0x2028
    ||| n == 0x2029
    ||| n == 0x202F
    ||| n == 0x205F
    ||| n == 0x3000
}

/// Tells whether `c` is white space.
pub fn char_is_whitespace(c: char) -> (r: bool)
    ensures
        r == is_whitespace(c),
{
    let n: u32 = c as u32;
    (0x09 <= n && n <= 0x0D) || n == 0x20 || n == 0x85 || n == 0xA0 || n == 0x1680 || (0x2000 <= n
        && n <= 0x200A) || n == 0x2028 || n == 0x2029 || n == 0x202F || n == 0x205F || n == 0x3000
}

/// The characters `'0'` to `'9'`.
pub open spec fn is_digit(c: char) -> bool {
    '0' <= c <= '9'
}

/// The number that the decimal digit `c` stands for; 0 for any other character.
pub open spec fn digit_value(c: char) -> nat {
    if is_digit(c) {
        (c as u32 - 48) as nat
    } else {
        0
    }
}

/// Every character of `s` is a decimal digit.
pub open spec fn all_digits(s: Seq<char>) -> bool {
    forall|i: int| 0 <= i < s.len() ==> is_digit(#[trigger] s[i])
}

/// The number that the digit string `s` denotes in base ten.
pub open spec fn decimal_value(s: Seq<char>) -> nat
    decreases s.len(),
{
    if s.len() == 0 {
        0
    } else {
        decimal_value(s.drop_last()) * 10 + digit_value(s.last())
    }
}

/// `s` without one leading plus sign, if it has one.
pub open spec fn without_plus(s: Seq<char>) -> Seq<char> {
    if s.len() > 0 && s[0] == '+' {
        s.skip(1)
    } else {
        s
    }
}

/// The unsigned number that `s` spells, if it spells one that is at most `max`:
/// an optional `+`, then one or more decimal digits and nothing else.
pub open spec fn parse_decimal(s: Seq<char>, max: nat) -> Option<nat> {
    let d = without_plus(s);
    if d.len() > 0 && all_digits(d) && decimal_value(d) <= max {
        Some(decimal_value(d))
    } else {
        None
    }
}

/// The `u32` that `s` spells, if any.
pub open spec fn parse_u32_spec(s: Seq<char>) -> Option<u32> {
    match parse_decimal(s, u32::MAX as nat) {
        Some(n) => Some(n as u32),
        None => None,
    }
}

/// `c` occurs in `s`.
pub open spec fn has_char(s: Seq<char>, c: char) -> bool {
    exists|i: int| 0 <= i < s.len() && #[trigger] s[i] == c
}

/// `i` is the place of the first `c` in `s`.
pub open spec fn is_first_at(s: Seq<char>, c: char, i: int) -> bool {
    &&& 0 <= i < s.len()
    &&& s[i] == c
    &&& forall|j: int| 0 <= j < i ==> #[trigger] s[j] != c
}

/// The place of the first `c` in `s` (meaningful where `c` occurs).
pub open spec fn first_index(s: Seq<char>, c: char) -> int {
    choose|i: int| is_first_at(s, c, i)
}

/// There is only one first occurrence.
pub proof fn lemma_first_index(s: Seq<char>, c: char, i: int)
    requires
        is_first_at(s, c, i),
    ensures
        first_index(s, c) == i,
        has_char(s, c),
{
    let j = first_index(s, c);
    assert(is_first_at(s, c, j));
    if j < i {
        assert(s[j] != c);
    }
    if i < j {
        assert(s[i] != c);
    }
}

/// `s` without its leading white space.
pub open spec fn trim_start(s: Seq<char>) -> Seq<char>
    decreases s.len(),
{
    if s.len() > 0 && is_whitespace(s[0]) {
        trim_start(s.skip(1))
    } else {
        s
    }
}

/// `s` without its trailing white space.
pub open spec fn trim_end(s: Seq<char>) -> Seq<char>
    decreases s.len(),
{
    if s.len() > 0 && is_whitespace(s.last()) {
        trim_end(s.drop_last())
    } else {
        s
    }
}

/// `s` without leading and trailing white space.
pub open spec fn trim(s: Seq<char>) -> Seq<char> {
    trim_end(trim_start(s))
}

/// The length of the longest prefix of `s` that holds no white space.
pub open spec fn word_len(s: Seq<char>) -> nat
    decreases s.len(),
{
    if s.len() > 0 && !is_whitespace(s[0]) {
        1 + word_len(s.skip(1))
    } else {
        0
    }
}

/// The maximal runs of characters other than white space in `s`, in order.
pub open spec fn words(s: Seq<char>) -> Seq<Seq<char>>
    decreases s.len(),
{
    if s.len() == 0 {
        Seq::empty()
    } else if is_whitespace(s[0]) {
        words(s.skip(1))
    } else {
        let n = word_len(s);
        if 0 < n <= s.len() {
            seq![s.subrange(0, n as int)] + words(s.skip(n as int))
        } else {
            Seq::empty()
        }
    }
}

/// `s` starts with `prefix`.
pub open spec fn starts_with(s: Seq<char>, prefix: Seq<char>) -> bool {
    prefix.len() <= s.len() && s.subrange(0, prefix.len() as int) == prefix
}

/// `needle` occurs in `s` as a contiguous run.
pub open spec fn has_substring(s: Seq<char>, needle: Seq<char>) -> bool {
    exists|i: int|
        0 <= i <= s.len() - needle.len() && #[trigger] s.subrange(i, i + needle.len()) == needle
}

/// The characters of `s`, in order.
pub fn chars_of(s: &str) -> (v: Vec<char>)
    ensures
        v@ == s@,
{
    let n: usize = s.unicode_len();
    let mut v: Vec<char> = Vec::new();
    let mut i: usize = 0;
    while i < n
        invariant
            n == s@.len(),
            i <= n,
            v@ == s@.subrange(0, i as int),
        decreases n - i,
    {
        v.push(s.get_char(i));
        assert(v@ =~= s@.subrange(0, i + 1));
        i += 1;
    }
    assert(v@ =~= s@);
    v
}

/// A prefix of a digit string denotes no more than the whole.
pub proof fn lemma_decimal_value_prefix(s: Seq<char>, k: int)
    requires
        0 <= k <= s.len(),
    ensures
        decimal_value(s.subrange(0, k)) <= decimal_value(s),
    decreases s.len() - k,
{
    if k == s.len() {
        assert(s.subrange(0, k) =~= s);
    } else {
        lemma_decimal_value_prefix(s.drop_last(), k);
        assert(s.drop_last().subrange(0, k) =~= s.subrange(0, k));
    }
}

/// A single digit spells its own value.
pub proof fn lemma_parse_single_digit(c: char)
    requires
        is_digit(c),
    ensures
        parse_u32_spec(seq![c]) == Some((c as u32 - 48) as u32),
{
    let s = seq![c];
    assert(without_plus(s) == s);
    assert(s.drop_last() =~= Seq::<char>::empty());
    assert(decimal_value(s.drop_last()) == 0);
    assert(decimal_value(s) == digit_value(c));
}

/// Text that neither starts nor ends with white space is its own trimmed form.
pub proof fn lemma_trim_tight(s: Seq<char>)
    requires
        s.len() > 0,
        !is_whitespace(s[0]),
        !is_whitespace(s.last()),
    ensures
        trim(s) == s,
{
}

/// Reads the unsigned decimal number that `s[lo..hi]` spells.
pub fn parse_u64(s: &Vec<char>, lo: usize, hi: usize) -> (r: Option<u64>)
    requires
        lo <= hi <= s.len(),
    ensures
        match r {
            Some(v) => parse_decimal(s@.subrange(lo as int, hi as int), u64::MAX as nat) == Some(
                v as nat,
            ),
            None => parse_decimal(s@.subrange(lo as int, hi as int), u64::MAX as nat) is None,
        },
{
    let ghost whole = s@.subrange(lo as int, hi as int);
    let mut i: usize = lo;
    if lo < hi && s[lo] == '+' {
        i = lo + 1;
    }
    let ghost d = without_plus(whole);
    assert(d =~= s@.subrange(i as int, hi as int));
    if i == hi {
        return None;
    }
    let start: usize = i;
    let mut acc: u64 = 0;
    while i < hi
        invariant
            lo <= start <= i <= hi <= s.len(),
            whole == s@.subrange(lo as int, hi as int),
            d == without_plus(whole),
            d == s@.subrange(start as int, hi as int),
            all_digits(d.subrange(0, i - start)),
            acc == decimal_value(d.subrange(0, i - start)),
        decreases hi - i,
    {
        let c: char = s[i];
        let ghost before = d.subrange(0, i - start);
        let ghost after = d.subrange(0, i - start + 1);
        assert(after.drop_last() =~= before);
        assert(after.last() == c);
        if !('0' <= c && c <= '9') {
            assert(!is_digit(d[i - start]));
            return None;
        }
        let digit: u64 = (c as u32 - 48) as u64;
        if acc > (u64::MAX - digit) / 10 {
            proof {
                assert(decimal_value(after) == acc * 10 + digit);
                lemma_decimal_value_prefix(d, i - start + 1);
            }
            return None;
        }
        acc = acc * 10 + digit;
        assert forall|j: int| 0 <= j < after.len() implies is_digit(#[trigger] after[j]) by {
            if j < before.len() {
                assert(after[j] == before[j]);
            }
        }
        i += 1;
    }
    assert(d.subrange(0, i - start) =~= d);
    Some(acc)
}

/// Reads the `u32` that `s[lo..hi]` spells.
pub fn parse_u32(s: &Vec<char>, lo: usize, hi: usize) -> (r: Option<u32>)
    requires
        lo <= hi <= s.len(),
    ensures
        r == parse_u32_spec(s@.subrange(lo as int, hi as int)),
{
    match parse_u64(s, lo, hi) {
        Some(v) => {
            if v <= 0xFFFF_FFFF {
                Some(v as u32)
            } else {
                None
            }
        },
        None => None,
    }
}

/// Finds the first `c` in `s[lo..hi]`.
pub fn find_char(s: &Vec<char>, lo: usize, hi: usize, c: char) -> (r: Option<usize>)
    requires
        lo <= hi <= s.len(),
    ensures
        match r {
            Some(i) => lo <= i < hi && is_first_at(s@.subrange(lo as int, hi as int), c, i - lo),
            None => !has_char(s@.subrange(lo as int, hi as int), c),
        },
{
    let mut i: usize = lo;
    while i < hi
        invariant
            lo <= i <= hi <= s.len(),
            forall|j: int| lo <= j < i ==> s@[j] != c,
        decreases hi - i,
    {
        if s[i] == c {
            return Some(i);
        }
        i += 1;
    }
    None
}

/// Finds the bounds of `s[lo..hi]` without its leading and trailing white space.
pub fn trim_bounds(s: &Vec<char>, lo: usize, hi: usize) -> (r: (usize, usize))
    requires
        lo <= hi <= s.len(),
    ensures
        lo <= r.0 <= r.1 <= hi,
        s@.subrange(r.0 as int, r.1 as int) == trim(s@.subrange(lo as int, hi as int)),
{
    let mut a: usize = lo;
    while a < hi && char_is_whitespace(s[a])
        invariant
            lo <= a <= hi <= s.len(),
            trim_start(s@.subrange(lo as int, hi as int)) == trim_start(
                s@.subrange(a as int, hi as int),
            ),
        decreases hi - a,
    {
        assert(s@.subrange(a as int, hi as int).skip(1) =~= s@.subrange(a + 1, hi as int));
        a += 1;
    }
    assert(trim_start(s@.subrange(a as int, hi as int)) == s@.subrange(a as int, hi as int));
    let mut b: usize = hi;
    while a < b && char_is_whitespace(s[b - 1])
        invariant
            a <= b <= hi <= s.len(),
            trim_end(s@.subrange(a as int, hi as int)) == trim_end(s@.subrange(a as int, b as int)),
        decreases b - a,
    {
        assert(s@.subrange(a as int, b as int).drop_last() =~= s@.subrange(a as int, b - 1));
        b -= 1;
    }
    assert(trim_end(s@.subrange(a as int, b as int)) == s@.subrange(a as int, b as int));
    (a, b)
}

/// The place where the word that starts at `lo` ends.
pub fn word_end(s: &Vec<char>, lo: usize) -> (r: usize)
    requires
        lo <= s.len(),
    ensures
        lo <= r <= s.len(),
        r - lo == word_len(s@.skip(lo as int)),
{
    let mut i: usize = lo;
    while i < s.len() && !char_is_whitespace(s[i])
        invariant
            lo <= i <= s.len(),
            word_len(s@.skip(lo as int)) == (i - lo) + word_len(s@.skip(i as int)),
        decreases s.len() - i,
    {
        assert(s@.skip(i as int).skip(1) =~= s@.skip(i + 1));
        i += 1;
    }
    i
}

/// The texts that the pairs of bounds in `bounds` cut out of `s`.
pub open spec fn pieces_of(s: Seq<char>, bounds: Seq<(usize, usize)>) -> Seq<Seq<char>> {
    Seq::new(bounds.len(), |k: int| s.subrange(bounds[k].0 as int, bounds[k].1 as int))
}

/// Every pair in `bounds` lies inside a text of length `len`.
pub open spec fn bounds_within(bounds: Seq<(usize, usize)>, len: nat) -> bool {
    forall|k: int| 0 <= k < bounds.len() ==> (#[trigger] bounds[k]).0 <= bounds[k].1 <= len
}

/// Splits `s` at white space and returns the bounds of each word.
pub fn split_words(s: &Vec<char>) -> (r: Vec<(usize, usize)>)
    ensures
        bounds_within(r@, s@.len()),
        pieces_of(s@, r@) == words(s@),
{
    let mut r: Vec<(usize, usize)> = Vec::new();
    let mut i: usize = 0;
    assert(s@.skip(0) =~= s@);
    assert(pieces_of(s@, r@) =~= Seq::<Seq<char>>::empty());
    while i < s.len()
        invariant
            i <= s.len(),
            bounds_within(r@, s@.len()),
            words(s@) == pieces_of(s@, r@) + words(s@.skip(i as int)),
        decreases s.len() - i,
    {
        let ghost rest = s@.skip(i as int);
        if char_is_whitespace(s[i]) {
            assert(rest.skip(1) =~= s@.skip(i + 1));
            i += 1;
        } else {
            let e: usize = word_end(s, i);
            let ghost before = pieces_of(s@, r@);
            r.push((i, e));
            proof {
                assert(rest.subrange(0, e - i) =~= s@.subrange(i as int, e as int));
                assert(rest.skip(e - i) =~= s@.skip(e as int));
                assert(pieces_of(s@, r@) =~= before + seq![s@.subrange(i as int, e as int)]);
                assert(words(rest) == seq![rest.subrange(0, e - i)] + words(rest.skip(e - i)));
                assert(before + words(rest) =~= pieces_of(s@, r@) + words(s@.skip(e as int)));
            }
            i = e;
        }
    }
    assert(words(s@.skip(i as int)) =~= Seq::<Seq<char>>::empty());
    assert(pieces_of(s@, r@) + Seq::<Seq<char>>::empty() =~= pieces_of(s@, r@));
    r
}

/// Whether `a[lo..hi]` is the text `b`.
pub fn range_equals(a: &Vec<char>, lo: usize, hi: usize, b: &Vec<char>) -> (r: bool)
    requires
        lo <= hi <= a.len(),
    ensures
        r == (a@.subrange(lo as int, hi as int) == b@),
{
    let ghost part = a@.subrange(lo as int, hi as int);
    if hi - lo != b.len() {
        return false;
    }
    let mut i: usize = 0;
    while i < b.len()
        invariant
            lo <= hi <= a.len(),
            hi - lo == b.len(),
            i <= b.len(),
            part == a@.subrange(lo as int, hi as int),
            forall|j: int| 0 <= j < i ==> part[j] == b@[j],
        decreases b.len() - i,
    {
        if a[lo + i] != b[i] {
            assert(part[i as int] != b@[i as int]);
            return false;
        }
        i += 1;
    }
    assert(part =~= b@);
    true
}

/// Whether `needle` occurs in `hay` as a contiguous run.
pub fn contains_text(hay: &Vec<char>, needle: &Vec<char>) -> (r: bool)
    ensures
        r == has_substring(hay@, needle@),
{
    if needle.len() > hay.len() {
        return false;
    }
    let last: usize = hay.len() - needle.len();
    let mut i: usize = 0;
    loop
        invariant
            needle.len() <= hay.len(),
            last == hay.len() - needle.len(),
            i <= last,
            forall|j: int| 0 <= j < i ==> #[trigger] hay@.subrange(j, j + needle.len()) != needle@,
        decreases last - i,
    {
        if range_equals(hay, i, i + needle.len(), needle) {
            return true;
        }
        if i == last {
            return false;
        }
        i += 1;
    }
}

/// Whether `s`, leading and trailing white space set aside, is the text `word`.
pub fn trimmed_equals(s: &str, word: &str) -> (r: bool)
    ensures
        r == (trim(s@) == word@),
{
    let chars: Vec<char> = chars_of(s);
    let expected: Vec<char> = chars_of(word);
    assert(chars@.subrange(0, chars@.len() as int) =~= s@);
    let (a, b) = trim_bounds(&chars, 0, chars.len());
    range_equals(&chars, a, b, &expected)
}

/// The lower-case form of a text: every character replaced by its Unicode
/// lower-case mapping.
pub uninterp spec fn lowercase(s: Seq<char>) -> Seq<char>;

/// The lower-case form of `s`, by `str::to_lowercase`.
///
/// Trusted: the result depends on the characters of `s` alone.
#[verifier::external_body]
pub(crate) fn to_lowercase(s: &str) -> (r: String)
    ensures
        r@ == lowercase(s@),
{
    s.to_lowercase()
}

/// The character that writes the digit `d`.
pub open spec fn digit_char(d: nat) -> char {
    if d == 0 {
        '0'
    } else if d == 1 {
        '1'
    } else if d == 2 {
        '2'
    } else if d == 3 {
        '3'
    } else if d == 4 {
        '4'
    } else if d == 5 {
        '5'
    } else if d == 6 {
        '6'
    } else if d == 7 {
        '7'
    } else if d == 8 {
        '8'
    } else {
        '9'
    }
}

/// The number `n` written in base ten, without leading zeros.
pub open spec fn decimal_text(n: nat) -> Seq<char>
    decreases n,
{
    if n < 10 {
        seq![digit_char(n)]
    } else {
        decimal_text(n / 10).push(digit_char(n % 10))
    }
}

/// The digit `d` as a text of one character.
pub fn digit_str(d: u64) -> (r: &'static str)
    requires
        d < 10,
    ensures
        r@ == seq![digit_char(d as nat)],
{
    proof {
        reveal_strlit("0");
        reveal_strlit("1");
        reveal_strlit("2");
        reveal_strlit("3");
        reveal_strlit("4");
        reveal_strlit("5");
        reveal_strlit("6");
        reveal_strlit("7");
        reveal_strlit("8");
        reveal_strlit("9");
    }
    let r: &'static str = if d == 0 {
        "0"
    } else if d == 1 {
        "1"
    } else if d == 2 {
        "2"
    } else if d == 3 {
        "3"
    } else if d == 4 {
        "4"
    } else if d == 5 {
        "5"
    } else if d == 6 {
        "6"
    } else if d == 7 {
        "7"
    } else if d == 8 {
        "8"
    } else {
        "9"
    };
    assert(r@ =~= seq![digit_char(d as nat)]);
    r
}

/// The number `n` written in base ten.
pub fn decimal_string(n: u64) -> (r: String)
    ensures
        r@ == decimal_text(n as nat),
    decreases n,
{
    if n < 10 {
        String::from_str(digit_str(n))
    } else {
        let mut out: String = decimal_string(n / 10);
        out.append(digit_str(n % 10));
        assert(out@ =~= decimal_text(n as nat));
        out
    }
}

/// A number written in base ten reads back as itself.
pub proof fn lemma_decimal_text_parses(n: nat, max: nat)
    requires
        n <= max,
    ensures
        parse_decimal(decimal_text(n), max) == Some(n),
{
    lemma_decimal_text_digits(n);
    let s = decimal_text(n);
    assert(s[0] != '+');
}

/// The base-ten writing of `n` is a run of digits, one at least, that denotes `n`.
pub proof fn lemma_decimal_text_digits(n: nat)
    ensures
        decimal_text(n).len() > 0,
        all_digits(decimal_text(n)),
        decimal_value(decimal_text(n)) == n,
    decreases n,
{
    let s = decimal_text(n);
    if n < 10 {
        assert(s.drop_last() =~= Seq::<char>::empty());
        assert(decimal_value(s.drop_last()) == 0);
        assert(s.last() == digit_char(n));
    } else {
        lemma_decimal_text_digits(n / 10);
        assert(s.drop_last() =~= decimal_text(n / 10));
        assert(s.last() == digit_char(n % 10));
        assert forall|i: int| 0 <= i < s.len() implies is_digit(#[trigger] s[i]) by {
            if i < s.len() - 1 {
                assert(s[i] == decimal_text(n / 10)[i]);
            }
        }
    }
}

/// The pieces into which the occurrences of `sep` cut `s`, in order. A text
/// with `n` occurrences has `n + 1` pieces; some may be empty.
pub open spec fn split(s: Seq<char>, sep: char) -> Seq<Seq<char>>
    decreases s.len(),
{
    if has_char(s, sep) {
        let i = first_index(s, sep);
        if 0 <= i < s.len() {
            seq![s.subrange(0, i)] + split(s.skip(i + 1), sep)
        } else {
            seq![s]
        }
    } else {
        seq![s]
    }
}

/// Cuts `s` at each `sep` and returns the bounds of the pieces.
pub fn split_bounds(s: &Vec<char>, sep: char) -> (r: Vec<(usize, usize)>)
    ensures
        bounds_within(r@, s@.len()),
        pieces_of(s@, r@) == split(s@, sep),
        r@.len() >= 1,
{
    let mut r: Vec<(usize, usize)> = Vec::new();
    let mut start: usize = 0;
    let n: usize = s.len();
    assert(s@.skip(0) =~= s@);
    assert(pieces_of(s@, r@) =~= Seq::<Seq<char>>::empty());
    loop
        invariant
            n == s@.len(),
            start <= n,
            bounds_within(r@, s@.len()),
            split(s@, sep) == pieces_of(s@, r@) + split(s@.skip(start as int), sep),
        decreases n - start,
    {
        let ghost rest = s@.skip(start as int);
        let ghost before = pieces_of(s@, r@);
        assert(rest =~= s@.subrange(start as int, n as int));
        match find_char(s, start, n, sep) {
            Some(i) => {
                r.push((start, i));
                proof {
                    lemma_first_index(rest, sep, i - start);
                    assert(rest.subrange(0, i - start) =~= s@.subrange(start as int, i as int));
                    assert(rest.skip(i - start + 1) =~= s@.skip(i + 1));
                    assert(pieces_of(s@, r@) =~= before + seq![s@.subrange(start as int, i as int)]);
                    assert(before + split(rest, sep) =~= pieces_of(s@, r@) + split(
                        s@.skip(i + 1),
                        sep,
                    ));
                }
                start = i + 1;
            },
            None => {
                r.push((start, n));
                proof {
                    assert(pieces_of(s@, r@) =~= before + seq![rest]);
                }
                return r;
            },
        }
    }
}

/// Whether `s[lo..hi]` starts with `prefix`.
pub fn range_starts_with(s: &Vec<char>, lo: usize, hi: usize, prefix: &Vec<char>) -> (r: bool)
    requires
        lo <= hi <= s.len(),
    ensures
        r == starts_with(s@.subrange(lo as int, hi as int), prefix@),
{
    if prefix.len() > hi - lo {
        return false;
    }
    assert(s@.subrange(lo as int, hi as int).subrange(0, prefix@.len() as int) =~= s@.subrange(
        lo as int,
        lo + prefix@.len(),
    ));
    range_equals(s, lo, lo + prefix.len(), prefix)
}

/// The upper-case form of a text: every character replaced by its Unicode
/// upper-case mapping.
pub uninterp spec fn uppercase(s: Seq<char>) -> Seq<char>;

/// The upper-case form of `s`, by `str::to_uppercase`.
///
/// Trusted: the result depends on the characters of `s` alone.
#[verifier::external_body]
pub(crate) fn to_uppercase(s: &str) -> (r: String)
    ensures
        r@ == uppercase(s@),
{
    s.to_uppercase()
}

/// The characters `0` to `9`, `a` to `f` and `A` to `F`.
pub open spec fn is_hex_digit(c: char) -> bool {
    ('0' <= c <= '9') || ('a' <= c <= 'f') || ('A' <= c <= 'F')
}

/// The ASCII letters and digits.
pub open spec fn is_ascii_alphanumeric(c: char) -> bool {
    ('0' <= c <= '9') || ('a' <= c <= 'z') || ('A' <= c <= 'Z')
}

/// Tells whether `c` is a hexadecimal digit.
pub fn char_is_hex_digit(c: char) -> (r: bool)
    ensures
        r == is_hex_digit(c),
{
    ('0' <= c && c <= '9') || ('a' <= c && c <= 'f') || ('A' <= c && c <= 'F')
}

/// Tells whether `c` is an ASCII letter or digit.
pub fn char_is_ascii_alphanumeric(c: char) -> (r: bool)
    ensures
        r == is_ascii_alphanumeric(c),
{
    ('0' <= c && c <= '9') || ('a' <= c && c <= 'z') || ('A' <= c && c <= 'Z')
}

/// No character of `s` is white space.
pub open spec fn no_whitespace(s: Seq<char>) -> bool {
    forall|i: int| 0 <= i < s.len() ==> !is_whitespace(#[trigger] s[i])
}

/// `rest` is empty or starts with white space.
pub open spec fn starts_apart(rest: Seq<char>) -> bool {
    rest.len() == 0 || is_whitespace(rest[0])
}

/// A run without white space, followed by white space or nothing, is a word.
pub proof fn lemma_word_len_of_word(w: Seq<char>, rest: Seq<char>)
    requires
        no_whitespace(w),
        starts_apart(rest),
    ensures
        word_len(w + rest) == w.len(),
    decreases w.len(),
{
    if w.len() == 0 {
        assert(w + rest =~= rest);
    } else {
        assert((w + rest)[0] == w[0]);
        assert((w + rest).skip(1) =~= w.skip(1) + rest);
        assert forall|i: int| 0 <= i < w.skip(1).len() implies !is_whitespace(
            #[trigger] w.skip(1)[i],
        ) by {
            assert(w.skip(1)[i] == w[i + 1]);
        }
        lemma_word_len_of_word(w.skip(1), rest);
    }
}

/// The words of a text that starts with a word are that word and the words
/// of what follows it.
pub proof fn lemma_words_of_word_and_rest(w: Seq<char>, rest: Seq<char>)
    requires
        w.len() > 0,
        no_whitespace(w),
        starts_apart(rest),
    ensures
        words(w + rest) == seq![w] + words(rest),
{
    let s = w + rest;
    lemma_word_len_of_word(w, rest);
    assert(s[0] == w[0]);
    assert(s.subrange(0, w.len() as int) =~= w);
    assert(s.skip(w.len() as int) =~= rest);
}

/// White space in front of a text adds no word.
pub proof fn lemma_words_after_space(c: char, rest: Seq<char>)
    requires
        is_whitespace(c),
    ensures
        words(seq![c] + rest) == words(rest),
{
    let s = seq![c] + rest;
    assert(s[0] == c);
    assert(s.skip(1) =~= rest);
}

/// The base-ten writing of a number holds no white space.
pub proof fn lemma_decimal_text_is_word(n: nat)
    ensures
        decimal_text(n).len() > 0,
        no_whitespace(decimal_text(n)),
{
    lemma_decimal_text_digits(n);
    let s = decimal_text(n);
    assert forall|i: int| 0 <= i < s.len() implies !is_whitespace(#[trigger] s[i]) by {
        assert(is_digit(s[i]));
    }
}

/// A copy of `chars[lo..hi]`.
pub fn copy_range(chars: &Vec<char>, lo: usize, hi: usize) -> (r: Vec<char>)
    requires
        lo <= hi <= chars.len(),
    ensures
        r@ == chars@.subrange(lo as int, hi as int),
{
    let mut r: Vec<char> = Vec::new();
    let mut i: usize = lo;
    while i < hi
        invariant
            lo <= i <= hi <= chars.len(),
            r@ == chars@.subrange(lo as int, i as int),
        decreases hi - i,
    {
        r.push(chars[i]);
        assert(r@ =~= chars@.subrange(lo as int, i + 1));
        i += 1;
    }
    r
}

/// The texts `parts` in a row, with `sep` between each two.
pub open spec fn joined(parts: Seq<Seq<char>>, sep: Seq<char>) -> Seq<char>
    decreases parts.len(),
{
    if parts.len() == 0 {
        Seq::empty()
    } else if parts.len() == 1 {
        parts[0]
    } else {
        joined(parts.drop_last(), sep) + sep + parts.last()
    }
}

/// The texts of a list of strings.
pub open spec fn texts_of(v: Seq<String>) -> Seq<Seq<char>> {
    v.map_values(|s: String| s@)
}

/// The strings `parts` in a row, with `sep` between each two.
pub fn join_texts(parts: &[String], sep: &str) -> (r: String)
    ensures
        r@ == joined(texts_of(parts@), sep@),
{
    let ghost texts = texts_of(parts@);
    if parts.len() == 0 {
        return String::new();
    }
    let mut out: String = parts[0].clone();
    assert(texts.subrange(0, 1)[0] == parts@[0]@);
    let mut i: usize = 1;
    while i < parts.len()
        invariant
            1 <= i <= parts@.len(),
            texts == texts_of(parts@),
            out@ == joined(texts.subrange(0, i as int), sep@),
        decreases parts@.len() - i,
    {
        out.append(sep);
        out.append(parts[i].as_str());
        proof {
            let upto = texts.subrange(0, i + 1);
            assert(upto.drop_last() =~= texts.subrange(0, i as int));
            assert(upto.last() == parts@[i as int]@);
        }
        i += 1;
    }
    assert(texts.subrange(0, i as int) =~= texts);
    out
}

} // verus!
