//! Timed profile activation.
//!
//! A schedule carries a five-field expression in the manner of cron. This
//! module decides whether such an expression names a given minute; it keeps
//! no state between calls and never reads the clock itself.

use vstd::prelude::*;
use crate::clock::ClockReading;
use crate::config::ScheduleEntry;
use crate::text::{
    chars_of, decimal_string, decimal_text, find_char, first_index, has_char, is_digit,
    is_first_at, lemma_decimal_text_digits, lemma_decimal_text_is_word, lemma_decimal_text_parses,
    lemma_first_index, lemma_parse_single_digit, lemma_words_after_space,
    lemma_words_of_word_and_rest, lemma_trim_tight, parse_u32, parse_u32_spec, pieces_of, split_words,
    starts_with, texts_of, trim, trim_bounds, words,
};

verus! {

/// What a step item `*/n` says of `v`: `n` is a positive number that divides `v`.
pub open spec fn step_matches(item: Seq<char>, v: u32) -> bool {
    match parse_u32_spec(item.skip(2)) {
        Some(n) => n > 0 && v % n == 0,
        None => false,
    }
}

/// What a range item `a-b` says of `v`: the texts before and after the first
/// `-` are both numbers, and `v` lies between them, bounds included.
pub open spec fn range_matches(item: Seq<char>, v: u32) -> bool {
    let i = first_index(item, '-');
    match (parse_u32_spec(item.subrange(0, i)), parse_u32_spec(item.skip(i + 1))) {
        (Some(a), Some(b)) => a <= v <= b,
        _ => false,
    }
}

/// Whether a field without commas matches `v`.
pub open spec fn item_matches(item: Seq<char>, v: u32) -> bool {
    if item == seq!['*'] {
        true
    } else if has_char(item, '-') {
        range_matches(item, v)
    } else if starts_with(item, seq!['*', '/']) {
        step_matches(item, v)
    } else {
        parse_u32_spec(item) == Some(v)
    }
}

/// `s[a..b]` is one of the pieces into which the commas cut `s`.
pub open spec fn is_list_piece(s: Seq<char>, a: int, b: int) -> bool {
    &&& 0 <= a <= b <= s.len()
    &&& a == 0 || s[a - 1] == ','
    &&& b == s.len() || s[b] == ','
    &&& forall|j: int| a <= j < b ==> #[trigger] s[j] != ','
}

/// Whether the cron field `field` matches the value `v`.
///
/// A field with commas is a list: it matches when one of its pieces, white
/// space around it set aside, matches as an item. Any other field is an item.
pub open spec fn field_matches(field: Seq<char>, v: u32) -> bool {
    if has_char(field, ',') {
        exists|a: int, b: int| #[trigger]
            is_list_piece(field, a, b) && item_matches(trim(field.subrange(a, b)), v)
    } else {
        item_matches(field, v)
    }
}

/// The value of the clock that the `k`-th field of an expression is held against.
pub open spec fn clock_field(now: ClockReading, k: int) -> u32 {
    if k == 0 {
        now.minute
    } else if k == 1 {
        now.hour
    } else if k == 2 {
        now.day
    } else if k == 3 {
        now.month
    } else {
        now.weekday.days_from_sunday()
    }
}

/// Whether the expression `expr` names the minute `now`: it has exactly five
/// fields, and each matches its part of the clock.
pub open spec fn expression_matches(expr: Seq<char>, now: ClockReading) -> bool {
    let fields = words(expr);
    &&& fields.len() == 5
    &&& forall|k: int| 0 <= k < 5 ==> field_matches(#[trigger] fields[k], clock_field(now, k))
}

/// Whether `schedule` fires at `now`.
pub open spec fn triggers_at(schedule: ScheduleEntry, now: ClockReading) -> bool {
    schedule.enabled && expression_matches(schedule.cron_expression@, now)
}

/// The profile ids of the schedules that fire at `now`, in the order of the
/// schedules, one for each firing schedule.
pub open spec fn triggered_ids(schedules: Seq<ScheduleEntry>, now: ClockReading) -> Seq<Seq<char>>
    decreases schedules.len(),
{
    if schedules.len() == 0 {
        Seq::empty()
    } else {
        let rest = triggered_ids(schedules.drop_last(), now);
        if triggers_at(schedules.last(), now) {
            rest.push(schedules.last().profile_id@)
        } else {
            rest
        }
    }
}

fn item_matches_at(s: &Vec<char>, lo: usize, hi: usize, value: u32) -> (r: bool)
    requires
        lo <= hi <= s.len(),
    ensures
        r == item_matches(s@.subrange(lo as int, hi as int), value),
{
    let ghost item = s@.subrange(lo as int, hi as int);
    if hi - lo == 1 && s[lo] == '*' {
        assert(item =~= seq!['*']);
        return true;
    }
    assert(item != seq!['*']) by {
        if item == seq!['*'] {
            assert(item.len() == 1 && item[0] == '*');
        }
    }
    match find_char(s, lo, hi, '-') {
        Some(i) => {
            proof {
                lemma_first_index(item, '-', i - lo);
                assert(item.subrange(0, i - lo) =~= s@.subrange(lo as int, i as int));
                assert(item.skip(i - lo + 1) =~= s@.subrange(i + 1, hi as int));
            }
            let a: Option<u32> = parse_u32(s, lo, i);
            let b: Option<u32> = parse_u32(s, i + 1, hi);
            match (a, b) {
                (Some(start), Some(end)) => value >= start && value <= end,
                _ => false,
            }
        },
        None => {
            if hi - lo >= 2 && s[lo] == '*' && s[lo + 1] == '/' {
                proof {
                    assert(item.subrange(0, 2) =~= seq!['*', '/']);
                    assert(item.skip(2) =~= s@.subrange(lo + 2, hi as int));
                }
                match parse_u32(s, lo + 2, hi) {
                    Some(step) => step > 0 && value % step == 0,
                    None => false,
                }
            } else {
                assert(!starts_with(item, seq!['*', '/'])) by {
                    if starts_with(item, seq!['*', '/']) {
                        assert(item.subrange(0, 2)[0] == '*');
                        assert(item.subrange(0, 2)[1] == '/');
                    }
                }
                match parse_u32(s, lo, hi) {
                    Some(num) => value == num,
                    None => false,
                }
            }
        },
    }
}

fn field_matches_at(s: &Vec<char>, lo: usize, hi: usize, value: u32) -> (r: bool)
    requires
        lo <= hi <= s.len(),
    ensures
        r == field_matches(s@.subrange(lo as int, hi as int), value),
{
    let ghost field = s@.subrange(lo as int, hi as int);
    if find_char(s, lo, hi, ',').is_none() {
        return item_matches_at(s, lo, hi, value);
    }
    let mut start: usize = lo;
    loop
        invariant
            lo <= start <= hi <= s.len(),
            field == s@.subrange(lo as int, hi as int),
            has_char(field, ','),
            start == lo || s@[start - 1] == ',',
            forall|a: int, b: int|
                b < start - lo && #[trigger] is_list_piece(field, a, b) ==> !item_matches(
                    trim(field.subrange(a, b)),
                    value,
                ),
        decreases hi - start,
    {
        let end: usize = match find_char(s, start, hi, ',') {
            Some(i) => i,
            None => hi,
        };
        assert(forall|j: int| start <= j < end ==> s@[j] != ',') by {
            let part = s@.subrange(start as int, hi as int);
            assert forall|j: int| start <= j < end implies s@[j] != ',' by {
                assert(part[j - start] == s@[j]);
            }
        }
        assert(is_list_piece(field, start - lo, end - lo)) by {
            assert forall|j: int| start - lo <= j < end - lo implies #[trigger] field[j] != ',' by {
                assert(field[j] == s@[j + lo]);
            }
            if end != hi {
                assert(s@.subrange(start as int, hi as int)[end - start] == ',');
            }
        }
        let (a, b) = trim_bounds(s, start, end);
        assert(field.subrange(start - lo, end - lo) =~= s@.subrange(start as int, end as int));
        if item_matches_at(s, a, b, value) {
            return true;
        }
        assert forall|a: int, b: int|
            b < end + 1 - lo && #[trigger] is_list_piece(field, a, b) implies !item_matches(
            trim(field.subrange(a, b)),
            value,
        ) by {
            if b >= start - lo {
                if a < start - lo {
                    assert(field[start - lo - 1] == ',');
                }
                if a > start - lo {
                    assert(field[a - 1] == ',');
                    assert(s@[a - 1 + lo] != ',');
                }
                if b < end - lo {
                    assert(field[b] == ',');
                    assert(s@[b + lo] != ',');
                }
                assert(a == start - lo && b == end - lo);
            }
        }
        if end == hi {
            assert forall|a: int, b: int| #[trigger] is_list_piece(field, a, b) implies !item_matches(
                trim(field.subrange(a, b)),
                value,
            ) by {
                if b == hi - lo {
                    if a < start - lo {
                        assert(field[start - lo - 1] == ',');
                    }
                    if a > start - lo {
                        assert(field[a - 1] == ',');
                        assert(s@[a - 1 + lo] != ',');
                    }
                }
            }
            return false;
        }
        start = end + 1;
    }
}

/// An expression of five `*` names every minute: an enabled schedule with
/// such an expression fires whatever the clock reads.
pub proof fn lemma_wildcards_always_trigger(schedule: ScheduleEntry, now: ClockReading)
    requires
        schedule.enabled,
        words(schedule.cron_expression@).len() == 5,
        forall|k: int| 0 <= k < 5 ==> #[trigger] words(schedule.cron_expression@)[k] == seq!['*'],
    ensures
        triggers_at(schedule, now),
{
    let fields = words(schedule.cron_expression@);
    assert forall|k: int| 0 <= k < 5 implies field_matches(
        #[trigger] fields[k],
        clock_field(now, k),
    ) by {
        lemma_star_field(clock_field(now, k));
    }
}

/// A disabled schedule never fires, and neither does one whose expression
/// does not have exactly five fields.
pub proof fn lemma_malformed_never_triggers(schedule: ScheduleEntry, now: ClockReading)
    requires
        !schedule.enabled || words(schedule.cron_expression@).len() != 5,
    ensures
        !triggers_at(schedule, now),
{
}

/// The field `1-5` matches exactly the values from 1 to 5.
pub proof fn lemma_range_field(v: u32)
    ensures
        field_matches("1-5"@, v) <==> 1 <= v <= 5,
{
    reveal_strlit("1-5");
    let f = seq!['1', '-', '5'];
    assert("1-5"@ =~= f);
    assert(!has_char(f, ',')) by {
        if has_char(f, ',') {
            let i = choose|i: int| 0 <= i < f.len() && #[trigger] f[i] == ',';
            assert(f[i] != ',');
        }
    }
    assert(f != seq!['*']) by {
        assert(f.len() == 3);
        assert(seq!['*'].len() == 1);
    }
    assert(f[1] == '-');
    assert(is_first_at(f, '-', 1));
    lemma_first_index(f, '-', 1);
    assert(f.subrange(0, 1) =~= seq!['1']);
    assert(f.skip(2) =~= seq!['5']);
    lemma_parse_single_digit('1');
    lemma_parse_single_digit('5');
}

/// The field `*/5` matches exactly the multiples of 5.
pub proof fn lemma_step_field(v: u32)
    ensures
        field_matches("*/5"@, v) <==> v % 5 == 0,
{
    reveal_strlit("*/5");
    let f = seq!['*', '/', '5'];
    assert("*/5"@ =~= f);
    assert(!has_char(f, ',')) by {
        if has_char(f, ',') {
            let i = choose|i: int| 0 <= i < f.len() && #[trigger] f[i] == ',';
            assert(f[i] != ',');
        }
    }
    assert(!has_char(f, '-')) by {
        if has_char(f, '-') {
            let i = choose|i: int| 0 <= i < f.len() && #[trigger] f[i] == '-';
            assert(f[i] != '-');
        }
    }
    assert(f != seq!['*']) by {
        assert(f.len() == 3);
        assert(seq!['*'].len() == 1);
    }
    assert(f.subrange(0, 2) =~= seq!['*', '/']);
    assert(f.skip(2) =~= seq!['5']);
    lemma_parse_single_digit('5');
}

/// A single decimal digit, as a list piece or a field, matches its own value only.
proof fn lemma_digit_item(c: char, v: u32)
    requires
        is_digit(c),
    ensures
        item_matches(trim(seq![c]), v) <==> v == c as u32 - 48,
{
    let s = seq![c];
    lemma_trim_tight(s);
    lemma_parse_single_digit(c);
    assert(s != seq!['*']) by {
        assert(s[0] != '*');
    }
    assert(!has_char(s, '-')) by {
        if has_char(s, '-') {
            let i = choose|i: int| 0 <= i < s.len() && #[trigger] s[i] == '-';
            assert(s[i] == c);
        }
    }
    assert(!starts_with(s, seq!['*', '/']));
}

/// The field `1,3,5` matches exactly the values 1, 3 and 5.
pub proof fn lemma_list_field(v: u32)
    ensures
        field_matches("1,3,5"@, v) <==> (v == 1 || v == 3 || v == 5),
{
    reveal_strlit("1,3,5");
    let f = seq!['1', ',', '3', ',', '5'];
    assert("1,3,5"@ =~= f);
    assert(f[1] == ',');
    assert(has_char(f, ','));
    assert(f.subrange(0, 1) =~= seq!['1']);
    assert(f.subrange(2, 3) =~= seq!['3']);
    assert(f.subrange(4, 5) =~= seq!['5']);
    lemma_digit_item('1', v);
    lemma_digit_item('3', v);
    lemma_digit_item('5', v);
    assert(is_list_piece(f, 0, 1));
    assert(is_list_piece(f, 2, 3));
    assert(is_list_piece(f, 4, 5));
    assert forall|a: int, b: int| #[trigger] is_list_piece(f, a, b) implies (a == 0 && b == 1) || (a
        == 2 && b == 3) || (a == 4 && b == 5) by {
        if a == 1 || a == 3 || a == 5 {
            assert(f[a - 1] != ',');
        }
        if b == 0 || b == 2 || b == 4 {
            assert(f[b] != ',');
        }
        if a <= 1 && b >= 2 {
            assert(f[1] == ',');
        }
        if a <= 3 && b >= 4 {
            assert(f[3] == ',');
        }
    }
}

/// The scheduler: a stateless matcher of cron expressions with a running flag.
pub struct SchedulerService {
    running: bool,
}

impl SchedulerService {
    /// A scheduler that is not running.
    pub fn new() -> (r: Self)
        ensures
            !r.running_spec(),
    {
        SchedulerService { running: false }
    }

    /// Whether the scheduler is marked as running.
    pub closed spec fn running_spec(&self) -> bool {
        self.running
    }

    /// Whether the cron field `field` matches `value`.
    ///
    /// There is no error: a malformed field matches nothing, and a malformed
    /// piece of a list adds nothing to what the other pieces match.
    pub fn matches_field(field: &str, value: u32) -> (r: bool)
        ensures
            r == field_matches(field@, value),
    {
        let chars: Vec<char> = chars_of(field);
        assert(chars@.subrange(0, chars@.len() as int) =~= field@);
        field_matches_at(&chars, 0, chars.len(), value)
    }

    /// Whether `schedule` fires at `now`.
    pub fn should_trigger(schedule: &ScheduleEntry, now: &ClockReading) -> (r: bool)
        ensures
            r == triggers_at(*schedule, *now),
    {
        if !schedule.enabled {
            return false;
        }
        let chars: Vec<char> = chars_of(schedule.cron_expression.as_str());
        let parts: Vec<(usize, usize)> = split_words(&chars);
        if parts.len() != 5 {
            return false;
        }
        let ghost fields = words(chars@);
        assert forall|k: int| 0 <= k < 5 implies #[trigger] fields[k] == chars@.subrange(
            parts@[k].0 as int,
            parts@[k].1 as int,
        ) by {
            assert(pieces_of(chars@, parts@)[k] == fields[k]);
        }
        let minute_match: bool = field_matches_at(&chars, parts[0].0, parts[0].1, now.minute);
        let hour_match: bool = field_matches_at(&chars, parts[1].0, parts[1].1, now.hour);
        let dom_match: bool = field_matches_at(&chars, parts[2].0, parts[2].1, now.day);
        let month_match: bool = field_matches_at(&chars, parts[3].0, parts[3].1, now.month);
        let dow_match: bool = field_matches_at(
            &chars,
            parts[4].0,
            parts[4].1,
            now.weekday.num_days_from_sunday(),
        );
        proof {
            assert(minute_match == field_matches(fields[0], clock_field(*now, 0)));
            assert(hour_match == field_matches(fields[1], clock_field(*now, 1)));
            assert(dom_match == field_matches(fields[2], clock_field(*now, 2)));
            assert(month_match == field_matches(fields[3], clock_field(*now, 3)));
            assert(dow_match == field_matches(fields[4], clock_field(*now, 4)));
        }
        minute_match && hour_match && dom_match && month_match && dow_match
    }

    /// The profile ids of all schedules that fire at `now`.
    ///
    /// Two schedules for one profile give its id twice.
    pub fn check_schedules(schedules: &[ScheduleEntry], now: &ClockReading) -> (r: Vec<String>)
        ensures
            texts_of(r@) == triggered_ids(schedules@, *now),
    {
        let mut out: Vec<String> = Vec::new();
        let mut i: usize = 0;
        assert(schedules@.subrange(0, 0) =~= Seq::<ScheduleEntry>::empty());
        assert(texts_of(out@) =~= Seq::<Seq<char>>::empty());
        while i < schedules.len()
            invariant
                i <= schedules.len(),
                texts_of(out@) == triggered_ids(schedules@.subrange(0, i as int), *now),
            decreases schedules.len() - i,
        {
            let ghost before = texts_of(out@);
            assert(schedules@.subrange(0, i + 1).drop_last() =~= schedules@.subrange(0, i as int));
            if Self::should_trigger(&schedules[i], now) {
                out.push(schedules[i].profile_id.clone());
                assert(texts_of(out@) =~= before.push(schedules@[i as int].profile_id@));
            }
            i += 1;
        }
        assert(schedules@.subrange(0, i as int) =~= schedules@);
        out
    }

    /// Marks the scheduler as stopped.
    pub fn stop(&mut self)
        ensures
            !final(self).running_spec(),
    {
        self.running = false;
    }

    /// Whether the scheduler is marked as running.
    pub fn is_running(&self) -> (r: bool)
        ensures
            r == self.running_spec(),
    {
        self.running
    }
}

/// The hour and minute that a text of the form `HH:MM` names: numbers
/// before and after the first colon, the hour below 24, the minute below 60.
pub open spec fn time_of_text(s: Seq<char>) -> Option<(u32, u32)> {
    if !has_char(s, ':') {
        None
    } else {
        let i = first_index(s, ':');
        match (parse_u32_spec(s.subrange(0, i)), parse_u32_spec(s.skip(i + 1))) {
            (Some(hour), Some(minute)) => if hour < 24 && minute < 60 {
                Some((hour, minute))
            } else {
                None
            },
            _ => None,
        }
    }
}

/// Reads a time of day written as `HH:MM`.
pub fn parse_time(time_str: &str) -> (r: Option<(u32, u32)>)
    ensures
        r == time_of_text(time_str@),
{
    let chars: Vec<char> = chars_of(time_str);
    let n: usize = chars.len();
    assert(chars@.subrange(0, n as int) =~= time_str@);
    match find_char(&chars, 0, n, ':') {
        Some(i) => {
            proof {
                lemma_first_index(time_str@, ':', i as int);
                assert(time_str@.skip(i + 1) =~= chars@.subrange(i + 1, n as int));
                assert(time_str@.subrange(0, i as int) =~= chars@.subrange(0, i as int));
            }
            match (parse_u32(&chars, 0, i), parse_u32(&chars, i + 1, n)) {
                (Some(hour), Some(minute)) => {
                    if hour < 24 && minute < 60 {
                        Some((hour, minute))
                    } else {
                        None
                    }
                },
                _ => None,
            }
        },
        None => None,
    }
}

/// The expression that names `hour:minute` on every day.
pub open spec fn daily_expression(hour: u32, minute: u32) -> Seq<char> {
    decimal_text(minute as nat) + " "@ + decimal_text(hour as nat) + " * * *"@
}

/// The expression that names `hour:minute` on the days of the week `days`.
pub open spec fn weekdays_expression(hour: u32, minute: u32, days: Seq<char>) -> Seq<char> {
    decimal_text(minute as nat) + " "@ + decimal_text(hour as nat) + " * * "@ + days
}

/// A cron expression for `hour:minute` on every day.
pub fn cron_daily_at(hour: u32, minute: u32) -> (r: String)
    ensures
        r@ == daily_expression(hour, minute),
{
    let mut out: String = decimal_string(minute as u64);
    out.append(" ");
    let hours: String = decimal_string(hour as u64);
    out.append(hours.as_str());
    out.append(" * * *");
    out
}

/// A cron expression for `hour:minute` on the days of the week given in
/// `days`: a field such as `1-5` or `0,6`, where 0 is Sunday.
pub fn cron_weekdays_at(hour: u32, minute: u32, days: &str) -> (r: String)
    ensures
        r@ == weekdays_expression(hour, minute, days@),
{
    let mut out: String = decimal_string(minute as u64);
    out.append(" ");
    let hours: String = decimal_string(hour as u64);
    out.append(hours.as_str());
    out.append(" * * ");
    out.append(days);
    out
}

/// A number written in base ten is a field that matches that number only.
pub proof fn lemma_number_field(n: u32, v: u32)
    ensures
        field_matches(decimal_text(n as nat), v) <==> v == n,
{
    let s = decimal_text(n as nat);
    lemma_decimal_text_digits(n as nat);
    lemma_decimal_text_parses(n as nat, u32::MAX as nat);
    assert(is_digit(s[0]));
    assert(!has_char(s, ',')) by {
        if has_char(s, ',') {
            let i = choose|i: int| 0 <= i < s.len() && #[trigger] s[i] == ',';
            assert(is_digit(s[i]));
        }
    }
    assert(!has_char(s, '-')) by {
        if has_char(s, '-') {
            let i = choose|i: int| 0 <= i < s.len() && #[trigger] s[i] == '-';
            assert(is_digit(s[i]));
        }
    }
    assert(s != seq!['*']) by {
        if s == seq!['*'] {
            assert(s[0] == '*');
        }
    }
    assert(!starts_with(s, seq!['*', '/'])) by {
        if starts_with(s, seq!['*', '/']) {
            assert(s.subrange(0, 2)[0] == '*');
        }
    }
}

/// The field `*` matches every value.
pub proof fn lemma_star_field(v: u32)
    ensures
        field_matches(seq!['*'], v),
{
    let star = seq!['*'];
    assert(!has_char(star, ',')) by {
        if has_char(star, ',') {
            let i = choose|i: int| 0 <= i < star.len() && #[trigger] star[i] == ',';
            assert(star[i] == '*');
        }
    }
}

/// The fields of the expression that `cron_daily_at` writes: the minute,
/// the hour and three stars.
pub proof fn lemma_daily_expression_fields(hour: u32, minute: u32)
    ensures
        words(daily_expression(hour, minute)) == seq![
            decimal_text(minute as nat),
            decimal_text(hour as nat),
            seq!['*'],
            seq!['*'],
            seq!['*'],
        ],
{
    reveal_strlit(" ");
    reveal_strlit(" * * *");
    let star = seq!['*'];
    let sp = seq![' '];
    let none = Seq::<char>::empty();
    let m = decimal_text(minute as nat);
    let h = decimal_text(hour as nat);
    lemma_decimal_text_is_word(minute as nat);
    lemma_decimal_text_is_word(hour as nat);
    let t1 = star + none;
    lemma_words_of_word_and_rest(star, none);
    assert(words(none) =~= Seq::<Seq<char>>::empty());
    let t2 = star + (sp + t1);
    lemma_words_after_space(' ', t1);
    lemma_words_of_word_and_rest(star, sp + t1);
    let t3 = star + (sp + t2);
    lemma_words_after_space(' ', t2);
    lemma_words_of_word_and_rest(star, sp + t2);
    let t4 = h + (sp + t3);
    lemma_words_after_space(' ', t3);
    lemma_words_of_word_and_rest(h, sp + t3);
    let t5 = m + (sp + t4);
    lemma_words_after_space(' ', t4);
    lemma_words_of_word_and_rest(m, sp + t4);
    assert(" "@ =~= sp);
    assert(" * * *"@ =~= sp + t3);
    assert(daily_expression(hour, minute) =~= t5);
    assert(words(t5) =~= seq![m, h, star, star, star]);
}

/// A schedule written by `cron_daily_at` names exactly the minute it was
/// written for, on every day.
pub proof fn lemma_daily_expression_triggers(hour: u32, minute: u32, now: ClockReading)
    ensures
        expression_matches(daily_expression(hour, minute), now) <==> (now.minute == minute
            && now.hour == hour),
{
    lemma_daily_expression_fields(hour, minute);
    let fields = words(daily_expression(hour, minute));
    lemma_number_field(minute, now.minute);
    lemma_number_field(hour, now.hour);
    lemma_star_field(now.day);
    lemma_star_field(now.month);
    lemma_star_field(now.weekday.days_from_sunday());
    assert(fields[0] == decimal_text(minute as nat));
    assert(fields[1] == decimal_text(hour as nat));
    assert(fields[2] == seq!['*']);
    assert(fields[3] == seq!['*']);
    assert(fields[4] == seq!['*']);
    if now.minute == minute && now.hour == hour {
        assert forall|k: int| 0 <= k < 5 implies field_matches(
            #[trigger] fields[k],
            clock_field(now, k),
        ) by {}
    } else {
        if expression_matches(daily_expression(hour, minute), now) {
            assert(field_matches(fields[0], clock_field(now, 0)));
            assert(field_matches(fields[1], clock_field(now, 1)));
        }
    }
}

} // verus!
