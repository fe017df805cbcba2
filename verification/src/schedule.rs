//! Schedule evaluation: is a thread due for a check, and at what cadence.
//!
//! Clock times are "HH:MM" strings compared lexicographically, which on that
//! shape coincides with chronological order. A time window is half-open,
//! `[start, end)`; a window whose start is above its end wraps midnight.

use crate::config::CheckSchedule;
use crate::config::MonitoredThread;
use vstd::prelude::*;

verus! {

/// Strict lexicographic order on character sequences.
pub open spec fn lex_lt(a: Seq<char>, b: Seq<char>) -> bool
    decreases a.len(),
{
    if b.len() == 0 {
        false
    } else if a.len() == 0 {
        true
    } else if a[0] != b[0] {
        (a[0] as int) < (b[0] as int)
    } else {
        lex_lt(a.drop_first(), b.drop_first())
    }
}

/// Non-strict lexicographic order on character sequences.
pub open spec fn lex_le(a: Seq<char>, b: Seq<char>) -> bool {
    !lex_lt(b, a)
}

/// A clock time lies in the window `[start, end)`; a window whose start is
/// above its end wraps midnight and is the union `[start, ..) or (.., end)`.
pub open spec fn time_in_range(now: Seq<char>, start: Seq<char>, end: Seq<char>) -> bool {
    if lex_le(start, end) {
        lex_le(start, now) && lex_lt(now, end)
    } else {
        lex_le(start, now) || lex_lt(now, end)
    }
}

/// Dropping an equal prefix of both sequences does not change their
/// lexicographic order.
proof fn lemma_lex_lt_skip(a: Seq<char>, b: Seq<char>, i: int)
    requires
        0 <= i <= a.len(),
        i <= b.len(),
        forall|j: int| 0 <= j < i ==> a[j] == b[j],
    ensures
        lex_lt(a, b) == lex_lt(a.skip(i), b.skip(i)),
    decreases i,
{
    if i > 0 {
        assert(a.skip(1).skip(i - 1) =~= a.skip(i));
        assert(b.skip(1).skip(i - 1) =~= b.skip(i));
        assert(a.drop_first() =~= a.skip(1));
        assert(b.drop_first() =~= b.skip(1));
        lemma_lex_lt_skip(a.skip(1), b.skip(1), i - 1);
    } else {
        assert(a.skip(0) =~= a);
        assert(b.skip(0) =~= b);
    }
}

/// Strict lexicographic comparison of two strings, by characters.
pub fn str_lt(a: &str, b: &str) -> (res: bool)
    ensures
        res == lex_lt(a@, b@),
{
    let la = a.unicode_len();
    let lb = b.unicode_len();
    let mut i: usize = 0;
    loop
        invariant
            i <= la,
            i <= lb,
            la == a@.len(),
            lb == b@.len(),
            forall|j: int| 0 <= j < i ==> a@[j] == b@[j],
        decreases la - i,
    {
        if i == la || i == lb {
            proof {
                lemma_lex_lt_skip(a@, b@, i as int);
            }
            return la < lb;
        }
        let ca = a.get_char(i);
        let cb = b.get_char(i);
        if ca != cb {
            proof {
                lemma_lex_lt_skip(a@, b@, i as int);
                assert(a@.skip(i as int)[0] == a@[i as int]);
                assert(b@.skip(i as int)[0] == b@[i as int]);
            }
            return (ca as u32) < (cb as u32);
        }
        i += 1;
    }
}

/// Non-strict lexicographic comparison of two strings.
pub fn str_le(a: &str, b: &str) -> (res: bool)
    ensures
        res == lex_le(a@, b@),
{
    !str_lt(b, a)
}

/// Whether a clock time lies in the window from `start` (inclusive) to `end`
/// (exclusive); a window whose start is above its end wraps midnight. All
/// three are compared lexicographically, as "HH:MM" strings.
pub fn is_time_range(current_time: String, start: String, end: String) -> (res: bool)
    ensures
        res == time_in_range(current_time@, start@, end@),
{
    if str_le(start.as_str(), end.as_str()) {
        // Normal range (e.g., 09:00 to 18:00)
        str_le(start.as_str(), current_time.as_str()) && str_lt(
            current_time.as_str(),
            end.as_str(),
        )
    } else {
        // Wrap-around (e.g., 22:00 to 06:00)
        str_le(start.as_str(), current_time.as_str()) || str_lt(
            current_time.as_str(),
            end.as_str(),
        )
    }
}

/// A day of the week.
#[derive(Clone, Copy, Debug, PartialEq, Eq, Structural)]
pub enum Weekday {
    Monday,
    Tuesday,
    Wednesday,
    Thursday,
    Friday,
    Saturday,
    Sunday,
}

/// A character equals a lowercase ASCII letter, ignoring ASCII case.
pub open spec fn char_eq_lower(c: char, lower: char) -> bool {
    c == lower || (65 <= c as u32 <= 90 && c as u32 + 32 == lower as u32)
}

/// A token equals a lowercase ASCII keyword, ignoring ASCII case.
pub open spec fn matches_token(s: Seq<char>, kw: Seq<char>) -> bool {
    s.len() == kw.len() && (forall|i: int| 0 <= i < s.len() ==> char_eq_lower(s[i], kw[i]))
}

/// ASCII-case-insensitive equality of a token against a lowercase keyword.
pub fn eq_ignore_ascii_case(s: &str, kw: &str) -> (res: bool)
    ensures
        res == matches_token(s@, kw@),
{
    let ls = s.unicode_len();
    let lk = kw.unicode_len();
    if ls != lk {
        return false;
    }
    let mut i: usize = 0;
    while i < ls
        invariant
            i <= ls,
            ls == s@.len(),
            ls == kw@.len(),
            forall|j: int| 0 <= j < i ==> char_eq_lower(s@[j], kw@[j]),
        decreases ls - i,
    {
        let c = s.get_char(i);
        let k = kw.get_char(i);
        let cu = c as u32;
        let ku = k as u32;
        if !(c == k || (65 <= cu && cu <= 90 && cu + 32 == ku)) {
            return false;
        }
        i += 1;
    }
    true
}

/// The weekday a day token names: the full English name or its three-letter
/// abbreviation, ignoring ASCII case; any other token names none.
pub open spec fn weekday_from_token(s: Seq<char>) -> Option<Weekday> {
    if matches_token(s, "monday"@) || matches_token(s, "mon"@) {
        Some(Weekday::Monday)
    } else if matches_token(s, "tuesday"@) || matches_token(s, "tue"@) {
        Some(Weekday::Tuesday)
    } else if matches_token(s, "wednesday"@) || matches_token(s, "wed"@) {
        Some(Weekday::Wednesday)
    } else if matches_token(s, "thursday"@) || matches_token(s, "thu"@) {
        Some(Weekday::Thursday)
    } else if matches_token(s, "friday"@) || matches_token(s, "fri"@) {
        Some(Weekday::Friday)
    } else if matches_token(s, "saturday"@) || matches_token(s, "sat"@) {
        Some(Weekday::Saturday)
    } else if matches_token(s, "sunday"@) || matches_token(s, "sun"@) {
        Some(Weekday::Sunday)
    } else {
        None
    }
}

/// Parses a day token into a weekday; an unrecognized token parses to none.
pub fn parse_weekday(s: &str) -> (res: Option<Weekday>)
    ensures
        res == weekday_from_token(s@),
{
    if eq_ignore_ascii_case(s, "monday") || eq_ignore_ascii_case(s, "mon") {
        Some(Weekday::Monday)
    } else if eq_ignore_ascii_case(s, "tuesday") || eq_ignore_ascii_case(s, "tue") {
        Some(Weekday::Tuesday)
    } else if eq_ignore_ascii_case(s, "wednesday") || eq_ignore_ascii_case(s, "wed") {
        Some(Weekday::Wednesday)
    } else if eq_ignore_ascii_case(s, "thursday") || eq_ignore_ascii_case(s, "thu") {
        Some(Weekday::Thursday)
    } else if eq_ignore_ascii_case(s, "friday") || eq_ignore_ascii_case(s, "fri") {
        Some(Weekday::Friday)
    } else if eq_ignore_ascii_case(s, "saturday") || eq_ignore_ascii_case(s, "sat") {
        Some(Weekday::Saturday)
    } else if eq_ignore_ascii_case(s, "sunday") || eq_ignore_ascii_case(s, "sun") {
        Some(Weekday::Sunday)
    } else {
        None
    }
}

/// The weekdays one day token stands for: the alias "weekdays" for Monday
/// through Friday, "weekends" for Saturday and Sunday, a weekday name for
/// itself; an unrecognized token stands for no day at all.
pub open spec fn expand_token(s: Seq<char>) -> Seq<Weekday> {
    if matches_token(s, "weekdays"@) {
        seq![
            Weekday::Monday,
            Weekday::Tuesday,
            Weekday::Wednesday,
            Weekday::Thursday,
            Weekday::Friday,
        ]
    } else if matches_token(s, "weekends"@) {
        seq![Weekday::Saturday, Weekday::Sunday]
    } else {
        match weekday_from_token(s) {
            Some(d) => seq![d],
            None => Seq::empty(),
        }
    }
}

/// The weekdays a list of day tokens stands for, in token order.
pub open spec fn expand_days_spec(tokens: Seq<String>) -> Seq<Weekday>
    decreases tokens.len(),
{
    if tokens.len() == 0 {
        Seq::empty()
    } else {
        expand_days_spec(tokens.drop_last()) + expand_token(tokens.last()@)
    }
}

/// Expands a list of day tokens into the weekdays they stand for, in token
/// order; unrecognized tokens contribute nothing and are never fatal.
pub fn expand_days(str_weekdays: &Vec<String>) -> (res: Vec<Weekday>)
    ensures
        res@ == expand_days_spec(str_weekdays@),
{
    let mut res: Vec<Weekday> = Vec::new();
    let mut i: usize = 0;
    while i < str_weekdays.len()
        invariant
            i <= str_weekdays.len(),
            res@ == expand_days_spec(str_weekdays@.take(i as int)),
        decreases str_weekdays.len() - i,
    {
        let ghost prev = res@;
        let token = &str_weekdays[i];
        if eq_ignore_ascii_case(token.as_str(), "weekdays") {
            res.push(Weekday::Monday);
            res.push(Weekday::Tuesday);
            res.push(Weekday::Wednesday);
            res.push(Weekday::Thursday);
            res.push(Weekday::Friday);
        } else if eq_ignore_ascii_case(token.as_str(), "weekends") {
            res.push(Weekday::Saturday);
            res.push(Weekday::Sunday);
        } else {
            match parse_weekday(token.as_str()) {
                Some(day) => res.push(day),
                None => (),
            }
        }
        i += 1;
        proof {
            let pre = str_weekdays@.take(i - 1);
            assert(str_weekdays@.take(i as int).drop_last() =~= pre);
            assert(str_weekdays@.take(i as int).last() == str_weekdays@[i - 1]);
            assert(res@ =~= prev + expand_token(str_weekdays@[i - 1]@));
        }
    }
    proof {
        assert(str_weekdays@.take(str_weekdays@.len() as int) =~= str_weekdays@);
    }
    res
}

/// Whether a day list contains the given weekday.
pub fn contains_weekday(days: &Vec<Weekday>, day: Weekday) -> (res: bool)
    ensures
        res == days@.contains(day),
{
    let mut i: usize = 0;
    while i < days.len()
        invariant
            i <= days.len(),
            forall|j: int| 0 <= j < i ==> days@[j] != day,
        decreases days.len() - i,
    {
        if days[i] == day {
            return true;
        }
        i += 1;
    }
    false
}

/// A schedule rule matches an instant when its expanded day set contains the
/// instant's weekday and its time window contains the instant's clock time.
pub open spec fn rule_matches(rule: CheckSchedule, weekday: Weekday, now_time: Seq<char>) -> bool {
    expand_days_spec(rule.days@).contains(weekday) && time_in_range(
        now_time,
        rule.start_time@,
        rule.end_time@,
    )
}

/// The interval of the first rule that matches the instant, if any; rules are
/// evaluated in list order, and order is semantically significant.
pub open spec fn first_match_interval(
    rules: Seq<CheckSchedule>,
    weekday: Weekday,
    now_time: Seq<char>,
) -> Option<u64>
    decreases rules.len(),
{
    if rules.len() == 0 {
        None
    } else if rule_matches(rules[0], weekday, now_time) {
        Some(rules[0].interval)
    } else {
        first_match_interval(rules.drop_first(), weekday, now_time)
    }
}

/// The interval a thread falls back to when no schedule rule matches: its own
/// `check_interval`, or the global default when that is zero.
pub open spec fn default_interval(t: MonitoredThread) -> u64 {
    if t.check_interval == 0 {
        crate::DEFAULT_THREAD_CHECK_INTERVAL
    } else {
        t.check_interval
    }
}

/// The interval, in seconds, a thread is checked at, at the given instant.
pub open spec fn effective_interval_spec(
    t: MonitoredThread,
    weekday: Weekday,
    now_time: Seq<char>,
) -> u64 {
    match t.check_schedule {
        Some(rules) => match first_match_interval(rules@, weekday, now_time) {
            Some(interval) => interval,
            None => default_interval(t),
        },
        None => default_interval(t),
    }
}

/// The check interval of a thread at the given instant: the interval of the
/// first schedule rule matching the instant, else the thread's own interval,
/// else the global default.
pub fn get_check_interval(
    thread_config: &MonitoredThread,
    now_weekday: Weekday,
    now_time: &str,
) -> (res: u64)
    ensures
        res == effective_interval_spec(*thread_config, now_weekday, now_time@),
{
    let default_interval = if thread_config.check_interval == 0 {
        crate::DEFAULT_THREAD_CHECK_INTERVAL
    } else {
        thread_config.check_interval
    };
    match &thread_config.check_schedule {
        None => default_interval,
        Some(schedules) => {
            let ghost rules = schedules@;
            proof {
                assert(rules.skip(0) =~= rules);
            }
            let mut i: usize = 0;
            while i < schedules.len()
                invariant
                    i <= schedules.len(),
                    rules == schedules@,
                    thread_config.check_schedule is Some,
                    thread_config.check_schedule->Some_0@ == rules,
                    first_match_interval(rules, now_weekday, now_time@) == first_match_interval(
                        rules.skip(i as int),
                        now_weekday,
                        now_time@,
                    ),
                decreases schedules.len() - i,
            {
                let schedule = &schedules[i];
                let expanded_days = expand_days(&schedule.days);
                proof {
                    assert(rules.skip(i as int)[0] == rules[i as int]);
                    assert(rules.skip(i as int).drop_first() =~= rules.skip(i + 1));
                }
                if contains_weekday(&expanded_days, now_weekday) {
                    if is_time_range(
                        now_time.to_owned(),
                        schedule.start_time.clone(),
                        schedule.end_time.clone(),
                    ) {
                        proof {
                            assert(rule_matches(rules[i as int], now_weekday, now_time@));
                            assert(first_match_interval(rules.skip(i as int), now_weekday, now_time@)
                                == Some(rules[i as int].interval));
                        }
                        return schedule.interval;
                    }
                }
                i += 1;
            }
            proof {
                assert(rules.skip(rules.len() as int) =~= Seq::<CheckSchedule>::empty());
            }
            default_interval
        },
    }
}

/// Whether a thread is due for a check: always when it was never checked,
/// otherwise exactly when `now` lies strictly beyond the last check plus the
/// effective interval at the instant.
pub open spec fn is_due_spec(
    t: MonitoredThread,
    last_checked: Option<u64>,
    now_ts: u64,
    weekday: Weekday,
    now_time: Seq<char>,
) -> bool {
    match last_checked {
        None => true,
        Some(last) => now_ts > last + effective_interval_spec(t, weekday, now_time),
    }
}

/// Decides whether a thread is due for a check at the given instant.
/// `last_checked` and `now_ts` are clock readings in seconds.
pub fn is_due(
    thread_config: &MonitoredThread,
    last_checked: Option<u64>,
    now_ts: u64,
    now_weekday: Weekday,
    now_time: &str,
) -> (res: bool)
    ensures
        res == is_due_spec(*thread_config, last_checked, now_ts, now_weekday, now_time@),
{
    match last_checked {
        None => true,
        Some(last) => {
            let interval = get_check_interval(thread_config, now_weekday, now_time);
            let next_check = last.saturating_add(interval);
            now_ts > next_check
        },
    }
}

/// A thread with no schedule rules checks at its own interval, or the global
/// default when that is zero, whatever the instant.
pub proof fn lemma_no_schedule_uses_default(t: MonitoredThread, weekday: Weekday, now_time: Seq<char>)
    requires
        t.check_schedule is None || t.check_schedule->Some_0@.len() == 0,
    ensures
        effective_interval_spec(t, weekday, now_time) == default_interval(t),
{
}

/// Rule order is significant: when a rule matches an instant and no earlier
/// rule does, that rule decides the interval, whatever later rules say.
pub proof fn lemma_first_matching_rule_wins(
    rules: Seq<CheckSchedule>,
    weekday: Weekday,
    now_time: Seq<char>,
    i: int,
)
    requires
        0 <= i < rules.len(),
        rule_matches(rules[i], weekday, now_time),
        forall|j: int| 0 <= j < i ==> !rule_matches(rules[j], weekday, now_time),
    ensures
        first_match_interval(rules, weekday, now_time) == Some(rules[i].interval),
    decreases i,
{
    if i > 0 {
        assert(rules.drop_first()[i - 1] == rules[i]);
        assert(forall|j: int| 0 <= j < i - 1 ==> rules.drop_first()[j] == rules[j + 1]);
        lemma_first_matching_rule_wins(rules.drop_first(), weekday, now_time, i - 1);
    }
}

/// A thread that was never checked is due, whatever the instant.
pub proof fn lemma_due_when_never_checked(
    t: MonitoredThread,
    now_ts: u64,
    weekday: Weekday,
    now_time: Seq<char>,
)
    ensures
        is_due_spec(t, None, now_ts, weekday, now_time),
{
}

} // verus!
