//! The log of a run: the lines that are kept, the names of its files, and when
//! old files go.
use std::collections::VecDeque;
use vstd::prelude::*;
use crate::calendar::{
    civil_from_days, comes_before, date_of, date_of_is, earlier_date_smaller_number, epoch_day,
    year_within_four_digits, CivilDate,
};
use crate::decimal::{
    all_digits, digits, digits_len_bound, digits_shape, digits_value, is_digit, padded,
    push_decimal, push_padded, zeros,
};
use crate::fields::{joined, joined_push, lacks, texts};
use crate::lexical::text_order;
use crate::text::{chars_at, occurs_at, same_text, to_chars};
use crate::time::Duration;
use crate::winpath::{extension, extension_seq, file_name, file_name_seq};

verus! {

/// How many lines are kept.
pub const RING_CAPACITY: usize = 2048;

/// Nanoseconds that a log file is kept: seven days.
pub const LOG_RETENTION_NANOS: u128 = 604_800_000_000_000;

/// The newest lines of the log.
#[derive(Debug)]
pub struct LogRing {
    pub lines: VecDeque<String>,
}

impl View for LogRing {
    type V = Seq<Seq<char>>;

    open spec fn view(&self) -> Seq<Seq<char>> {
        texts(self.lines@)
    }
}

/// The last `n` lines.
pub open spec fn newest(history: Seq<Seq<char>>, n: int) -> Seq<Seq<char>> {
    if history.len() <= n {
        history
    } else {
        history.skip(history.len() - n)
    }
}

impl LogRing {
    pub fn new() -> (r: Self)
        ensures
            r@.len() == 0,
    {
        LogRing { lines: VecDeque::new() }
    }

    /// Adds a line; a full ring loses its oldest.
    pub fn push(&mut self, line: String)
        ensures
            final(self)@ == (if old(self)@.len() >= RING_CAPACITY {
                old(self)@.drop_first().push(line@)
            } else {
                old(self)@.push(line@)
            }),
    {
        if self.lines.len() >= RING_CAPACITY {
            let _ = self.lines.pop_front();
            proof {
                assert(texts(self.lines@) =~= old(self)@.drop_first());
            }
        }
        let ghost before = texts(self.lines@);
        self.lines.push_back(line);
        proof {
            assert(texts(self.lines@) =~= before.push(line@));
        }
    }

    /// The text of a log file: every line with a line feed.
    pub fn contents(&self) -> (r: String)
        ensures
            r@ == joined(self@),
    {
        let mut out = String::new();
        let mut i: usize = 0;
        proof {
            assert(out@ =~= joined(self@.take(0)));
        }
        while i < self.lines.len()
            invariant
                i <= self.lines@.len(),
                out@ == joined(self@.take(i as int)),
            decreases self.lines@.len() - i,
        {
            let ghost before = out@;
            out.append(self.lines[i].as_str());
            out.push('\n');
            proof {
                let line = self.lines@[i as int]@;
                assert(self@[i as int] == line);
                assert(self@.take(i + 1) =~= self@.take(i as int).push(line));
                joined_push(self@.take(i as int), line);
                assert(out@ =~= before + line + seq!['\n']);
            }
            i = i + 1;
        }
        proof {
            assert(self@.take(self@.len() as int) =~= self@);
        }
        out
    }
}

/// Whatever was logged, the ring holds the newest lines of it.
pub proof fn ring_holds_the_newest(history: Seq<Seq<char>>, ring: Seq<Seq<char>>, line: Seq<char>)
    requires
        ring == newest(history, RING_CAPACITY as int),
    ensures
        (if ring.len() >= RING_CAPACITY {
            ring.drop_first().push(line)
        } else {
            ring.push(line)
        }) == newest(history.push(line), RING_CAPACITY as int),
{
    let next = if ring.len() >= RING_CAPACITY {
        ring.drop_first().push(line)
    } else {
        ring.push(line)
    };
    assert(next =~= newest(history.push(line), RING_CAPACITY as int));
}

/// The time of day of a second, as hours, minutes and seconds.
pub open spec fn clock_text(second_of_day: int) -> Seq<char> {
    padded((second_of_day / 3600) as nat, 2) + padded(((second_of_day % 3600) / 60) as nat, 2)
        + padded((second_of_day % 60) as nat, 2)
}

/// A date as year, month and day.
pub open spec fn date_text(d: CivilDate) -> Seq<char> {
    padded(d.year as nat, 4) + padded(d.month as nat, 2) + padded(d.day as nat, 2)
}

/// The UTC stamp of a number of seconds since the start of 1970.
pub open spec fn stamp_text(secs: u64) -> Seq<char> {
    date_text(date_of(secs as int / 86_400)) + seq!['T'] + clock_text(secs as int % 86_400)
        + seq!['Z']
}

/// The UTC stamp of a number of seconds since the start of 1970.
pub fn format_utc_stamp(secs: u64) -> (r: String)
    ensures
        r@ == stamp_text(secs),
{
    let date = civil_from_days(secs / 86_400);
    let second_of_day: u64 = secs % 86_400;
    proof {
        date_of_is(date, secs as int / 86_400);
    }
    let mut out = String::new();
    push_padded(&mut out, date.year, 4);
    push_padded(&mut out, date.month, 2);
    push_padded(&mut out, date.day, 2);
    out.push('T');
    push_padded(&mut out, second_of_day / 3600, 2);
    push_padded(&mut out, (second_of_day % 3600) / 60, 2);
    push_padded(&mut out, second_of_day % 60, 2);
    out.push('Z');
    proof {
        assert(out@ =~= stamp_text(secs));
    }
    out
}

/// The name of a run: when it began, and its process.
pub open spec fn run_id_text(secs: u64, pid: u32) -> Seq<char> {
    stamp_text(secs) + seq!['-'] + digits(pid as nat)
}

/// The name of a run: when it began, and its process.
pub fn run_id(secs: u64, pid: u32) -> (r: String)
    ensures
        r@ == run_id_text(secs, pid),
{
    let mut out = format_utc_stamp(secs);
    out.push('-');
    push_decimal(&mut out, pid as u64);
    proof {
        assert(out@ =~= run_id_text(secs, pid));
    }
    out
}

/// The path of a log file in a directory.
pub open spec fn log_path(dir: Seq<char>, prefix: Seq<char>, run: Seq<char>) -> Seq<char> {
    dir + seq!['\\'] + prefix + run + ".log"@
}

fn log_path_of(dir: Option<&str>, prefix: &str, run: &str) -> (r: Option<String>)
    ensures
        match (dir, r) {
            (Some(d), Some(path)) => path@ == log_path(d@, prefix@, run@),
            (None, None) => true,
            _ => false,
        },
{
    match dir {
        Some(d) => {
            let mut out = String::new();
            out.append(d);
            out.push('\\');
            out.append(prefix);
            out.append(run);
            out.append(".log");
            proof {
                assert(out@ =~= log_path(d@, prefix@, run@));
            }
            Some(out)
        },
        None => None,
    }
}

/// The path of a run's crash log, if there is a directory for logs.
pub fn crash_log_path(dir: Option<&str>, run: &str) -> (r: Option<String>)
    ensures
        match (dir, r) {
            (Some(d), Some(path)) => path@ == log_path(d@, "crash-"@, run@),
            (None, None) => true,
            _ => false,
        },
{
    log_path_of(dir, "crash-", run)
}

/// The path of a run's session log, if there is a directory for logs.
pub fn session_log_path(dir: Option<&str>, run: &str) -> (r: Option<String>)
    ensures
        match (dir, r) {
            (Some(d), Some(path)) => path@ == log_path(d@, "session-"@, run@),
            (None, None) => true,
            _ => false,
        },
{
    log_path_of(dir, "session-", run)
}

/// Whether a path names a log file of this program.
pub open spec fn is_own_log(path: Seq<char>) -> bool {
    &&& extension_seq(path) == Some("log"@)
    &&& file_name_seq(path) matches Some(name) && (occurs_at(name, "session-"@, 0) || occurs_at(
        name,
        "crash-"@,
        0,
    ))
}

/// Whether a file is to be deleted: it is a log file of this program, and it was
/// changed more than seven days ago. Times count from the start of 1970; a file
/// whose time is unknown, or lies ahead, stays.
pub open spec fn is_expired(path: Seq<char>, modified: Option<Duration>, now: Duration) -> bool {
    is_own_log(path) && (modified matches Some(m) && now@ - m@ > LOG_RETENTION_NANOS)
}

/// Whether a file is to be deleted.
pub fn is_expired_log(path: &str, modified: Option<Duration>, now: Duration) -> (r: bool)
    ensures
        r == is_expired(path@, modified, now),
{
    match extension(path) {
        Some(ext) => {
            if !same_text(ext.as_str(), "log") {
                return false;
            }
        },
        None => {
            return false;
        },
    }
    let name = match file_name(path) {
        Some(name) => to_chars(name.as_str()),
        None => {
            return false;
        },
    };
    let session = to_chars("session-");
    let crash = to_chars("crash-");
    if !chars_at(&name, &session, 0) && !chars_at(&name, &crash, 0) {
        return false;
    }
    match modified {
        Some(m) => now.saturating_sub(m).nanos > LOG_RETENTION_NANOS,
        None => false,
    }
}

/// A number of at most `width` digits, filled up to `width`.
pub proof fn padded_width(n: nat, width: nat)
    requires
        width > 0,
        n < vstd::arithmetic::power::pow(10, width),
    ensures
        padded(n, width).len() == width,
        all_digits(padded(n, width)),
        digits_value(padded(n, width)) == n,
{
    digits_len_bound(n, width);
    digits_shape(n);
    let z = zeros((width - digits(n).len()) as nat);
    let p = padded(n, width);
    assert forall|k: int| 0 <= k < p.len() implies is_digit(#[trigger] p[k]) by {
        if digits(n).len() < width {
            if k >= z.len() {
                assert(p[k] == digits(n)[k - z.len()]);
            }
        }
    }
    if digits(n).len() < width {
        leading_zeros_add_nothing(z.len(), digits(n));
        assert(z =~= zeros(z.len()));
    }
}

proof fn leading_zeros_add_nothing(count: nat, s: Seq<char>)
    ensures
        digits_value(zeros(count) + s) == digits_value(s),
    decreases s.len(),
{
    if s.len() == 0 {
        assert(zeros(count) + s =~= zeros(count));
        zeros_are_nothing(count);
    } else {
        assert((zeros(count) + s).drop_last() =~= zeros(count) + s.drop_last());
        leading_zeros_add_nothing(count, s.drop_last());
    }
}

proof fn zeros_are_nothing(count: nat)
    ensures
        digits_value(zeros(count)) == 0,
    decreases count,
{
    if count > 0 {
        assert(zeros(count).drop_last() =~= zeros((count - 1) as nat));
        zeros_are_nothing((count - 1) as nat);
    }
}

/// Digit runs of one length are ordered as their numbers are, whatever follows.
proof fn digit_texts_order(x: Seq<char>, y: Seq<char>, a: Seq<char>, b: Seq<char>)
    requires
        all_digits(x),
        all_digits(y),
        x.len() == y.len(),
        digits_value(x) < digits_value(y),
    ensures
        text_order(x + a, y + b) == -1,
    decreases x.len(),
{
    if x.len() == 0 {
        assert(x =~= y);
    } else {
        let x1 = x.drop_first();
        let y1 = y.drop_first();
        assert((x + a).drop_first() =~= x1 + a);
        assert((y + b).drop_first() =~= y1 + b);
        assert(is_digit(x[0]) && is_digit(y[0]));
        assert forall|k: int| 0 <= k < x1.len() implies is_digit(x1[k]) && is_digit(y1[k]) by {
            assert(is_digit(x[k + 1]) && is_digit(y[k + 1]));
        }
        if x[0] == y[0] {
            first_digit_counts(x);
            first_digit_counts(y);
            digit_texts_order(x1, y1, a, b);
        } else {
            first_digit_decides(x, y);
        }
    }
}

proof fn first_digit_counts(x: Seq<char>)
    requires
        x.len() > 0,
        all_digits(x),
    ensures
        digits_value(x) == crate::decimal::digit_value(x[0]) * vstd::arithmetic::power::pow(
            10,
            (x.len() - 1) as nat,
        ) + digits_value(x.drop_first()),
{
    crate::natural::digits_value_front(x);
}

proof fn first_digit_decides(x: Seq<char>, y: Seq<char>)
    requires
        all_digits(x),
        all_digits(y),
        x.len() == y.len(),
        x.len() > 0,
        digits_value(x) < digits_value(y),
        x[0] != y[0],
    ensures
        x[0] < y[0],
{
    if x[0] > y[0] {
        crate::natural::prefix_decides(y, x, 0);
    }
}

proof fn same_start_order(p: Seq<char>, a: Seq<char>, b: Seq<char>)
    ensures
        text_order(p + a, p + b) == text_order(a, b),
    decreases p.len(),
{
    if p.len() == 0 {
        assert(p + a =~= a);
        assert(p + b =~= b);
    } else {
        assert((p + a).drop_first() =~= p.drop_first() + a);
        assert((p + b).drop_first() =~= p.drop_first() + b);
        same_start_order(p.drop_first(), a, b);
    }
}

/// Compares two padded numbers in front of texts.
proof fn padded_order(m: nat, n: nat, width: nat, a: Seq<char>, b: Seq<char>)
    requires
        width > 0,
        m < vstd::arithmetic::power::pow(10, width),
        n < vstd::arithmetic::power::pow(10, width),
    ensures
        m < n ==> text_order(padded(m, width) + a, padded(n, width) + b) == -1,
        m == n ==> text_order(padded(m, width) + a, padded(n, width) + b) == text_order(a, b),
{
    padded_width(m, width);
    padded_width(n, width);
    if m < n {
        digit_texts_order(padded(m, width), padded(n, width), a, b);
    } else if m == n {
        same_start_order(padded(m, width), a, b);
    }
}

/// The parts of a stamp, each in front of the rest.
spec fn stamp_from_second(secs: u64) -> Seq<char> {
    padded((secs as int % 86_400 % 60) as nat, 2) + seq!['Z']
}

spec fn stamp_from_minute(secs: u64) -> Seq<char> {
    padded(((secs as int % 86_400 % 3600) / 60) as nat, 2) + stamp_from_second(secs)
}

spec fn stamp_from_hour(secs: u64) -> Seq<char> {
    padded((secs as int % 86_400 / 3600) as nat, 2) + stamp_from_minute(secs)
}

spec fn stamp_from_t(secs: u64) -> Seq<char> {
    seq!['T'] + stamp_from_hour(secs)
}

spec fn stamp_from_day(secs: u64) -> Seq<char> {
    padded(date_of(secs as int / 86_400).day as nat, 2) + stamp_from_t(secs)
}

spec fn stamp_from_month(secs: u64) -> Seq<char> {
    padded(date_of(secs as int / 86_400).month as nat, 2) + stamp_from_day(secs)
}

proof fn stamp_parts(secs: u64)
    ensures
        stamp_text(secs) == padded(date_of(secs as int / 86_400).year as nat, 4)
            + stamp_from_month(secs),
{
    let d = date_of(secs as int / 86_400);
    let t = secs as int % 86_400;
    regroup(
        padded(d.year as nat, 4),
        padded(d.month as nat, 2),
        padded(d.day as nat, 2),
        seq!['T'],
        padded((t / 3600) as nat, 2),
        padded(((t % 3600) / 60) as nat, 2),
        padded((t % 60) as nat, 2),
        seq!['Z'],
    );
}

proof fn regroup(
    a: Seq<char>,
    b: Seq<char>,
    c: Seq<char>,
    d: Seq<char>,
    e: Seq<char>,
    f: Seq<char>,
    g: Seq<char>,
    h: Seq<char>,
)
    ensures
        (a + b + c) + d + (e + f + g) + h == a + (b + (c + (d + (e + (f + (g + h)))))),
{
    assert((a + b + c) + d + (e + f + g) + h =~= a + (b + (c + (d + (e + (f + (g + h)))))));
}

/// Whether a day has a date with a year of at most four digits.
spec fn has_four_digit_year(secs: u64) -> bool {
    let d = date_of(secs as int / 86_400);
    d.valid() && d.day_number() == secs as int / 86_400 + epoch_day() && d.year <= 9999
}

proof fn powers()
    ensures
        vstd::arithmetic::power::pow(10, 2) == 100,
        vstd::arithmetic::power::pow(10, 4) == 10_000,
{
    vstd::arithmetic::power::lemma_pow1(10);
    vstd::arithmetic::power::lemma_pow_adds(10, 1, 1);
    vstd::arithmetic::power::lemma_pow_adds(10, 2, 2);
    let p = vstd::arithmetic::power::pow(10, 2);
    assert(p * p == 10_000) by (nonlinear_arith)
        requires
            p == 100,
    ;
}

proof fn clock_parts_order(a: u64, b: u64)
    requires
        a as int % 86_400 < b as int % 86_400,
    ensures
        text_order(stamp_from_t(a), stamp_from_t(b)) == -1,
{
    powers();
    let x = a as int % 86_400;
    let y = b as int % 86_400;
    same_start_order(seq!['T'], stamp_from_hour(a), stamp_from_hour(b));
    padded_order(
        (x / 3600) as nat,
        (y / 3600) as nat,
        2,
        stamp_from_minute(a),
        stamp_from_minute(b),
    );
    padded_order(
        ((x % 3600) / 60) as nat,
        ((y % 3600) / 60) as nat,
        2,
        stamp_from_second(a),
        stamp_from_second(b),
    );
    padded_order((x % 60) as nat, (y % 60) as nat, 2, seq!['Z'], seq!['Z']);
}

proof fn date_parts_order(a: u64, b: u64)
    requires
        has_four_digit_year(a),
        has_four_digit_year(b),
    ensures
        comes_before(date_of(a as int / 86_400), date_of(b as int / 86_400)) ==> text_order(
            stamp_text(a),
            stamp_text(b),
        ) == -1,
        date_of(a as int / 86_400) == date_of(b as int / 86_400) ==> text_order(
            stamp_text(a),
            stamp_text(b),
        ) == text_order(stamp_from_t(a), stamp_from_t(b)),
{
    powers();
    stamp_parts(a);
    stamp_parts(b);
    let d = date_of(a as int / 86_400);
    let e = date_of(b as int / 86_400);
    padded_order(d.year as nat, e.year as nat, 4, stamp_from_month(a), stamp_from_month(b));
    padded_order(d.month as nat, e.month as nat, 2, stamp_from_day(a), stamp_from_day(b));
    padded_order(d.day as nat, e.day as nat, 2, stamp_from_t(a), stamp_from_t(b));
}

/// Stamps sort as their times do, and have one length, up to the year 9999.
pub proof fn stamps_sort_by_time(a: u64, b: u64)
    requires
        a < b < 253_402_300_800,
    ensures
        text_order(stamp_text(a), stamp_text(b)) == -1,
        stamp_text(a).len() == 16,
        stamp_text(b).len() == 16,
{
    year_within_four_digits(a as int / 86_400);
    year_within_four_digits(b as int / 86_400);
    stamp_len(a);
    stamp_len(b);
    date_parts_order(a, b);
    let da = a as int / 86_400;
    let db = b as int / 86_400;
    let d = date_of(da);
    let e = date_of(db);
    if da == db {
        clock_parts_order(a, b);
    } else {
        assert(da < db);
        if comes_before(e, d) {
            earlier_date_smaller_number(e, d);
        }
        assert(d != e);
        assert(comes_before(d, e));
    }
}

proof fn stamp_len(secs: u64)
    requires
        has_four_digit_year(secs),
    ensures
        stamp_text(secs).len() == 16,
{
    powers();
    let d = date_of(secs as int / 86_400);
    let t = secs as int % 86_400;
    padded_width(d.year as nat, 4);
    padded_width(d.month as nat, 2);
    padded_width(d.day as nat, 2);
    padded_width((t / 3600) as nat, 2);
    padded_width(((t % 3600) / 60) as nat, 2);
    padded_width((t % 60) as nat, 2);
}

proof fn padded_lacks_hyphen(n: nat, width: nat)
    ensures
        lacks(padded(n, width), '-'),
{
    digits_shape(n);
    let p = padded(n, width);
    assert forall|k: int| 0 <= k < p.len() implies p[k] != '-' by {
        if digits(n).len() < width {
            let z = (width - digits(n).len()) as nat;
            if k >= z {
                assert(p[k] == digits(n)[k - z]);
                assert(is_digit(digits(n)[k - z]));
            }
        } else {
            assert(is_digit(digits(n)[k]));
        }
    }
}

/// The process of a run stands behind the only hyphen of its name.
pub proof fn run_id_ends_in_the_process(secs: u64, pid: u32)
    ensures
        lacks(stamp_text(secs), '-'),
        lacks(digits(pid as nat), '-'),
        stamp_text(secs).last() == 'Z',
        run_id_text(secs, pid) == stamp_text(secs) + seq!['-'] + digits(pid as nat),
{
    let d = date_of(secs as int / 86_400);
    let t = secs as int % 86_400;
    padded_lacks_hyphen(d.year as nat, 4);
    padded_lacks_hyphen(d.month as nat, 2);
    padded_lacks_hyphen(d.day as nat, 2);
    padded_lacks_hyphen((t / 3600) as nat, 2);
    padded_lacks_hyphen(((t % 3600) / 60) as nat, 2);
    padded_lacks_hyphen((t % 60) as nat, 2);
    digits_shape(pid as nat);
    assert forall|k: int| 0 <= k < digits(pid as nat).len() implies digits(pid as nat)[k]
        != '-' by {
        assert(is_digit(digits(pid as nat)[k]));
    }
    let a = date_text(d);
    let b = clock_text(t);
    lacks_concat(padded(d.year as nat, 4), padded(d.month as nat, 2));
    lacks_concat(padded(d.year as nat, 4) + padded(d.month as nat, 2), padded(d.day as nat, 2));
    lacks_concat(padded((t / 3600) as nat, 2), padded(((t % 3600) / 60) as nat, 2));
    lacks_concat(
        padded((t / 3600) as nat, 2) + padded(((t % 3600) / 60) as nat, 2),
        padded((t % 60) as nat, 2),
    );
    lacks_concat(a, seq!['T']);
    lacks_concat(a + seq!['T'], b);
    lacks_concat(a + seq!['T'] + b, seq!['Z']);
}

proof fn lacks_concat(a: Seq<char>, b: Seq<char>)
    requires
        lacks(a, '-'),
        lacks(b, '-'),
    ensures
        lacks(a + b, '-'),
{
    assert forall|k: int| 0 <= k < (a + b).len() implies (a + b)[k] != '-' by {
        if k >= a.len() {
            assert((a + b)[k] == b[k - a.len()]);
        }
    }
}

/// Nothing but this program's own log files is ever deleted.
pub proof fn only_own_logs_are_deleted(path: Seq<char>, modified: Option<Duration>, now: Duration)
    requires
        is_expired(path, modified, now),
    ensures
        is_own_log(path),
        modified matches Some(m) && m@ < now@,
{
}

/// A log file of this program stays for seven days from its last change; files of
/// other names stay for ever.
pub proof fn logs_stay_for_seven_days(path: Seq<char>, modified: Duration, now: Duration)
    ensures
        is_expired(path, None, now) == false,
        now@ <= modified@ + 7 * 24 * 3600 * 1_000_000_000 ==> !is_expired(
            path,
            Some(modified),
            now,
        ),
        now@ > modified@ + 7 * 24 * 3600 * 1_000_000_000 ==> (is_expired(path, Some(modified), now)
            <==> extension_seq(path) == Some("log"@) && (file_name_seq(path) matches Some(name) && (
        occurs_at(name, "session-"@, 0) || occurs_at(name, "crash-"@, 0)))),
{
}

/// A stamp's time of day is made of its hours, minutes and seconds, two digits
/// each.
pub proof fn stamp_holds_the_time_of_day(day: u64, h: u64, m: u64, sec: u64)
    requires
        day <= 100_000_000_000,
        h < 24,
        m < 60,
        sec < 60,
    ensures
        stamp_text((86_400 * day + 3600 * h + 60 * m + sec) as u64) == date_text(
            date_of(day as int),
        ) + seq!['T'] + (padded(h as nat, 2) + padded(m as nat, 2) + padded(sec as nat, 2))
            + seq!['Z'],
{
    let secs = (86_400 * day + 3600 * h + 60 * m + sec) as u64;
    let rest = 3600 * h + 60 * m + sec;
    assert(secs as int / 86_400 == day);
    assert(secs as int % 86_400 == rest);
    assert(rest / 3600 == h);
    assert(rest % 3600 == 60 * m + sec);
    assert((rest % 3600) / 60 == m);
    assert(rest % 60 == sec);
}

} // verus!
