//! Commands of the background logger and the names of its log files.

use vstd::prelude::*;
use vstd::string::*;
use std::collections::VecDeque;

verus! {

/// A request to the background logger.
#[derive(Clone, Debug)]
pub enum LoggerCommand {
    /// Queue a message.
    Print(String),
    /// Write out every queued message.
    Flush,
    /// Write out every queued message, then stop.
    Terminate,
}

/// The queue once `command` has been taken in: a message joins the end.
pub open spec fn queued_after(q: Seq<String>, command: Option<LoggerCommand>) -> Seq<String> {
    match command {
        Some(LoggerCommand::Print(m)) => q.push(m),
        _ => q,
    }
}

/// Whether `command` asks for every queued message to be written.
pub open spec fn flushes(command: Option<LoggerCommand>) -> bool {
    match command {
        Some(LoggerCommand::Flush) => true,
        Some(LoggerCommand::Terminate) => true,
        _ => false,
    }
}

/// Whether `command` stops the logger.
pub open spec fn terminates(command: Option<LoggerCommand>) -> bool {
    match command {
        Some(LoggerCommand::Terminate) => true,
        _ => false,
    }
}

/// How many of the `len` queued messages one round writes: all of them on a
/// flush, otherwise one if there is one.
pub open spec fn batch_len(len: nat, command: Option<LoggerCommand>) -> nat {
    if flushes(command) {
        len
    } else if len > 0 {
        1
    } else {
        0
    }
}

/// What one round of the logger decided.
pub struct LogRound {
    /// Messages to write now, oldest first.
    pub written: Vec<String>,
    /// Whether the logger stops after writing them.
    pub stop: bool,
    /// Whether the round flushed, after which the logger pauses a little longer.
    pub flushed: bool,
}

/// The messages that the background logger holds, oldest first.
pub struct LogQueue {
    messages: VecDeque<String>,
}

impl View for LogQueue {
    type V = Seq<String>;

    closed spec fn view(&self) -> Seq<String> {
        self.messages@
    }
}

impl LogQueue {
    /// An empty queue.
    pub fn new() -> (r: Self)
        ensures
            r@ == Seq::<String>::empty(),
    {
        LogQueue { messages: VecDeque::new() }
    }

    /// How many messages wait.
    pub fn len(&self) -> (r: usize)
        ensures
            r == self@.len(),
    {
        self.messages.len()
    }

    /// One round of the logger: take in `command` (if one arrived), then hand
    /// out the oldest message, or every message on a flush or a stop.
    pub fn round(&mut self, command: Option<LoggerCommand>) -> (r: LogRound)
        ensures
            r.written@ == queued_after(old(self)@, command).take(
                batch_len(queued_after(old(self)@, command).len(), command) as int,
            ),
            final(self)@ == queued_after(old(self)@, command).skip(
                batch_len(queued_after(old(self)@, command).len(), command) as int,
            ),
            r.stop == terminates(command),
            r.flushed == flushes(command),
    {
        let (flush, stop) = match command {
            Some(LoggerCommand::Print(m)) => {
                self.messages.push_back(m);
                (false, false)
            },
            Some(LoggerCommand::Flush) => (true, false),
            Some(LoggerCommand::Terminate) => (true, true),
            None => (false, false),
        };
        let ghost q = self.messages@;
        let end = if flush {
            self.messages.len()
        } else {
            1
        };
        let mut written: Vec<String> = Vec::new();
        while written.len() < end && self.messages.len() > 0
            invariant
                written@ + self.messages@ == q,
                written@.len() <= end,
                end == if flush {
                    q.len()
                } else {
                    1
                },
            decreases self.messages@.len(),
        {
            match self.messages.pop_front() {
                Some(m) => {
                    written.push(m);
                },
                None => {},
            }
        }
        proof {
            let n = batch_len(q.len(), command);
            assert(written@.len() == n);
            assert(written@ =~= q.take(n as int));
            assert(self.messages@ =~= q.skip(n as int));
        }
        LogRound { written, stop, flushed: flush }
    }
}

pub open spec fn is_leap_year(year: int) -> bool {
    year % 4 == 0 && (year % 100 != 0 || year % 400 == 0)
}

pub open spec fn year_length(year: int) -> int {
    if is_leap_year(year) {
        366
    } else {
        365
    }
}

/// Days in month `month` (0 for January) of `year`.
pub open spec fn month_length(year: int, month: int) -> int {
    if month == 1 {
        if is_leap_year(year) {
            29
        } else {
            28
        }
    } else if month == 3 || month == 5 || month == 8 || month == 10 {
        30
    } else {
        31
    }
}

/// Days in the months from `month` to December of `year`.
pub open spec fn days_from_month(year: int, month: int) -> int
    decreases 12 - month,
{
    if month < 0 || month >= 12 {
        0
    } else {
        month_length(year, month) + days_from_month(year, month + 1)
    }
}

/// The year and day of that year reached `days` days after day 0 of `year`.
pub open spec fn year_and_day(days: int, year: int) -> (int, int)
    decreases days,
{
    if days >= year_length(year) && year_length(year) > 0 {
        year_and_day(days - year_length(year), year + 1)
    } else {
        (year, days)
    }
}

/// The month (0 for January) and day of month (from 0) of day `day` of
/// `year`, counting from month `month`.
pub open spec fn month_and_day(year: int, day: int, month: int) -> (int, int)
    decreases 12 - month,
{
    if 0 <= month < 12 && day >= month_length(year, month) {
        month_and_day(year, day - month_length(year, month), month + 1)
    } else {
        (month, day)
    }
}

pub open spec fn digit_char(d: int) -> char {
    if d == 0 {
        '0'
    } else if d == 1 {
        '1'
    } else if d == 2 {
        '2'
    } else if d == 3 {
        '3'
    } else if d == 4 {
        '4'
    } else if d == 5 {
        '5'
    } else if d == 6 {
        '6'
    } else if d == 7 {
        '7'
    } else if d == 8 {
        '8'
    } else {
        '9'
    }
}

/// The decimal digits of `n`.
pub open spec fn decimal(n: nat) -> Seq<char>
    decreases n,
{
    if n < 10 {
        seq![digit_char(n as int)]
    } else {
        decimal(n / 10).push(digit_char((n % 10) as int))
    }
}

/// The decimal digits of `n`, led by zeros up to `width` characters.
pub open spec fn padded(n: nat, width: nat) -> Seq<char> {
    if decimal(n).len() < width {
        Seq::new((width - decimal(n).len()) as nat, |i: int| '0') + decimal(n)
    } else {
        decimal(n)
    }
}

/// `seconds` after the Unix epoch, in UTC, as `YYYY-MM-DD_HH-MM-SS`.
pub open spec fn time_string(seconds: nat) -> Seq<char> {
    let (year, yday) = year_and_day(seconds as int / 86400, 1970);
    let (month, mday) = month_and_day(year, yday, 0);
    let in_day = seconds % 86400;
    padded(year as nat, 4) + seq!['-'] + padded((month + 1) as nat, 2) + seq!['-'] + padded(
        (mday + 1) as nat,
        2,
    ) + seq!['_'] + padded(in_day / 3600, 2) + seq!['-'] + padded((in_day % 3600) / 60, 2) + seq![
        '-',
    ] + padded(in_day % 60, 2)
}

proof fn lemma_days_from_january(year: int)
    ensures
        days_from_month(year, 0) == year_length(year),
{
    reveal_with_fuel(days_from_month, 13);
}

fn leap_year(year: u64) -> (r: bool)
    ensures
        r == is_leap_year(year as int),
{
    year % 4 == 0 && (year % 100 != 0 || year % 400 == 0)
}

fn month_days(year: u64, month: usize) -> (r: u64)
    requires
        month < 12,
    ensures
        r == month_length(year as int, month as int),
{
    if month == 1 {
        if leap_year(year) {
            29
        } else {
            28
        }
    } else if month == 3 || month == 5 || month == 8 || month == 10 {
        30
    } else {
        31
    }
}

fn digit_text(d: u64) -> (r: &'static str)
    requires
        d < 10,
    ensures
        r@ == seq![digit_char(d as int)],
{
    proof {
        reveal_strlit("0");
        reveal_strlit("1");
        reveal_strlit("2");
        reveal_strlit("3");
        reveal_strlit("4");
        reveal_strlit("5");
        reveal_strlit("6");
        reveal_strlit("7");
        reveal_strlit("8");
        reveal_strlit("9");
    }
    match d {
        0 => "0",
        1 => "1",
        2 => "2",
        3 => "3",
        4 => "4",
        5 => "5",
        6 => "6",
        7 => "7",
        8 => "8",
        _ => "9",
    }
}

fn push_decimal(out: &mut String, n: u64)
    ensures
        final(out)@ == old(out)@ + decimal(n as nat),
    decreases n,
{
    if n >= 10 {
        push_decimal(out, n / 10);
    }
    out.append(digit_text(n % 10));
    proof {
        if n < 10 {
            assert(n % 10 == n);
        }
    }
}

fn decimal_len(n: u64) -> (r: u64)
    ensures
        r == decimal(n as nat).len(),
    decreases n,
{
    proof {
        lemma_decimal_len_bound(n as nat);
    }
    if n < 10 {
        1
    } else {
        let k = decimal_len(n / 10);
        proof {
            lemma_decimal_len_bound((n / 10) as nat);
        }
        k + 1
    }
}

proof fn lemma_decimal_len_bound(n: nat)
    ensures
        1 <= decimal(n).len() <= n + 1,
    decreases n,
{
    if n >= 10 {
        lemma_decimal_len_bound(n / 10);
    }
}

fn push_padded(out: &mut String, n: u64, width: u64)
    requires
        width <= 4,
    ensures
        final(out)@ == old(out)@ + padded(n as nat, width as nat),
{
    let len = decimal_len(n);
    let ghost start = out@;
    if len < width {
        let mut k: u64 = 0;
        proof {
            reveal_strlit("0");
        }
        while k < width - len
            invariant
                k <= width - len,
                len < width,
                out@ == start + Seq::new(k as nat, |i: int| '0'),
            decreases width - len - k,
        {
            out.append("0");
            proof {
                reveal_strlit("0");
                assert(out@ =~= start + Seq::new((k + 1) as nat, |i: int| '0'));
            }
            k = k + 1;
        }
        let ghost mid = out@;
        push_decimal(out, n);
        proof {
            assert(out@ =~= start + (Seq::new((width - len) as nat, |i: int| '0') + decimal(n as nat)));
        }
    } else {
        push_decimal(out, n);
    }
}

/// The name stem of a log file opened `seconds` after the Unix epoch:
/// `YYYY-MM-DD_HH-MM-SS` in UTC, each field led by zeros to its width.
pub fn format_time_string(seconds: u64) -> (r: String)
    ensures
        r@ == time_string(seconds as nat),
{
    let seconds_in_day = seconds % 86400;
    let mut day_number = seconds / 86400;
    let sec = seconds_in_day % 60;
    let min = (seconds_in_day % 3600) / 60;
    let hours = seconds_in_day / 3600;
    let ghost days0 = day_number;
    let mut year: u64 = 1970;
    loop
        invariant
            day_number <= days0,
            days0 == seconds / 86400,
            1970 <= year <= 1970 + (days0 - day_number),
            year_and_day(days0 as int, 1970) == year_and_day(day_number as int, year as int),
        ensures
            1970 <= year,
            day_number < year_length(year as int),
            year_and_day(days0 as int, 1970) == (year as int, day_number as int),
        decreases day_number,
    {
        let year_len: u64 = if leap_year(year) {
            366
        } else {
            365
        };
        if day_number >= year_len {
            day_number = day_number - year_len;
            year = year + 1;
        } else {
            break;
        }
    }
    let ghost yday = day_number;
    let mut month: usize = 0;
    proof {
        lemma_days_from_january(year as int);
    }
    while day_number >= month_days(year, month)
        invariant
            month < 12,
            day_number < days_from_month(year as int, month as int),
            month_and_day(year as int, yday as int, 0) == month_and_day(
                year as int,
                day_number as int,
                month as int,
            ),
        decreases 12 - month,
    {
        day_number = day_number - month_days(year, month);
        month = month + 1;
        proof {
            if month == 12 {
                assert(days_from_month(year as int, 12) == 0);
            }
        }
    }
    proof {
        assert(month_and_day(year as int, day_number as int, month as int) == (
        month as int,
        day_number as int,
        ));
    }
    let mut out = String::new();
    push_padded(&mut out, year, 4);
    out.append("-");
    push_padded(&mut out, month as u64 + 1, 2);
    out.append("-");
    push_padded(&mut out, day_number + 1, 2);
    out.append("_");
    push_padded(&mut out, hours, 2);
    out.append("-");
    push_padded(&mut out, min, 2);
    out.append("-");
    push_padded(&mut out, sec, 2);
    proof {
        reveal_strlit("-");
        reveal_strlit("_");
        assert(out@ =~= time_string(seconds as nat));
    }
    out
}

} // verus!
