use chrono::Timelike;
use vstd::prelude::*;
use vstd::string::StrSliceExecFns;
use vstd::string::StringExecFns;

verus! {

/// Minutes in one day; a valid time of day lies below this.
pub const MINUTES_PER_DAY: u32 = 1440;

/// A wall-clock time without date, to the minute.
#[derive(Clone, Copy, Debug, PartialEq, Eq, Structural)]
pub struct TimeOfDay {
    /// Minutes since midnight.
    pub minute_of_day: u32,
}

impl TimeOfDay {
    pub open spec fn wf(self) -> bool {
        self.minute_of_day < MINUTES_PER_DAY
    }

    pub open spec fn minutes(self) -> int {
        self.minute_of_day as int
    }

    /// The time `hour:minute`, or `None` when either part is out of range.
    pub fn from_hm(hour: u32, minute: u32) -> (r: Option<TimeOfDay>)
        ensures
            r is Some <==> (hour < 24 && minute < 60),
            r matches Some(t) ==> t.wf() && t.minutes() == hour * 60 + minute,
    {
        if hour < 24 && minute < 60 {
            Some(TimeOfDay { minute_of_day: hour * 60 + minute })
        } else {
            None
        }
    }

    /// Parses `HH:MM` as chrono's `%H:%M` format reads it.
    pub fn parse(s: &str) -> (r: Option<TimeOfDay>)
        ensures
            r == clock_of(parsed_clock(s@)),
            r matches Some(t) ==> t.wf(),
    {
        match parse_hour_minute(s) {
            Some((h, m)) => Some(TimeOfDay { minute_of_day: h * 60 + m }),
            None => None,
        }
    }
}

/// What a parsed `(hour, minute)` pair stands for as a time of day.
pub open spec fn clock_of(hm: Option<(u32, u32)>) -> Option<TimeOfDay> {
    match hm {
        Some((h, m)) => Some(TimeOfDay { minute_of_day: (h * 60 + m) as u32 }),
        None => None,
    }
}

/// The `(hour, minute)` that chrono reads from a text in the `%H:%M` format,
/// or `None` where it refuses the text.
pub uninterp spec fn parsed_clock(s: Seq<char>) -> Option<(u32, u32)>;

/// Relies on chrono's `NaiveTime::parse_from_str` with `%H:%M`, and on
/// `Timelike::hour` (0 to 23) and `Timelike::minute` (0 to 59).
#[verifier::external_body]
fn parse_hour_minute(s: &str) -> (r: Option<(u32, u32)>)
    ensures
        r == parsed_clock(s@),
        r matches Some((h, m)) ==> h < 24 && m < 60,
{
    match chrono::NaiveTime::parse_from_str(s, "%H:%M") {
        Ok(t) => Some((t.hour(), t.minute())),
        Err(_) => None,
    }
}

/// Relies on chrono's `Local::now` for the current local wall-clock time, and
/// on `Timelike::hour` (0 to 23) and `Timelike::minute` (0 to 59).
#[verifier::external_body]
fn local_hour_minute() -> (r: (u32, u32))
    ensures
        r.0 < 24,
        r.1 < 60,
{
    let t = chrono::Local::now().time();
    (t.hour(), t.minute())
}

/// The source of the current time of day: a fixed time when one is given,
/// else the local clock.
#[derive(Clone, Copy, Debug, PartialEq, Eq, Structural)]
pub struct Time {
    pub mock_time: Option<TimeOfDay>,
}

impl Time {
    pub fn new(mock_time: Option<TimeOfDay>) -> (r: Time)
        ensures
            r.mock_time == mock_time,
    {
        Time { mock_time }
    }

    /// The fixed time if there is one, else the local time now.
    pub fn now(&self) -> (r: TimeOfDay)
        ensures
            self.mock_time matches Some(p) ==> r == p,
            self.mock_time is None ==> r.wf(),
    {
        match self.mock_time {
            Some(p) => p,
            None => {
                let (h, m) = local_hour_minute();
                TimeOfDay { minute_of_day: h * 60 + m }
            },
        }
    }
}

pub open spec fn clamp_spec(value: int, min: int, max: int) -> int {
    if value <= min {
        min
    } else if value >= max {
        max
    } else {
        value
    }
}

/// `value` brought into `[min, max]`; the lower bound is tested first.
pub fn int_in_range(value: i32, min: i32, max: i32) -> (r: i32)
    ensures
        r == clamp_spec(value as int, min as int, max as int),
        min <= max ==> min <= r <= max,
{
    if value <= min {
        return min;
    }
    if value >= max {
        return max;
    }
    value
}

/// The part of `s` after its last `/`; all of `s` when it holds none.
pub open spec fn last_segment(s: Seq<char>) -> Seq<char>
    decreases s.len(),
{
    if s.len() == 0 {
        s
    } else if s.last() == '/' {
        Seq::empty()
    } else {
        last_segment(s.drop_last()).push(s.last())
    }
}

proof fn lemma_last_segment_from(s: Seq<char>, i: int)
    requires
        0 <= i <= s.len(),
        forall|j: int| i <= j < s.len() ==> s[j] != '/',
        i == 0 || s[i - 1] == '/',
    ensures
        last_segment(s) == s.subrange(i, s.len() as int),
    decreases s.len(),
{
    if s.len() == 0 {
        assert(s.subrange(i, 0) =~= s);
    } else if i == s.len() {
        assert(s.subrange(i, s.len() as int) =~= Seq::<char>::empty());
    } else {
        let d = s.drop_last();
        lemma_last_segment_from(d, i);
        assert(d.subrange(i, d.len() as int).push(s.last()) =~= s.subrange(i, s.len() as int));
    }
}

/// The shader identity that a shader file path carries: its last path
/// segment.
pub fn shader_hash_from_path(path: String) -> (r: Option<String>)
    ensures
        r matches Some(h) && h@ == last_segment(path@),
{
    let s = path.as_str();
    let n = s.unicode_len();
    let mut i = n;
    while i > 0 && s.get_char(i - 1) != '/'
        invariant
            n == s@.len(),
            i <= n,
            forall|j: int| i <= j < n ==> s@[j] != '/',
        decreases i,
    {
        i = i - 1;
    }
    proof {
        lemma_last_segment_from(s@, i as int);
    }
    Some(String::from_str(s.substring_char(i, n)))
}

pub open spec fn digit_char(d: int) -> char {
    if d == 0 {
        '0'
    } else if d == 1 {
        '1'
    } else if d == 2 {
        '2'
    } else if d == 3 {
        '3'
    } else if d == 4 {
        '4'
    } else if d == 5 {
        '5'
    } else if d == 6 {
        '6'
    } else if d == 7 {
        '7'
    } else if d == 8 {
        '8'
    } else {
        '9'
    }
}

/// The decimal digits of `n`, without leading zeros.
pub open spec fn digits(n: nat) -> Seq<char>
    decreases n,
{
    if n < 10 {
        seq![digit_char(n as int)]
    } else {
        digits(n / 10).push(digit_char((n % 10) as int))
    }
}

/// `n` written in decimal, with a leading `-` when negative.
pub open spec fn decimal(n: int) -> Seq<char> {
    if n < 0 {
        seq!['-'] + digits((-n) as nat)
    } else {
        digits(n as nat)
    }
}

fn digit_text(d: u64) -> (r: &'static str)
    requires
        d < 10,
    ensures
        r@ == seq![digit_char(d as int)],
{
    proof {
        reveal_strlit("0");
        reveal_strlit("1");
        reveal_strlit("2");
        reveal_strlit("3");
        reveal_strlit("4");
        reveal_strlit("5");
        reveal_strlit("6");
        reveal_strlit("7");
        reveal_strlit("8");
        reveal_strlit("9");
    }
    if d == 0 {
        "0"
    } else if d == 1 {
        "1"
    } else if d == 2 {
        "2"
    } else if d == 3 {
        "3"
    } else if d == 4 {
        "4"
    } else if d == 5 {
        "5"
    } else if d == 6 {
        "6"
    } else if d == 7 {
        "7"
    } else if d == 8 {
        "8"
    } else {
        "9"
    }
}

fn digits_text(n: u64) -> (r: String)
    ensures
        r@ == digits(n as nat),
{
    let mut v: u64 = n / 10;
    let mut acc = String::from_str(digit_text(n % 10));
    assert(v > 0 ==> digits(n as nat) == digits(v as nat).push(digit_char((n % 10) as int)));
    assert(acc@ == seq![digit_char((n % 10) as int)]);
    proof {
        if v > 0 {
            assert(digits(v as nat) + acc@ =~= digits(v as nat).push(digit_char((n % 10) as int)));
        }
    }
    while v > 0
        invariant
            v > 0 ==> digits(v as nat) + acc@ == digits(n as nat),
            v == 0 ==> acc@ == digits(n as nat),
        decreases v,
    {
        let d = digit_text(v % 10);
        let mut next = String::from_str(d);
        next.append(acc.as_str());
        proof {
            let w = (v / 10) as nat;
            if w > 0 {
                assert(digits(v as nat) == digits(w).push(digit_char((v % 10) as int)));
                assert(digits(w) + next@ =~= digits(w).push(digit_char((v % 10) as int)) + acc@);
            } else {
                assert(digits(v as nat) == seq![digit_char(v as int)]);
                assert(next@ =~= digits(v as nat) + acc@);
            }
        }
        acc = next;
        v = v / 10;
    }
    acc
}

/// `n` in decimal, as `to_string` writes an `i32`.
pub fn decimal_text(n: i32) -> (r: String)
    ensures
        r@ == decimal(n as int),
{
    proof {
        reveal_strlit("-");
    }
    if n < 0 {
        let m = (-(n as i64)) as u64;
        let d = digits_text(m);
        let mut s = String::from_str("-");
        s.append(d.as_str());
        s
    } else {
        digits_text(n as u64)
    }
}

} // verus!
