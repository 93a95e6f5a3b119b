use crate::volume::{shown_level, shown_volume};
use vstd::prelude::*;

verus! {

/// A decimal digit.
pub open spec fn is_digit(c: char) -> bool {
    '0' <= c <= '9'
}

/// The value of a decimal digit.
pub open spec fn digit_value(c: char) -> int {
    (c as int) - ('0' as int)
}

/// The value of a string of decimal digits, most significant first.
pub open spec fn digits_value(s: Seq<char>) -> int
    decreases s.len(),
{
    if s.len() == 0 {
        0
    } else {
        10 * digits_value(s.drop_last()) + digit_value(s.last())
    }
}

/// At least one character, all of them decimal digits.
pub open spec fn all_digits(s: Seq<char>) -> bool {
    &&& s.len() > 0
    &&& forall|i: int| 0 <= i < s.len() ==> is_digit(#[trigger] s[i])
}

/// The text after an optional leading `+`.
pub open spec fn unsigned_body(s: Seq<char>) -> Seq<char> {
    if s.len() > 0 && s[0] == '+' {
        s.drop_first()
    } else {
        s
    }
}

/// The `u32` that a text denotes: an optional `+` followed by decimal digits whose
/// value fits in 32 bits; anything else denotes none.
pub open spec fn parse_u32(s: Seq<char>) -> Option<u32> {
    let d = unsigned_body(s);
    if all_digits(d) && digits_value(d) <= u32::MAX {
        Some(digits_value(d) as u32)
    } else {
        None
    }
}

proof fn lemma_digits_value_monotone(s: Seq<char>, k: int)
    requires
        0 <= k <= s.len(),
        forall|i: int| 0 <= i < s.len() ==> is_digit(#[trigger] s[i]),
    ensures
        0 <= digits_value(s.take(k)) <= digits_value(s),
    decreases s.len(),
{
    if s.len() == 0 {
        assert(s.take(k) =~= s);
    } else if k == s.len() {
        assert(s.take(k) =~= s);
        lemma_digits_value_monotone(s.drop_last(), k - 1);
    } else {
        let d = s.drop_last();
        assert forall|i: int| 0 <= i < d.len() implies is_digit(#[trigger] d[i]) by {
            assert(d[i] == s[i]);
        }
        lemma_digits_value_monotone(d, k);
        lemma_digits_value_monotone(d, d.len() as int);
        assert(d.take(k) =~= s.take(k));
        assert(d.take(d.len() as int) =~= d);
        assert(is_digit(s[s.len() - 1]));
    }
}

/// The number a stream's process-identifier property holds, read as `u32`
/// parsing reads it.
pub fn parse_process_id(text: &str) -> (r: Option<u32>)
    ensures
        r == parse_u32(text@),
{
    let n = text.unicode_len();
    let mut start: usize = 0;
    if n > 0 && text.get_char(0) == '+' {
        start = 1;
    }
    let ghost body = unsigned_body(text@);
    assert(body =~= text@.subrange(start as int, n as int));
    if start >= n {
        return None;
    }
    let mut value: u64 = 0;
    let mut i: usize = start;
    while i < n
        invariant
            n == text@.len(),
            body == text@.subrange(start as int, n as int),
            body == unsigned_body(text@),
            start < n,
            start <= i <= n,
            value as int == digits_value(body.take(i - start)),
            value <= u32::MAX,
            forall|j: int| 0 <= j < i - start ==> is_digit(#[trigger] body[j]),
        decreases n - i,
    {
        let c = text.get_char(i);
        assert(c == body[i - start]);
        if c < '0' || c > '9' {
            assert(!all_digits(body));
            return None;
        }
        let d = (c as u32 - '0' as u32) as u64;
        proof {
            assert(body.take(i - start + 1).drop_last() =~= body.take(i - start));
            assert(body.take(i - start + 1).last() == c);
        }
        value = value * 10 + d;
        i = i + 1;
        if value > u32::MAX as u64 {
            proof {
                if all_digits(body) {
                    lemma_digits_value_monotone(body, i - start);
                }
            }
            return None;
        }
    }
    assert(body.take(n - start) =~= body);
    Some(value as u32)
}

/// One stream (sink input) as the audio service lists it.
pub struct StreamEntry {
    /// The service's own index of the stream.
    pub index: u32,
    /// The stream's process-identifier property, as text, where it has one.
    pub process_id: Option<String>,
    /// The stream's name, where it has one.
    pub name: Option<String>,
    /// The stream's level on each of its channels.
    pub channels: Vec<u32>,
    /// Whether the stream is muted.
    pub muted: bool,
}

/// The process identifier a stream declares: its property read as a number,
/// zero where it is missing or not a number.
pub open spec fn declared_pid(e: StreamEntry) -> u32 {
    match e.process_id {
        Some(t) => match parse_u32(t@) {
            Some(v) => v,
            None => 0,
        },
        None => 0,
    }
}

/// The identifier a stream is known by: its process identifier where that is
/// present and nonzero, otherwise the stream's own index.
pub open spec fn effective_id(e: StreamEntry) -> u32 {
    if declared_pid(e) != 0 {
        declared_pid(e)
    } else {
        e.index
    }
}

/// The name a stream is shown under.
pub open spec fn shown_name(e: StreamEntry) -> Seq<char> {
    match e.name {
        Some(n) => n@,
        None => "Unknown"@,
    }
}

impl StreamEntry {
    /// The identifier this stream is listed and looked up by.
    pub fn effective_id(&self) -> (r: u32)
        ensures
            r == effective_id(*self),
    {
        let pid = match &self.process_id {
            Some(t) => match parse_process_id(t.as_str()) {
                Some(v) => v,
                None => 0,
            },
            None => 0,
        };
        if pid != 0 {
            pid
        } else {
            self.index
        }
    }
}

/// Whether some stream of the list is known by `id`.
pub open spec fn has_stream(entries: Seq<StreamEntry>, id: u32) -> bool {
    exists|i: int| 0 <= i < entries.len() && effective_id(#[trigger] entries[i]) == id
}

/// The position of the first stream known by `id`, if any.
pub fn find_stream(entries: &Vec<StreamEntry>, id: u32) -> (r: Option<usize>)
    ensures
        r is None <==> !has_stream(entries@, id),
        r matches Some(i) ==> i < entries@.len() && effective_id(entries@[i as int]) == id
            && forall|j: int| 0 <= j < i ==> effective_id(#[trigger] entries@[j]) != id,
{
    let mut i: usize = 0;
    while i < entries.len()
        invariant
            i <= entries@.len(),
            forall|j: int| 0 <= j < i ==> effective_id(#[trigger] entries@[j]) != id,
        decreases entries@.len() - i,
    {
        if entries[i].effective_id() == id {
            return Some(i);
        }
        i = i + 1;
    }
    None
}

/// What a listing shows of one application's stream.
pub struct AppInfo {
    /// The identifier the stream is known by.
    pub pid: u32,
    /// The name it is shown under.
    pub name: String,
    /// Its average level, in native units, capped at normal.
    pub volume: u32,
    /// Whether it is muted.
    pub muted: bool,
}

/// `info` is the listing of stream `e`.
pub open spec fn describes(info: AppInfo, e: StreamEntry) -> bool {
    &&& info.pid == effective_id(e)
    &&& info.name@ == shown_name(e)
    &&& info.volume as int == shown_level(e.channels@)
    &&& info.muted == e.muted
}

impl AppInfo {
    /// The identifier the stream is known by.
    pub fn pid(&self) -> (r: u32)
        ensures
            r == self.pid,
    {
        self.pid
    }

    /// The name the stream is shown under.
    pub fn name(&self) -> (r: &str)
        ensures
            r@ == self.name@,
    {
        self.name.as_str()
    }

    /// The stream's average level, in native units, capped at normal.
    pub fn volume(&self) -> (r: u32)
        ensures
            r == self.volume,
    {
        self.volume
    }

    /// Whether the stream is muted.
    pub fn muted(&self) -> (r: bool)
        ensures
            r == self.muted,
    {
        self.muted
    }

    /// The listing of one stream.
    pub fn of_stream(e: &StreamEntry) -> (r: AppInfo)
        ensures
            describes(r, *e),
    {
        let name = match &e.name {
            Some(n) => n.clone(),
            None => String::from_str("Unknown"),
        };
        AppInfo {
            pid: e.effective_id(),
            name,
            volume: shown_volume(&e.channels),
            muted: e.muted,
        }
    }
}

/// The listing of every stream, in the order the service gave them.
pub fn list_apps(entries: &Vec<StreamEntry>) -> (r: Vec<AppInfo>)
    ensures
        r@.len() == entries@.len(),
        forall|i: int| 0 <= i < r@.len() ==> describes(#[trigger] r@[i], entries@[i]),
{
    let mut r: Vec<AppInfo> = Vec::new();
    let mut i: usize = 0;
    while i < entries.len()
        invariant
            i <= entries@.len(),
            r@.len() == i,
            forall|j: int| 0 <= j < i ==> describes(#[trigger] r@[j], entries@[j]),
        decreases entries@.len() - i,
    {
        r.push(AppInfo::of_stream(&entries[i]));
        i = i + 1;
    }
    r
}

} // verus!
