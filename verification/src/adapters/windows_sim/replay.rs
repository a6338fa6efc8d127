//! Deterministic replay of recorded events. A recorded line reads
//! "<sequence>|<kind>|<payload>"; the events are replayed in order of
//! sequence number, lines with equal numbers in the order they were given.

use vstd::prelude::*;

use crate::messages::{Target10Command, Target10CommandView, Target5Status};
use crate::text::chars_of;

verus! {

/// An event that can be replayed.
#[derive(Debug, Clone, PartialEq, Eq)]
pub enum ReplayEvent {
    Target5Status(Target5Status),
    Target10Command(Target10Command),
}

pub enum ReplayEventView {
    Target5Status(Target5Status),
    Target10Command(Target10CommandView),
}

impl View for ReplayEvent {
    type V = ReplayEventView;

    open spec fn view(&self) -> ReplayEventView {
        match self {
            ReplayEvent::Target5Status(s) => ReplayEventView::Target5Status(*s),
            ReplayEvent::Target10Command(c) => ReplayEventView::Target10Command(c@),
        }
    }
}

impl ReplayEvent {
    /// A copy of the event with the same value.
    pub fn duplicate(&self) -> (r: ReplayEvent)
        ensures
            r@ == self@,
    {
        match self {
            ReplayEvent::Target5Status(s) => ReplayEvent::Target5Status(*s),
            ReplayEvent::Target10Command(c) => ReplayEvent::Target10Command(c.duplicate()),
        }
    }
}

/// The kind named in a recorded line.
#[derive(Debug, Clone, Copy, PartialEq, Eq, Structural)]
pub enum ReplayEventKind {
    Target5Status,
    Target10Command,
}

/// Why replay input was refused.
#[derive(Debug, Clone, PartialEq, Eq)]
pub enum ReplayParseError {
    InvalidFormat,
    InvalidSequence,
    InvalidPayload,
    InvalidJson { message: String },
    InvalidEventOrder { previous_timestamp_ms: u64, current_timestamp_ms: u64 },
    MissingRequiredField { kind: String, message: String },
    UnknownEventKind { kind: String },
}

pub enum ReplayParseErrorView {
    InvalidFormat,
    InvalidSequence,
    InvalidPayload,
    InvalidJson { message: Seq<char> },
    InvalidEventOrder { previous_timestamp_ms: u64, current_timestamp_ms: u64 },
    MissingRequiredField { kind: Seq<char>, message: Seq<char> },
    UnknownEventKind { kind: Seq<char> },
}

impl View for ReplayParseError {
    type V = ReplayParseErrorView;

    open spec fn view(&self) -> ReplayParseErrorView {
        match self {
            ReplayParseError::InvalidFormat => ReplayParseErrorView::InvalidFormat,
            ReplayParseError::InvalidSequence => ReplayParseErrorView::InvalidSequence,
            ReplayParseError::InvalidPayload => ReplayParseErrorView::InvalidPayload,
            ReplayParseError::InvalidJson { message } => ReplayParseErrorView::InvalidJson { message: message@ },
            ReplayParseError::InvalidEventOrder { previous_timestamp_ms, current_timestamp_ms } => ReplayParseErrorView::InvalidEventOrder {
                previous_timestamp_ms: *previous_timestamp_ms,
                current_timestamp_ms: *current_timestamp_ms,
            },
            ReplayParseError::MissingRequiredField { kind, message } => ReplayParseErrorView::MissingRequiredField {
                kind: kind@,
                message: message@,
            },
            ReplayParseError::UnknownEventKind { kind } => ReplayParseErrorView::UnknownEventKind { kind: kind@ },
        }
    }
}

/// An event with the number that orders it in a replay.
#[derive(Debug, Clone, PartialEq, Eq)]
pub struct TimedReplayEvent {
    pub sequence: u64,
    pub event: ReplayEvent,
}

pub struct TimedReplayEventView {
    pub sequence: u64,
    pub event: ReplayEventView,
}

impl View for TimedReplayEvent {
    type V = TimedReplayEventView;

    open spec fn view(&self) -> TimedReplayEventView {
        TimedReplayEventView { sequence: self.sequence, event: self.event@ }
    }
}

impl TimedReplayEvent {
    /// A copy of the timed event with the same value.
    pub fn duplicate(&self) -> (r: TimedReplayEvent)
        ensures
            r@ == self@,
    {
        TimedReplayEvent { sequence: self.sequence, event: self.event.duplicate() }
    }
}

// ---------------------------------------------------------------------------
// Text of a recorded line

/// The characters `char::is_whitespace` accepts: those with the Unicode
/// White_Space property.
pub open spec fn is_whitespace(c: char) -> bool {
    ('\u{9}' <= c && c <= '\u{D}') || c == ' ' || c == '\u{85}' || c == '\u{A0}' || c == '\u{1680}' || ('\u{2000}'
        <= c && c <= '\u{200A}') || c == '\u{2028}' || c == '\u{2029}' || c == '\u{202F}' || c == '\u{205F}' || c
        == '\u{3000}'
}

/// A line is blank when it holds only whitespace.
pub open spec fn is_blank(s: Seq<char>) -> bool {
    forall|i: int| 0 <= i < s.len() ==> is_whitespace(#[trigger] s[i])
}

fn is_whitespace_char(c: char) -> (r: bool)
    ensures
        r == is_whitespace(c),
{
    ('\u{9}' <= c && c <= '\u{D}') || c == ' ' || c == '\u{85}' || c == '\u{A0}' || c == '\u{1680}' || ('\u{2000}'
        <= c && c <= '\u{200A}') || c == '\u{2028}' || c == '\u{2029}' || c == '\u{202F}' || c == '\u{205F}' || c
        == '\u{3000}'
}

/// Whether a line holds only whitespace.
pub fn is_blank_line(line: &str) -> (r: bool)
    ensures
        r == is_blank(line@),
{
    let chars = chars_of(line);
    let mut i: usize = 0;
    while i < chars.len()
        invariant
            chars@ == line@,
            i <= chars@.len(),
            forall|k: int| 0 <= k < i ==> is_whitespace(#[trigger] chars@[k]),
        decreases chars@.len() - i,
    {
        if !is_whitespace_char(chars[i]) {
            return false;
        }
        i = i + 1;
    }
    true
}

/// Position of the first `c` in `s`, if any.
pub open spec fn first_index_of(s: Seq<char>, c: char) -> Option<int>
    decreases s.len(),
{
    if s.len() == 0 {
        None
    } else if s[0] == c {
        Some(0)
    } else {
        match first_index_of(s.drop_first(), c) {
            Some(i) => Some(i + 1),
            None => None,
        }
    }
}

proof fn lemma_first_index_of(s: Seq<char>, c: char, j: int)
    requires
        0 <= j <= s.len(),
        forall|k: int| 0 <= k < j ==> s[k] != c,
    ensures
        j < s.len() && s[j] == c ==> first_index_of(s, c) == Some(j),
        j == s.len() ==> first_index_of(s, c) is None,
    decreases j,
{
    if j > 0 {
        lemma_first_index_of(s.drop_first(), c, j - 1);
    }
}

/// The value of a string of decimal digits.
pub open spec fn digits_value(d: Seq<char>) -> nat
    decreases d.len(),
{
    if d.len() == 0 {
        0
    } else {
        digits_value(d.drop_last()) * 10 + ((d.last() as int) - ('0' as int)) as nat
    }
}

pub open spec fn is_digit(c: char) -> bool {
    '0' <= c && c <= '9'
}

/// A sequence number: an optional '+', then one or more decimal digits
/// whose value fits in `u64`.
pub open spec fn spec_parse_sequence(s: Seq<char>) -> Option<u64> {
    let d = sequence_digits(s);
    if d.len() > 0 && all_digits(d) && digits_value(d) <= u64::MAX {
        Some(digits_value(d) as u64)
    } else {
        None
    }
}

/// The digits of a sequence number: the text without its leading '+', if any.
pub open spec fn sequence_digits(s: Seq<char>) -> Seq<char> {
    if s.len() > 0 && s[0] == '+' { s.drop_first() } else { s }
}

pub open spec fn all_digits(d: Seq<char>) -> bool {
    forall|i: int| 0 <= i < d.len() ==> is_digit(#[trigger] d[i])
}

proof fn lemma_digits_value_grows(d: Seq<char>, i: int)
    requires
        0 <= i <= d.len(),
        forall|k: int| 0 <= k < d.len() ==> is_digit(#[trigger] d[k]),
    ensures
        digits_value(d.take(i)) <= digits_value(d),
    decreases d.len() - i,
{
    if i < d.len() {
        lemma_digits_value_grows(d, i + 1);
        assert(d.take(i + 1).drop_last() =~= d.take(i));
    } else {
        assert(d.take(i) =~= d);
    }
}

fn parse_sequence(s: &Vec<char>, start: usize, end: usize) -> (r: Option<u64>)
    requires
        start <= end <= s@.len(),
    ensures
        r == spec_parse_sequence(s@.subrange(start as int, end as int)),
{
    let ghost whole = s@.subrange(start as int, end as int);
    let mut i = start;
    if i < end && s[i] == '+' {
        i = i + 1;
    }
    let ghost d = sequence_digits(whole);
    assert(d =~= s@.subrange(i as int, end as int));
    if i == end {
        return None;
    }
    let first = i;
    let mut value: u64 = 0;
    while i < end
        invariant
            first <= i <= end <= s@.len(),
            start <= first,
            whole == s@.subrange(start as int, end as int),
            d == sequence_digits(whole),
            d.len() > 0,
            d =~= s@.subrange(first as int, end as int),
            forall|k: int| 0 <= k < i - first ==> is_digit(#[trigger] d[k]),
            value as nat == digits_value(d.take(i - first)),
        decreases end - i,
    {
        let c = s[i];
        if !('0' <= c && c <= '9') {
            assert(!is_digit(d[i - first]));
            assert(!all_digits(d));
            return None;
        }
        let digit: u64 = (c as u64) - ('0' as u64);
        assert(d.take(i - first + 1).drop_last() =~= d.take(i - first));
        assert(d.take(i - first + 1).last() == c);
        match value.checked_mul(10) {
            Some(v) => match v.checked_add(digit) {
                Some(w) => {
                    value = w;
                },
                None => {
                    proof {
                        assert(digits_value(d.take(i - first + 1)) == value * 10 + digit);
                        if all_digits(d) {
                            lemma_digits_value_grows(d, i - first + 1);
                            assert(digits_value(d) > u64::MAX);
                        }
                    }
                    return None;
                },
            },
            None => {
                proof {
                    assert(digits_value(d.take(i - first + 1)) == value * 10 + digit);
                    if all_digits(d) {
                        lemma_digits_value_grows(d, i - first + 1);
                        assert(digits_value(d) > u64::MAX);
                    }
                }
                return None;
            },
        }
        i = i + 1;
    }
    assert(d.take(end - first) =~= d);
    Some(value)
}


// ---------------------------------------------------------------------------
// Frames

/// A recorded line split into its sequence number, kind and payload text.
#[derive(Debug, Clone, PartialEq, Eq)]
pub struct ReplayFrame {
    pub sequence: u64,
    pub kind: ReplayEventKind,
    pub payload: String,
}

/// How a recorded line splits: the text before the first '|' is the
/// sequence number, the text up to the next '|' the kind, the rest the
/// payload. An unreadable sequence number is reported first; a missing '|'
/// or an unknown kind is a format error.
pub open spec fn spec_parse_frame(line: Seq<char>) -> Result<(u64, ReplayEventKind, Seq<char>), ReplayParseErrorView> {
    let first_end = match first_index_of(line, '|') {
        Some(p) => p,
        None => line.len() as int,
    };
    match spec_parse_sequence(line.subrange(0, first_end)) {
        None => Err(ReplayParseErrorView::InvalidSequence),
        Some(sequence) => match first_index_of(line, '|') {
            None => Err(ReplayParseErrorView::InvalidFormat),
            Some(p) => {
                let rest = line.subrange(p + 1, line.len() as int);
                match first_index_of(rest, '|') {
                    None => Err(ReplayParseErrorView::InvalidFormat),
                    Some(q) => {
                        let kind = rest.subrange(0, q);
                        let payload = rest.subrange(q + 1, rest.len() as int);
                        if kind == "target5_status"@ {
                            Ok((sequence, ReplayEventKind::Target5Status, payload))
                        } else if kind == "target10_command"@ {
                            Ok((sequence, ReplayEventKind::Target10Command, payload))
                        } else {
                            Err(ReplayParseErrorView::InvalidFormat)
                        }
                    },
                }
            },
        },
    }
}

/// Position of the first `c` at or after `from`, or the end.
fn find_char(chars: &Vec<char>, from: usize, c: char) -> (r: usize)
    requires
        from <= chars@.len(),
    ensures
        from <= r <= chars@.len(),
        r < chars@.len() ==> first_index_of(chars@.subrange(from as int, chars@.len() as int), c) == Some(r - from),
        r == chars@.len() ==> first_index_of(chars@.subrange(from as int, chars@.len() as int), c) is None,
{
    let mut i = from;
    while i < chars.len()
        invariant
            from <= i <= chars@.len(),
            forall|k: int| from <= k < i ==> chars@[k] != c,
        ensures
            from <= i <= chars@.len(),
            forall|k: int| from <= k < i ==> chars@[k] != c,
            i < chars@.len() ==> chars@[i as int] == c,
        decreases chars@.len() - i,
    {
        if chars[i] == c {
            break;
        }
        i = i + 1;
    }
    proof {
        let rest = chars@.subrange(from as int, chars@.len() as int);
        assert forall|k: int| 0 <= k < i - from implies rest[k] != c by {
            assert(rest[k] == chars@[from + k]);
        }
        lemma_first_index_of(rest, c, i - from);
    }
    i
}

/// Whether the characters in `[start, end)` spell `lit`.
fn spells(chars: &Vec<char>, start: usize, end: usize, lit: &str) -> (r: bool)
    requires
        start <= end <= chars@.len(),
    ensures
        r == (chars@.subrange(start as int, end as int) == lit@),
{
    let l = chars_of(lit);
    if end - start != l.len() {
        return false;
    }
    let mut i: usize = 0;
    while i < l.len()
        invariant
            l@ == lit@,
            start <= end <= chars@.len(),
            end - start == l@.len(),
            i <= l@.len(),
            forall|k: int| 0 <= k < i ==> chars@[start + k] == l@[k],
        decreases l@.len() - i,
    {
        if chars[start + i] != l[i] {
            assert(chars@.subrange(start as int, end as int)[i as int] != lit@[i as int]);
            return false;
        }
        i = i + 1;
    }
    assert(chars@.subrange(start as int, end as int) =~= lit@);
    true
}

impl ReplayFrame {
    /// Splits a recorded line into its frame (see `spec_parse_frame`).
    pub fn parse(line: &str) -> (r: Result<ReplayFrame, ReplayParseError>)
        ensures
            match spec_parse_frame(line@) {
                Ok((sequence, kind, payload)) => r matches Ok(f) && f.sequence == sequence && f.kind == kind && f.payload@ == payload,
                Err(e) => r matches Err(x) && x@ == e,
            },
    {
        let chars = chars_of(line);
        let n = chars.len();
        let p = find_char(&chars, 0, '|');
        assert(chars@.subrange(0, n as int) =~= line@);
        let sequence = match parse_sequence(&chars, 0, p) {
            Some(v) => v,
            None => {
                return Err(ReplayParseError::InvalidSequence);
            },
        };
        if p == n {
            return Err(ReplayParseError::InvalidFormat);
        }
        let q = find_char(&chars, p + 1, '|');
        proof {
            let rest = line@.subrange(p + 1, n as int);
            assert(rest =~= chars@.subrange(p + 1, n as int));
        }
        if q == n {
            return Err(ReplayParseError::InvalidFormat);
        }
        proof {
            let rest = line@.subrange(p + 1, n as int);
            assert(rest.subrange(0, q - p - 1) =~= chars@.subrange(p + 1, q as int));
            assert(rest.subrange(q - p, rest.len() as int) =~= line@.subrange(q + 1, n as int));
        }
        let kind = if spells(&chars, p + 1, q, "target5_status") {
            ReplayEventKind::Target5Status
        } else if spells(&chars, p + 1, q, "target10_command") {
            ReplayEventKind::Target10Command
        } else {
            return Err(ReplayParseError::InvalidFormat);
        };
        let payload = line.substring_char(q + 1, n).to_string();
        Ok(ReplayFrame { sequence, kind, payload })
    }
}


// ---------------------------------------------------------------------------
// Ordering

/// Inserts `x` after every element whose sequence number is at most its own
/// counted from the end: after the last element that does not come after it.
pub open spec fn insert_by_sequence(sorted: Seq<TimedReplayEventView>, x: TimedReplayEventView) -> Seq<TimedReplayEventView>
    decreases sorted.len(),
{
    if sorted.len() == 0 {
        seq![x]
    } else if sorted.last().sequence <= x.sequence {
        sorted.push(x)
    } else {
        insert_by_sequence(sorted.drop_last(), x).push(sorted.last())
    }
}

/// The events in order of sequence number; events with equal numbers keep
/// the order they were given in.
pub open spec fn sort_by_sequence(s: Seq<TimedReplayEventView>) -> Seq<TimedReplayEventView>
    decreases s.len(),
{
    if s.len() == 0 {
        seq![]
    } else {
        insert_by_sequence(sort_by_sequence(s.drop_last()), s.last())
    }
}

/// Inserting at position `j` found by scanning from the end is `insert_by_sequence`.
proof fn lemma_insert_at(sorted: Seq<TimedReplayEventView>, x: TimedReplayEventView, j: int)
    requires
        0 <= j <= sorted.len(),
        forall|k: int| j <= k < sorted.len() ==> sorted[k].sequence > x.sequence,
        j > 0 ==> sorted[j - 1].sequence <= x.sequence,
    ensures
        insert_by_sequence(sorted, x) == sorted.insert(j, x),
    decreases sorted.len() - j,
{
    if j == sorted.len() {
        if sorted.len() == 0 {
            assert(sorted.insert(j, x) =~= seq![x]);
        } else {
            assert(sorted.insert(j, x) =~= sorted.push(x));
        }
    } else {
        lemma_insert_at(sorted.drop_last(), x, j);
        assert(sorted.insert(j, x) =~= sorted.drop_last().insert(j, x).push(sorted.last()));
    }
}

/// Whether an event has sequence number `k`.
pub open spec fn has_sequence(k: u64) -> spec_fn(TimedReplayEventView) -> bool {
    |e: TimedReplayEventView| e.sequence == k
}

/// The sequence numbers of a list never decrease.
pub open spec fn sequence_sorted(s: Seq<TimedReplayEventView>) -> bool {
    forall|i: int, j: int| 0 <= i <= j < s.len() ==> s[i].sequence <= s[j].sequence
}

proof fn lemma_insert_keeps_equal_order(sorted: Seq<TimedReplayEventView>, x: TimedReplayEventView, k: u64)
    ensures
        insert_by_sequence(sorted, x).filter(has_sequence(k)) == sorted.push(x).filter(has_sequence(k)),
    decreases sorted.len(),
{
    broadcast use Seq::lemma_filter_push;

    if sorted.len() == 0 {
        assert(seq![x] =~= sorted.push(x));
    } else if sorted.last().sequence <= x.sequence {
    } else {
        let rest = sorted.drop_last();
        lemma_insert_keeps_equal_order(rest, x, k);
        assert(rest.push(sorted.last()) =~= sorted);
    }
}

proof fn lemma_insert_sorted(sorted: Seq<TimedReplayEventView>, x: TimedReplayEventView)
    requires
        sequence_sorted(sorted),
    ensures
        sequence_sorted(insert_by_sequence(sorted, x)),
        insert_by_sequence(sorted, x).to_multiset() == sorted.to_multiset().insert(x),
        insert_by_sequence(sorted, x).len() == sorted.len() + 1,
        forall|i: int| 0 <= i < insert_by_sequence(sorted, x).len() ==> (#[trigger] insert_by_sequence(sorted, x)[i]
            == x || sorted.contains(insert_by_sequence(sorted, x)[i])),
    decreases sorted.len(),
{
    broadcast use vstd::seq_lib::group_to_multiset_ensures;

    if sorted.len() == 0 {
        assert(seq![x] =~= sorted.push(x));
    } else if sorted.last().sequence <= x.sequence {
        assert forall|i: int| 0 <= i < sorted.push(x).len() implies sorted.push(x)[i] == x || sorted.contains(sorted.push(x)[i]) by {
            if i < sorted.len() {
                assert(sorted.push(x)[i] == sorted[i]);
            }
        }
    } else {
        let rest = sorted.drop_last();
        let last = sorted.last();
        lemma_insert_sorted(rest, x);
        let inserted = insert_by_sequence(rest, x);
        assert(rest.push(last) =~= sorted);
        assert forall|i: int| 0 <= i < inserted.len() implies #[trigger] inserted[i].sequence <= last.sequence by {
            if inserted[i] != x {
                let j = choose|j: int| 0 <= j < rest.len() && rest[j] == inserted[i];
                assert(sorted[j] == rest[j]);
            }
        }
        assert forall|i: int| 0 <= i < inserted.push(last).len() implies inserted.push(last)[i] == x || sorted.contains(
            inserted.push(last)[i],
        ) by {
            if i < inserted.len() {
                if inserted[i] != x {
                    let j = choose|j: int| 0 <= j < rest.len() && rest[j] == inserted[i];
                    assert(sorted[j] == rest[j]);
                }
            } else {
                assert(sorted[sorted.len() - 1] == last);
            }
        }
    }
}

/// Replay order is the order of sequence numbers, holds the same events as
/// given, and keeps events with equal sequence numbers in the order given.
pub proof fn lemma_replay_order(s: Seq<TimedReplayEventView>, k: u64)
    ensures
        sequence_sorted(sort_by_sequence(s)),
        sort_by_sequence(s).to_multiset() == s.to_multiset(),
        sort_by_sequence(s).filter(has_sequence(k)) == s.filter(has_sequence(k)),
    decreases s.len(),
{
    broadcast use vstd::seq_lib::group_to_multiset_ensures;
    broadcast use Seq::lemma_filter_push;

    if s.len() == 0 {
    } else {
        let rest = s.drop_last();
        lemma_replay_order(rest, k);
        lemma_insert_sorted(sort_by_sequence(rest), s.last());
        lemma_insert_keeps_equal_order(sort_by_sequence(rest), s.last(), k);
        assert(rest.push(s.last()) =~= s);
    }
}

/// The views of timed events.
pub open spec fn timed_view(s: Seq<TimedReplayEvent>) -> Seq<TimedReplayEventView> {
    s.map_values(|t: TimedReplayEvent| t@)
}

/// Events replayed in order of sequence number, from a position.
#[derive(Debug, Clone)]
pub struct DeterministicReplay {
    events: Vec<TimedReplayEvent>,
    index: usize,
}

pub struct DeterministicReplayView {
    pub events: Seq<TimedReplayEventView>,
    pub index: nat,
}

impl View for DeterministicReplay {
    type V = DeterministicReplayView;

    closed spec fn view(&self) -> DeterministicReplayView {
        DeterministicReplayView { events: timed_view(self.events@), index: self.index as nat }
    }
}

impl DeterministicReplay {
    /// A replay of the given events, ordered by sequence number; events with
    /// equal numbers stay in the order given.
    pub fn from_events(events: Vec<TimedReplayEvent>) -> (r: Self)
        ensures
            r@.events == sort_by_sequence(timed_view(events@)),
            r@.index == 0,
    {
        let mut sorted: Vec<TimedReplayEvent> = Vec::new();
        let mut i: usize = 0;
        while i < events.len()
            invariant
                i <= events@.len(),
                timed_view(sorted@) == sort_by_sequence(timed_view(events@.take(i as int))),
            decreases events@.len() - i,
        {
            let x = events[i].duplicate();
            let mut j = sorted.len();
            while j > 0 && sorted[j - 1].sequence > x.sequence
                invariant
                    0 <= j <= sorted@.len(),
                    forall|k: int| j <= k < sorted@.len() ==> sorted@[k].sequence > x.sequence,
                decreases j,
            {
                j = j - 1;
            }
            proof {
                lemma_insert_at(timed_view(sorted@), x@, j as int);
                assert(timed_view(events@.take(i + 1)).drop_last() =~= timed_view(events@.take(i as int)));
                assert(timed_view(events@.take(i + 1)).last() == x@);
            }
            let ghost before = sorted@;
            sorted.insert(j, x);
            assert(timed_view(sorted@) =~= timed_view(before).insert(j as int, x@));
            i = i + 1;
        }
        assert(events@.take(events@.len() as int) =~= events@);
        DeterministicReplay { events: sorted, index: 0 }
    }

    /// The next event to replay, if any; the replay then moves past it.
    pub fn next_event(&mut self) -> (r: Option<ReplayEvent>)
        ensures
            final(self)@.events == old(self)@.events,
            old(self)@.index < old(self)@.events.len() ==> (r matches Some(e) && e@ == old(self)@.events[old(self)@.index as int].event
                && final(self)@.index == old(self)@.index + 1),
            old(self)@.index >= old(self)@.events.len() ==> r is None && final(self)@.index == old(self)@.index,
    {
        if self.index < self.events.len() {
            let e = self.events[self.index].event.duplicate();
            self.index = self.index + 1;
            Some(e)
        } else {
            None
        }
    }

    /// The events not yet replayed, in replay order; the replay is consumed.
    pub fn collect_events(self) -> (r: Vec<ReplayEvent>)
        ensures
            r@.len() == if self@.index <= self@.events.len() { self@.events.len() - self@.index } else { 0 },
            forall|k: int| 0 <= k < r@.len() ==> #[trigger] r@[k]@ == self@.events[self@.index + k].event,
    {
        let mut out: Vec<ReplayEvent> = Vec::new();
        let mut i = self.index;
        while i < self.events.len()
            invariant
                self.index <= i || self.index >= self.events@.len(),
                i >= self.index,
                i <= self.events@.len() || i == self.index,
                out@.len() == if i <= self.events@.len() { i - self.index } else { 0 },
                forall|k: int| 0 <= k < out@.len() ==> #[trigger] out@[k]@ == timed_view(self.events@)[self.index + k].event,
            decreases self.events@.len() - i,
        {
            out.push(self.events[i].event.duplicate());
            i = i + 1;
        }
        out
    }
}


// ---------------------------------------------------------------------------
// Lines to replay

/// `t` is what a line gives once its payload is decoded: the line frames,
/// `t` carries the frame's sequence number, and `t`'s event is an answer the
/// decoder can give for the frame's kind and payload.
pub open spec fn line_decodes<F: Fn(ReplayEventKind, String) -> Option<ReplayEvent>>(
    decode: F,
    line: Seq<char>,
    t: TimedReplayEvent,
) -> bool {
    spec_parse_frame(line) matches Ok((sequence, kind, payload)) && t.sequence == sequence && exists|p: String|
        p@ == payload && #[trigger] call_ensures(decode, (kind, p), Some(t.event))
}

/// Why a line is refused: its frame's error, or `InvalidPayload` when the
/// decoder can refuse its payload.
pub open spec fn line_fails<F: Fn(ReplayEventKind, String) -> Option<ReplayEvent>>(
    decode: F,
    line: Seq<char>,
    e: ReplayParseErrorView,
) -> bool {
    match spec_parse_frame(line) {
        Err(x) => e == x,
        Ok((_, kind, payload)) => e == ReplayParseErrorView::InvalidPayload && exists|p: String|
            p@ == payload && #[trigger] call_ensures(decode, (kind, p), None::<ReplayEvent>),
    }
}

/// The non-blank lines, in order, give exactly the events `events`.
pub open spec fn lines_decode_to<F: Fn(ReplayEventKind, String) -> Option<ReplayEvent>>(
    decode: F,
    lines: Seq<Seq<char>>,
    events: Seq<TimedReplayEvent>,
) -> bool
    decreases lines.len(),
{
    if lines.len() == 0 {
        events.len() == 0
    } else if is_blank(lines.last()) {
        lines_decode_to(decode, lines.drop_last(), events)
    } else {
        events.len() > 0 && line_decodes(decode, lines.last(), events.last()) && lines_decode_to(
            decode,
            lines.drop_last(),
            events.drop_last(),
        )
    }
}

/// The views of string slices.
pub open spec fn lines_view(lines: Seq<&str>) -> Seq<Seq<char>> {
    lines.map_values(|l: &str| l@)
}

impl TimedReplayEvent {
    /// Reads one recorded line: frames it, then asks `decode` for the event
    /// its payload holds; a refused payload is `InvalidPayload`.
    pub fn parse_line<F: Fn(ReplayEventKind, String) -> Option<ReplayEvent>>(line: &str, decode: &F) -> (r: Result<
        TimedReplayEvent,
        ReplayParseError,
    >)
        requires
            forall|k: ReplayEventKind, p: String| #[trigger] decode.requires((k, p)),
        ensures
            r matches Ok(t) ==> line_decodes(*decode, line@, t),
            r matches Err(e) ==> line_fails(*decode, line@, e@),
    {
        let frame = match ReplayFrame::parse(line) {
            Ok(f) => f,
            Err(e) => {
                return Err(e);
            },
        };
        let sequence = frame.sequence;
        let kind = frame.kind;
        let ghost payload = frame.payload;
        match decode(frame.kind, frame.payload) {
            Some(event) => {
                assert(call_ensures(*decode, (kind, payload), Some(event)));
                Ok(TimedReplayEvent { sequence, event })
            },
            None => {
                assert(call_ensures(*decode, (kind, payload), None::<ReplayEvent>));
                Err(ReplayParseError::InvalidPayload)
            },
        }
    }
}

impl DeterministicReplay {
    /// Reads recorded lines, skipping blank ones, and replays their events in
    /// order of sequence number (equal numbers in the order given). The first
    /// line that cannot be read stops the reading with its error.
    pub fn from_lines<F: Fn(ReplayEventKind, String) -> Option<ReplayEvent>>(lines: Vec<&str>, decode: F) -> (r: Result<
        DeterministicReplay,
        ReplayParseError,
    >)
        requires
            forall|k: ReplayEventKind, p: String| #[trigger] decode.requires((k, p)),
        ensures
            r matches Ok(rep) ==> rep@.index == 0 && exists|events: Seq<TimedReplayEvent>|
                lines_decode_to(decode, lines_view(lines@), events) && rep@.events == sort_by_sequence(
                    #[trigger] timed_view(events),
                ),
            r matches Err(e) ==> exists|k: int, events: Seq<TimedReplayEvent>|
                0 <= k < lines@.len() && !is_blank(lines@[k]@) && #[trigger] lines_decode_to(
                    decode,
                    lines_view(lines@.take(k)),
                    events,
                ) && line_fails(decode, lines@[k]@, e@),
    {
        let mut events: Vec<TimedReplayEvent> = Vec::new();
        let mut i: usize = 0;
        while i < lines.len()
            invariant
                i <= lines@.len(),
                forall|k: ReplayEventKind, p: String| #[trigger] decode.requires((k, p)),
                lines_decode_to(decode, lines_view(lines@.take(i as int)), events@),
            decreases lines@.len() - i,
        {
            let line = lines[i];
            proof {
                assert(lines_view(lines@.take(i + 1)).drop_last() =~= lines_view(lines@.take(i as int)));
                assert(lines_view(lines@.take(i + 1)).last() == line@);
            }
            if is_blank_line(line) {
                i = i + 1;
                continue;
            }
            match TimedReplayEvent::parse_line(line, &decode) {
                Ok(t) => {
                    let ghost before = events@;
                    events.push(t);
                    assert(events@.drop_last() =~= before);
                },
                Err(e) => {
                    assert(lines_decode_to(decode, lines_view(lines@.take(i as int)), events@));
                    return Err(e);
                },
            }
            i = i + 1;
        }
        assert(lines@.take(lines@.len() as int) =~= lines@);
        Ok(DeterministicReplay::from_events(events))
    }
}

} // verus!
