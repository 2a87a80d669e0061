//! The log-interception middleware: a stateful filter over the event
//! sequence that turns lines carrying the reserved migration marker into
//! side-channel progress signals and hides them from the passthrough
//! stream, until a terminal `done` marker permanently disables
//! interception.

use vstd::prelude::*;
use vstd::string::StrSliceExecFns;

use crate::event::CommandEvent;
use crate::event::count_terminated;
use crate::event::event_line;
use crate::event::no_terminated;

verus! {

/// A progress signal derived from a marker line; never constructed from
/// anything else.
#[derive(Clone, Copy, Debug, PartialEq, Eq, Structural)]
pub enum SqliteMigrationProgress {
    InProgress(u8),
    Done,
}

/// The reserved prefix that makes a line a migration marker line.
pub open spec fn marker() -> Seq<char> {
    "sqlite-migration:"@
}

pub open spec fn is_digit_char(c: char) -> bool {
    48 <= c as u32 && c as u32 <= 57
}

pub open spec fn digit_val(c: char) -> nat
    recommends
        is_digit_char(c),
{
    (c as u32 - 48) as nat
}

pub open spec fn all_digits(s: Seq<char>) -> bool {
    forall|i: int| 0 <= i < s.len() ==> is_digit_char(#[trigger] s[i])
}

/// The number a digit string denotes, most significant digit first.
pub open spec fn digits_value(s: Seq<char>) -> nat
    decreases s.len(),
{
    if s.len() == 0 {
        0
    } else {
        digits_value(s.drop_last()) * 10 + digit_val(s.last())
    }
}

/// The sequence with its leading spaces removed.
pub open spec fn skip_spaces(s: Seq<char>) -> Seq<char>
    decreases s.len(),
{
    if s.len() > 0 && s[0] == ' ' {
        skip_spaces(s.drop_first())
    } else {
        s
    }
}

/// The line starts with the reserved marker.
pub open spec fn has_marker(s: Seq<char>) -> bool {
    marker().is_prefix_of(s)
}

/// What stands after the marker and any following spaces.
pub open spec fn marker_payload(s: Seq<char>) -> Seq<char>
    recommends
        has_marker(s),
{
    skip_spaces(s.skip(marker().len() as int))
}

/// A payload that reads as a progress percentage: digits only, value at
/// most 255.
pub open spec fn is_progress_payload(p: Seq<char>) -> bool {
    p.len() > 0 && all_digits(p) && digits_value(p) <= 255
}

pub open spec fn is_done_payload(p: Seq<char>) -> bool {
    p == "done"@
}

/// The signal a single line gives rise to while interception is active:
/// `None` exactly when the line passes through unchanged.
pub open spec fn line_signal(s: Seq<char>) -> Option<SqliteMigrationProgress> {
    if has_marker(s) {
        if is_progress_payload(marker_payload(s)) {
            Some(SqliteMigrationProgress::InProgress(digits_value(marker_payload(s)) as u8))
        } else if is_done_payload(marker_payload(s)) {
            Some(SqliteMigrationProgress::Done)
        } else {
            None
        }
    } else {
        None
    }
}

proof fn lemma_skip_spaces_at(s: Seq<char>, k: int)
    requires
        0 <= k <= s.len(),
        forall|j: int| 0 <= j < k ==> s[j] == ' ',
        k == s.len() || s[k] != ' ',
    ensures
        skip_spaces(s) == s.skip(k),
    decreases k,
{
    if k == 0 {
        assert(s.skip(0) =~= s);
    } else {
        assert(s[0] == ' ');
        lemma_skip_spaces_at(s.drop_first(), k - 1);
        assert(s.drop_first().skip(k - 1) =~= s.skip(k));
    }
}

/// Decides whether the line begins with the reserved marker.
fn starts_with_marker(s: &str) -> (r: bool)
    ensures
        r == has_marker(s@),
{
    let m = "sqlite-migration:";
    proof {
        reveal_strlit("sqlite-migration:");
    }
    let mlen = m.unicode_len();
    let slen = s.unicode_len();
    if slen < mlen {
        return false;
    }
    let mut i: usize = 0;
    while i < mlen
        invariant
            0 <= i <= mlen,
            mlen == marker().len(),
            mlen <= slen == s@.len(),
            m@ == marker(),
            forall|j: int| 0 <= j < i ==> s@[j] == marker()[j],
        decreases mlen - i,
    {
        if s.get_char(i) != m.get_char(i) {
            proof {
                assert(s@.subrange(0, mlen as int)[i as int] != marker()[i as int]);
            }
            return false;
        }
        i += 1;
    }
    proof {
        assert(marker() =~= s@.subrange(0, mlen as int));
    }
    true
}

/// Classifies one line of output: the signal it carries, if any.
pub fn classify_line(s: &str) -> (r: Option<SqliteMigrationProgress>)
    ensures
        r == line_signal(s@),
{
    if !starts_with_marker(s) {
        return None;
    }
    proof {
        reveal_strlit("sqlite-migration:");
        reveal_strlit("done");
    }
    let mlen: usize = 17;
    let slen = s.unicode_len();
    assert(mlen == marker().len());
    assert(mlen <= slen);

    // Skip the spaces that follow the marker.
    let mut p: usize = mlen;
    while p < slen && s.get_char(p) == ' '
        invariant
            mlen <= p <= slen == s@.len(),
            forall|j: int| mlen <= j < p ==> s@[j] == ' ',
        decreases slen - p,
    {
        p += 1;
    }
    proof {
        let tail = s@.skip(mlen as int);
        lemma_skip_spaces_at(tail, p - mlen);
        assert(tail.skip(p - mlen) =~= s@.skip(p as int));
        assert(marker_payload(s@) == s@.skip(p as int));
    }
    let ghost payload = s@.skip(p as int);
    assert(payload.len() == slen - p);

    if p == slen {
        // Empty payload: neither a percentage nor the terminal token.
        assert(!is_progress_payload(payload));
        assert(payload != "done"@);
        return None;
    }

    let c0 = s.get_char(p);
    if c0 == 'd' {
        // Only the exact token "done" matches from here.
        assert(!is_digit_char(payload[0]));
        assert(!is_progress_payload(payload));
        if slen - p == 4 && s.get_char(p + 1) == 'o' && s.get_char(p + 2) == 'n' && s.get_char(
            p + 3,
        ) == 'e' {
            proof {
                assert(payload =~= "done"@);
            }
            return Some(SqliteMigrationProgress::Done);
        }
        proof {
            if payload.len() == 4 {
                assert(payload != "done"@) by {
                    if payload == "done"@ {
                        assert(payload[1] == 'o' && payload[2] == 'n' && payload[3] == 'e');
                    }
                }
            }
        }
        return None;
    }
    assert(payload[0] != 'd' && "done"@[0] == 'd');
    assert(!is_done_payload(payload));

    // Read the digits, saturating once the value can no longer be a
    // percentage.
    let mut j = p;
    let mut val: u32 = 0;
    while j < slen
        invariant
            mlen <= p <= j <= slen == s@.len(),
            payload == s@.skip(p as int),
            has_marker(s@),
            marker_payload(s@) == payload,
            payload.len() > 0,
            !is_done_payload(payload),
            val <= 2559,
            forall|t: int| p <= t < j ==> is_digit_char(#[trigger] s@[t]),
            val <= 255 ==> val == digits_value(s@.subrange(p as int, j as int)),
            val > 255 ==> digits_value(s@.subrange(p as int, j as int)) > 255,
        decreases slen - j,
    {
        let c = s.get_char(j);
        let cv = c as u32;
        if cv < 48 || cv > 57 {
            // A non-digit in the payload: the line is not reserved.
            assert(!is_digit_char(payload[j - p]));
            assert(!all_digits(payload));
            return None;
        }
        proof {
            let pre = s@.subrange(p as int, j as int);
            let ext = s@.subrange(p as int, j + 1);
            assert(ext.drop_last() =~= pre);
            assert(ext.last() == s@[j as int]);
        }
        if val <= 255 {
            val = val * 10 + (cv - 48);
        } else {
            assert(digits_value(s@.subrange(p as int, j + 1)) > 255);
        }
        j += 1;
    }
    assert(s@.subrange(p as int, slen as int) =~= payload);
    assert(all_digits(payload));
    if val <= 255 {
        assert(is_progress_payload(payload));
        assert(digits_value(payload) == val);
        Some(SqliteMigrationProgress::InProgress(val as u8))
    } else {
        assert(!is_progress_payload(payload));
        None
    }
}

/// The middleware itself: `done` is the one-way latch that, once set,
/// turns the filter into the identity for the rest of the stream.
pub struct LogsMiddleware {
    pub done: bool,
}

impl LogsMiddleware {
    /// The signal one event yields: none once the latch is set, none for
    /// non-line events, otherwise what its line carries.
    pub open spec fn step_signal(done: bool, e: CommandEvent) -> Option<SqliteMigrationProgress> {
        if done {
            None
        } else {
            match event_line(e) {
                Some(l) => line_signal(l),
                None => None,
            }
        }
    }

    /// What is forwarded downstream: the event itself unless it produced
    /// a signal, in which case it is suppressed.
    pub open spec fn step_forward(done: bool, e: CommandEvent) -> Option<CommandEvent> {
        if Self::step_signal(done, e) is Some {
            None
        } else {
            Some(e)
        }
    }

    /// The latch after the event: set exactly when it was set before or
    /// the event carried the terminal `done` marker.
    pub open spec fn step_done(done: bool, e: CommandEvent) -> bool {
        done || Self::step_signal(done, e) == Some(SqliteMigrationProgress::Done)
    }

    pub fn new() -> (m: Self)
        ensures
            !m.done,
    {
        LogsMiddleware { done: false }
    }

    /// Feeds one event through the filter; returns what is forwarded
    /// downstream and what fires on the side channel.
    pub fn step(&mut self, e: CommandEvent) -> (r: (
        Option<CommandEvent>,
        Option<SqliteMigrationProgress>,
    ))
        ensures
            r.0 == Self::step_forward(old(self).done, e),
            r.1 == Self::step_signal(old(self).done, e),
            final(self).done == Self::step_done(old(self).done, e),
    {
        if self.done {
            return (Some(e), None);
        }
        let signal = match &e {
            CommandEvent::Stdout(s) => classify_line(s.as_str()),
            CommandEvent::Stderr(s) => classify_line(s.as_str()),
            _ => None,
        };
        match signal {
            Some(SqliteMigrationProgress::Done) => {
                self.done = true;
                (None, Some(SqliteMigrationProgress::Done))
            },
            Some(p) => (None, Some(p)),
            None => (Some(e), None),
        }
    }

    /// The passthrough stream a whole input sequence produces.
    pub open spec fn run_forward(done: bool, input: Seq<CommandEvent>) -> Seq<CommandEvent>
        decreases input.len(),
    {
        if input.len() == 0 {
            Seq::empty()
        } else {
            let rest = Self::run_forward(Self::step_done(done, input[0]), input.drop_first());
            match Self::step_forward(done, input[0]) {
                Some(e) => seq![e] + rest,
                None => rest,
            }
        }
    }

    /// The side-channel signals a whole input sequence produces.
    pub open spec fn run_signals(done: bool, input: Seq<CommandEvent>) -> Seq<
        SqliteMigrationProgress,
    >
        decreases input.len(),
    {
        if input.len() == 0 {
            Seq::empty()
        } else {
            let rest = Self::run_signals(Self::step_done(done, input[0]), input.drop_first());
            match Self::step_signal(done, input[0]) {
                Some(p) => seq![p] + rest,
                None => rest,
            }
        }
    }

    /// The latch after a whole input sequence.
    pub open spec fn run_done(done: bool, input: Seq<CommandEvent>) -> bool
        decreases input.len(),
    {
        if input.len() == 0 {
            done
        } else {
            Self::run_done(Self::step_done(done, input[0]), input.drop_first())
        }
    }

    /// Feeds a drained sequence of events through the filter and returns
    /// the passthrough stream together with the side-channel signals.
    pub fn apply(&mut self, events: Vec<CommandEvent>) -> (r: (
        Vec<CommandEvent>,
        Vec<SqliteMigrationProgress>,
    ))
        ensures
            r.0@ == Self::run_forward(old(self).done, events@),
            r.1@ == Self::run_signals(old(self).done, events@),
            final(self).done == Self::run_done(old(self).done, events@),
    {
        let ghost done0 = self.done;
        let ghost input = events@;
        let mut remaining = events;
        let mut out: Vec<CommandEvent> = Vec::new();
        let mut signals: Vec<SqliteMigrationProgress> = Vec::new();
        while remaining.len() > 0
            invariant
                Self::run_forward(done0, input) =~= out@ + Self::run_forward(
                    self.done,
                    remaining@,
                ),
                Self::run_signals(done0, input) =~= signals@ + Self::run_signals(
                    self.done,
                    remaining@,
                ),
                Self::run_done(done0, input) == Self::run_done(self.done, remaining@),
            decreases remaining.len(),
        {
            let ghost before = remaining@;
            let ghost done_before = self.done;
            let e = remaining.remove(0);
            assert(before.drop_first() =~= remaining@);
            let (fwd, sig) = self.step(e);
            if let Some(f) = fwd {
                out.push(f);
            }
            if let Some(sg) = sig {
                signals.push(sg);
            }
            proof {
                assert(Self::run_forward(done_before, before) =~= match Self::step_forward(
                    done_before,
                    before[0],
                ) {
                    Some(f) => seq![f] + Self::run_forward(self.done, remaining@),
                    None => Self::run_forward(self.done, remaining@),
                });
            }
        }
        proof {
            assert(Self::run_forward(done0, input) =~= out@);
            assert(Self::run_signals(done0, input) =~= signals@);
        }
        (out, signals)
    }

    /// An event whose line does not match the reserved marker — or that
    /// is no output line at all — passes through the filter unchanged,
    /// fires nothing, and leaves the latch as it was.
    pub proof fn lemma_plain_event_identity(done: bool, e: CommandEvent)
        requires
            event_line(e) matches Some(l) ==> line_signal(l) is None,
        ensures
            Self::step_forward(done, e) == Some(e),
            Self::step_signal(done, e) is None,
            Self::step_done(done, e) == done,
    {
    }

    /// A line that does not begin with the reserved marker is passed
    /// through as the strict identity: the same event out, no signal,
    /// latch untouched.
    pub proof fn lemma_no_marker_identity(done: bool, e: CommandEvent, l: Seq<char>)
        requires
            event_line(e) == Some(l),
            !has_marker(l),
        ensures
            Self::step_forward(done, e) == Some(e),
            Self::step_signal(done, e) is None,
            Self::step_done(done, e) == done,
    {
    }

    /// No source line is ever both suppressed into a signal and
    /// forwarded: exactly one of the two happens for every event.
    pub proof fn lemma_no_duplicate_emission(done: bool, e: CommandEvent)
        ensures
            (Self::step_forward(done, e) is Some) <==> (Self::step_signal(done, e) is None),
    {
    }

    /// Once the latch is set the filter is the identity: every event of
    /// the rest of the stream passes through unchanged and no signal
    /// ever fires again.
    pub proof fn lemma_latched_passthrough(input: Seq<CommandEvent>)
        ensures
            Self::run_forward(true, input) =~= input,
            Self::run_signals(true, input) =~= Seq::<SqliteMigrationProgress>::empty(),
            Self::run_done(true, input),
        decreases input.len(),
    {
        if input.len() > 0 {
            Self::lemma_latched_passthrough(input.drop_first());
            assert(Self::run_forward(true, input) =~= seq![input[0]] + input.drop_first());
        }
    }

    /// The latch is one-way: no input sequence ever resets it.
    pub proof fn lemma_latch_one_way(done: bool, input: Seq<CommandEvent>)
        ensures
            done ==> Self::run_done(done, input),
        decreases input.len(),
    {
        if done && input.len() > 0 {
            Self::lemma_latch_one_way(Self::step_done(done, input[0]), input.drop_first());
        }
    }

    /// The filter never invents, drops, or displaces a terminal event:
    /// the passthrough stream holds exactly the terminal events of the
    /// input, and a terminal event that ends the input still ends the
    /// output.
    pub proof fn lemma_forward_preserves_terminated(done: bool, input: Seq<CommandEvent>)
        ensures
            count_terminated(Self::run_forward(done, input)) == count_terminated(input),
            no_terminated(input) ==> no_terminated(Self::run_forward(done, input)),
            input.len() > 0 && input.last() is Terminated ==> {
                let out = Self::run_forward(done, input);
                out.len() > 0 && out.last() == input.last()
            },
        decreases input.len(),
    {
        if input.len() > 0 {
            let head = input[0];
            let d1 = Self::step_done(done, head);
            let rest = input.drop_first();
            let out_rest = Self::run_forward(d1, rest);
            Self::lemma_forward_preserves_terminated(d1, rest);
            assert(input =~= seq![head] + rest);
            assert(no_terminated(input) ==> no_terminated(rest));
            crate::event::lemma_count_cons(head, rest);
            match Self::step_forward(done, head) {
                Some(f) => {
                    crate::event::lemma_count_cons(f, out_rest);
                },
                None => {
                    assert(!(head is Terminated));
                },
            }
            if input.len() == 1 && input.last() is Terminated {
                assert(Self::run_forward(done, input) =~= seq![head]);
            }
        }
    }
}

} // verus!
