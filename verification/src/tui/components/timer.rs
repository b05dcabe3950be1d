//! The timer screen: today's total, the running session, and the big digits
//! it is drawn with.

use vstd::prelude::*;
use vstd::string::StringExecFns;

use std::time::{Duration, Instant};

use super::{Action, Key};
use crate::application::helpers::duration_as_secs;
use crate::tui::util::{duration_text, fmt_duration};

verus! {

#[verifier::external_type_specification]
#[verifier::external_body]
pub struct ExInstant(Instant);

/// `Instant::now`: the monotonic clock's current instant. Nothing is stated
/// of it.
#[verifier::external_body]
fn instant_now() -> Instant {
    Instant::now()
}

/// `Instant::elapsed`: the time since `start`. Nothing is stated of it: it
/// depends on the moment of the call.
#[verifier::external_body]
fn instant_elapsed(start: &Instant) -> Duration {
    start.elapsed()
}

/// The timer: seconds studied today before the running session, the
/// running session's start, and its subject.
pub struct TimerComponent {
    pub today_secs: i64,
    session_start: Option<Instant>,
    pub current_subject: Option<String>,
}

/// The five rows of block characters a char is drawn with.
pub open spec fn glyph(ch: char) -> Seq<Seq<char>> {
    if ch == '0' {
        seq![" ███ "@, "█   █"@, "█   █"@, "█   █"@, " ███ "@]
    } else if ch == '1' {
        seq!["  █  "@, " ██  "@, "  █  "@, "  █  "@, " ███ "@]
    } else if ch == '2' {
        seq![" ███ "@, "    █"@, "  ██ "@, "█    "@, "█████"@]
    } else if ch == '3' {
        seq!["████ "@, "    █"@, " ███ "@, "    █"@, "████ "@]
    } else if ch == '4' {
        seq!["█   █"@, "█   █"@, "█████"@, "    █"@, "    █"@]
    } else if ch == '5' {
        seq!["█████"@, "█    "@, "████ "@, "    █"@, "████ "@]
    } else if ch == '6' {
        seq![" ████"@, "█    "@, "████ "@, "█   █"@, " ███ "@]
    } else if ch == '7' {
        seq!["█████"@, "    █"@, "  ██ "@, "  █  "@, "  █  "@]
    } else if ch == '8' {
        seq![" ███ "@, "█   █"@, " ███ "@, "█   █"@, " ███ "@]
    } else if ch == '9' {
        seq![" ███ "@, "█   █"@, " ████"@, "    █"@, " ███ "@]
    } else if ch == ':' {
        seq!["   "@, "   "@, " █ "@, "   "@, " █ "@]
    } else {
        seq!["     "@, "     "@, "     "@, "     "@, "     "@]
    }
}

/// Row `k` of `s` drawn in big digits: the chars' rows side by side, one
/// space apart.
pub open spec fn big_row(s: Seq<char>, k: int) -> Seq<char>
    decreases s.len(),
{
    if s.len() == 0 {
        Seq::empty()
    } else if s.len() == 1 {
        glyph(s[0])[k]
    } else {
        big_row(s.drop_last(), k) + seq![' '] + glyph(s.last())[k]
    }
}

/// What the timer screen asks for on `key`: quit on `q`; stop on space
/// while studying, start otherwise; analytics on `a` and subjects on `s`
/// unless studying; tasks on `t`; nothing on any other key.
pub open spec fn timer_key_action(studying: bool, key: Key) -> Option<Action> {
    match key {
        Key::Char('q') => Some(Action::Quit),
        Key::Char(' ') => if studying {
            Some(Action::StopStudy)
        } else {
            Some(Action::RequestStart)
        },
        Key::Char('a') => if !studying {
            Some(Action::OpenAnalytics)
        } else {
            None
        },
        Key::Char('t') => Some(Action::OpenTasks),
        Key::Char('s') => if !studying {
            Some(Action::OpenSubjects)
        } else {
            None
        },
        _ => None,
    }
}

/// `a + b`, held within the range of `i64`.
pub open spec fn saturating_sum(a: i64, b: i64) -> i64 {
    if a + b > i64::MAX {
        i64::MAX
    } else if a + b < i64::MIN {
        i64::MIN
    } else {
        (a + b) as i64
    }
}

/// A call that changes a timer.
pub enum TimerCall {
    Start,
    Stop,
    SetSubject,
    AddSessionSecs,
    HandleKey,
}

/// Whether a session runs after `call`, given whether one ran before: `start`
/// starts one, `stop` ends it, no other call changes it.
pub open spec fn studying_step(studying: bool, call: TimerCall) -> bool {
    match call {
        TimerCall::Start => true,
        TimerCall::Stop => false,
        _ => studying,
    }
}

/// Whether a session runs on a new timer after `calls`, in order.
pub open spec fn studying_after(calls: Seq<TimerCall>) -> bool
    decreases calls.len(),
{
    if calls.len() == 0 {
        false
    } else {
        studying_step(studying_after(calls.drop_last()), calls.last())
    }
}

/// Call `i` of `calls` is a `start` and no `stop` comes after it.
pub open spec fn started_at(calls: Seq<TimerCall>, i: int) -> bool {
    &&& 0 <= i < calls.len()
    &&& calls[i] is Start
    &&& forall|j: int| i < j < calls.len() ==> !(#[trigger] calls[j] is Stop)
}

/// A session runs after a sequence of calls on a new timer exactly when
/// some `start` was made and no `stop` came after it.
pub proof fn lemma_studying_iff_started_since_last_stop(calls: Seq<TimerCall>)
    ensures
        studying_after(calls) <==> exists|i: int| #[trigger] started_at(calls, i),
    decreases calls.len(),
{
    if calls.len() == 0 {
        assert forall|i: int| !started_at(calls, i) by {}
    } else {
        let prev = calls.drop_last();
        let n = calls.len() - 1;
        lemma_studying_iff_started_since_last_stop(prev);
        if calls[n] is Start {
            assert(started_at(calls, n));
        } else if calls[n] is Stop {
            assert forall|i: int| !started_at(calls, i) by {
                if 0 <= i < calls.len() && calls[i] is Start {
                    assert(i != n);
                    assert(calls[n] is Stop);
                }
            }
        } else {
            assert(studying_after(calls) == studying_after(prev));
            assert forall|i: int| started_at(prev, i) implies started_at(calls, i) by {
                assert forall|j: int| i < j < calls.len() implies !(#[trigger] calls[j] is Stop) by {
                    if j < n {
                        assert(calls[j] == prev[j]);
                    }
                }
            }
            assert forall|i: int| started_at(calls, i) implies started_at(prev, i) by {
                assert(i != n);
                assert(prev[i] == calls[i]);
                assert forall|j: int| i < j < prev.len() implies !(#[trigger] prev[j] is Stop) by {
                    assert(prev[j] == calls[j]);
                }
            }
            if studying_after(prev) {
                let i = choose|i: int| #[trigger] started_at(prev, i);
                assert(started_at(calls, i));
            }
            if exists|i: int| #[trigger] started_at(calls, i) {
                let i = choose|i: int| #[trigger] started_at(calls, i);
                assert(started_at(prev, i));
            }
        }
    }
}

/// `post` is `pre` stopped after `elapsed` whole seconds of its running
/// session: no session runs and no subject is named, and the seconds are
/// added to today's total (held within `i64`) when a session ran.
pub open spec fn stopped_after(pre: TimerComponent, post: TimerComponent, elapsed: i64) -> bool {
    &&& !post.studying()
    &&& post.subject() is None
    &&& post.today() == if pre.studying() {
        saturating_sum(pre.today(), elapsed)
    } else {
        pre.today()
    }
}

/// Stopping a stopped timer changes nothing: a second `stop` adds no time.
pub proof fn lemma_stop_twice(
    a: TimerComponent,
    b: TimerComponent,
    c: TimerComponent,
    first: i64,
    second: i64,
)
    requires
        stopped_after(a, b, first),
        stopped_after(b, c, second),
    ensures
        c.today() == b.today(),
        !c.studying(),
        c.subject() == b.subject(),
{
}

impl TimerComponent {
    /// A study session is running.
    pub closed spec fn studying(&self) -> bool {
        self.session_start is Some
    }

    /// Seconds studied today before the running session.
    pub closed spec fn today(&self) -> i64 {
        self.today_secs
    }

    /// The subject of the running session.
    pub closed spec fn subject(&self) -> Option<String> {
        self.current_subject
    }

    /// A stopped timer showing `today_secs` studied today.
    pub fn new(today_secs: i64) -> (r: Self)
        ensures
            r.today() == today_secs,
            !r.studying(),
            r.studying() == studying_after(Seq::empty()),
            r.subject() is None,
    {
        TimerComponent { today_secs, session_start: None, current_subject: None }
    }

    /// Starts (or restarts) the running session now.
    pub fn start(&mut self)
        ensures
            final(self).studying(),
            final(self).studying() == studying_step(old(self).studying(), TimerCall::Start),
            final(self).today() == old(self).today(),
            final(self).subject() == old(self).subject(),
    {
        self.session_start = Some(instant_now());
    }

    /// Names the subject of the running session.
    pub fn set_subject(&mut self, name: String)
        ensures
            final(self).subject() == Some(name),
            final(self).today() == old(self).today(),
            final(self).studying() == studying_step(old(self).studying(), TimerCall::SetSubject),
    {
        self.current_subject = Some(name);
    }

    /// Stops the session: its whole elapsed seconds go to today's total
    /// (held within `i64`), and the session and its subject are cleared.
    /// Without a running session the total stays as it is.
    pub fn stop(&mut self)
        ensures
            exists|elapsed: i64| #[trigger] stopped_after(*old(self), *final(self), elapsed),
            final(self).studying() == studying_step(old(self).studying(), TimerCall::Stop),
    {
        let elapsed = self.session_elapsed_secs();
        self.add_session_secs(elapsed);
        self.session_start = None;
        self.current_subject = None;
        assert(stopped_after(*old(self), *self, elapsed));
    }

    /// Adds `elapsed` seconds of the running session to today's total, held
    /// within the range of `i64`; the session and its subject stay as they are.
    pub fn add_session_secs(&mut self, elapsed: i64)
        ensures
            final(self).today() == saturating_sum(old(self).today(), elapsed),
            final(self).studying() == studying_step(old(self).studying(), TimerCall::AddSessionSecs),
            final(self).subject() == old(self).subject(),
    {
        self.today_secs = self.total_with(elapsed);
    }

    /// A study session is running.
    pub fn is_studying(&self) -> (r: bool)
        ensures
            r == self.studying(),
    {
        self.session_start.is_some()
    }

    /// Whole seconds since the running session started (`as i64`); 0 when
    /// none runs.
    pub fn session_elapsed_secs(&self) -> (r: i64)
        ensures
            !self.studying() ==> r == 0,
    {
        match &self.session_start {
            Some(start) => duration_as_secs(&instant_elapsed(start)) as i64,
            None => 0,
        }
    }

    /// Today's total including the running session.
    pub fn total_secs(&self) -> (r: i64)
        ensures
            exists|elapsed: i64| #![auto] r == saturating_sum(self.today(), elapsed),
            !self.studying() ==> r == self.today(),
    {
        self.total_with(self.session_elapsed_secs())
    }

    /// Today's total with `elapsed` seconds of the running session added,
    /// held within the range of `i64`.
    pub fn total_with(&self, elapsed: i64) -> (r: i64)
        ensures
            r == saturating_sum(self.today(), elapsed),
    {
        match self.today_secs.checked_add(elapsed) {
            Some(total) => total,
            None => if elapsed > 0 {
                i64::MAX
            } else {
                i64::MIN
            },
        }
    }

    /// `secs` as `HH:MM:SS`.
    pub fn fmt(secs: i64) -> (r: String)
        ensures
            r@ == duration_text(secs as int),
    {
        fmt_duration(secs)
    }

    /// The five rows of block characters `ch` is drawn with.
    pub fn char_rows(ch: char) -> (r: [&'static str; 5])
        ensures
            r@.map_values(|s: &str| s@) == glyph(ch),
    {
        let rows: [&'static str; 5] = match ch {
            '0' => [" ███ ", "█   █", "█   █", "█   █", " ███ "],
            '1' => ["  █  ", " ██  ", "  █  ", "  █  ", " ███ "],
            '2' => [" ███ ", "    █", "  ██ ", "█    ", "█████"],
            '3' => ["████ ", "    █", " ███ ", "    █", "████ "],
            '4' => ["█   █", "█   █", "█████", "    █", "    █"],
            '5' => ["█████", "█    ", "████ ", "    █", "████ "],
            '6' => [" ████", "█    ", "████ ", "█   █", " ███ "],
            '7' => ["█████", "    █", "  ██ ", "  █  ", "  █  "],
            '8' => [" ███ ", "█   █", " ███ ", "█   █", " ███ "],
            '9' => [" ███ ", "█   █", " ████", "    █", " ███ "],
            ':' => ["   ", "   ", " █ ", "   ", " █ "],
            _ => ["     ", "     ", "     ", "     ", "     "],
        };
        assert(rows@.map_values(|s: &str| s@) =~= glyph(ch));
        rows
    }

    /// The five rows of `time_str` drawn in big digits.
    pub fn big_lines(time_str: &str) -> (r: [String; 5])
        ensures
            forall|k: int| 0 <= k < 5 ==> #[trigger] r@[k]@ == big_row(time_str@, k),
    {
        let n = time_str.unicode_len();
        let mut r0 = String::new();
        let mut r1 = String::new();
        let mut r2 = String::new();
        let mut r3 = String::new();
        let mut r4 = String::new();
        let mut i: usize = 0;
        while i < n
            invariant
                i <= n,
                n == time_str@.len(),
                r0@ == big_row(time_str@.take(i as int), 0),
                r1@ == big_row(time_str@.take(i as int), 1),
                r2@ == big_row(time_str@.take(i as int), 2),
                r3@ == big_row(time_str@.take(i as int), 3),
                r4@ == big_row(time_str@.take(i as int), 4),
            decreases n - i,
        {
            let ch = time_str.get_char(i);
            let pats = Self::char_rows(ch);
            let ghost prefix = time_str@.take(i as int);
            let ghost next = time_str@.take(i + 1);
            proof {
                assert(next.drop_last() =~= prefix);
                assert(next.last() == ch);
                assert(pats@[0]@ == glyph(ch)[0]);
                assert(pats@[1]@ == glyph(ch)[1]);
                assert(pats@[2]@ == glyph(ch)[2]);
                assert(pats@[3]@ == glyph(ch)[3]);
                assert(pats@[4]@ == glyph(ch)[4]);
                if i == 0 {
                    assert(prefix =~= Seq::<char>::empty());
                    assert(next =~= seq![ch]);
                }
            }
            append_cell(&mut r0, i > 0, pats[0]);
            append_cell(&mut r1, i > 0, pats[1]);
            append_cell(&mut r2, i > 0, pats[2]);
            append_cell(&mut r3, i > 0, pats[3]);
            append_cell(&mut r4, i > 0, pats[4]);
            i = i + 1;
        }
        assert(time_str@.take(n as int) =~= time_str@);
        let rows = [r0, r1, r2, r3, r4];
        assert(forall|k: int| 0 <= k < 5 ==> #[trigger] rows@[k]@ == big_row(time_str@, k)) by {
            assert(rows@[0]@ == big_row(time_str@, 0));
            assert(rows@[1]@ == big_row(time_str@, 1));
            assert(rows@[2]@ == big_row(time_str@, 2));
            assert(rows@[3]@ == big_row(time_str@, 3));
            assert(rows@[4]@ == big_row(time_str@, 4));
        }
        rows
    }

    /// What the timer asks for on `key`; the timer itself does not change.
    pub fn handle_key(&mut self, key: Key) -> (r: Option<Action>)
        ensures
            r == timer_key_action(old(self).studying(), key),
            final(self).today() == old(self).today(),
            final(self).subject() == old(self).subject(),
            final(self).studying() == studying_step(old(self).studying(), TimerCall::HandleKey),
    {
        match key {
            Key::Char('q') => Some(Action::Quit),
            Key::Char(' ') => {
                if self.is_studying() {
                    Some(Action::StopStudy)
                } else {
                    Some(Action::RequestStart)
                }
            },
            Key::Char('a') if !self.is_studying() => Some(Action::OpenAnalytics),
            Key::Char('t') => Some(Action::OpenTasks),
            Key::Char('s') if !self.is_studying() => Some(Action::OpenSubjects),
            _ => None,
        }
    }
}

/// Appends one char's row to a big-digit row: a space first unless it is
/// the first char.
fn append_cell(row: &mut String, separated: bool, pat: &str)
    ensures
        final(row)@ == if separated {
            old(row)@ + seq![' '] + pat@
        } else {
            old(row)@ + pat@
        },
{
    if separated {
        row.append(" ");
        proof {
            reveal_strlit(" ");
        }
    }
    row.append(pat);
}

} // verus!
