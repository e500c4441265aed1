//! The typing-session engine.
//!
//! A session owns the generated target text, the input buffer, the cached
//! per-character classification and the completion state machine. The
//! cursor is the length of the input buffer. Classification is cached so
//! that re-rendering never re-counts an error; the cache entry of a
//! character is discarded again when backspace removes it.
//!
//! Every mutation is described by a spec-level transition on
//! `SessionView`, and the laws at the end of the module are proved over
//! those transitions.

use vstd::prelude::*;

use crate::stats::Stat;
use crate::stats::TypingDuration;
use crate::stats::accuracy_hundredths;
use crate::stats::correct_of;
use crate::stats::wpm_hundredths;

verus! {

/// Completion state of a session. `Completed` and `TimedOut` are
/// terminal: no keystroke or tick leaves them; only a reset does.
#[derive(Clone, Copy, PartialEq, Eq, Structural, Debug)]
pub enum SessionState {
    Idle,
    Running,
    Completed,
    TimedOut,
}

impl SessionState {
    pub open spec fn is_terminal(self) -> bool {
        self == SessionState::Completed || self == SessionState::TimedOut
    }
}

/// Cached classification of one character position.
#[derive(Clone, Copy, PartialEq, Eq, Structural, Debug)]
pub enum CharClass {
    Pending,
    Correct,
    Incorrect,
}

/// Live counters of a session; `errors_count` only ever counts each
/// position once.
#[derive(Clone, Copy, PartialEq, Eq, Structural, Debug)]
pub struct Stats {
    pub errors_count: usize,
}

impl Default for Stats {
    fn default() -> (r: Stats)
        ensures
            r.errors_count == 0,
    {
        Stats { errors_count: 0 }
    }
}

/// Session-relevant configuration of the typing screen.
#[derive(Clone, Copy, PartialEq, Eq, Structural, Debug)]
pub struct TypingWindowConfig {
    pub typing_duration: TypingDuration,
}

impl Default for TypingWindowConfig {
    fn default() -> (r: TypingWindowConfig)
        ensures
            r.typing_duration == TypingDuration::Minute,
    {
        TypingWindowConfig { typing_duration: TypingDuration::Minute }
    }
}

/// Mathematical model of a session: what the typing screen holds, with
/// the cursor equal to the input length.
#[verifier::ext_equal]
pub struct SessionView {
    pub text: Seq<char>,
    pub input: Seq<char>,
    pub classes: Seq<CharClass>,
    pub errors: nat,
    pub state: SessionState,
    pub finalized: bool,
    pub duration: TypingDuration,
    pub active: bool,
    pub popup_visible: bool,
}

/// The classification a position gets once the cursor has passed it.
pub open spec fn class_of(text: Seq<char>, input: Seq<char>, i: int) -> CharClass {
    if input[i] == text[i] {
        CharClass::Correct
    } else {
        CharClass::Incorrect
    }
}

/// The fully computed classification cache: every typed position
/// classified, every position beyond the cursor pending.
pub open spec fn full_classes(text: Seq<char>, input: Seq<char>) -> Seq<CharClass> {
    Seq::new(
        text.len(),
        |i: int|
            if i < input.len() {
                class_of(text, input, i)
            } else {
                CharClass::Pending
            },
    )
}

/// How many positions are cached as wrongly typed.
pub open spec fn count_incorrect(s: Seq<CharClass>) -> nat
    decreases s.len(),
{
    if s.len() == 0 {
        0
    } else {
        count_incorrect(s.drop_last()) + (if s.last() is Incorrect {
            1nat
        } else {
            0nat
        })
    }
}

pub proof fn lemma_count_le_len(s: Seq<CharClass>)
    ensures
        count_incorrect(s) <= s.len(),
    decreases s.len(),
{
    if s.len() > 0 {
        lemma_count_le_len(s.drop_last());
    }
}

proof fn lemma_count_update(s: Seq<CharClass>, i: int, c: CharClass)
    requires
        0 <= i < s.len(),
    ensures
        count_incorrect(s.update(i, c)) == count_incorrect(s) - (if s[i] is Incorrect {
            1nat
        } else {
            0nat
        }) + (if c is Incorrect {
            1nat
        } else {
            0nat
        }),
    decreases s.len(),
{
    if i == s.len() - 1 {
        assert(s.update(i, c).drop_last() =~= s.drop_last());
        assert(s.update(i, c).last() == c);
        assert(s.last() == s[i]);
    } else {
        assert(s.update(i, c).drop_last() =~= s.drop_last().update(i, c));
        assert(s.update(i, c).last() == s.last());
        lemma_count_update(s.drop_last(), i, c);
        assert(s.drop_last()[i] == s[i]);
    }
}

proof fn lemma_count_prefix(s: Seq<CharClass>, k: int)
    requires
        0 <= k,
        forall|j: int| k <= j < s.len() ==> !(#[trigger] s[j] is Incorrect),
    ensures
        count_incorrect(s) <= k,
    decreases s.len(),
{
    if s.len() == 0 {
    } else if s.len() - 1 >= k {
        assert(!(s.last() is Incorrect));
        lemma_count_prefix(s.drop_last(), k);
    } else {
        lemma_count_le_len(s);
    }
}

impl SessionView {
    /// Well-formedness: the cursor stays inside the text, the cache
    /// covers exactly the text, cached entries agree with the input,
    /// nothing past the cursor is classified, and the error counter
    /// counts exactly the cached mistakes.
    pub open spec fn wf(self) -> bool {
        &&& self.input.len() <= self.text.len()
        &&& self.classes.len() == self.text.len()
        &&& self.text.len() <= u32::MAX
        &&& self.errors == count_incorrect(self.classes)
        &&& forall|i: int|
            0 <= i < self.classes.len() && !((#[trigger] self.classes[i]) is Pending) ==> i
                < self.input.len() && self.classes[i] == class_of(self.text, self.input, i)
        &&& forall|i: int|
            self.input.len() <= i < self.classes.len() ==> (#[trigger] self.classes[i]) is Pending
        &&& (self.state == SessionState::Idle ==> self.input.len() == 0)
        &&& (self.state == SessionState::Completed ==> self.input.len() == self.text.len())
        &&& (self.finalized ==> self.state.is_terminal())
    }

    pub open spec fn cursor(self) -> nat {
        self.input.len()
    }

    pub open spec fn is_terminal(self) -> bool {
        self.state.is_terminal()
    }
}

/// Effect of one typed character: ignored in a terminal state (and on a
/// session whose text is already fully typed); otherwise the character
/// is appended and the session runs, and when the cursor thereby reaches
/// the end of the text, the final position is classified and the session
/// completes.
pub open spec fn push_spec(v: SessionView, c: char) -> SessionView {
    if v.is_terminal() || v.input.len() >= v.text.len() {
        v
    } else {
        let input2 = v.input.push(c);
        if input2.len() == v.text.len() {
            let i = v.text.len() - 1;
            let cls = class_of(v.text, input2, i);
            SessionView {
                input: input2,
                classes: v.classes.update(i, cls),
                errors: v.errors + (if cls is Incorrect {
                    1nat
                } else {
                    0nat
                }),
                state: SessionState::Completed,
                ..v
            }
        } else {
            SessionView { input: input2, state: SessionState::Running, ..v }
        }
    }
}

/// Effect of backspace: ignored in a terminal state and at cursor zero
/// (never an underflow); otherwise the last character is removed and its
/// cached classification — and its contribution to the error counter —
/// is discarded.
pub open spec fn pop_spec(v: SessionView) -> SessionView {
    if v.is_terminal() || v.input.len() == 0 {
        v
    } else {
        let i = v.input.len() - 1;
        SessionView {
            input: v.input.drop_last(),
            classes: v.classes.update(i, CharClass::Pending),
            errors: (v.errors - (if v.classes[i] is Incorrect {
                1nat
            } else {
                0nat
            })) as nat,
            ..v
        }
    }
}

/// Effect of one clock reading: a running session whose remaining time
/// has reached zero times out; every other state is left alone.
pub open spec fn tick_spec(v: SessionView, elapsed_secs: u32, total_secs: u32) -> SessionView {
    if v.state == SessionState::Running && total_secs <= elapsed_secs {
        SessionView { state: SessionState::TimedOut, ..v }
    } else {
        v
    }
}

/// Effect of classifying position `i` on demand: a cached entry is
/// handed back unchanged; only a pending entry is computed, cached, and
/// counted.
pub open spec fn classify_spec(v: SessionView, i: int) -> SessionView {
    if !(v.classes[i] is Pending) {
        v
    } else {
        let cls = class_of(v.text, v.input, i);
        SessionView {
            classes: v.classes.update(i, cls),
            errors: v.errors + (if cls is Incorrect {
                1nat
            } else {
                0nat
            }),
            ..v
        }
    }
}

/// Effect of one full render pass over the classification cache: every
/// typed position classified. The result depends only on the text and
/// the input, never on how often it is computed.
pub open spec fn classify_all_spec(v: SessionView) -> SessionView {
    SessionView {
        classes: full_classes(v.text, v.input),
        errors: count_incorrect(full_classes(v.text, v.input)),
        ..v
    }
}

/// The record a session finalizes into, given the elapsed seconds.
pub open spec fn stat_of(v: SessionView, elapsed_secs: u32) -> Stat {
    let full = full_classes(v.text, v.input);
    let errors = count_incorrect(full);
    let total = v.input.len();
    Stat {
        duration: v.duration,
        average_wpm: wpm_hundredths(correct_of(total, errors), elapsed_secs as nat) as u64,
        error_count: errors as u32,
        elapsed_secs: elapsed_secs,
        accuracy: accuracy_hundredths(correct_of(total, errors), errors) as u32,
    }
}

/// The typing screen's session: target text, input buffer, cached
/// classification, counters and completion state. The cursor is the
/// input length, so it can never underflow.
#[derive(Debug)]
pub struct TypingWindow {
    pub generated_text: Vec<char>,
    pub input: Vec<char>,
    pub stats: Stats,
    classifications: Vec<CharClass>,
    state: SessionState,
    finalized: bool,
    active: bool,
    popup_visible: bool,
    config: TypingWindowConfig,
}

impl View for TypingWindow {
    type V = SessionView;

    closed spec fn view(&self) -> SessionView {
        SessionView {
            text: self.generated_text@,
            input: self.input@,
            classes: self.classifications@,
            errors: self.stats.errors_count as nat,
            state: self.state,
            finalized: self.finalized,
            duration: self.config.typing_duration,
            active: self.active,
            popup_visible: self.popup_visible,
        }
    }
}

impl TypingWindow {
    /// A fresh session over the given target text: empty input, nothing
    /// classified, no errors, idle, visible as the active screen.
    pub fn new(generated_text: Vec<char>, config: TypingWindowConfig) -> (r: TypingWindow)
        requires
            generated_text@.len() <= u32::MAX,
        ensures
            r@.wf(),
            r@.text == generated_text@,
            r@.input.len() == 0,
            r@.errors == 0,
            r@.state == SessionState::Idle,
            r@.finalized == false,
            r@.duration == config.typing_duration,
            r@.active == true,
            r@.popup_visible == false,
    {
        let len = generated_text.len();
        let mut classifications: Vec<CharClass> = Vec::new();
        let mut i: usize = 0;
        while i < len
            invariant
                i <= len,
                classifications@.len() == i,
                forall|j: int|
                    0 <= j < i ==> (#[trigger] classifications@[j]) is Pending,
            decreases len - i,
        {
            classifications.push(CharClass::Pending);
            i = i + 1;
        }
        proof {
            lemma_count_prefix(classifications@, 0);
        }
        TypingWindow {
            generated_text,
            input: Vec::new(),
            stats: Stats { errors_count: 0 },
            classifications,
            state: SessionState::Idle,
            finalized: false,
            active: true,
            popup_visible: false,
            config,
        }
    }

    /// Builder that swaps the session-relevant configuration in.
    pub fn config(self, config: TypingWindowConfig) -> (r: TypingWindow)
        ensures
            r@ == (SessionView { duration: config.typing_duration, ..self@ }),
    {
        let mut w = self;
        w.config = config;
        w
    }

    /// Handles one typed character, as `push_spec` describes: a no-op
    /// once the session is over, otherwise append, run, and complete on
    /// the last character.
    pub fn push_char(&mut self, c: char)
        requires
            old(self)@.wf(),
        ensures
            final(self)@.wf(),
            final(self)@ == push_spec(old(self)@, c),
    {
        if self.state == SessionState::Completed || self.state == SessionState::TimedOut {
            return ;
        }
        if self.input.len() >= self.generated_text.len() {
            return ;
        }
        self.input.push(c);
        let cursor = self.input.len();
        if cursor == self.generated_text.len() {
            let i = cursor - 1;
            let cls = if self.input[i] == self.generated_text[i] {
                CharClass::Correct
            } else {
                CharClass::Incorrect
            };
            proof {
                lemma_count_le_len(self.classifications@.update(i as int, cls));
                lemma_count_update(self.classifications@, i as int, cls);
                assert(self.classifications@[i as int] is Pending);
            }
            if cls == CharClass::Incorrect {
                self.stats.errors_count = self.stats.errors_count + 1;
            }
            self.classifications[i] = cls;
            self.state = SessionState::Completed;
            proof {
                assert(self@ =~= push_spec(old(self)@, c));
            }
        } else {
            self.state = SessionState::Running;
            proof {
                assert(self@ =~= push_spec(old(self)@, c));
            }
        }
        proof {
            lemma_push_spec_wf(old(self)@, c);
        }
    }

    /// Handles backspace, as `pop_spec` describes: a no-op at cursor
    /// zero and once the session is over; otherwise the last character
    /// and its cached classification are discarded.
    pub fn pop_char(&mut self)
        requires
            old(self)@.wf(),
        ensures
            final(self)@.wf(),
            final(self)@ == pop_spec(old(self)@),
    {
        if self.state == SessionState::Completed || self.state == SessionState::TimedOut {
            return ;
        }
        if self.input.len() == 0 {
            return ;
        }
        let i = self.input.len() - 1;
        let was = self.classifications[i];
        proof {
            lemma_count_update(self.classifications@, i as int, CharClass::Pending);
        }
        if was == CharClass::Incorrect {
            self.stats.errors_count = self.stats.errors_count - 1;
        }
        let _ = self.input.pop();
        self.classifications[i] = CharClass::Pending;
        proof {
            assert(self.input@ =~= old(self).input@.drop_last());
            assert(self@ =~= pop_spec(old(self)@));
            lemma_pop_spec_wf(old(self)@);
        }
    }

    /// Applies one clock reading, as `tick_spec` describes: a running
    /// session times out when no time remains.
    pub fn tick(&mut self, elapsed_secs: u32, total_secs: u32)
        requires
            old(self)@.wf(),
        ensures
            final(self)@.wf(),
            final(self)@ == tick_spec(old(self)@, elapsed_secs, total_secs),
    {
        if self.state == SessionState::Running && total_secs <= elapsed_secs {
            self.state = SessionState::TimedOut;
        }
        proof {
            assert(self@ =~= tick_spec(old(self)@, elapsed_secs, total_secs));
        }
    }

    /// Classifies one typed position, as `classify_spec` describes. The
    /// cached value is handed back without side effects, so rendering a
    /// position twice never counts its error twice.
    pub fn classify(&mut self, i: usize) -> (r: CharClass)
        requires
            old(self)@.wf(),
            i < old(self)@.input.len(),
        ensures
            final(self)@.wf(),
            final(self)@ == classify_spec(old(self)@, i as int),
            r == class_of(old(self)@.text, old(self)@.input, i as int),
    {
        let cached = self.classifications[i];
        if cached != CharClass::Pending {
            proof {
                assert(self@ =~= classify_spec(old(self)@, i as int));
            }
            return cached;
        }
        let cls = if self.input[i] == self.generated_text[i] {
            CharClass::Correct
        } else {
            CharClass::Incorrect
        };
        proof {
            lemma_count_le_len(self.classifications@.update(i as int, cls));
            lemma_count_update(self.classifications@, i as int, cls);
        }
        if cls == CharClass::Incorrect {
            self.stats.errors_count = self.stats.errors_count + 1;
        }
        self.classifications[i] = cls;
        proof {
            assert(self@ =~= classify_spec(old(self)@, i as int));
            lemma_classify_spec_wf(old(self)@, i as int);
        }
        cls
    }

    /// One render pass over the whole text: classifies every typed
    /// position and hands the cache out for display. The resulting
    /// state — the error counter included — depends only on the text
    /// and the input, so repeating a render changes nothing.
    pub fn classes(&mut self) -> (r: Vec<CharClass>)
        requires
            old(self)@.wf(),
        ensures
            final(self)@.wf(),
            final(self)@ == classify_all_spec(old(self)@),
            r@ == final(self)@.classes,
    {
        let mut i: usize = 0;
        while i < self.input.len()
            invariant
                self@.wf(),
                i <= self@.input.len(),
                self@.text == old(self)@.text,
                self@.input == old(self)@.input,
                self@.state == old(self)@.state,
                self@.finalized == old(self)@.finalized,
                self@.duration == old(self)@.duration,
                self@.active == old(self)@.active,
                self@.popup_visible == old(self)@.popup_visible,
                forall|j: int|
                    0 <= j < i ==> (#[trigger] self@.classes[j]) == class_of(
                        self@.text,
                        self@.input,
                        j,
                    ),
            decreases self@.input.len() - i,
        {
            let _ = self.classify(i);
            i = i + 1;
        }
        proof {
            assert(self@.classes =~= full_classes(old(self)@.text, old(self)@.input));
            assert(self@ =~= classify_all_spec(old(self)@));
        }
        let mut out: Vec<CharClass> = Vec::new();
        let mut k: usize = 0;
        let len = self.classifications.len();
        while k < len
            invariant
                k <= len,
                len == self.classifications@.len(),
                out@ == self.classifications@.take(k as int),
            decreases len - k,
        {
            out.push(self.classifications[k]);
            proof {
                assert(self.classifications@.take(k + 1) =~= self.classifications@.take(
                    k as int,
                ).push(self.classifications@[k as int]));
            }
            k = k + 1;
        }
        proof {
            assert(self.classifications@.take(len as int) =~= self.classifications@);
        }
        out
    }

    /// Starts the session over on a freshly generated text, keeping the
    /// configured duration: clears the input, the cache, the counters,
    /// and returns to idle.
    pub fn reset(&mut self, generated_text: Vec<char>)
        requires
            generated_text@.len() <= u32::MAX,
        ensures
            final(self)@.wf(),
            final(self)@.text == generated_text@,
            final(self)@.input.len() == 0,
            final(self)@.errors == 0,
            final(self)@.state == SessionState::Idle,
            final(self)@.finalized == false,
            final(self)@.duration == old(self)@.duration,
            final(self)@.active == old(self)@.active,
            final(self)@.popup_visible == false,
    {
        let fresh = TypingWindow::new(generated_text, self.config);
        let active = self.active;
        *self = fresh;
        self.active = active;
    }

    /// Produces the session's immutable record, exactly once: only a
    /// finished session that was not finalized before yields a record,
    /// and doing so marks it finalized, so a second call — and with it a
    /// second insertion into the store — can never happen. Classifies
    /// every typed position first, so the counters cover the whole
    /// input.
    pub fn finalize(&mut self, elapsed_secs: u32) -> (r: Option<Stat>)
        requires
            old(self)@.wf(),
        ensures
            final(self)@.wf(),
            old(self)@.is_terminal() && !old(self)@.finalized ==> r == Some(
                stat_of(old(self)@, elapsed_secs),
            ) && final(self)@ == (SessionView { finalized: true, ..classify_all_spec(old(self)@) }),
            !(old(self)@.is_terminal() && !old(self)@.finalized) ==> r is None && final(self)@
                == old(self)@,
    {
        if !(self.state == SessionState::Completed || self.state == SessionState::TimedOut) {
            return None;
        }
        if self.finalized {
            return None;
        }
        let _ = self.classes();
        proof {
            lemma_count_prefix(self@.classes, self@.input.len() as int);
            lemma_count_le_len(self@.classes);
        }
        let total = self.input.len() as u32;
        let errors = self.stats.errors_count as u32;
        let st = Stat::new(self.config.typing_duration, total, errors, elapsed_secs);
        self.finalized = true;
        proof {
            assert(self@ =~= (SessionView { finalized: true, ..classify_all_spec(old(self)@) }));
            assert(st == stat_of(old(self)@, elapsed_secs));
        }
        Some(st)
    }

    pub fn is_running(&self) -> (r: bool)
        ensures
            r == (self@.state == SessionState::Running),
    {
        self.state == SessionState::Running
    }

    pub fn is_finished(&self) -> (r: bool)
        ensures
            r == self@.is_terminal(),
    {
        self.state == SessionState::Completed || self.state == SessionState::TimedOut
    }

    pub fn is_finalized(&self) -> (r: bool)
        ensures
            r == self@.finalized,
    {
        self.finalized
    }

    pub fn is_active(&self) -> (r: bool)
        ensures
            r == self@.active,
    {
        self.active
    }

    pub fn is_popup_visible(&self) -> (r: bool)
        ensures
            r == self@.popup_visible,
    {
        self.popup_visible
    }

    pub fn toggle_active(&mut self)
        ensures
            final(self)@ == (SessionView { active: !old(self)@.active, ..old(self)@ }),
    {
        self.active = !self.active;
        proof {
            assert(self@ =~= (SessionView { active: !old(self)@.active, ..old(self)@ }));
        }
    }

    pub fn set_popup_visible(&mut self, visible: bool)
        ensures
            final(self)@ == (SessionView { popup_visible: visible, ..old(self)@ }),
    {
        self.popup_visible = visible;
        proof {
            assert(self@ =~= (SessionView { popup_visible: visible, ..old(self)@ }));
        }
    }

    /// Hides the screen when another one is switched to: clears the
    /// popup and the focus.
    pub fn hide_screen(&mut self)
        ensures
            final(self)@ == (SessionView {
                active: false,
                popup_visible: false,
                ..old(self)@
            }),
    {
        self.active = false;
        self.popup_visible = false;
        proof {
            assert(self@ =~= (SessionView { active: false, popup_visible: false, ..old(self)@ }));
        }
    }

    /// Records a newly selected target duration; the caller resets the
    /// session afterwards so the new duration takes effect from idle.
    pub fn set_duration(&mut self, duration: TypingDuration)
        ensures
            final(self)@ == (SessionView { duration, ..old(self)@ }),
    {
        self.config.typing_duration = duration;
        proof {
            assert(self@ =~= (SessionView { duration, ..old(self)@ }));
        }
    }

    pub fn get_cursor_index(&self) -> (r: usize)
        ensures
            r == self@.cursor(),
    {
        self.input.len()
    }

    pub fn get_config(&self) -> (r: TypingWindowConfig)
        ensures
            r.typing_duration == self@.duration,
    {
        self.config
    }
}

// ---------------------------------------------------------------------
// Laws
// ---------------------------------------------------------------------

/// A session never counts more errors than its text has characters.
pub proof fn lemma_error_count_bounded(v: SessionView)
    requires
        v.wf(),
    ensures
        v.errors <= v.text.len(),
{
    lemma_count_le_len(v.classes);
}

/// Classification is free of repeated side effects: a second render
/// pass over an unchanged session reproduces the very same state, error
/// counter included.
pub proof fn lemma_classify_all_idempotent(v: SessionView)
    ensures
        classify_all_spec(classify_all_spec(v)) == classify_all_spec(v),
{
    assert(classify_all_spec(classify_all_spec(v)) =~= classify_all_spec(v));
}

/// A finished session stays finished: neither a keystroke nor a
/// backspace nor a clock reading changes a completed or timed-out
/// session, so a session finishes at most once, in exactly one of the
/// two terminal states.
pub proof fn lemma_terminal_absorbing(v: SessionView, c: char, elapsed_secs: u32, total_secs: u32)
    requires
        v.is_terminal(),
    ensures
        push_spec(v, c) == v,
        pop_spec(v) == v,
        tick_spec(v, elapsed_secs, total_secs) == v,
{
}

/// Backspace at cursor zero leaves the session untouched.
pub proof fn lemma_backspace_at_zero(v: SessionView)
    requires
        v.input.len() == 0,
    ensures
        pop_spec(v) == v,
{
}

// ---------------------------------------------------------------------
// Transition lemmas
// ---------------------------------------------------------------------

proof fn lemma_push_spec_wf(v: SessionView, c: char)
    requires
        v.wf(),
    ensures
        push_spec(v, c).wf(),
{
    if !(v.is_terminal() || v.input.len() >= v.text.len()) {
        let input2 = v.input.push(c);
        if input2.len() == v.text.len() {
            let i = v.text.len() - 1;
            let cls = class_of(v.text, input2, i);
            assert(v.classes[i as int] is Pending);
            lemma_count_update(v.classes, i as int, cls);
            let w = push_spec(v, c);
            assert forall|j: int|
                0 <= j < w.classes.len() && !((#[trigger] w.classes[j]) is Pending) implies j
                < w.input.len() && w.classes[j] == class_of(w.text, w.input, j) by {
                if j != i {
                    assert(w.classes[j] == v.classes[j]);
                    assert(v.input[j] == input2[j]);
                }
            }
        } else {
            let w = push_spec(v, c);
            assert forall|j: int|
                0 <= j < w.classes.len() && !((#[trigger] w.classes[j]) is Pending) implies j
                < w.input.len() && w.classes[j] == class_of(w.text, w.input, j) by {
                assert(v.input[j] == input2[j]);
            }
        }
    }
}

proof fn lemma_pop_spec_wf(v: SessionView)
    requires
        v.wf(),
    ensures
        pop_spec(v).wf(),
{
    if !(v.is_terminal() || v.input.len() == 0) {
        let i = v.input.len() - 1;
        lemma_count_update(v.classes, i as int, CharClass::Pending);
        let w = pop_spec(v);
        assert forall|j: int|
            0 <= j < w.classes.len() && !((#[trigger] w.classes[j]) is Pending) implies j
            < w.input.len() && w.classes[j] == class_of(w.text, w.input, j) by {
            assert(w.classes[j] == v.classes[j]);
            assert(v.input[j] == w.input[j]);
        }
    }
}

proof fn lemma_classify_spec_wf(v: SessionView, i: int)
    requires
        v.wf(),
        0 <= i < v.input.len(),
    ensures
        classify_spec(v, i).wf(),
{
    if v.classes[i] is Pending {
        let cls = class_of(v.text, v.input, i);
        lemma_count_update(v.classes, i, cls);
        let w = classify_spec(v, i);
        assert forall|j: int|
            0 <= j < w.classes.len() && !((#[trigger] w.classes[j]) is Pending) implies j
            < w.input.len() && w.classes[j] == class_of(w.text, w.input, j) by {
            if j != i {
                assert(w.classes[j] == v.classes[j]);
            }
        }
    }
}

} // verus!
