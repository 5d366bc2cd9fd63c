use vstd::prelude::*;

use crate::popup::{Key, PopupAction, PopupManager, Section};
use crate::text::string_of;
use crate::words::{
    default_words, draw_len, generate_words, join_words, joined, source_views, word_views,
};

verus! {

/// Marks a position of the passage that the word-skip rule jumped over.
pub const FILLER: char = '#';

/// The characters the word-skip rule appends when the cursor stands at `k`:
/// one filler for each position up to the next space, then that space; or, in
/// the last word, fillers up to the end of the passage.
pub open spec fn fill_from(target: Seq<char>, k: int) -> Seq<char>
    decreases target.len() - k,
{
    if k < 0 || k >= target.len() {
        Seq::empty()
    } else if target[k] == ' ' {
        seq![' ']
    } else {
        seq![FILLER] + fill_from(target, k + 1)
    }
}

/// `s` without its trailing run of spaces.
pub open spec fn trim_spaces(s: Seq<char>) -> Seq<char>
    decreases s.len(),
{
    if s.len() > 0 && s.last() == ' ' {
        trim_spaces(s.drop_last())
    } else {
        s
    }
}

/// `s` without its trailing run of non-space characters.
pub open spec fn trim_word(s: Seq<char>) -> Seq<char>
    decreases s.len(),
{
    if s.len() > 0 && s.last() != ' ' {
        trim_word(s.drop_last())
    } else {
        s
    }
}

/// The input after deleting the word before the cursor.
pub open spec fn delete_word(s: Seq<char>) -> Seq<char> {
    trim_word(trim_spaces(s))
}

/// The number of characters of `input` that the user typed (fillers excluded).
pub open spec fn typed_count(input: Seq<char>) -> nat
    decreases input.len(),
{
    if input.len() == 0 {
        0
    } else {
        typed_count(input.drop_last()) + if input.last() != FILLER {
            1nat
        } else {
            0nat
        }
    }
}

/// The number of typed characters of `input` (fillers excluded) that match the
/// character of `target` at the same position.
pub open spec fn correct_count(input: Seq<char>, target: Seq<char>) -> nat
    decreases input.len(),
{
    if input.len() == 0 {
        0
    } else {
        let i = input.len() - 1;
        correct_count(input.drop_last(), target) + if input[i] != FILLER && i < target.len()
            && input[i] == target[i] {
            1nat
        } else {
            0nat
        }
    }
}

/// `target` is `count` words (fewer if the source holds fewer) joined with
/// spaces, drawn from distinct positions of `source`.
pub open spec fn drawn_from(target: Seq<char>, source: Seq<Seq<char>>, count: int) -> bool {
    exists|words: Seq<Seq<char>>|
        {
            &&& words.len() == draw_len(count, source.len() as int)
            &&& words.to_multiset().subset_of(source.to_multiset())
            &&& #[trigger] joined(words) == target
        }
}

/// Milliseconds in a second.
pub const MILLIS_PER_SECOND: u64 = 1000;

/// The time limit (in seconds) has run out by `now` since `start`; never
/// before the first keystroke.
pub open spec fn time_done(start: Option<u64>, limit: Option<u64>, now: u64) -> bool {
    &&& limit is Some
    &&& start is Some
    &&& now >= start->0
    &&& now - start->0 >= MILLIS_PER_SECOND * limit->0
}

/// Applies the word-skip rule: appends `fill_from(target, input.len())`.
fn skip_word(target: &Vec<char>, input: &mut Vec<char>)
    requires
        old(input)@.len() < target@.len(),
    ensures
        final(input)@ == old(input)@ + fill_from(target@, old(input)@.len() as int),
        final(input)@.len() <= target@.len(),
{
    let ghost start = input@;
    let mut k: usize = input.len();
    while k < target.len() && target[k] != ' '
        invariant
            start.len() <= k <= target@.len(),
            input@.len() == k,
            input@ + fill_from(target@, k as int) == start + fill_from(target@, start.len() as int),
        decreases target@.len() - k,
    {
        let ghost before = input@;
        input.push(FILLER);
        assert(fill_from(target@, k as int) == seq![FILLER] + fill_from(target@, k + 1));
        assert(input@ + fill_from(target@, k + 1) =~= before + fill_from(target@, k as int));
        k = k + 1;
    }
    if k < target.len() {
        let ghost before = input@;
        input.push(' ');
        assert(fill_from(target@, k as int) == seq![' ']);
        assert(input@ =~= before + fill_from(target@, k as int));
    } else {
        assert(fill_from(target@, k as int) =~= Seq::<char>::empty());
        assert(input@ =~= input@ + fill_from(target@, k as int));
    }
}

/// Removes the trailing spaces, then the trailing non-space characters.
fn delete_last_word(input: &mut Vec<char>)
    ensures
        final(input)@ == delete_word(old(input)@),
        final(input)@.len() <= old(input)@.len(),
{
    let ghost orig = input@;
    while input.len() > 0 && input[input.len() - 1] == ' '
        invariant
            trim_spaces(input@) == trim_spaces(orig),
            input@.len() <= orig.len(),
        decreases input@.len(),
    {
        let ghost before = input@;
        input.pop();
        assert(input@ =~= before.drop_last());
    }
    let ghost spaced = input@;
    assert(trim_spaces(spaced) == spaced);
    while input.len() > 0 && input[input.len() - 1] != ' '
        invariant
            trim_word(input@) == trim_word(spaced),
            trim_spaces(spaced) == trim_spaces(orig),
            input@.len() <= orig.len(),
        decreases input@.len(),
    {
        let ghost before = input@;
        input.pop();
        assert(input@ =~= before.drop_last());
    }
}

/// What the owner of a session does after a key went to the selector.
#[derive(Clone, Debug, PartialEq)]
pub enum PopupStep {
    /// The selector is closed: the key is for the session.
    PassThrough,
    /// The selector took the key.
    Consumed,
    /// The selector took the key and chose this word list: load it and hand it
    /// to `use_word_list`.
    LoadWordList(String),
}

/// How a position of the passage is shown.
#[derive(Clone, Copy, Debug, PartialEq, Eq, Structural)]
pub enum CharMark {
    /// Typed as in the passage.
    Correct,
    /// Typed otherwise than the passage.
    Wrong,
    /// Jumped over by the word-skip rule.
    Skipped,
    /// The next position to type.
    Cursor,
    /// Not reached yet.
    Pending,
}

/// The character shown at position `i` and how it is marked: a skipped
/// position shows the passage, a typed one what was typed.
pub open spec fn mark_at(target: Seq<char>, input: Seq<char>, i: int) -> (char, CharMark) {
    if i < input.len() {
        if input[i] == FILLER {
            (target[i], CharMark::Skipped)
        } else if input[i] == target[i] {
            (input[i], CharMark::Correct)
        } else {
            (input[i], CharMark::Wrong)
        }
    } else if i == input.len() {
        (target[i], CharMark::Cursor)
    } else {
        (target[i], CharMark::Pending)
    }
}

/// Typed fillers count neither as typed nor as correct: appending one leaves
/// both counts as they were.
pub proof fn lemma_filler_not_scored(input: Seq<char>, target: Seq<char>)
    ensures
        typed_count(input.push(FILLER)) == typed_count(input),
        correct_count(input.push(FILLER), target) == correct_count(input, target),
        typed_count(Seq::<char>::empty()) == 0,
        correct_count(Seq::<char>::empty(), target) == 0,
{
    assert(input.push(FILLER).drop_last() =~= input);
}

/// A typing session: the passage to type, what has been typed, and its timing.
/// Instants are milliseconds on a clock that the caller keeps.
pub struct App {
    target: Vec<char>,
    input: Vec<char>,
    start_time: Option<u64>,
    end_time: Option<u64>,
    time_limit: Option<u64>,
    word_count: usize,
    source: Vec<String>,
    pub scheme_index: usize,
    pub cursor_style_index: usize,
    pub popup_manager: PopupManager,
}

impl App {
    pub closed spec fn target_view(&self) -> Seq<char> {
        self.target@
    }

    pub closed spec fn input_view(&self) -> Seq<char> {
        self.input@
    }

    pub closed spec fn start_view(&self) -> Option<u64> {
        self.start_time
    }

    pub closed spec fn end_view(&self) -> Option<u64> {
        self.end_time
    }

    /// The time limit in seconds, if any.
    pub closed spec fn limit_view(&self) -> Option<u64> {
        self.time_limit
    }

    pub closed spec fn word_count_view(&self) -> usize {
        self.word_count
    }

    pub closed spec fn scheme_view(&self) -> usize {
        self.scheme_index
    }

    pub closed spec fn cursor_style_view(&self) -> usize {
        self.cursor_style_index
    }

    pub closed spec fn popup_view(&self) -> PopupManager {
        self.popup_manager
    }

    /// The words that passages of this session are drawn from.
    pub closed spec fn source_view(&self) -> Seq<Seq<char>> {
        word_views(self.source@)
    }

    /// Every position of the passage has been typed or skipped.
    pub open spec fn length_complete(&self) -> bool {
        self.input_view().len() >= self.target_view().len()
    }

    pub open spec fn complete_at(&self, now: u64) -> bool {
        self.length_complete() || time_done(self.start_view(), self.limit_view(), now)
    }

    /// The instant at which the session counts as complete, when this is
    /// detected at `now`: the end of the time limit if it has run out, else `now`.
    pub open spec fn completion_instant(&self, now: u64) -> u64 {
        if time_done(self.start_view(), self.limit_view(), now) {
            (self.start_view()->0 + MILLIS_PER_SECOND * self.limit_view()->0) as u64
        } else {
            now
        }
    }

    pub open spec fn wf(&self) -> bool {
        &&& self.popup_view().wf()
        &&& self.input_view().len() <= self.target_view().len()
        &&& self.end_view() is Some ==> {
            &&& self.start_view() is Some
            &&& self.start_view()->0 <= self.end_view()->0
        }
    }

    /// Nothing typed and no timing yet.
    pub open spec fn is_fresh(&self) -> bool {
        &&& self.input_view().len() == 0
        &&& self.start_view() is None
        &&& self.end_view() is None
    }

    /// A session of `word_count` words drawn from `loaded` (or from the
    /// built-in words when nothing could be loaded), with an optional time
    /// limit in seconds.
    pub fn new(
        word_count: usize,
        time_limit_seconds: Option<usize>,
        loaded: Option<Vec<String>>,
        downloaded: &Vec<String>,
    ) -> (r: App)
        ensures
            r.wf(),
            r.is_fresh(),
            r.source_view() == source_views(loaded),
            r.word_count_view() == word_count,
            r.limit_view() == match time_limit_seconds {
                Some(s) => Some(s as u64),
                None => None::<u64>,
            },
            drawn_from(r.target_view(), r.source_view(), word_count as int),
            r.scheme_view() == 0,
            r.cursor_style_view() == 0,
            r.popup_view().is_initial(word_views(downloaded@)),
    {
        let source = match loaded {
            Some(words) => words,
            None => default_words(),
        };
        let mut app = App {
            target: Vec::new(),
            input: Vec::new(),
            start_time: None,
            end_time: None,
            time_limit: match time_limit_seconds {
                Some(s) => Some(s as u64),
                None => None,
            },
            word_count,
            source,
            scheme_index: 0,
            cursor_style_index: 0,
            popup_manager: PopupManager::new(downloaded),
        };
        app.restart();
        app
    }

    /// Draws a new passage of the same number of words from the same source and
    /// clears the input and the timing.
    pub fn restart(&mut self)
        requires
            old(self).wf(),
        ensures
            final(self).wf(),
            final(self).is_fresh(),
            drawn_from(final(self).target_view(), final(self).source_view(), old(self).word_count_view() as int),
            final(self).source_view() == old(self).source_view(),
            final(self).word_count_view() == old(self).word_count_view(),
            final(self).limit_view() == old(self).limit_view(),
            final(self).scheme_view() == old(self).scheme_view(),
            final(self).cursor_style_view() == old(self).cursor_style_view(),
            final(self).popup_view() == old(self).popup_view(),
    {
        let words = generate_words(self.word_count, Some(self.source.clone()));
        proof {
            assert(source_views(Some(self.source)) == word_views(self.source@));
        }
        self.target = join_words(&words);
        self.input = Vec::new();
        self.start_time = None;
        self.end_time = None;
        proof {
            assert(joined(word_views(words@)) == self.target@);
        }
    }

    /// Whether the session is complete at `now`: the whole passage has been
    /// typed, or the time limit has run out since the first keystroke.
    pub fn is_done(&self, now: u64) -> (r: bool)
        ensures
            r == self.complete_at(now),
    {
        if self.input.len() >= self.target.len() {
            return true;
        }
        match (self.time_limit, self.start_time) {
            (Some(limit), Some(start)) => now >= start && (now - start) / MILLIS_PER_SECOND >= limit,
            _ => false,
        }
    }

    fn completion_time(&self, now: u64) -> (r: u64)
        ensures
            r == self.completion_instant(now),
    {
        match (self.time_limit, self.start_time) {
            (Some(limit), Some(start)) => {
                if now >= start && (now - start) / MILLIS_PER_SECOND >= limit {
                    start + limit * MILLIS_PER_SECOND
                } else {
                    now
                }
            },
            _ => now,
        }
    }

    /// Records the completion instant if the session has started, is complete
    /// at `now`, and has no end yet.
    pub fn tick(&mut self, now: u64)
        requires
            old(self).wf(),
            old(self).start_view() is Some ==> now >= old(self).start_view()->0,
        ensures
            final(self).wf(),
            old(self).end_view() is None && final(self).end_view() is Some ==> final(self).complete_at(
                final(self).end_view()->0,
            ),
            final(self).target_view() == old(self).target_view(),
            final(self).input_view() == old(self).input_view(),
            final(self).start_view() == old(self).start_view(),
            final(self).limit_view() == old(self).limit_view(),
            final(self).word_count_view() == old(self).word_count_view(),
            final(self).source_view() == old(self).source_view(),
            final(self).scheme_view() == old(self).scheme_view(),
            final(self).cursor_style_view() == old(self).cursor_style_view(),
            final(self).popup_view() == old(self).popup_view(),
            old(self).end_view() is Some ==> final(self).end_view() == old(self).end_view(),
            old(self).end_view() is None ==> final(self).end_view() == if old(self).start_view() is Some
                && old(self).complete_at(now) {
                Some(old(self).completion_instant(now))
            } else {
                None::<u64>
            },
    {
        if self.start_time.is_some() && self.end_time.is_none() && self.is_done(now) {
            let at = self.completion_time(now);
            self.end_time = Some(at);
        }
    }

    /// A keystroke of `ch` at `now`. The first keystroke starts the clock; a
    /// keystroke on a complete session changes nothing else; a space applies
    /// the word-skip rule, any other character is appended. When the session
    /// becomes complete its end is recorded once.
    pub fn handle_char(&mut self, ch: char, now: u64)
        requires
            old(self).wf(),
            old(self).start_view() is Some ==> now >= old(self).start_view()->0,
        ensures
            final(self).wf(),
            old(self).end_view() is None && final(self).end_view() is Some ==> final(self).complete_at(
                final(self).end_view()->0,
            ),
            final(self).target_view() == old(self).target_view(),
            final(self).limit_view() == old(self).limit_view(),
            final(self).word_count_view() == old(self).word_count_view(),
            final(self).source_view() == old(self).source_view(),
            final(self).scheme_view() == old(self).scheme_view(),
            final(self).cursor_style_view() == old(self).cursor_style_view(),
            final(self).popup_view() == old(self).popup_view(),
            final(self).start_view() == match old(self).start_view() {
                Some(t) => Some(t),
                None => Some(now),
            },
            final(self).input_view().len() <= final(self).target_view().len(),
            old(self).length_complete() ==> final(self).input_view() == old(self).input_view(),
            ({
                let rejected = old(self).length_complete() || time_done(
                    final(self).start_view(),
                    old(self).limit_view(),
                    now,
                );
                final(self).input_view() == if rejected {
                    old(self).input_view()
                } else if ch == ' ' {
                    old(self).input_view() + fill_from(
                        old(self).target_view(),
                        old(self).input_view().len() as int,
                    )
                } else {
                    old(self).input_view().push(ch)
                }
            }),
            old(self).end_view() is Some ==> final(self).end_view() == old(self).end_view(),
            old(self).end_view() is None ==> final(self).end_view() == if final(self).complete_at(now) {
                Some(final(self).completion_instant(now))
            } else {
                None::<u64>
            },
    {
        if self.start_time.is_none() {
            self.start_time = Some(now);
        }
        if self.is_done(now) || self.input.len() >= self.target.len() {
            if self.end_time.is_none() {
                let at = self.completion_time(now);
                self.end_time = Some(at);
            }
            return;
        }
        if ch == ' ' {
            skip_word(&self.target, &mut self.input);
        } else {
            self.input.push(ch);
        }
        if self.end_time.is_none() && self.is_done(now) {
            let at = self.completion_time(now);
            self.end_time = Some(at);
        }
    }

    /// Removes the last character of the input, if any; the timing is kept.
    pub fn handle_backspace(&mut self)
        requires
            old(self).wf(),
        ensures
            final(self).wf(),
            final(self).input_view() == if old(self).input_view().len() > 0 {
                old(self).input_view().drop_last()
            } else {
                old(self).input_view()
            },
            final(self).target_view() == old(self).target_view(),
            final(self).start_view() == old(self).start_view(),
            final(self).end_view() == old(self).end_view(),
            final(self).limit_view() == old(self).limit_view(),
            final(self).word_count_view() == old(self).word_count_view(),
            final(self).source_view() == old(self).source_view(),
            final(self).scheme_view() == old(self).scheme_view(),
            final(self).cursor_style_view() == old(self).cursor_style_view(),
            final(self).popup_view() == old(self).popup_view(),
    {
        if self.input.len() > 0 {
            self.input.pop();
        }
    }

    /// Deletes the word before the cursor: first the trailing spaces, then the
    /// trailing non-space characters. The timing is kept.
    pub fn handle_ctrl_backspace(&mut self)
        requires
            old(self).wf(),
        ensures
            final(self).wf(),
            final(self).input_view() == delete_word(old(self).input_view()),
            final(self).target_view() == old(self).target_view(),
            final(self).start_view() == old(self).start_view(),
            final(self).end_view() == old(self).end_view(),
            final(self).limit_view() == old(self).limit_view(),
            final(self).word_count_view() == old(self).word_count_view(),
            final(self).source_view() == old(self).source_view(),
            final(self).scheme_view() == old(self).scheme_view(),
            final(self).cursor_style_view() == old(self).cursor_style_view(),
            final(self).popup_view() == old(self).popup_view(),
    {
        delete_last_word(&mut self.input);
    }

    /// The passage to type.
    pub fn target(&self) -> (r: String)
        ensures
            r@ == self.target_view(),
    {
        string_of(&self.target)
    }

    /// What has been typed so far, fillers included.
    pub fn input(&self) -> (r: String)
        ensures
            r@ == self.input_view(),
    {
        string_of(&self.input)
    }

    /// Milliseconds of typing: none before the first keystroke; up to the end
    /// once the session has ended, else up to `now` (zero if `now` is earlier
    /// than the start).
    pub fn elapsed_ms(&self, now: u64) -> (r: Option<u64>)
        requires
            self.wf(),
        ensures
            r == match (self.start_view(), self.end_view()) {
                (None, _) => None::<u64>,
                (Some(s), Some(e)) => Some(if e >= s { (e - s) as u64 } else { 0u64 }),
                (Some(s), None) => Some(if now >= s { (now - s) as u64 } else { 0u64 }),
            },
    {
        match (self.start_time, self.end_time) {
            (None, _) => None,
            (Some(s), Some(e)) => Some(if e >= s { e - s } else { 0 }),
            (Some(s), None) => Some(if now >= s { now - s } else { 0 }),
        }
    }

    /// The number of input characters, fillers included: what speed is measured on.
    pub fn input_len(&self) -> (r: usize)
        ensures
            r == self.input_view().len(),
    {
        self.input.len()
    }

    /// Accuracy as `(correct, typed)`: `typed` counts the input characters that
    /// are not fillers, `correct` those of them that match the passage.
    pub fn accuracy_counts(&self) -> (r: (usize, usize))
        ensures
            r.0 == correct_count(self.input_view(), self.target_view()),
            r.1 == typed_count(self.input_view()),
    {
        let mut correct: usize = 0;
        let mut typed: usize = 0;
        let mut i: usize = 0;
        while i < self.input.len()
            invariant
                i <= self.input@.len(),
                correct <= typed <= i,
                correct == correct_count(self.input@.subrange(0, i as int), self.target@),
                typed == typed_count(self.input@.subrange(0, i as int)),
            decreases self.input@.len() - i,
        {
            let ghost prev = self.input@.subrange(0, i as int);
            let ghost next = self.input@.subrange(0, i + 1);
            assert(next.drop_last() =~= prev);
            let ch = self.input[i];
            if ch != FILLER {
                typed = typed + 1;
                if i < self.target.len() && ch == self.target[i] {
                    correct = correct + 1;
                }
            }
            i = i + 1;
        }
        assert(self.input@.subrange(0, i as int) =~= self.input@);
        (correct, typed)
    }

    /// Each position of the passage with the character shown there and its mark.
    pub fn marks(&self) -> (r: Vec<(char, CharMark)>)
        requires
            self.wf(),
        ensures
            r@.len() == self.target_view().len(),
            forall|i: int|
                0 <= i < r@.len() ==> #[trigger] r@[i] == mark_at(
                    self.target_view(),
                    self.input_view(),
                    i,
                ),
    {
        let mut r: Vec<(char, CharMark)> = Vec::new();
        let mut i: usize = 0;
        while i < self.target.len()
            invariant
                i <= self.target@.len(),
                self.input@.len() <= self.target@.len(),
                r@.len() == i,
                forall|k: int| 0 <= k < i ==> #[trigger] r@[k] == mark_at(self.target@, self.input@, k),
            decreases self.target@.len() - i,
        {
            let t = self.target[i];
            let mark = if i < self.input.len() {
                let c = self.input[i];
                if c == FILLER {
                    (t, CharMark::Skipped)
                } else if c == t {
                    (c, CharMark::Correct)
                } else {
                    (c, CharMark::Wrong)
                }
            } else if i == self.input.len() {
                (t, CharMark::Cursor)
            } else {
                (t, CharMark::Pending)
            };
            r.push(mark);
            i = i + 1;
        }
        r
    }

    /// Closes an open selector; opens a closed one on the word-list section.
    pub fn toggle_popup(&mut self)
        requires
            old(self).wf(),
        ensures
            final(self).wf(),
            final(self).popup_view().open_view() == !old(self).popup_view().open_view(),
            final(self).popup_view().section_view() == if old(self).popup_view().open_view() {
                old(self).popup_view().section_view()
            } else {
                Section::WordList
            },
            !old(self).popup_view().open_view() && old(self).popup_view().section_view()
                != Section::WordList ==> final(self).popup_view().filter_view().len() == 0,
            old(self).popup_view().open_view() || old(self).popup_view().section_view()
                == Section::WordList ==> final(self).popup_view().filter_view() == old(
                self,
            ).popup_view().filter_view(),
            final(self).popup_view().same_choices(&old(self).popup_view()),
            final(self).popup_view().same_selection(&old(self).popup_view()),
            final(self).target_view() == old(self).target_view(),
            final(self).input_view() == old(self).input_view(),
            final(self).start_view() == old(self).start_view(),
            final(self).end_view() == old(self).end_view(),
            final(self).limit_view() == old(self).limit_view(),
            final(self).word_count_view() == old(self).word_count_view(),
            final(self).source_view() == old(self).source_view(),
            final(self).scheme_view() == old(self).scheme_view(),
            final(self).cursor_style_view() == old(self).cursor_style_view(),
    {
        self.popup_manager.toggle();
    }

    /// Hands `key` to the selector. A closed selector passes the key on. An
    /// open one takes it: a chosen theme or cursor style is applied here, a
    /// chosen word list is returned for the caller to load.
    pub fn handle_popup_key(&mut self, key: Key) -> (r: PopupStep)
        requires
            old(self).wf(),
        ensures
            final(self).wf(),
            final(self).target_view() == old(self).target_view(),
            final(self).input_view() == old(self).input_view(),
            final(self).start_view() == old(self).start_view(),
            final(self).end_view() == old(self).end_view(),
            final(self).limit_view() == old(self).limit_view(),
            final(self).word_count_view() == old(self).word_count_view(),
            final(self).source_view() == old(self).source_view(),
            final(self).popup_view().same_choices(&old(self).popup_view()),
            !old(self).popup_view().open_view() ==> {
                &&& r == PopupStep::PassThrough
                &&& final(self).popup_view() == old(self).popup_view()
                &&& final(self).scheme_view() == old(self).scheme_view()
                &&& final(self).cursor_style_view() == old(self).cursor_style_view()
            },
            old(self).popup_view().open_view() ==> exists|a: PopupAction|
                {
                    &&& #[trigger] old(self).popup_view().key_outcome(key, a, final(self).popup_view())
                    &&& final(self).scheme_view() == match a {
                        PopupAction::SelectColorScheme(i) => i,
                        _ => old(self).scheme_view(),
                    }
                    &&& final(self).cursor_style_view() == match a {
                        PopupAction::SelectCursorStyle(i) => i,
                        _ => old(self).cursor_style_view(),
                    }
                    &&& r == match a {
                        PopupAction::SelectWordList(name) => PopupStep::LoadWordList(name),
                        _ => PopupStep::Consumed,
                    }
                },
    {
        if !self.popup_manager.is_open() {
            return PopupStep::PassThrough;
        }
        let action = self.popup_manager.handle_key(key);
        let ghost chosen = action;
        let step = match action {
            PopupAction::SelectWordList(name) => PopupStep::LoadWordList(name),
            PopupAction::SelectColorScheme(i) => {
                self.scheme_index = i;
                PopupStep::Consumed
            },
            PopupAction::SelectCursorStyle(i) => {
                self.cursor_style_index = i;
                PopupStep::Consumed
            },
            PopupAction::Close | PopupAction::Nothing => PopupStep::Consumed,
        };
        proof {
            assert(old(self).popup_view().key_outcome(key, chosen, self.popup_view()));
        }
        step

    }

    /// Makes `loaded` (or the built-in words, when nothing could be loaded) the
    /// source of passages and starts afresh on a passage of the same number of
    /// words drawn from it.
    pub fn use_word_list(&mut self, loaded: Option<Vec<String>>)
        requires
            old(self).wf(),
        ensures
            final(self).wf(),
            final(self).is_fresh(),
            final(self).source_view() == source_views(loaded),
            drawn_from(final(self).target_view(), source_views(loaded), old(self).word_count_view() as int),
            final(self).word_count_view() == old(self).word_count_view(),
            final(self).limit_view() == old(self).limit_view(),
            final(self).scheme_view() == old(self).scheme_view(),
            final(self).cursor_style_view() == old(self).cursor_style_view(),
            final(self).popup_view() == old(self).popup_view(),
    {
        self.source = match loaded {
            Some(words) => words,
            None => default_words(),
        };
        self.restart();
    }

    /// Moves to the next color theme, cyclically.
    pub fn cycle_color_scheme(&mut self)
        requires
            old(self).wf(),
        ensures
            final(self).wf(),
            final(self).scheme_view() == (old(self).scheme_view() + 1) % 4,
            final(self).cursor_style_view() == old(self).cursor_style_view(),
            final(self).popup_view() == old(self).popup_view(),
            final(self).target_view() == old(self).target_view(),
            final(self).input_view() == old(self).input_view(),
            final(self).start_view() == old(self).start_view(),
            final(self).end_view() == old(self).end_view(),
    {
        self.scheme_index = (self.scheme_index % 4 + 1) % 4;
    }

    /// Moves to the next cursor style, cyclically.
    pub fn cycle_cursor_style(&mut self)
        requires
            old(self).wf(),
        ensures
            final(self).wf(),
            final(self).cursor_style_view() == (old(self).cursor_style_view() + 1) % 3,
            final(self).scheme_view() == old(self).scheme_view(),
            final(self).popup_view() == old(self).popup_view(),
            final(self).target_view() == old(self).target_view(),
            final(self).input_view() == old(self).input_view(),
            final(self).start_view() == old(self).start_view(),
            final(self).end_view() == old(self).end_view(),
    {
        self.cursor_style_index = (self.cursor_style_index % 3 + 1) % 3;
    }
}

} // verus!
