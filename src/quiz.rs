use vstd::prelude::*;
use rand::Rng;
use crate::kana::{
    glyphs, lemma_lookup_total, lemma_pool_empty, lemma_pool_member, lemma_pool_single, lemma_category_sizes, pool, reading_of,
    same_text, Category, KanaTable, CATEGORY_COUNT,
};
use crate::selection::{default_selection, CategorySelection};

verus! {

/// What the session shows about the last guess.
pub enum Outcome {
    Correct,
    /// The guess was wrong; the message pairs the glyph with its reading (`か = ka`).
    Incorrect(String),
    NoGuess,
    /// No category is enabled, so no new glyph could be drawn.
    AwaitingSelection,
}

pub enum OutcomeView {
    Correct,
    Incorrect(Seq<char>),
    NoGuess,
    AwaitingSelection,
}

impl View for Outcome {
    type V = OutcomeView;

    open spec fn view(&self) -> OutcomeView {
        match self {
            Outcome::Correct => OutcomeView::Correct,
            Outcome::Incorrect(m) => OutcomeView::Incorrect(m@),
            Outcome::NoGuess => OutcomeView::NoGuess,
            Outcome::AwaitingSelection => OutcomeView::AwaitingSelection,
        }
    }
}

impl Outcome {
    pub fn duplicate(&self) -> (r: Outcome)
        ensures
            r@ == self@,
    {
        match self {
            Outcome::Correct => Outcome::Correct,
            Outcome::Incorrect(m) => Outcome::Incorrect(m.clone()),
            Outcome::NoGuess => Outcome::NoGuess,
            Outcome::AwaitingSelection => Outcome::AwaitingSelection,
        }
    }

    pub fn is_correct(&self) -> (r: bool)
        ensures
            r == (self@ is Correct),
    {
        match self {
            Outcome::Correct => true,
            _ => false,
        }
    }
}

#[derive(Clone, Copy, PartialEq, Eq, Structural, Debug)]
pub enum QuizError {
    /// Every category is disabled, so there is no glyph to draw.
    EmptySelection,
}

/// The message shown after a wrong guess: the glyph, " = ", and its reading.
pub open spec fn expected_message(glyph: Seq<char>) -> Seq<char> {
    match reading_of(glyph) {
        Some(rd) => glyph + " = "@ + rd@,
        None => glyph + " = "@,
    }
}

/// The judgement of a guess, already lower-cased, on `glyph`.
pub open spec fn verdict(glyph: Seq<char>, lowered: Seq<char>) -> OutcomeView {
    match reading_of(glyph) {
        Some(rd) => if rd@ == lowered {
            OutcomeView::Correct
        } else {
            OutcomeView::Incorrect(expected_message(glyph))
        },
        None => OutcomeView::Incorrect(expected_message(glyph)),
    }
}

/// The lower-case form of a text, as std's `to_lowercase` gives it.
pub uninterp spec fn lower_of(s: Seq<char>) -> Seq<char>;

/// Relies on str::to_lowercase: the result depends on the characters alone.
#[verifier::external_body]
fn lowercase(s: &str) -> (r: String)
    ensures
        r@ == lower_of(s@),
{
    s.to_lowercase()
}

/// Relies on rand's thread_rng and Rng::gen_range(0..n): a value in 0..n, for n > 0
/// (gen_range panics on an empty range).
#[verifier::external_body]
fn random_below(n: usize) -> (r: usize)
    requires
        n > 0,
    ensures
        r < n,
{
    rand::thread_rng().gen_range(0..n)
}

/// Judges a guess that has already been lower-cased against the reading of `glyph`.
pub fn judge(table: &KanaTable, glyph: &str, lowered: &str) -> (r: Outcome)
    ensures
        r@ == verdict(glyph@, lowered@),
{
    match table.lookup(glyph) {
        Some(rd) => {
            if same_text(rd, lowered) {
                Outcome::Correct
            } else {
                Outcome::Incorrect(String::from_str(glyph).concat(" = ").concat(rd))
            }
        },
        None => Outcome::Incorrect(String::from_str(glyph).concat(" = ")),
    }
}

/// A glyph is drawn from a selection when it is one of the selection's candidates.
pub open spec fn drawn_from(sel: Seq<bool>, g: Seq<char>) -> bool {
    exists|i: int| 0 <= i < pool(sel).len() && #[trigger] pool(sel)[i]@ == g
}

/// A glyph belongs to an enabled category of the selection.
pub open spec fn in_enabled_category(sel: Seq<bool>, g: Seq<char>) -> bool {
    exists|c: Category, j: int|
        sel[c.position()] && 0 <= j < glyphs(c).len() && #[trigger] glyphs(c)[j]@ == g
}

pub struct SessionView {
    pub glyph: Seq<char>,
    pub input: Seq<char>,
    pub correct: nat,
    pub incorrect: nat,
    pub outcome: OutcomeView,
    pub selection: Seq<bool>,
}

/// The state after a guess judged `o`: one counter up by one, the input cleared, and a new
/// glyph drawn; with nothing to draw from, the glyph stays and the session awaits a selection.
pub open spec fn after_guess(before: SessionView, after: SessionView, o: OutcomeView) -> bool {
    &&& o is Correct ==> after.correct == before.correct + 1 && after.incorrect
        == before.incorrect
    &&& !(o is Correct) ==> after.incorrect == before.incorrect + 1 && after.correct
        == before.correct
    &&& after.input == Seq::<char>::empty()
    &&& after.selection == before.selection
    &&& if pool(before.selection).len() == 0 {
        after.glyph == before.glyph && after.outcome == OutcomeView::AwaitingSelection
    } else {
        after.outcome == o && drawn_from(before.selection, after.glyph)
    }
}

/// One quiz: the glyph on show, the typed input, the score, the last outcome and the
/// categories to draw from.
pub struct QuizSession {
    table: KanaTable,
    current_glyph: &'static str,
    input_buffer: String,
    correct_count: u32,
    incorrect_count: u32,
    last_outcome: Outcome,
    selection: CategorySelection,
}

impl View for QuizSession {
    type V = SessionView;

    closed spec fn view(&self) -> SessionView {
        SessionView {
            glyph: self.current_glyph@,
            input: self.input_buffer@,
            correct: self.correct_count as nat,
            incorrect: self.incorrect_count as nat,
            outcome: self.last_outcome@,
            selection: self.selection@,
        }
    }
}

proof fn lemma_drawn_glyph(sel: Seq<bool>, i: int)
    requires
        0 <= i < pool(sel).len(),
    ensures
        drawn_from(sel, pool(sel)[i]@),
        in_enabled_category(sel, pool(sel)[i]@),
        reading_of(pool(sel)[i]@) is Some,
{
    lemma_pool_member(sel, i);
    let (c, j) = choose|c: Category, j: int|
        sel[c.position()] && 0 <= j < glyphs(c).len() && #[trigger] glyphs(c)[j] == pool(sel)[i];
    lemma_lookup_total(c, j);
}

/// A glyph drawn from a selection belongs to one of its enabled categories.
pub proof fn lemma_drawn_enabled(sel: Seq<bool>, g: Seq<char>)
    requires
        drawn_from(sel, g),
    ensures
        in_enabled_category(sel, g),
{
    let i = choose|i: int| 0 <= i < pool(sel).len() && #[trigger] pool(sel)[i]@ == g;
    lemma_drawn_glyph(sel, i);
}

/// Each guess moves exactly one of the two counters, by exactly one.
pub proof fn lemma_one_counter_moves(before: SessionView, after: SessionView, o: OutcomeView)
    requires
        after_guess(before, after, o),
    ensures
        after.correct + after.incorrect == before.correct + before.incorrect + 1,
        (after.correct == before.correct + 1) != (after.incorrect == before.incorrect + 1),
{
}

impl QuizSession {
    /// The glyph on show has a reading, and there are ten category flags.
    pub open spec fn wf(&self) -> bool {
        &&& reading_of(self@.glyph) is Some
        &&& self@.selection.len() == CATEGORY_COUNT
        &&& self@.correct <= u32::MAX
        &&& self@.incorrect <= u32::MAX
    }

    /// Shows `candidates[draw % len]`, or records that there is nothing to draw from.
    fn settle(&mut self, candidates: Vec<&'static str>, draw: usize) -> (r: Result<(), QuizError>)
        requires
            old(self).wf(),
            candidates@ == pool(old(self)@.selection),
        ensures
            final(self).wf(),
            r is Err <==> candidates@.len() == 0,
            r is Err ==> r == Err::<(), QuizError>(QuizError::EmptySelection),
            r is Ok ==> final(self)@ == (SessionView {
                glyph: candidates@[(draw as int) % (candidates@.len() as int)]@,
                ..old(self)@
            }),
            r is Err ==> final(self)@ == (SessionView {
                outcome: OutcomeView::AwaitingSelection,
                ..old(self)@
            }),
    {
        if candidates.len() == 0 {
            self.last_outcome = Outcome::AwaitingSelection;
            return Err(QuizError::EmptySelection);
        }
        let k = draw % candidates.len();
        proof {
            lemma_drawn_glyph(self@.selection, k as int);
        }
        self.current_glyph = candidates[k];
        Ok(())
    }

    /// Draws a new glyph using `draw`: the candidate at `draw` modulo the number of candidates.
    /// With every category disabled it fails, keeps the glyph and awaits a selection.
    pub fn advance_with(&mut self, draw: usize) -> (r: Result<(), QuizError>)
        requires
            old(self).wf(),
        ensures
            final(self).wf(),
            r is Err <==> forall|k: int| 0 <= k < CATEGORY_COUNT ==> !old(self)@.selection[k],
            r is Err <==> pool(old(self)@.selection).len() == 0,
            r is Err ==> r == Err::<(), QuizError>(QuizError::EmptySelection),
            r is Ok ==> final(self)@ == (SessionView {
                glyph: pool(old(self)@.selection)[(draw as int) % (pool(old(self)@.selection).len() as int)]@,
                ..old(self)@
            }),
            r is Ok ==> in_enabled_category(old(self)@.selection, final(self)@.glyph),
            r is Err ==> final(self)@ == (SessionView {
                outcome: OutcomeView::AwaitingSelection,
                ..old(self)@
            }),
    {
        proof {
            lemma_pool_empty(self@.selection);
        }
        let candidates = self.table.glyphs_for(&self.selection);
        let ghost n: int = candidates@.len() as int;
        let r = self.settle(candidates, draw);
        proof {
            if n > 0 {
                lemma_drawn_glyph(old(self)@.selection, (draw as int) % (n as int));
            }
        }
        r
    }

    /// Draws a new glyph uniformly from the enabled categories. With every category
    /// disabled it fails, keeps the glyph and awaits a selection.
    pub fn advance(&mut self) -> (r: Result<(), QuizError>)
        requires
            old(self).wf(),
        ensures
            final(self).wf(),
            r is Err <==> forall|k: int| 0 <= k < CATEGORY_COUNT ==> !old(self)@.selection[k],
            r is Err ==> r == Err::<(), QuizError>(QuizError::EmptySelection),
            r is Ok ==> final(self)@ == (SessionView { glyph: final(self)@.glyph, ..old(self)@ }),
            r is Ok ==> drawn_from(old(self)@.selection, final(self)@.glyph),
            r is Ok ==> in_enabled_category(old(self)@.selection, final(self)@.glyph),
            r is Err ==> final(self)@ == (SessionView {
                outcome: OutcomeView::AwaitingSelection,
                ..old(self)@
            }),
    {
        proof {
            lemma_pool_empty(self@.selection);
        }
        let candidates = self.table.glyphs_for(&self.selection);
        let draw = if candidates.len() == 0 {
            0
        } else {
            random_below(candidates.len())
        };
        let ghost n: int = candidates@.len() as int;
        let r = self.settle(candidates, draw);
        proof {
            if n > 0 {
                lemma_drawn_glyph(old(self)@.selection, (draw as int) % (n as int));
            }
        }
        r
    }
}

/// A message from the page: typed text, a guess, a category toggle, or nothing to act on.
pub enum Msg {
    Input(String),
    Guess,
    Toggle(usize),
    Ignore,
}

impl QuizSession {
    /// A new quiz: no score, no input, only the first category enabled, and a glyph drawn
    /// from it.
    pub fn new() -> (r: QuizSession)
        ensures
            r.wf(),
            r@.correct == 0,
            r@.incorrect == 0,
            r@.input == Seq::<char>::empty(),
            r@.outcome == OutcomeView::NoGuess,
            r@.selection == default_selection(),
            drawn_from(default_selection(), r@.glyph),
            exists|j: int|
                0 <= j < glyphs(Category::HiraganaBase).len() && #[trigger] glyphs(
                    Category::HiraganaBase,
                )[j]@ == r@.glyph,
    {
        let table = KanaTable::new();
        let selection = CategorySelection::new();
        let candidates = table.glyphs_for(&selection);
        proof {
            Category::HiraganaBase.lemma_at_position();
            lemma_pool_single(default_selection(), Category::HiraganaBase);
            lemma_category_sizes();
        }
        let k = random_below(candidates.len());
        proof {
            lemma_drawn_glyph(selection@, k as int);
        }
        QuizSession {
            table,
            current_glyph: candidates[k],
            input_buffer: String::new(),
            correct_count: 0,
            incorrect_count: 0,
            last_outcome: Outcome::NoGuess,
            selection,
        }
    }

    /// Flips the category at `index`; nothing is drawn until the next guess.
    pub fn toggle_category(&mut self, index: usize)
        requires
            old(self).wf(),
            index < CATEGORY_COUNT,
        ensures
            final(self).wf(),
            final(self)@ == (SessionView {
                selection: old(self)@.selection.update(
                    index as int,
                    !old(self)@.selection[index as int],
                ),
                ..old(self)@
            }),
    {
        self.selection.toggle(index);
    }

    /// Replaces the typed input with `text`, as it is.
    pub fn update_input(&mut self, text: String)
        requires
            old(self).wf(),
        ensures
            final(self).wf(),
            final(self)@ == (SessionView { input: text@, ..old(self)@ }),
    {
        self.input_buffer = text;
    }

    /// Judges a lower-cased guess on the glyph on show, counts it and clears the input.
    fn record(&mut self, lowered: &str) -> (r: Outcome)
        requires
            old(self).wf(),
            old(self)@.correct < u32::MAX,
            old(self)@.incorrect < u32::MAX,
        ensures
            final(self).wf(),
            r@ == verdict(old(self)@.glyph, lowered@),
            r@ is Correct ==> final(self)@ == (SessionView {
                correct: old(self)@.correct + 1,
                input: Seq::<char>::empty(),
                outcome: r@,
                ..old(self)@
            }),
            !(r@ is Correct) ==> final(self)@ == (SessionView {
                incorrect: old(self)@.incorrect + 1,
                input: Seq::<char>::empty(),
                outcome: r@,
                ..old(self)@
            }),
    {
        let o = judge(&self.table, self.current_glyph, lowered);
        if o.is_correct() {
            self.correct_count = self.correct_count + 1;
        } else {
            self.incorrect_count = self.incorrect_count + 1;
        }
        self.last_outcome = o.duplicate();
        self.input_buffer = String::new();
        o
    }

    /// Judges `text`, compared case-insensitively and untrimmed with the reading of the glyph
    /// on show; counts it, clears the input and draws the next glyph.
    pub fn submit_guess(&mut self, text: &str) -> (r: Outcome)
        requires
            old(self).wf(),
            old(self)@.correct < u32::MAX,
            old(self)@.incorrect < u32::MAX,
        ensures
            final(self).wf(),
            r@ == verdict(old(self)@.glyph, lower_of(text@)),
            after_guess(old(self)@, final(self)@, r@),
    {
        let lowered = lowercase(text);
        let o = self.record(lowered.as_str());
        let _ = self.advance();
        proof {
            lemma_pool_empty(old(self)@.selection);
        }
        o
    }

    /// Applies one message from the page; the result says whether the page must be redrawn.
    pub fn update(&mut self, msg: Msg) -> (r: bool)
        requires
            old(self).wf(),
            msg is Guess ==> old(self)@.correct < u32::MAX && old(self)@.incorrect < u32::MAX,
            msg matches Msg::Toggle(i) ==> i < CATEGORY_COUNT,
        ensures
            final(self).wf(),
            r == !(msg is Ignore),
            match msg {
                Msg::Input(s) => final(self)@ == (SessionView { input: s@, ..old(self)@ }),
                Msg::Guess => after_guess(
                    old(self)@,
                    final(self)@,
                    verdict(old(self)@.glyph, lower_of(old(self)@.input)),
                ),
                Msg::Toggle(i) => final(self)@ == (SessionView {
                    selection: old(self)@.selection.update(
                        i as int,
                        !old(self)@.selection[i as int],
                    ),
                    ..old(self)@
                }),
                Msg::Ignore => final(self)@ == old(self)@,
            },
    {
        match msg {
            Msg::Input(s) => {
                self.update_input(s);
                true
            },
            Msg::Guess => {
                let text = self.input_buffer.clone();
                let _ = self.submit_guess(text.as_str());
                true
            },
            Msg::Toggle(i) => {
                self.toggle_category(i);
                true
            },
            Msg::Ignore => false,
        }
    }

    pub fn current_glyph(&self) -> (r: &str)
        ensures
            r@ == self@.glyph,
    {
        self.current_glyph
    }

    pub fn input(&self) -> (r: &str)
        ensures
            r@ == self@.input,
    {
        self.input_buffer.as_str()
    }

    pub fn correct_count(&self) -> (r: u32)
        ensures
            r == self@.correct,
    {
        self.correct_count
    }

    pub fn incorrect_count(&self) -> (r: u32)
        ensures
            r == self@.incorrect,
    {
        self.incorrect_count
    }

    pub fn last_outcome(&self) -> (r: &Outcome)
        ensures
            r@ == self@.outcome,
    {
        &self.last_outcome
    }

    pub fn selection(&self) -> (r: &CategorySelection)
        ensures
            r@ == self@.selection,
    {
        &self.selection
    }
}

} // verus!
