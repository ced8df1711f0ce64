use crate::sampler::{draw_seeded, drawn_by_picks, effective_size_spec, is_draw};
use crate::store::EntryStore;
use vstd::prelude::*;

verus! {

/// What the session shows for the current card.
#[derive(Clone, Copy, Debug, PartialEq, Eq, Structural)]
pub enum Mode {
    /// The prompt is shown, the response is hidden.
    Question,
    /// The prompt and the response are shown.
    Answer,
    /// Every card has been studied.
    Done,
}

/// There is no current card: the deck is empty or the cursor is past its end.
#[derive(Clone, Copy, Debug, PartialEq, Eq, Structural)]
pub struct OutOfRangeError;

/// One user command.
#[derive(Clone, Copy, Debug, PartialEq, Eq, Structural)]
pub enum Command {
    /// Reveal the response, or move on to the next card.
    Advance,
    /// Requeue the current card, then advance.
    StudyAgain,
    /// Stop, keeping the state for a later resume.
    Quit,
}

/// What the driving loop does after a command.
#[derive(Clone, Copy, Debug, PartialEq, Eq, Structural)]
pub enum Outcome {
    /// Show the session and wait for the next command.
    Continue,
    /// Save the session and stop.
    Suspend,
    /// Every card has been studied: stop.
    Finished,
}

/// The command a key stands for: `q` quits, `r` studies the card again, and
/// every other key advances.
pub open spec fn command_of_key_spec(key: u8) -> Command {
    if key == 0x71 {
        Command::Quit
    } else if key == 0x72 {
        Command::StudyAgain
    } else {
        Command::Advance
    }
}

/// The command a key stands for: `q` quits, `r` studies the card again, and
/// every other key advances.
pub fn command_of_key(key: u8) -> (r: Command)
    ensures
        r == command_of_key_spec(key),
{
    if key == 0x71 {
        Command::Quit
    } else if key == 0x72 {
        Command::StudyAgain
    } else {
        Command::Advance
    }
}

/// The abstract state of a session.
pub struct SessionView {
    pub store: Seq<(Seq<char>, Seq<char>)>,
    pub deck: Seq<usize>,
    pub target_idx: nat,
    pub target_count: nat,
    pub mode: Mode,
}

/// Whether a state is consistent: every card names a pair of the store, the
/// cursor is at most one past the deck's end, and a cursor past the last card
/// means the session is done.
pub open spec fn state_ok(
    store_size: nat,
    deck: Seq<usize>,
    target_idx: nat,
    mode: Mode,
) -> bool {
    &&& forall|k: int| 0 <= k < deck.len() ==> (#[trigger] deck[k]) < store_size
    &&& target_idx <= deck.len()
    &&& target_idx >= deck.len() ==> mode == Mode::Done
}

/// The state after one "advance" command: `Question` turns to `Answer` at
/// the same card; `Answer` moves the cursor on and turns to `Question`, or to
/// `Done` past the last card; `Done` stays.
pub open spec fn advance_spec(v: SessionView) -> SessionView {
    match v.mode {
        Mode::Question => SessionView { mode: Mode::Answer, ..v },
        Mode::Answer => SessionView {
            target_idx: v.target_idx + 1,
            mode: if v.target_idx + 1 >= v.deck.len() {
                Mode::Done
            } else {
                Mode::Question
            },
            ..v
        },
        Mode::Done => v,
    }
}

/// The state after one requeue: in `Answer` mode the current
/// card goes to the deck's tail and the count of cards grows by one; in any
/// other mode nothing changes.
pub open spec fn requeue_spec(v: SessionView) -> SessionView {
    if v.mode == Mode::Answer {
        SessionView {
            deck: v.deck.push(v.deck[v.target_idx as int]),
            target_count: v.target_count + 1,
            ..v
        }
    } else {
        v
    }
}

/// The completion percentage, rounded down; zero when there are no cards.
pub open spec fn progress_spec(target_idx: nat, target_count: nat) -> nat {
    if target_count == 0 {
        0
    } else {
        (100 * (target_idx + 1) / target_count) as nat
    }
}

/// A study session: the store, the deck of positions in it, the cursor into
/// the deck, the number of cards to study, and the presentation mode.
pub struct Session {
    store: EntryStore,
    deck: Vec<usize>,
    target_idx: usize,
    target_count: usize,
    mode: Mode,
}

impl View for Session {
    type V = SessionView;

    closed spec fn view(&self) -> SessionView {
        SessionView {
            store: self.store@,
            deck: self.deck@,
            target_idx: self.target_idx as nat,
            target_count: self.target_count as nat,
            mode: self.mode,
        }
    }
}

impl Session {
    /// The session's state is consistent.
    pub open spec fn wf(&self) -> bool {
        state_ok(self@.store.len(), self@.deck, self@.target_idx, self@.mode)
    }

    /// Assembles a session from its parts, which must be consistent.
    pub(crate) fn from_checked_parts(
        store: EntryStore,
        deck: Vec<usize>,
        target_idx: usize,
        target_count: usize,
        mode: Mode,
    ) -> (r: Session)
        requires
            state_ok(store@.len(), deck@, target_idx as nat, mode),
        ensures
            r.wf(),
            r@ == (SessionView {
                store: store@,
                deck: deck@,
                target_idx: target_idx as nat,
                target_count: target_count as nat,
                mode,
            }),
    {
        Session { store, deck, target_idx, target_count, mode }
    }

    /// Starts a session over `store` with a given deck: the cursor at the
    /// first card, as many cards to study as the deck holds, and `Question`
    /// mode, or `Done` when the deck is empty.
    pub fn with_deck(store: EntryStore, deck: Vec<usize>) -> (r: Result<Session, OutOfRangeError>)
        ensures
            r is Ok <==> (forall|k: int| 0 <= k < deck@.len() ==> (#[trigger] deck@[k]) < store@.len()),
            r is Ok ==> r->Ok_0.wf() && r->Ok_0@ == (SessionView {
                store: store@,
                deck: deck@,
                target_idx: 0,
                target_count: deck@.len(),
                mode: if deck@.len() == 0 { Mode::Done } else { Mode::Question },
            }),
    {
        let n = store.size();
        let mut k: usize = 0;
        while k < deck.len()
            invariant
                n == store@.len(),
                k <= deck@.len(),
                forall|j: int| 0 <= j < k ==> (#[trigger] deck@[j]) < n,
            decreases deck@.len() - k,
        {
            if deck[k] >= n {
                return Err(OutOfRangeError);
            }
            k = k + 1;
        }
        let count = deck.len();
        let mode = if count == 0 { Mode::Done } else { Mode::Question };
        Ok(Session { store, deck, target_idx: 0, target_count: count, mode })
    }

    /// Starts a fresh session: draws a deck of the effective size from
    /// `store` with a generator seeded by `seed`.
    pub fn start(store: EntryStore, requested: i32, seed: u64) -> (r: Session)
        ensures
            r.wf(),
            r@.store == store@,
            is_draw(r@.deck, store@.len(), effective_size_spec(store@.len(), requested as int)),
            drawn_by_picks(r@.deck, store@.len(), effective_size_spec(store@.len(), requested as int)),
            r@.target_idx == 0,
            r@.target_count == r@.deck.len(),
            r@.mode == (if r@.deck.len() == 0 { Mode::Done } else { Mode::Question }),
    {
        let deck = draw_seeded(store.size(), requested, seed);
        let count = deck.len();
        let mode = if count == 0 { Mode::Done } else { Mode::Question };
        Session { store, deck, target_idx: 0, target_count: count, mode }
    }

    /// Carries out one "advance" command: `Question` reveals the response,
    /// `Answer` moves to the next card (or to `Done` past the last one), and
    /// `Done` stays as it is.
    pub fn advance(&mut self)
        requires
            old(self).wf(),
        ensures
            final(self).wf(),
            final(self)@ == advance_spec(old(self)@),
    {
        match self.mode {
            Mode::Question => {
                self.mode = Mode::Answer;
            },
            Mode::Answer => {
                let len = self.deck.len();
                assert(self.target_idx < len);
                self.target_idx = self.target_idx + 1;
                if self.target_idx >= self.deck.len() {
                    self.mode = Mode::Done;
                } else {
                    self.mode = Mode::Question;
                }
            },
            Mode::Done => {},
        }
    }

    /// Carries out one "study again" command: in `Answer` mode the current
    /// card is appended to the deck and one more card is to be studied; in
    /// any other mode nothing changes.
    pub fn requeue_current(&mut self)
        requires
            old(self).wf(),
            old(self)@.mode == Mode::Answer ==> old(self)@.target_count < usize::MAX,
        ensures
            final(self).wf(),
            final(self)@ == requeue_spec(old(self)@),
            old(self)@.mode == Mode::Answer ==> {
                &&& final(self)@.deck == old(self)@.deck.push(
                    old(self)@.deck[old(self)@.target_idx as int],
                )
                &&& final(self)@.deck.len() == old(self)@.deck.len() + 1
                &&& final(self)@.target_count == old(self)@.target_count + 1
                &&& final(self)@.target_idx == old(self)@.target_idx
                &&& final(self)@.mode == Mode::Answer
                &&& final(self)@.store == old(self)@.store
            },
            old(self)@.mode != Mode::Answer ==> final(self)@ == old(self)@,
    {
        if self.mode == Mode::Answer {
            let card = self.deck[self.target_idx];
            self.deck.push(card);
            self.target_count = self.target_count + 1;
        }
    }

    /// Carries out one command and says what the driving loop does next:
    /// `Quit` leaves the state as it is and suspends; `Advance` advances;
    /// `StudyAgain` requeues (a no-op outside `Answer` mode) and then
    /// advances. The loop finishes once the session is done.
    pub fn apply(&mut self, c: Command) -> (r: Outcome)
        requires
            old(self).wf(),
            c == Command::StudyAgain && old(self)@.mode == Mode::Answer ==> old(self)@.target_count
                < usize::MAX,
        ensures
            final(self).wf(),
            c == Command::Quit ==> final(self)@ == old(self)@ && r == Outcome::Suspend,
            c == Command::Advance ==> final(self)@ == advance_spec(old(self)@),
            c == Command::StudyAgain ==> final(self)@ == advance_spec(requeue_spec(old(self)@)),
            c != Command::Quit ==> (r == if final(self)@.mode == Mode::Done {
                Outcome::Finished
            } else {
                Outcome::Continue
            }),
    {
        match c {
            Command::Quit => {
                return Outcome::Suspend;
            },
            Command::Advance => {},
            Command::StudyAgain => {
                self.requeue_current();
            },
        }
        self.advance();
        if self.mode == Mode::Done {
            Outcome::Finished
        } else {
            Outcome::Continue
        }
    }

    /// The presentation mode.
    pub fn mode(&self) -> (r: Mode)
        ensures
            r == self@.mode,
    {
        self.mode
    }

    /// Whether the prompt is shown with the response hidden.
    pub fn is_question_mode(&self) -> (r: bool)
        ensures
            r == (self@.mode == Mode::Question),
    {
        self.mode == Mode::Question
    }

    /// Whether the response is shown.
    pub fn is_answer_mode(&self) -> (r: bool)
        ensures
            r == (self@.mode == Mode::Answer),
    {
        self.mode == Mode::Answer
    }

    /// Whether the session is over.
    pub fn is_done_mode(&self) -> (r: bool)
        ensures
            r == (self@.mode == Mode::Done),
    {
        self.mode == Mode::Done
    }

    /// The cursor into the deck.
    pub fn target_index(&self) -> (r: usize)
        ensures
            r == self@.target_idx,
    {
        self.target_idx
    }

    /// The number of cards to study, requeued ones included.
    pub fn target_count(&self) -> (r: usize)
        ensures
            r == self@.target_count,
    {
        self.target_count
    }

    /// The deck: positions in the store, in study order.
    pub fn deck(&self) -> (r: &Vec<usize>)
        ensures
            r@ == self@.deck,
    {
        &self.deck
    }

    /// The store the deck points into.
    pub fn store(&self) -> (r: &EntryStore)
        ensures
            r@ == self@.store,
    {
        &self.store
    }

    /// The 1-based ordinal of the current card.
    pub fn current_question_number(&self) -> (r: u128)
        ensures
            r == self@.target_idx + 1,
    {
        self.target_idx as u128 + 1
    }

    /// The prompt of the current card.
    pub fn current_prompt(&self) -> (r: Result<&String, OutOfRangeError>)
        requires
            self.wf(),
        ensures
            r is Ok <==> self@.target_idx < self@.deck.len(),
            r is Ok ==> r->Ok_0@ == self@.store[self@.deck[self@.target_idx as int] as int].0,
    {
        if self.target_idx < self.deck.len() {
            Ok(self.store.prompt(self.deck[self.target_idx]))
        } else {
            Err(OutOfRangeError)
        }
    }

    /// The response of the current card.
    pub fn current_response(&self) -> (r: Result<&String, OutOfRangeError>)
        requires
            self.wf(),
        ensures
            r is Ok <==> self@.target_idx < self@.deck.len(),
            r is Ok ==> r->Ok_0@ == self@.store[self@.deck[self@.target_idx as int] as int].1,
    {
        if self.target_idx < self.deck.len() {
            Ok(self.store.response(self.deck[self.target_idx]))
        } else {
            Err(OutOfRangeError)
        }
    }

    /// The completion percentage `100 * (cursor + 1) / count`, rounded down,
    /// and zero when there are no cards to study.
    pub fn progress_percent(&self) -> (r: u128)
        ensures
            r == progress_spec(self@.target_idx, self@.target_count),
    {
        if self.target_count == 0 {
            0
        } else {
            let done = self.target_idx as u128 + 1;
            assert(100 * done <= 100 * 0x1_0000_0000_0000_0000) by (nonlinear_arith)
                requires done <= 0x1_0000_0000_0000_0000;
            (100 * done) / self.target_count as u128
        }
    }
}

/// The state after `n` "advance" commands.
pub open spec fn advance_n(v: SessionView, n: nat) -> SessionView
    decreases n,
{
    if n == 0 {
        v
    } else {
        advance_spec(advance_n(v, (n - 1) as nat))
    }
}

/// Before the session ends, each card is shown first as a question and then
/// with its answer: after `n < 2L` advances from the first card of a deck of
/// `L` cards, the cursor is at card `n / 2`, in `Question` mode for even `n`
/// and in `Answer` mode for odd `n`; after `2L` advances the session is done.
pub proof fn lemma_advance_walk(v: SessionView, n: nat)
    requires
        v.mode == Mode::Question,
        v.target_idx == 0,
        v.deck.len() > 0,
        n <= 2 * v.deck.len(),
    ensures
        advance_n(v, n).deck == v.deck,
        advance_n(v, n).target_count == v.target_count,
        n < 2 * v.deck.len() ==> advance_n(v, n).target_idx == n / 2,
        n < 2 * v.deck.len() ==> advance_n(v, n).mode == (if n % 2 == 0 {
            Mode::Question
        } else {
            Mode::Answer
        }),
        n == 2 * v.deck.len() ==> advance_n(v, n).mode == Mode::Done,
    decreases n,
{
    if n > 0 {
        lemma_advance_walk(v, (n - 1) as nat);
    }
}

/// Without requeues, a session that starts in `Question` mode at the first of
/// `L` cards ends after exactly `2L` advances: every earlier state is not
/// `Done`, and the state after `2L` advances is.
pub proof fn lemma_session_length(v: SessionView)
    requires
        v.mode == Mode::Question,
        v.target_idx == 0,
        v.deck.len() > 0,
    ensures
        advance_n(v, 2 * v.deck.len()).mode == Mode::Done,
        forall|n: nat| n < 2 * v.deck.len() ==> #[trigger] advance_n(v, n).mode != Mode::Done,
{
    lemma_advance_walk(v, 2 * v.deck.len());
    assert forall|n: nat| n < 2 * v.deck.len() implies #[trigger] advance_n(v, n).mode
        != Mode::Done by {
        lemma_advance_walk(v, n);
    }
}

/// A requeue in `Answer` mode at cursor `i` grows the deck and the count by
/// one and appends the card at `i`, leaving cursor and mode as they were; in
/// `Question` or `Done` mode it changes nothing.
pub proof fn lemma_requeue(v: SessionView)
    requires
        state_ok(v.store.len(), v.deck, v.target_idx, v.mode),
    ensures
        v.mode == Mode::Answer ==> {
            let w = requeue_spec(v);
            &&& w.deck.len() == v.deck.len() + 1
            &&& w.target_count == v.target_count + 1
            &&& w.deck.last() == v.deck[v.target_idx as int]
            &&& w.deck.take(v.deck.len() as int) == v.deck
            &&& w.target_idx == v.target_idx
            &&& w.mode == v.mode
            &&& w.store == v.store
        },
        v.mode != Mode::Answer ==> requeue_spec(v) == v,
{
    if v.mode == Mode::Answer {
        assert(requeue_spec(v).deck.take(v.deck.len() as int) =~= v.deck);
    }
}

/// With no cards to study the percentage is zero, and at the last of
/// `count` cards it is one hundred.
pub proof fn lemma_progress_bounds(target_idx: nat, target_count: nat)
    ensures
        progress_spec(target_idx, 0) == 0,
        target_count > 0 ==> progress_spec((target_count - 1) as nat, target_count) == 100,
{
    if target_count > 0 {
        assert(100 * target_count / target_count == 100) by (nonlinear_arith)
            requires target_count > 0;
    }
}

} // verus!
