//! Choices that a player must make, and the futures that wait for them.
//!
//! A `ChoiceFuture` describes a piece of game logic that may have to stop and wait for a
//! player's decision before it can go on. The game logic that runs between decisions
//! (the callbacks) is referred to by handles: a `u64` that the engine's driver maps to the
//! code it stands for. Futures are composed by appending stages; attaching the final
//! callback with `and_then` yields the next `Step`: a callback to run, a choice to ask the
//! player, or the end of the game.

use vstd::prelude::*;

use crate::game::{opponent, GameResult, Player};

verus! {

/// The kinds of decision that a future may wait for.
#[derive(Clone, Copy, Debug, PartialEq, Eq, Structural)]
pub enum ChoiceKind {
    /// Choose where to play a person.
    PlayLoc,
    /// Choose a card to damage.
    Damage,
    /// Choose a card to restore.
    Restore,
    /// Choose an icon effect to perform (or none).
    IconEffect,
    /// Choose one of your people to rescue.
    RescuePerson,
    /// Choose whether to move the opponent's events back.
    MoveEvents,
    /// Choose an opponent column to damage.
    DamageColumn,
}

/// A value handed from one stage of a future to the next: nothing, or a value of the
/// game's value type.
#[derive(Debug)]
pub enum Value<V> {
    Unit,
    Data(V),
}

/// One stage of a future, applied to the value that the future resolves with.
#[derive(Clone, Copy, Debug, PartialEq, Eq, Structural)]
pub enum Stage {
    /// Run the callback; its value, or the end of the game, is passed on.
    Apply(u64),
    /// Run the callback; the future it returns is resolved in place of the value.
    Chain(u64),
    /// Forget the value and go on with no value.
    Discard,
}

/// A decision that a future waits for: who makes it, of which kind, and the game's
/// description of the options.
pub struct ChoiceRequest<P> {
    pub kind: ChoiceKind,
    pub chooser: Player,
    pub payload: P,
}

/// Where a future starts from.
pub enum Source<P> {
    /// The future resolves at once, with no value.
    Immediate,
    /// The future ends the game with the given result.
    EndGame(GameResult),
    /// The future waits for a player's decision.
    Awaiting(ChoiceRequest<P>),
}

/// A future that may need to wait for a player to make a choice.
/// Can be converted into a full `Choice` by attaching a callback with `and_then`.
#[must_use]
pub struct ChoiceFuture<P> {
    source: Source<P>,
    stages: Vec<Stage>,
}

/// The mathematical content of a `ChoiceFuture`.
pub struct FutureView<P> {
    pub source: Source<P>,
    pub stages: Seq<Stage>,
}

impl<P> View for ChoiceFuture<P> {
    type V = FutureView<P>;

    closed spec fn view(&self) -> FutureView<P> {
        FutureView { source: self.source, stages: self.stages@ }
    }
}

/// What remains to be done once a value is available: the stages still to run, then the
/// final callback, whose result is the next choice.
pub struct Continuation {
    stages: Vec<Stage>,
    finish: u64,
}

/// The mathematical content of a `Continuation`.
pub struct ContinuationView {
    pub stages: Seq<Stage>,
    pub finish: u64,
}

impl View for Continuation {
    type V = ContinuationView;

    closed spec fn view(&self) -> ContinuationView {
        ContinuationView { stages: self.stages@, finish: self.finish }
    }
}

/// A decision that a player must make, with what to do once it is made.
pub struct PendingChoice<P> {
    chooser: Player,
    payload: P,
    next: Continuation,
}

/// The mathematical content of a `PendingChoice`.
pub struct PendingView<P> {
    pub chooser: Player,
    pub payload: P,
    pub next: ContinuationView,
}

impl<P> View for PendingChoice<P> {
    type V = PendingView<P>;

    closed spec fn view(&self) -> PendingView<P> {
        PendingView { chooser: self.chooser, payload: self.payload, next: self.next@ }
    }
}

/// The top-level choice of a turn: which of the available actions to take.
pub struct ActionChoice<A> {
    actions: Vec<A>,
}

impl<A> View for ActionChoice<A> {
    type V = Seq<A>;

    closed spec fn view(&self) -> Seq<A> {
        self.actions@
    }
}

/// A choice between several options that must be made by a player, along with what to do
/// once it is made.
#[must_use]
pub enum Choice<A, P> {
    Action(ActionChoice<A>),
    PlayLoc(PendingChoice<P>),
    Damage(PendingChoice<P>),
    Restore(PendingChoice<P>),
    IconEffect(PendingChoice<P>),
    RescuePerson(PendingChoice<P>),
    MoveEvents(PendingChoice<P>),
    DamageColumn(PendingChoice<P>),
}

/// The mathematical content of a `Choice`.
pub enum ChoiceView<A, P> {
    Action(Seq<A>),
    Pending(ChoiceKind, PendingView<P>),
}

impl<A, P> View for Choice<A, P> {
    type V = ChoiceView<A, P>;

    open spec fn view(&self) -> ChoiceView<A, P> {
        match self {
            Choice::Action(a) => ChoiceView::Action(a@),
            Choice::PlayLoc(p) => ChoiceView::Pending(ChoiceKind::PlayLoc, p@),
            Choice::Damage(p) => ChoiceView::Pending(ChoiceKind::Damage, p@),
            Choice::Restore(p) => ChoiceView::Pending(ChoiceKind::Restore, p@),
            Choice::IconEffect(p) => ChoiceView::Pending(ChoiceKind::IconEffect, p@),
            Choice::RescuePerson(p) => ChoiceView::Pending(ChoiceKind::RescuePerson, p@),
            Choice::MoveEvents(p) => ChoiceView::Pending(ChoiceKind::MoveEvents, p@),
            Choice::DamageColumn(p) => ChoiceView::Pending(ChoiceKind::DamageColumn, p@),
        }
    }
}

/// What the driver of the engine has to do next.
#[must_use]
pub enum Step<A, P, V> {
    /// Run the callback on `arg`, then hand its value (or the game's end) to
    /// `rest.resume_with_value`.
    CallMap { callback: u64, arg: Value<V>, rest: Continuation },
    /// Run the callback on `arg`, then hand the future it returns (or the game's end) to
    /// `rest.resume_with_future`.
    CallChain { callback: u64, arg: Value<V>, rest: Continuation },
    /// Run the final callback on `arg`; its result is the next choice.
    Finish { callback: u64, arg: Value<V> },
    /// Ask a player to make this choice.
    Choose(Choice<A, P>),
    /// The game is over.
    Ended(GameResult),
}

/// The mathematical content of a `Step`.
pub enum StepView<A, P, V> {
    CallMap { callback: u64, arg: Value<V>, rest: ContinuationView },
    CallChain { callback: u64, arg: Value<V>, rest: ContinuationView },
    Finish { callback: u64, arg: Value<V> },
    Choose(ChoiceView<A, P>),
    Ended(GameResult),
}

impl<A, P, V> View for Step<A, P, V> {
    type V = StepView<A, P, V>;

    open spec fn view(&self) -> StepView<A, P, V> {
        match self {
            Step::CallMap { callback, arg, rest } => StepView::CallMap {
                callback: *callback,
                arg: *arg,
                rest: rest@,
            },
            Step::CallChain { callback, arg, rest } => StepView::CallChain {
                callback: *callback,
                arg: *arg,
                rest: rest@,
            },
            Step::Finish { callback, arg } => StepView::Finish { callback: *callback, arg: *arg },
            Step::Choose(c) => StepView::Choose(c@),
            Step::Ended(r) => StepView::Ended(*r),
        }
    }
}

/// The next step once `arg` is available and `stages` remain before the final callback:
/// stages that discard the value run at once; the first stage with a callback, or else the
/// final callback, is to be run on the value reached.
pub open spec fn advance<A, P, V>(arg: Value<V>, stages: Seq<Stage>, finish: u64) -> StepView<A, P, V>
    decreases stages.len(),
{
    if stages.len() == 0 {
        StepView::Finish { callback: finish, arg }
    } else {
        match stages[0] {
            Stage::Discard => advance(Value::Unit, stages.drop_first(), finish),
            Stage::Apply(c) => StepView::CallMap {
                callback: c,
                arg,
                rest: ContinuationView { stages: stages.drop_first(), finish },
            },
            Stage::Chain(c) => StepView::CallChain {
                callback: c,
                arg,
                rest: ContinuationView { stages: stages.drop_first(), finish },
            },
        }
    }
}

/// The choice that a request becomes once the continuation `next` is attached to it.
pub open spec fn pending_choice<A, P>(req: ChoiceRequest<P>, next: ContinuationView) -> ChoiceView<A, P> {
    ChoiceView::Pending(req.kind, PendingView { chooser: req.chooser, payload: req.payload, next })
}

/// The step reached by attaching the final callback `finish` to a future.
pub open spec fn run_future<A, P, V>(f: FutureView<P>, finish: u64) -> StepView<A, P, V> {
    match f.source {
        Source::Immediate => advance(Value::Unit, f.stages, finish),
        Source::EndGame(r) => StepView::Ended(r),
        Source::Awaiting(req) => StepView::Choose(
            pending_choice(req, ContinuationView { stages: f.stages, finish }),
        ),
    }
}

/// The step reached when a continuation gets a value, or learns that the game ended.
pub open spec fn resume_value<A, P, V>(
    c: ContinuationView,
    outcome: Result<Value<V>, GameResult>,
) -> StepView<A, P, V> {
    match outcome {
        Ok(v) => advance(v, c.stages, c.finish),
        Err(r) => StepView::Ended(r),
    }
}

/// The step reached when a continuation gets a future to resolve in place of a value, or
/// learns that the game ended.
pub open spec fn resume_future<A, P, V>(
    c: ContinuationView,
    outcome: Result<FutureView<P>, GameResult>,
) -> StepView<A, P, V> {
    match outcome {
        Ok(f) => run_future(FutureView { source: f.source, stages: f.stages + c.stages }, c.finish),
        Err(r) => StepView::Ended(r),
    }
}

/// The view of a future handed back by a callback.
pub open spec fn future_outcome<P>(outcome: Result<ChoiceFuture<P>, GameResult>) -> Result<FutureView<P>, GameResult> {
    match outcome {
        Ok(f) => Ok(f@),
        Err(r) => Err(r),
    }
}

fn advance_stages<A, P, V>(arg: Value<V>, stages: Vec<Stage>, finish: u64) -> (r: Step<A, P, V>)
    ensures
        r@ == advance::<A, P, V>(arg, stages@, finish),
{
    let mut cur = arg;
    let mut rem = stages;
    while rem.len() > 0
        invariant
            advance::<A, P, V>(cur, rem@, finish) == advance::<A, P, V>(arg, stages@, finish),
        decreases rem@.len(),
    {
        let ghost before = rem@;
        let s = rem.remove(0);
        assert(rem@ =~= before.drop_first());
        match s {
            Stage::Discard => {
                cur = Value::Unit;
            },
            Stage::Apply(c) => {
                return Step::CallMap { callback: c, arg: cur, rest: Continuation { stages: rem, finish } };
            },
            Stage::Chain(c) => {
                return Step::CallChain { callback: c, arg: cur, rest: Continuation { stages: rem, finish } };
            },
        }
    }
    Step::Finish { callback: finish, arg: cur }
}

impl<P> ChoiceFuture<P> {
    /// Returns a future that resolves immediately with no value.
    pub fn immediate() -> (r: ChoiceFuture<P>)
        ensures
            r@.source == Source::<P>::Immediate,
            r@.stages == Seq::<Stage>::empty(),
    {
        ChoiceFuture { source: Source::Immediate, stages: Vec::new() }
    }

    /// Returns a future that ends the game immediately with the given `GameResult`.
    pub fn end_game(game_result: GameResult) -> (r: ChoiceFuture<P>)
        ensures
            r@.source == Source::<P>::EndGame(game_result),
            r@.stages == Seq::<Stage>::empty(),
    {
        ChoiceFuture { source: Source::EndGame(game_result), stages: Vec::new() }
    }

    /// Returns a future that asks a player to make the requested choice before resolving.
    pub fn awaiting_choice(request: ChoiceRequest<P>) -> (r: ChoiceFuture<P>)
        ensures
            r@.source == Source::Awaiting(request),
            r@.stages == Seq::<Stage>::empty(),
    {
        ChoiceFuture { source: Source::Awaiting(request), stages: Vec::new() }
    }

    /// Returns a new future that runs the given callback on the value this future resolves
    /// with, and resolves with the callback's value (or ends the game if the callback does).
    pub fn then_future(self, callback: u64) -> (r: ChoiceFuture<P>)
        ensures
            r@.source == self@.source,
            r@.stages == self@.stages.push(Stage::Apply(callback)),
    {
        let mut stages = self.stages;
        stages.push(Stage::Apply(callback));
        ChoiceFuture { source: self.source, stages }
    }

    /// Returns a new future that runs the given callback on the value this future resolves
    /// with, and then resolves as the future returned by the callback does.
    pub fn then_future_chain(self, callback: u64) -> (r: ChoiceFuture<P>)
        ensures
            r@.source == self@.source,
            r@.stages == self@.stages.push(Stage::Chain(callback)),
    {
        let mut stages = self.stages;
        stages.push(Stage::Chain(callback));
        ChoiceFuture { source: self.source, stages }
    }

    /// Converts this future into one that has no extra result value.
    pub fn ignore_result(self) -> (r: ChoiceFuture<P>)
        ensures
            r@.source == self@.source,
            r@.stages == self@.stages.push(Stage::Discard),
    {
        let mut stages = self.stages;
        stages.push(Stage::Discard);
        ChoiceFuture { source: self.source, stages }
    }

    /// Attaches the final callback, whose result is the next choice, and returns what is
    /// to be done next.
    pub fn and_then<A, V>(self, callback: u64) -> (r: Step<A, P, V>)
        ensures
            r@ == run_future::<A, P, V>(self@, callback),
    {
        match self.source {
            Source::Immediate => advance_stages(Value::Unit, self.stages, callback),
            Source::EndGame(result) => Step::Ended(result),
            Source::Awaiting(request) => {
                let next = Continuation { stages: self.stages, finish: callback };
                let pending = PendingChoice { chooser: request.chooser, payload: request.payload, next };
                let choice = match request.kind {
                    ChoiceKind::PlayLoc => Choice::PlayLoc(pending),
                    ChoiceKind::Damage => Choice::Damage(pending),
                    ChoiceKind::Restore => Choice::Restore(pending),
                    ChoiceKind::IconEffect => Choice::IconEffect(pending),
                    ChoiceKind::RescuePerson => Choice::RescuePerson(pending),
                    ChoiceKind::MoveEvents => Choice::MoveEvents(pending),
                    ChoiceKind::DamageColumn => Choice::DamageColumn(pending),
                };
                Step::Choose(choice)
            },
        }
    }
}

impl Continuation {
    /// Goes on once the callback that was run returned a value, or ended the game.
    pub fn resume_with_value<A, P, V>(self, outcome: Result<Value<V>, GameResult>) -> (r: Step<A, P, V>)
        ensures
            r@ == resume_value::<A, P, V>(self@, outcome),
    {
        match outcome {
            Ok(v) => advance_stages(v, self.stages, self.finish),
            Err(result) => Step::Ended(result),
        }
    }

    /// Goes on once the callback that was run returned a future to resolve in place of a
    /// value, or ended the game.
    pub fn resume_with_future<A, P, V>(self, outcome: Result<ChoiceFuture<P>, GameResult>) -> (r: Step<A, P, V>)
        ensures
            r@ == resume_future::<A, P, V>(self@, future_outcome(outcome)),
    {
        match outcome {
            Ok(future) => {
                let mut stages = future.stages;
                let mut rest = self.stages;
                stages.append(&mut rest);
                let joined = ChoiceFuture { source: future.source, stages };
                joined.and_then(self.finish)
            },
            Err(result) => Step::Ended(result),
        }
    }
}

impl<P> PendingChoice<P> {
    /// The player who must choose.
    pub fn chooser(&self) -> (r: Player)
        ensures
            r == self@.chooser,
    {
        self.chooser
    }

    /// The game's description of the options offered.
    pub fn payload(&self) -> (r: &P)
        ensures
            *r == self@.payload,
    {
        &self.payload
    }

    /// Goes on once the player's decision has been carried out: with the value it
    /// resolves with, or with the end of the game.
    pub fn resolve<A, V>(self, outcome: Result<Value<V>, GameResult>) -> (r: Step<A, P, V>)
        ensures
            r@ == resume_value::<A, P, V>(self@.next, outcome),
    {
        self.next.resume_with_value(outcome)
    }

    /// Goes on once the player's decision has been carried out and gave a further future
    /// to resolve before this choice's continuation runs (or ended the game).
    pub fn resolve_with_future<A, V>(self, outcome: Result<ChoiceFuture<P>, GameResult>) -> (r: Step<A, P, V>)
        ensures
            r@ == resume_future::<A, P, V>(self@.next, future_outcome(outcome)),
    {
        self.next.resume_with_future(outcome)
    }

    /// Goes on once the player's decision has been carried out, when carrying it out may
    /// set off an effect (a person's effect on entering play, or a chosen icon effect):
    /// the effect's future, if there is one, is resolved first; with none, the
    /// continuation goes on with no value.
    pub fn resolve_after_effect<A, V>(self, effect: Option<Result<ChoiceFuture<P>, GameResult>>) -> (r: Step<A, P, V>)
        ensures
            r@ == (match effect {
                Some(outcome) => resume_future::<A, P, V>(self@.next, future_outcome(outcome)),
                None => resume_value::<A, P, V>(self@.next, Ok(Value::Unit)),
            }),
    {
        match effect {
            Some(outcome) => self.resolve_with_future(outcome),
            None => self.resolve(Ok(Value::Unit)),
        }
    }
}

impl<A> ActionChoice<A> {
    /// Returns the set of actions that can be taken by the current player.
    pub fn actions(&self) -> (r: &[A])
        ensures
            r@ == self@,
    {
        self.actions.as_slice()
    }

    /// Chooses the action at the given position among `actions()`, if there is one.
    pub fn choose_action(&self, index: usize) -> (r: Option<&A>)
        ensures
            index < self@.len() ==> r == Some(&self@[index as int]),
            index >= self@.len() ==> r is None,
    {
        if index < self.actions.len() {
            Some(&self.actions[index])
        } else {
            None
        }
    }
}

impl<A, P> Choice<A, P> {
    /// Returns a choice for top-level turn actions among the given ones.
    pub fn new_actions(actions: Vec<A>) -> (r: Choice<A, P>)
        ensures
            r@ == ChoiceView::<A, P>::Action(actions@),
    {
        Choice::Action(ActionChoice { actions })
    }
}

/// Whose board the answer to a choice acts on.
#[derive(Clone, Copy, Debug, PartialEq, Eq, Structural)]
pub enum Board {
    /// The chooser's own board.
    Chooser,
    /// The chooser's opponent's board.
    Opponent,
    /// The board of the card the answer names.
    Target,
}

/// Whose board the answer to each kind of choice acts on: a play location, a restore, an
/// icon effect and a rescue act on the chooser's board; moving events and damaging a
/// column act on the opponent's; a damage acts on the chosen card, wherever it is.
pub open spec fn choice_board(kind: ChoiceKind) -> Board {
    match kind {
        ChoiceKind::PlayLoc => Board::Chooser,
        ChoiceKind::Damage => Board::Target,
        ChoiceKind::Restore => Board::Chooser,
        ChoiceKind::IconEffect => Board::Chooser,
        ChoiceKind::RescuePerson => Board::Chooser,
        ChoiceKind::MoveEvents => Board::Opponent,
        ChoiceKind::DamageColumn => Board::Opponent,
    }
}

/// The player whose board the answer to a choice of `kind` made by `chooser` acts on,
/// when the kind of choice fixes it.
pub open spec fn acted_on(kind: ChoiceKind, chooser: Player) -> Option<Player> {
    match choice_board(kind) {
        Board::Chooser => Some(chooser),
        Board::Opponent => Some(opponent(chooser)),
        Board::Target => None,
    }
}

/// Whether the answer to a choice of `kind` is the value its continuation gets: only the
/// damaged card's location is handed on; every other choice goes on with no value.
pub open spec fn passes_answer(kind: ChoiceKind) -> bool {
    kind == ChoiceKind::Damage
}

impl ChoiceKind {
    /// Returns whose board the answer to this kind of choice acts on.
    pub fn board(&self) -> (r: Board)
        ensures
            r == choice_board(*self),
    {
        match self {
            ChoiceKind::PlayLoc => Board::Chooser,
            ChoiceKind::Damage => Board::Target,
            ChoiceKind::Restore => Board::Chooser,
            ChoiceKind::IconEffect => Board::Chooser,
            ChoiceKind::RescuePerson => Board::Chooser,
            ChoiceKind::MoveEvents => Board::Opponent,
            ChoiceKind::DamageColumn => Board::Opponent,
        }
    }

    /// Returns the player whose board the answer of `chooser` acts on, when this kind of
    /// choice fixes it.
    pub fn acted_on(&self, chooser: Player) -> (r: Option<Player>)
        ensures
            r == acted_on(*self, chooser),
            choice_board(*self) == Board::Chooser ==> r == Some(chooser),
            choice_board(*self) == Board::Opponent ==> r == Some(opponent(chooser)),
            choice_board(*self) == Board::Target ==> r is None,
    {
        match self.board() {
            Board::Chooser => Some(chooser),
            Board::Opponent => Some(chooser.other()),
            Board::Target => None,
        }
    }

    /// Returns whether the answer to this kind of choice is handed on to its continuation.
    pub fn passes_answer(&self) -> (r: bool)
        ensures
            r == passes_answer(*self),
    {
        match self {
            ChoiceKind::Damage => true,
            _ => false,
        }
    }
}

/// A card position on a player's board.
#[derive(Clone, Copy, Debug, PartialEq, Eq)]
pub struct CardTarget<C, R> {
    pub column: C,
    pub row: R,
    pub player: Player,
}

/// The cards that damaging column `column` of `owner`'s board hits: one in each of the
/// column's rows that holds a card, in order.
pub fn column_targets<C: Copy, R: Copy>(column: C, card_rows: &[R], owner: Player) -> (r: Vec<CardTarget<C, R>>)
    ensures
        r@.len() == card_rows@.len(),
        forall|i: int| 0 <= i < r@.len() ==> #[trigger] r@[i] == (CardTarget { column, row: card_rows@[i], player: owner }),
{
    let mut targets: Vec<CardTarget<C, R>> = Vec::new();
    let mut i: usize = 0;
    while i < card_rows.len()
        invariant
            i <= card_rows@.len(),
            targets@.len() == i,
            forall|j: int| 0 <= j < i ==> #[trigger] targets@[j] == (CardTarget { column, row: card_rows@[j], player: owner }),
        decreases card_rows@.len() - i,
    {
        targets.push(CardTarget { column, row: card_rows[i], player: owner });
        i = i + 1;
    }
    targets
}

/// The answer to a choice acts on the chooser's board, the opponent's, or the chosen
/// card's, as the kind of choice says: placing a person, restoring, performing an icon
/// effect and rescuing act on the chooser's own board; moving events back and damaging a
/// column act on the opponent's; damaging acts on the chosen card's board, which the kind
/// does not fix.
pub proof fn law_acted_on_follows_board(kind: ChoiceKind, chooser: Player)
    ensures
        choice_board(kind) == Board::Chooser ==> acted_on(kind, chooser) == Some(chooser),
        choice_board(kind) == Board::Opponent ==> acted_on(kind, chooser) == Some(opponent(chooser)),
        choice_board(kind) == Board::Target ==> acted_on(kind, chooser) is None,
        acted_on(ChoiceKind::PlayLoc, chooser) == Some(chooser),
        acted_on(ChoiceKind::Restore, chooser) == Some(chooser),
        acted_on(ChoiceKind::IconEffect, chooser) == Some(chooser),
        acted_on(ChoiceKind::RescuePerson, chooser) == Some(chooser),
        acted_on(ChoiceKind::MoveEvents, chooser) == Some(opponent(chooser)),
        acted_on(ChoiceKind::DamageColumn, chooser) == Some(opponent(chooser)),
        acted_on(ChoiceKind::Damage, chooser) is None,
{
}

/// Only a damage choice hands its answer (the damaged card) on to its continuation.
pub proof fn law_only_damage_passes_answer(kind: ChoiceKind)
    ensures
        passes_answer(kind) <==> kind == ChoiceKind::Damage,
{
}

/// Places `person` in row `row` of a column's two person slots, as a play-location choice
/// does. A person already in that slot is moved to the other slot, which must be empty.
pub fn place_person<T>(slots: &mut [Option<T>; 2], row: usize, person: T)
    requires
        row < 2,
        old(slots)@[row as int] is Some ==> old(slots)@[1 - row] is None,
    ensures
        final(slots)@[row as int] == Some(person),
        final(slots)@[1 - row] == (if old(slots)@[row as int] is Some {
            old(slots)@[row as int]
        } else {
            old(slots)@[1 - row]
        }),
{
    let mut displaced = Some(person);
    std::mem::swap(&mut slots[row], &mut displaced);
    if displaced.is_some() {
        slots[1 - row] = displaced;
    }
}

/// The future view with the given source and stages.
pub open spec fn future_of<P>(source: Source<P>, stages: Seq<Stage>) -> FutureView<P> {
    FutureView { source, stages }
}

/// The continuation view with the given stages and final callback.
pub open spec fn continuation_of(stages: Seq<Stage>, finish: u64) -> ContinuationView {
    ContinuationView { stages, finish }
}

/// A future that resolves immediately runs its stages at once, starting with no value;
/// with no stages, the final callback is run on no value.
pub proof fn lemma_immediate_resolves_at_once<A, P, V>(stages: Seq<Stage>, finish: u64)
    ensures
        run_future::<A, P, V>(future_of(Source::Immediate, stages), finish)
            == advance::<A, P, V>(Value::Unit, stages, finish),
        run_future::<A, P, V>(future_of(Source::Immediate, Seq::empty()), finish)
            == (StepView::<A, P, V>::Finish { callback: finish, arg: Value::Unit }),
{
}

/// A future that ends the game ends it whatever stages were added to it: no callback is
/// run and no choice is asked.
pub proof fn lemma_end_game_skips_everything<A, P, V>(result: GameResult, stages: Seq<Stage>, finish: u64)
    ensures
        run_future::<A, P, V>(future_of(Source::EndGame(result), stages), finish)
            == StepView::<A, P, V>::Ended(result),
{
}

/// When a callback ends the game, the rest of the continuation is dropped and the game
/// ends with that result.
pub proof fn lemma_failure_short_circuits<A, P, V>(c: ContinuationView, result: GameResult)
    ensures
        resume_value::<A, P, V>(c, Err(result)) == StepView::<A, P, V>::Ended(result),
        resume_future::<A, P, V>(c, Err(result)) == StepView::<A, P, V>::Ended(result),
{
}

/// Forgetting the result: a discarding stage hands no value to what follows it.
pub proof fn lemma_ignore_result_forgets_value<A, P, V>(v: Value<V>, stages: Seq<Stage>, finish: u64)
    ensures
        advance::<A, P, V>(v, seq![Stage::Discard] + stages, finish)
            == advance::<A, P, V>(Value::Unit, stages, finish),
{
    assert((seq![Stage::Discard] + stages).drop_first() =~= stages);
}

/// A callback of `then_future` is run on the value the future resolves with, and its
/// value is what the following stages get.
pub proof fn lemma_then_future_passes_value<A, P, V>(
    v: Value<V>,
    callback: u64,
    stages: Seq<Stage>,
    finish: u64,
    out: Value<V>,
)
    ensures
        advance::<A, P, V>(v, seq![Stage::Apply(callback)] + stages, finish)
            == (StepView::<A, P, V>::CallMap { callback, arg: v, rest: continuation_of(stages, finish) }),
        resume_value::<A, P, V>(continuation_of(stages, finish), Ok(out))
            == advance::<A, P, V>(out, stages, finish),
{
    assert((seq![Stage::Apply(callback)] + stages).drop_first() =~= stages);
}

/// A callback of `then_future_chain` is run on the value the future resolves with, and
/// the future it returns is resolved with the following stages queued after its own.
pub proof fn lemma_then_future_chain_splices<A, P, V>(
    v: Value<V>,
    callback: u64,
    stages: Seq<Stage>,
    finish: u64,
    inner: FutureView<P>,
)
    ensures
        advance::<A, P, V>(v, seq![Stage::Chain(callback)] + stages, finish)
            == (StepView::<A, P, V>::CallChain { callback, arg: v, rest: continuation_of(stages, finish) }),
        resume_future::<A, P, V>(continuation_of(stages, finish), Ok(inner))
            == run_future::<A, P, V>(future_of(inner.source, inner.stages + stages), finish),
{
    assert((seq![Stage::Chain(callback)] + stages).drop_first() =~= stages);
}

/// Resolving a chained future that resolves at once is the same as getting no value.
pub proof fn lemma_chain_immediate_is_unit<A, P, V>(c: ContinuationView)
    ensures
        resume_future::<A, P, V>(c, Ok(future_of(Source::Immediate, Seq::empty())))
            == resume_value::<A, P, V>(c, Ok(Value::Unit)),
{
    assert(Seq::<Stage>::empty() + c.stages =~= c.stages);
}

/// Resolving a chained future that ends the game ends it.
pub proof fn lemma_chain_end_game_ends<A, P, V>(c: ContinuationView, result: GameResult, stages: Seq<Stage>)
    ensures
        resume_future::<A, P, V>(c, Ok(future_of(Source::EndGame(result), stages)))
            == StepView::<A, P, V>::Ended(result),
{
}

/// A chained future that waits for a choice asks it with its own stages followed by the
/// rest of the outer continuation.
pub proof fn lemma_chain_choice_keeps_continuation<A, P, V>(
    c: ContinuationView,
    req: ChoiceRequest<P>,
    stages: Seq<Stage>,
)
    ensures
        resume_future::<A, P, V>(c, Ok(future_of(Source::Awaiting(req), stages)))
            == StepView::<A, P, V>::Choose(pending_choice(req, continuation_of(stages + c.stages, c.finish))),
{
}

/// A future that waits for a choice asks it with its whole continuation attached; an
/// answer with no value goes on exactly as a future that resolved at once would.
pub proof fn lemma_choice_resumes_where_it_stopped<A, P, V>(req: ChoiceRequest<P>, stages: Seq<Stage>, finish: u64)
    ensures
        run_future::<A, P, V>(future_of(Source::Awaiting(req), stages), finish)
            == StepView::<A, P, V>::Choose(pending_choice(req, continuation_of(stages, finish))),
        resume_value::<A, P, V>(continuation_of(stages, finish), Ok(Value::Unit))
            == run_future::<A, P, V>(future_of(Source::Immediate, stages), finish),
{
}

/// Stages added after a future do not change what it does first: if its own stages lead
/// to a callback, the same callback is run with the added stages queued after the rest;
/// if they lead to the final callback on some value, the added stages run on that value.
pub proof fn lemma_stages_compose<A, P, V>(v: Value<V>, s1: Seq<Stage>, s2: Seq<Stage>, k1: u64, k2: u64)
    ensures
        stages_compose::<A, P, V>(advance::<A, P, V>(v, s1, k1), advance::<A, P, V>(v, s1 + s2, k2), s2, k2),
    decreases s1.len(),
{
    if s1.len() == 0 {
        assert(s1 + s2 =~= s2);
    } else {
        assert((s1 + s2).drop_first() =~= s1.drop_first() + s2);
        assert((s1 + s2)[0] == s1[0]);
        match s1[0] {
            Stage::Discard => {
                lemma_stages_compose::<A, P, V>(Value::Unit, s1.drop_first(), s2, k1, k2);
            },
            _ => {},
        }
    }
}

/// How the step reached through stages `s1 + s2` relates to the step `first` reached
/// through `s1` alone.
pub open spec fn stages_compose<A, P, V>(
    first: StepView<A, P, V>,
    whole: StepView<A, P, V>,
    s2: Seq<Stage>,
    k2: u64,
) -> bool {
    match first {
        StepView::Finish { arg, .. } => whole == advance::<A, P, V>(arg, s2, k2),
        StepView::CallMap { callback, arg, rest } => whole == (StepView::<A, P, V>::CallMap {
            callback,
            arg,
            rest: continuation_of(rest.stages + s2, k2),
        }),
        StepView::CallChain { callback, arg, rest } => whole == (StepView::<A, P, V>::CallChain {
            callback,
            arg,
            rest: continuation_of(rest.stages + s2, k2),
        }),
        _ => false,
    }
}

} // verus!
