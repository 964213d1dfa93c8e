//! The catalog of person cards.

use vstd::prelude::*;

use crate::game::{GameResult, IconEffect};

verus! {

/// An ability whose effect is more than a single icon.
#[derive(Clone, Copy, Debug, PartialEq, Eq, Structural)]
pub enum SpecialAbility {
    /// Destroy one of your own people, then damage.
    DestroyOwnPersonThenDamage,
    /// Injure every unprotected enemy person.
    InjureAllUnprotectedEnemies,
    /// Damage, usable only while its owner has a punk.
    DamageIfHasPunk,
    /// Damage; if the damaged card is a camp, draw a card.
    DamageThenDrawIfCamp,
    /// Damage any opponent card, protected or not.
    DamageAnyEnemy,
}

/// The text printed on a special ability.
pub open spec fn special_description(s: SpecialAbility) -> Seq<char> {
    match s {
        SpecialAbility::DestroyOwnPersonThenDamage => "Destroy one of your people, then damage"@,
        SpecialAbility::InjureAllUnprotectedEnemies => "Injure all unprotected enemies"@,
        SpecialAbility::DamageIfHasPunk => "(If you have a punk) Damage"@,
        SpecialAbility::DamageThenDrawIfCamp => "Damage; if this hits a camp, draw"@,
        SpecialAbility::DamageAnyEnemy => "Damage any (opponent) card"@,
    }
}

impl SpecialAbility {
    /// Returns the text printed on this ability.
    pub fn description(&self) -> (r: &'static str)
        ensures
            r@ == special_description(*self),
    {
        match self {
            SpecialAbility::DestroyOwnPersonThenDamage => "Destroy one of your people, then damage",
            SpecialAbility::InjureAllUnprotectedEnemies => "Injure all unprotected enemies",
            SpecialAbility::DamageIfHasPunk => "(If you have a punk) Damage",
            SpecialAbility::DamageThenDrawIfCamp => "Damage; if this hits a camp, draw",
            SpecialAbility::DamageAnyEnemy => "Damage any (opponent) card",
        }
    }
}

/// An ability of a person card, with the water it costs to use.
#[derive(Clone, Copy, Debug, PartialEq, Eq, Structural)]
pub enum Ability {
    /// An ability that performs one icon effect.
    Icon { cost: u32, effect: IconEffect },
    /// An ability with its own rules.
    Special { cost: u32, kind: SpecialAbility },
}

/// The water cost of an ability.
pub open spec fn ability_cost(a: Ability) -> u32 {
    match a {
        Ability::Icon { cost, .. } => cost,
        Ability::Special { cost, .. } => cost,
    }
}

impl Ability {
    /// Returns the water it costs to use this ability.
    pub fn cost(&self) -> (r: u32)
        ensures
            r == ability_cost(*self),
            forall|c: u32, e: IconEffect| *self == (Ability::Icon { cost: c, effect: e }) ==> r == c,
            forall|c: u32, k: SpecialAbility| *self == (Ability::Special { cost: c, kind: k }) ==> r == c,
    {
        match self {
            Ability::Icon { cost, .. } => *cost,
            Ability::Special { cost, .. } => *cost,
        }
    }
}

/// Something that happens when a person enters play.
#[derive(Clone, Copy, Debug, PartialEq, Eq, Structural)]
pub enum EnterPlayEffect {
    /// Restore one of the owner's damaged cards.
    RestoreCard,
}

/// An operation on the game that an ability or effect asks the game to carry out.
#[derive(Clone, Copy, Debug, PartialEq, Eq, Structural)]
pub enum GameOp {
    /// Destroy one of the acting player's own people.
    DestroyOwnPerson,
    /// Injure every unprotected enemy person.
    InjureAllUnprotectedEnemies,
    /// Damage an (unprotected) enemy card; the outcome tells whether a camp was hit.
    DamageEnemy,
    /// Damage any enemy card, protected or not.
    DamageAnyEnemy,
    /// Draw a card into the acting player's hand.
    DrawCardIntoHand,
    /// Restore one of the acting player's damaged cards.
    RestoreCard,
    /// Perform an icon effect.
    PerformIcon(IconEffect),
}

/// How an operation on the game turned out.
#[derive(Clone, Copy, Debug, PartialEq, Eq, Structural)]
pub enum OpOutcome {
    /// It was carried out.
    Done,
    /// A card was damaged; `camp` tells whether it was a camp.
    Damaged { camp: bool },
    /// It ended the game with the given result.
    Failed(GameResult),
}

/// What performing an ability or effect does next.
#[derive(Debug)]
pub enum PerformStep {
    /// Carry out this operation and report its outcome.
    Run(GameOp),
    /// The ability or effect is over, with this result.
    Return(Result<(), GameResult>),
}

/// The result that an operation's outcome passes on.
pub open spec fn outcome_result(o: OpOutcome) -> Result<(), GameResult> {
    match o {
        OpOutcome::Failed(r) => Err(r),
        _ => Ok(()),
    }
}

/// An operation that ended the game passes its result on; any other outcome passes on
/// success.
pub proof fn law_outcome_result(o: OpOutcome, r: GameResult)
    ensures
        outcome_result(OpOutcome::Failed(r)) == Err::<(), GameResult>(r),
        outcome_result(OpOutcome::Done) == Ok::<(), GameResult>(()),
        outcome_result(OpOutcome::Damaged { camp: true }) == Ok::<(), GameResult>(()),
        outcome_result(OpOutcome::Damaged { camp: false }) == Ok::<(), GameResult>(()),
        outcome_result(o) is Err <==> o is Failed,
{
}

fn pass_on(o: OpOutcome) -> (r: Result<(), GameResult>)
    ensures
        r == outcome_result(o),
{
    match o {
        OpOutcome::Failed(r) => Err(r),
        _ => Ok(()),
    }
}

/// When a special ability may be used.
#[derive(Clone, Copy, Debug, PartialEq, Eq, Structural)]
pub enum Usability {
    /// At any time.
    Always,
    /// Whenever the given icon effect could be performed.
    AsIcon(IconEffect),
    /// Only while its owner has a punk in play.
    WithPunk,
}

/// When each special ability may be used.
pub open spec fn special_usability(s: SpecialAbility) -> Usability {
    match s {
        SpecialAbility::DestroyOwnPersonThenDamage => Usability::Always,
        SpecialAbility::InjureAllUnprotectedEnemies => Usability::AsIcon(IconEffect::Injure),
        SpecialAbility::DamageIfHasPunk => Usability::WithPunk,
        SpecialAbility::DamageThenDrawIfCamp => Usability::Always,
        SpecialAbility::DamageAnyEnemy => Usability::Always,
    }
}

/// Whether a special ability may be used, given whether the Injure icon effect could be
/// performed and whether its owner has a punk.
pub open spec fn special_can_perform(s: SpecialAbility, injure_usable: bool, has_punk: bool) -> bool {
    match special_usability(s) {
        Usability::Always => true,
        Usability::AsIcon(_) => injure_usable,
        Usability::WithPunk => has_punk,
    }
}

/// What performing a special ability does next, given the outcomes of the operations it
/// has run so far, in order.
pub open spec fn special_step(s: SpecialAbility, done: Seq<OpOutcome>) -> PerformStep {
    match s {
        // destroy one of your people (whatever comes of it), then the Damage icon effect
        SpecialAbility::DestroyOwnPersonThenDamage => if done.len() == 0 {
            PerformStep::Run(GameOp::DestroyOwnPerson)
        } else if done.len() == 1 {
            PerformStep::Run(GameOp::PerformIcon(IconEffect::Damage))
        } else {
            PerformStep::Return(outcome_result(done[1]))
        },
        SpecialAbility::InjureAllUnprotectedEnemies => if done.len() == 0 {
            PerformStep::Run(GameOp::InjureAllUnprotectedEnemies)
        } else {
            PerformStep::Return(Ok(()))
        },
        SpecialAbility::DamageIfHasPunk => if done.len() == 0 {
            PerformStep::Run(GameOp::PerformIcon(IconEffect::Damage))
        } else {
            PerformStep::Return(outcome_result(done[0]))
        },
        SpecialAbility::DamageThenDrawIfCamp => if done.len() == 0 {
            PerformStep::Run(GameOp::DamageEnemy)
        } else {
            match done[0] {
                OpOutcome::Failed(r) => PerformStep::Return(Err(r)),
                OpOutcome::Damaged { camp: true } => if done.len() == 1 {
                    PerformStep::Run(GameOp::DrawCardIntoHand)
                } else {
                    PerformStep::Return(outcome_result(done[1]))
                },
                _ => PerformStep::Return(Ok(())),
            }
        },
        SpecialAbility::DamageAnyEnemy => if done.len() == 0 {
            PerformStep::Run(GameOp::DamageAnyEnemy)
        } else {
            PerformStep::Return(outcome_result(done[0]))
        },
    }
}

impl SpecialAbility {
    /// Returns when this ability may be used.
    pub fn usability(&self) -> (r: Usability)
        ensures
            r == special_usability(*self),
    {
        match self {
            SpecialAbility::DestroyOwnPersonThenDamage => Usability::Always,
            SpecialAbility::InjureAllUnprotectedEnemies => Usability::AsIcon(IconEffect::Injure),
            SpecialAbility::DamageIfHasPunk => Usability::WithPunk,
            SpecialAbility::DamageThenDrawIfCamp => Usability::Always,
            SpecialAbility::DamageAnyEnemy => Usability::Always,
        }
    }

    /// Returns whether this ability may be used, given whether the Injure icon effect could
    /// be performed and whether its owner has a punk.
    pub fn can_perform(&self, injure_usable: bool, has_punk: bool) -> (r: bool)
        ensures
            r == special_can_perform(*self, injure_usable, has_punk),
            special_usability(*self) == Usability::Always ==> r,
            forall|e: IconEffect| special_usability(*self) == Usability::AsIcon(e) ==> r == injure_usable,
            special_usability(*self) == Usability::WithPunk ==> r == has_punk,
    {
        match self.usability() {
            Usability::Always => true,
            Usability::AsIcon(_) => injure_usable,
            Usability::WithPunk => has_punk,
        }
    }

    /// Returns what performing this ability does next, given the outcomes of the
    /// operations it has run so far.
    pub fn next_step(&self, done: &[OpOutcome]) -> (r: PerformStep)
        ensures
            r == special_step(*self, done@),
    {
        let n = done.len();
        match self {
            SpecialAbility::DestroyOwnPersonThenDamage => if n == 0 {
                PerformStep::Run(GameOp::DestroyOwnPerson)
            } else if n == 1 {
                PerformStep::Run(GameOp::PerformIcon(IconEffect::Damage))
            } else {
                PerformStep::Return(pass_on(done[1]))
            },
            SpecialAbility::InjureAllUnprotectedEnemies => if n == 0 {
                PerformStep::Run(GameOp::InjureAllUnprotectedEnemies)
            } else {
                PerformStep::Return(Ok(()))
            },
            SpecialAbility::DamageIfHasPunk => if n == 0 {
                PerformStep::Run(GameOp::PerformIcon(IconEffect::Damage))
            } else {
                PerformStep::Return(pass_on(done[0]))
            },
            SpecialAbility::DamageThenDrawIfCamp => if n == 0 {
                PerformStep::Run(GameOp::DamageEnemy)
            } else {
                match done[0] {
                    OpOutcome::Failed(r) => PerformStep::Return(Err(r)),
                    OpOutcome::Damaged { camp: true } => if n == 1 {
                        PerformStep::Run(GameOp::DrawCardIntoHand)
                    } else {
                        PerformStep::Return(pass_on(done[1]))
                    },
                    _ => PerformStep::Return(Ok(())),
                }
            },
            SpecialAbility::DamageAnyEnemy => if n == 0 {
                PerformStep::Run(GameOp::DamageAnyEnemy)
            } else {
                PerformStep::Return(pass_on(done[0]))
            },
        }
    }
}

/// What carrying out an enter-play effect does next, given the outcomes of the operations
/// it has run so far: it restores a card, and whatever comes of that, it is over without
/// ending the game.
pub open spec fn enter_play_step(e: EnterPlayEffect, done: Seq<OpOutcome>) -> PerformStep {
    match e {
        EnterPlayEffect::RestoreCard => if done.len() == 0 {
            PerformStep::Run(GameOp::RestoreCard)
        } else {
            PerformStep::Return(Ok(()))
        },
    }
}

impl EnterPlayEffect {
    /// Returns what carrying out this effect does next, given the outcomes of the
    /// operations it has run so far.
    pub fn next_step(&self, done: &[OpOutcome]) -> (r: PerformStep)
        ensures
            r == enter_play_step(*self, done@),
    {
        match self {
            EnterPlayEffect::RestoreCard => if done.len() == 0 {
                PerformStep::Run(GameOp::RestoreCard)
            } else {
                PerformStep::Return(Ok(()))
            },
        }
    }
}

/// A special ability ends the game only by passing on the result of an operation that it
/// ran and that ended the game.
pub proof fn lemma_special_ends_game_only_by_passing_on(s: SpecialAbility, done: Seq<OpOutcome>, r: GameResult)
    requires
        special_step(s, done) == PerformStep::Return(Err(r)),
    ensures
        exists|i: int| 0 <= i < done.len() && #[trigger] done[i] == OpOutcome::Failed(r),
{
    if done.len() > 0 && done[0] == OpOutcome::Failed(r) {
        assert(done[0] == OpOutcome::Failed(r));
    } else {
        assert(done[1] == OpOutcome::Failed(r));
    }
}

/// Every special ability asks for at most two operations and then is over: once it has
/// run two, it returns.
pub proof fn lemma_special_runs_at_most_two(s: SpecialAbility, done: Seq<OpOutcome>)
    requires
        done.len() >= 2,
    ensures
        special_step(s, done) is Return,
{
}

/// The damage-then-draw ability draws a card only right after damaging a camp, passes on
/// a failed damage without drawing, and otherwise is over without ending the game.
pub proof fn lemma_draw_only_after_camp_hit(done: Seq<OpOutcome>)
    ensures
        special_step(SpecialAbility::DamageThenDrawIfCamp, done) == PerformStep::Run(GameOp::DrawCardIntoHand)
            <==> (done.len() == 1 && done[0] == (OpOutcome::Damaged { camp: true })),
        done.len() >= 1 && done[0] == (OpOutcome::Damaged { camp: false })
            ==> special_step(SpecialAbility::DamageThenDrawIfCamp, done) == PerformStep::Return(Ok(())),
        forall|r: GameResult| done.len() >= 1 && done[0] == OpOutcome::Failed(r)
            ==> #[trigger] special_step(SpecialAbility::DamageThenDrawIfCamp, done) == PerformStep::Return(Err(r)),
{
}

/// An enter-play effect never ends the game, and restoring a card is the only operation
/// it asks for.
pub proof fn lemma_enter_play_never_ends_game(e: EnterPlayEffect, done: Seq<OpOutcome>)
    ensures
        enter_play_step(e, done) is Run ==> enter_play_step(e, done) == PerformStep::Run(GameOp::RestoreCard),
        enter_play_step(e, done) is Return ==> enter_play_step(e, done) == PerformStep::Return(Ok(())),
{
}

/// A type of person card.
pub struct PersonType {
    /// The person's name.
    pub name: &'static str,
    /// How many of this person type are in the deck.
    pub num_in_deck: u32,
    /// The person's junk effect.
    pub junk_effect: IconEffect,
    /// The water cost to play this person.
    pub cost: u32,
    /// The person's abilities.
    pub abilities: Vec<Ability>,
    /// What happens when the person enters play, if anything.
    pub on_enter_play: Option<EnterPlayEffect>,
    /// Whether this is the Holdout card, which can be played for free in a
    /// column whose camp is destroyed.
    pub is_holdout: bool,
}

/// The mathematical content of a `PersonType`.
pub struct PersonTypeView {
    pub name: Seq<char>,
    pub num_in_deck: u32,
    pub junk_effect: IconEffect,
    pub cost: u32,
    pub abilities: Seq<Ability>,
    pub on_enter_play: Option<EnterPlayEffect>,
    pub is_holdout: bool,
}

impl View for PersonType {
    type V = PersonTypeView;

    open spec fn view(&self) -> PersonTypeView {
        PersonTypeView {
            name: self.name@,
            num_in_deck: self.num_in_deck,
            junk_effect: self.junk_effect,
            cost: self.cost,
            abilities: self.abilities@,
            on_enter_play: self.on_enter_play,
            is_holdout: self.is_holdout,
        }
    }
}

/// The water it costs to play a person of type `p` in a column, given whether that
/// column's camp is destroyed: the Holdout is free there, every other person costs its cost.
pub open spec fn play_cost(p: PersonTypeView, camp_destroyed: bool) -> u32 {
    if p.is_holdout && camp_destroyed {
        0
    } else {
        p.cost
    }
}

impl PersonType {
    /// Returns this person's name, as it is displayed.
    pub fn display_name(&self) -> (r: &'static str)
        ensures
            r@ == self.name@,
    {
        self.name
    }

    /// Returns the water it costs to play this person in a column, given whether that
    /// column's camp is destroyed.
    pub fn play_cost(&self, camp_destroyed: bool) -> (r: u32)
        ensures
            r == play_cost(self@, camp_destroyed),
            !self.is_holdout ==> r == self.cost,
            !camp_destroyed ==> r == self.cost,
            self.is_holdout && camp_destroyed ==> r == 0,
    {
        if self.is_holdout && camp_destroyed {
            0
        } else {
            self.cost
        }
    }
}

/// A person with no enter-play effect who is not the Holdout.
pub open spec fn plain_person(
    name: Seq<char>,
    junk_effect: IconEffect,
    cost: u32,
    abilities: Seq<Ability>,
) -> PersonTypeView {
    PersonTypeView {
        name,
        num_in_deck: 2,
        junk_effect,
        cost,
        abilities,
        on_enter_play: None,
        is_holdout: false,
    }
}

/// Every person card of the game, in catalog order.
pub open spec fn person_catalog() -> Seq<PersonTypeView> {
    seq![
        plain_person(
            "Cult Leader"@,
            IconEffect::Draw,
            1,
            seq![Ability::Special { cost: 0, kind: SpecialAbility::DestroyOwnPersonThenDamage }],
        ),
        plain_person(
            "Gunner"@,
            IconEffect::Restore,
            1,
            seq![Ability::Special { cost: 2, kind: SpecialAbility::InjureAllUnprotectedEnemies }],
        ),
        PersonTypeView {
            name: "Holdout"@,
            num_in_deck: 2,
            junk_effect: IconEffect::Raid,
            cost: 2,
            abilities: seq![Ability::Icon { cost: 1, effect: IconEffect::Damage }],
            on_enter_play: None,
            is_holdout: true,
        },
        PersonTypeView {
            name: "Repair Bot"@,
            num_in_deck: 2,
            junk_effect: IconEffect::Injure,
            cost: 1,
            abilities: seq![Ability::Icon { cost: 2, effect: IconEffect::Restore }],
            on_enter_play: Some(EnterPlayEffect::RestoreCard),
            is_holdout: false,
        },
        plain_person(
            "Rabble Rouser"@,
            IconEffect::Raid,
            1,
            seq![
                Ability::Icon { cost: 1, effect: IconEffect::GainPunk },
                Ability::Special { cost: 1, kind: SpecialAbility::DamageIfHasPunk },
            ],
        ),
        plain_person(
            "Looter"@,
            IconEffect::Water,
            1,
            seq![Ability::Special { cost: 2, kind: SpecialAbility::DamageThenDrawIfCamp }],
        ),
        plain_person(
            "Sniper"@,
            IconEffect::Restore,
            1,
            seq![Ability::Special { cost: 2, kind: SpecialAbility::DamageAnyEnemy }],
        ),
        plain_person(
            "Vigilante"@,
            IconEffect::Injure,
            1,
            seq![Ability::Icon { cost: 1, effect: IconEffect::Injure }],
        ),
        plain_person(
            "Scout"@,
            IconEffect::Water,
            1,
            seq![Ability::Icon { cost: 1, effect: IconEffect::Raid }],
        ),
    ]
}

/// The number of person cards that a list of person types puts into the deck.
pub open spec fn deck_size(types: Seq<PersonTypeView>) -> int
    decreases types.len(),
{
    if types.len() == 0 {
        0
    } else {
        deck_size(types.drop_last()) + types.last().num_in_deck
    }
}

/// The catalog puts two copies of each person type into the deck, eighteen cards in all.
pub proof fn lemma_catalog_deck_size()
    ensures
        forall|i: int| 0 <= i < person_catalog().len() ==> #[trigger] person_catalog()[i].num_in_deck == 2,
        deck_size(person_catalog()) == 18,
{
    reveal_with_fuel(deck_size, 10);
    assert(person_catalog().drop_last().drop_last().drop_last().drop_last().drop_last()
        .drop_last().drop_last().drop_last().drop_last() =~= Seq::<PersonTypeView>::empty());
}

/// No two person types of the catalog share a name.
pub proof fn lemma_catalog_names_distinct()
    ensures
        forall|i: int, j: int|
            0 <= i < person_catalog().len() && 0 <= j < person_catalog().len() && i != j
                ==> #[trigger] person_catalog()[i].name != #[trigger] person_catalog()[j].name,
{
    reveal_strlit("Cult Leader");
    reveal_strlit("Gunner");
    reveal_strlit("Holdout");
    reveal_strlit("Repair Bot");
    reveal_strlit("Rabble Rouser");
    reveal_strlit("Looter");
    reveal_strlit("Sniper");
    reveal_strlit("Vigilante");
    reveal_strlit("Scout");
    let c = person_catalog();
    assert forall|i: int, j: int| 0 <= i < c.len() && 0 <= j < c.len() && i != j implies
        c[i].name != c[j].name by {
        if c[i].name.len() == c[j].name.len() {
            assert(c[i].name[0] != c[j].name[0]);
        }
    }
}

/// The Holdout is the only person type that may be played for free on a destroyed camp.
pub proof fn lemma_catalog_single_holdout()
    ensures
        forall|i: int| 0 <= i < person_catalog().len() ==>
            (#[trigger] person_catalog()[i].is_holdout <==> person_catalog()[i].name == "Holdout"@),
{
    lemma_catalog_names_distinct();
    let c = person_catalog();
    assert(c[2].name == "Holdout"@);
    assert forall|i: int| 0 <= i < c.len() implies (#[trigger] c[i].is_holdout <==> c[i].name == "Holdout"@) by {
        if i != 2 {
            assert(c[i].name != c[2].name);
        }
    }
}

/// Repair Bot is the only person type with an effect on entering play, and that effect
/// restores a card.
pub proof fn lemma_catalog_enter_play()
    ensures
        forall|i: int| 0 <= i < person_catalog().len() ==>
            (#[trigger] person_catalog()[i].on_enter_play is Some <==> person_catalog()[i].name == "Repair Bot"@),
        forall|i: int| 0 <= i < person_catalog().len() && #[trigger] person_catalog()[i].on_enter_play is Some
            ==> person_catalog()[i].on_enter_play == Some(EnterPlayEffect::RestoreCard),
{
    lemma_catalog_names_distinct();
    let c = person_catalog();
    assert(c[3].name == "Repair Bot"@);
    assert forall|i: int| 0 <= i < c.len() implies
        (#[trigger] c[i].on_enter_play is Some <==> c[i].name == "Repair Bot"@) by {
        if i != 3 {
            assert(c[i].name != c[3].name);
        }
    }
}

/// Every person type costs one or two water to play, has at least one ability, and no
/// ability costs more than two water.
pub proof fn lemma_catalog_costs()
    ensures
        forall|i: int| 0 <= i < person_catalog().len() ==> {
            &&& 1 <= #[trigger] person_catalog()[i].cost <= 2
            &&& person_catalog()[i].abilities.len() >= 1
            &&& forall|k: int| 0 <= k < person_catalog()[i].abilities.len()
                ==> ability_cost(#[trigger] person_catalog()[i].abilities[k]) <= 2
        },
{
}

/// Only the Holdout is free to play in the column of a destroyed camp; elsewhere, and every
/// other person anywhere, costs its printed cost.
pub proof fn lemma_catalog_play_costs(camp_destroyed: bool)
    ensures
        forall|i: int| 0 <= i < person_catalog().len() ==>
            (#[trigger] play_cost(person_catalog()[i], camp_destroyed) == 0
                <==> (camp_destroyed && person_catalog()[i].name == "Holdout"@)),
        forall|i: int| 0 <= i < person_catalog().len() ==>
            #[trigger] play_cost(person_catalog()[i], false) == person_catalog()[i].cost,
{
    lemma_catalog_single_holdout();
    lemma_catalog_costs();
    let c = person_catalog();
    assert forall|i: int| 0 <= i < c.len() implies
        (#[trigger] play_cost(c[i], camp_destroyed) == 0 <==> (camp_destroyed && c[i].name == "Holdout"@)) by {
        assert(c[i].is_holdout <==> c[i].name == "Holdout"@);
        assert(1 <= c[i].cost);
    }
}


/// The water cost of an ability is the cost it was built with.
pub proof fn law_ability_cost_is_its_own(c: u32, e: IconEffect, k: SpecialAbility)
    ensures
        ability_cost(Ability::Icon { cost: c, effect: e }) == c,
        ability_cost(Ability::Special { cost: c, kind: k }) == c,
{
}

/// Whether a special ability may be used follows its usability: always; exactly when the
/// icon effect could be performed; or exactly when its owner has a punk. The Cult Leader's,
/// the Looter's and the Sniper's abilities may always be used, the Gunner's when Injure
/// could be performed, and the Rabble Rouser's only with a punk.
pub proof fn law_can_perform_follows_usability(s: SpecialAbility, injure_usable: bool, has_punk: bool)
    ensures
        special_usability(s) == Usability::Always ==> special_can_perform(s, injure_usable, has_punk),
        special_usability(s) is AsIcon ==> special_can_perform(s, injure_usable, has_punk) == injure_usable,
        special_usability(s) == Usability::WithPunk ==> special_can_perform(s, injure_usable, has_punk) == has_punk,
        special_can_perform(SpecialAbility::DestroyOwnPersonThenDamage, injure_usable, has_punk),
        special_can_perform(SpecialAbility::DamageThenDrawIfCamp, injure_usable, has_punk),
        special_can_perform(SpecialAbility::DamageAnyEnemy, injure_usable, has_punk),
        special_can_perform(SpecialAbility::InjureAllUnprotectedEnemies, injure_usable, has_punk) == injure_usable,
        special_can_perform(SpecialAbility::DamageIfHasPunk, injure_usable, has_punk) == has_punk,
        special_usability(SpecialAbility::InjureAllUnprotectedEnemies) == Usability::AsIcon(IconEffect::Injure),
{
}

/// The text of each special ability, as printed; no two special abilities read the same.
pub proof fn law_special_descriptions()
    ensures
        special_description(SpecialAbility::DestroyOwnPersonThenDamage) == "Destroy one of your people, then damage"@,
        special_description(SpecialAbility::InjureAllUnprotectedEnemies) == "Injure all unprotected enemies"@,
        special_description(SpecialAbility::DamageIfHasPunk) == "(If you have a punk) Damage"@,
        special_description(SpecialAbility::DamageThenDrawIfCamp) == "Damage; if this hits a camp, draw"@,
        special_description(SpecialAbility::DamageAnyEnemy) == "Damage any (opponent) card"@,
        forall|a: SpecialAbility, b: SpecialAbility| a != b ==> #[trigger] special_description(a) != #[trigger] special_description(b),
{
    reveal_strlit("Destroy one of your people, then damage");
    reveal_strlit("Injure all unprotected enemies");
    reveal_strlit("(If you have a punk) Damage");
    reveal_strlit("Damage; if this hits a camp, draw");
    reveal_strlit("Damage any (opponent) card");
    assert forall|a: SpecialAbility, b: SpecialAbility| a != b implies special_description(a) != special_description(b) by {
        let x = special_description(a);
        let y = special_description(b);
        if x.len() == y.len() {
            assert(x[0] != y[0] || x[1] != y[1] || x[7] != y[7]);
        }
    }
}

/// A person that is not the Holdout costs its printed cost wherever it is played; the
/// Holdout costs its printed cost too, except in the column of a destroyed camp, where it
/// is free.
pub proof fn law_play_cost(p: PersonTypeView, camp_destroyed: bool)
    ensures
        !p.is_holdout ==> play_cost(p, camp_destroyed) == p.cost,
        !camp_destroyed ==> play_cost(p, camp_destroyed) == p.cost,
        p.is_holdout && camp_destroyed ==> play_cost(p, camp_destroyed) == 0,
{
}

/// Every card of the catalog, field by field, as printed.
pub proof fn law_catalog_cards()
    ensures
        person_catalog().len() == 9,
        person_catalog()[0] == (PersonTypeView {
            name: "Cult Leader"@, num_in_deck: 2, junk_effect: IconEffect::Draw, cost: 1,
            abilities: seq![Ability::Special { cost: 0, kind: SpecialAbility::DestroyOwnPersonThenDamage }],
            on_enter_play: None, is_holdout: false,
        }),
        person_catalog()[1] == (PersonTypeView {
            name: "Gunner"@, num_in_deck: 2, junk_effect: IconEffect::Restore, cost: 1,
            abilities: seq![Ability::Special { cost: 2, kind: SpecialAbility::InjureAllUnprotectedEnemies }],
            on_enter_play: None, is_holdout: false,
        }),
        person_catalog()[2] == (PersonTypeView {
            name: "Holdout"@, num_in_deck: 2, junk_effect: IconEffect::Raid, cost: 2,
            abilities: seq![Ability::Icon { cost: 1, effect: IconEffect::Damage }],
            on_enter_play: None, is_holdout: true,
        }),
        person_catalog()[3] == (PersonTypeView {
            name: "Repair Bot"@, num_in_deck: 2, junk_effect: IconEffect::Injure, cost: 1,
            abilities: seq![Ability::Icon { cost: 2, effect: IconEffect::Restore }],
            on_enter_play: Some(EnterPlayEffect::RestoreCard), is_holdout: false,
        }),
        person_catalog()[4] == (PersonTypeView {
            name: "Rabble Rouser"@, num_in_deck: 2, junk_effect: IconEffect::Raid, cost: 1,
            abilities: seq![
                Ability::Icon { cost: 1, effect: IconEffect::GainPunk },
                Ability::Special { cost: 1, kind: SpecialAbility::DamageIfHasPunk },
            ],
            on_enter_play: None, is_holdout: false,
        }),
        person_catalog()[5] == (PersonTypeView {
            name: "Looter"@, num_in_deck: 2, junk_effect: IconEffect::Water, cost: 1,
            abilities: seq![Ability::Special { cost: 2, kind: SpecialAbility::DamageThenDrawIfCamp }],
            on_enter_play: None, is_holdout: false,
        }),
        person_catalog()[6] == (PersonTypeView {
            name: "Sniper"@, num_in_deck: 2, junk_effect: IconEffect::Restore, cost: 1,
            abilities: seq![Ability::Special { cost: 2, kind: SpecialAbility::DamageAnyEnemy }],
            on_enter_play: None, is_holdout: false,
        }),
        person_catalog()[7] == (PersonTypeView {
            name: "Vigilante"@, num_in_deck: 2, junk_effect: IconEffect::Injure, cost: 1,
            abilities: seq![Ability::Icon { cost: 1, effect: IconEffect::Injure }],
            on_enter_play: None, is_holdout: false,
        }),
        person_catalog()[8] == (PersonTypeView {
            name: "Scout"@, num_in_deck: 2, junk_effect: IconEffect::Water, cost: 1,
            abilities: seq![Ability::Icon { cost: 1, effect: IconEffect::Raid }],
            on_enter_play: None, is_holdout: false,
        }),
{
}

/// The special ability an ability stands for, if it is not a plain icon ability.
pub open spec fn special_kind(a: Ability) -> Option<SpecialAbility> {
    match a {
        Ability::Special { kind, .. } => Some(kind),
        Ability::Icon { .. } => None,
    }
}

/// What the special abilities of the catalog are, when they may be used and what they
/// first ask the game to do; Repair Bot's effect on entering play restores a card and
/// never ends the game.
pub proof fn lemma_catalog_ability_behaviour(done: Seq<OpOutcome>)
    ensures
        special_kind(person_catalog()[0].abilities[0]) == Some(SpecialAbility::DestroyOwnPersonThenDamage),
        special_kind(person_catalog()[1].abilities[0]) == Some(SpecialAbility::InjureAllUnprotectedEnemies),
        special_kind(person_catalog()[4].abilities[1]) == Some(SpecialAbility::DamageIfHasPunk),
        special_kind(person_catalog()[5].abilities[0]) == Some(SpecialAbility::DamageThenDrawIfCamp),
        special_kind(person_catalog()[6].abilities[0]) == Some(SpecialAbility::DamageAnyEnemy),
        special_usability(SpecialAbility::DestroyOwnPersonThenDamage) == Usability::Always,
        special_usability(SpecialAbility::InjureAllUnprotectedEnemies) == Usability::AsIcon(IconEffect::Injure),
        special_usability(SpecialAbility::DamageIfHasPunk) == Usability::WithPunk,
        special_usability(SpecialAbility::DamageThenDrawIfCamp) == Usability::Always,
        special_usability(SpecialAbility::DamageAnyEnemy) == Usability::Always,
        special_step(SpecialAbility::DestroyOwnPersonThenDamage, Seq::empty())
            == PerformStep::Run(GameOp::DestroyOwnPerson),
        special_step(SpecialAbility::InjureAllUnprotectedEnemies, Seq::empty())
            == PerformStep::Run(GameOp::InjureAllUnprotectedEnemies),
        special_step(SpecialAbility::DamageIfHasPunk, Seq::empty())
            == PerformStep::Run(GameOp::PerformIcon(IconEffect::Damage)),
        special_step(SpecialAbility::DamageThenDrawIfCamp, Seq::empty()) == PerformStep::Run(GameOp::DamageEnemy),
        special_step(SpecialAbility::DamageAnyEnemy, Seq::empty()) == PerformStep::Run(GameOp::DamageAnyEnemy),
        done.len() >= 1 ==> special_step(SpecialAbility::InjureAllUnprotectedEnemies, done) == PerformStep::Return(Ok(())),
        done.len() == 1 ==> special_step(SpecialAbility::DestroyOwnPersonThenDamage, done)
            == PerformStep::Run(GameOp::PerformIcon(IconEffect::Damage)),
        done.len() >= 2 ==> special_step(SpecialAbility::DestroyOwnPersonThenDamage, done)
            == PerformStep::Return(outcome_result(done[1])),
        done.len() >= 1 ==> special_step(SpecialAbility::DamageAnyEnemy, done)
            == PerformStep::Return(outcome_result(done[0])),
        done.len() >= 1 ==> special_step(SpecialAbility::DamageIfHasPunk, done)
            == PerformStep::Return(outcome_result(done[0])),
        person_catalog()[3].on_enter_play == Some(EnterPlayEffect::RestoreCard),
        enter_play_step(EnterPlayEffect::RestoreCard, Seq::empty()) == PerformStep::Run(GameOp::RestoreCard),
        done.len() >= 1 ==> enter_play_step(EnterPlayEffect::RestoreCard, done) == PerformStep::Return(Ok(())),
{
}

fn abilities_of_one(a: Ability) -> (r: Vec<Ability>)
    ensures
        r@ == seq![a],
{
    let mut v: Vec<Ability> = Vec::new();
    v.push(a);
    v
}

fn abilities_of_two(a: Ability, b: Ability) -> (r: Vec<Ability>)
    ensures
        r@ == seq![a, b],
{
    let mut v: Vec<Ability> = Vec::new();
    v.push(a);
    v.push(b);
    v
}

/// Returns every person type of the game, in catalog order.
pub fn get_person_types() -> (r: Vec<PersonType>)
    ensures
        r@.len() == person_catalog().len(),
        forall|i: int| 0 <= i < r@.len() ==> #[trigger] r@[i]@ == person_catalog()[i],
{
    let mut v: Vec<PersonType> = Vec::new();
    v.push(PersonType {
        name: "Cult Leader",
        num_in_deck: 2,
        junk_effect: IconEffect::Draw,
        cost: 1,
        abilities: abilities_of_one(
            Ability::Special { cost: 0, kind: SpecialAbility::DestroyOwnPersonThenDamage },
        ),
        on_enter_play: None,
        is_holdout: false,
    });
    v.push(PersonType {
        name: "Gunner",
        num_in_deck: 2,
        junk_effect: IconEffect::Restore,
        cost: 1,
        abilities: abilities_of_one(
            Ability::Special { cost: 2, kind: SpecialAbility::InjureAllUnprotectedEnemies },
        ),
        on_enter_play: None,
        is_holdout: false,
    });
    v.push(PersonType {
        name: "Holdout",
        num_in_deck: 2,
        junk_effect: IconEffect::Raid,
        cost: 2,
        abilities: abilities_of_one(Ability::Icon { cost: 1, effect: IconEffect::Damage }),
        on_enter_play: None,
        is_holdout: true,
    });
    v.push(PersonType {
        name: "Repair Bot",
        num_in_deck: 2,
        junk_effect: IconEffect::Injure,
        cost: 1,
        abilities: abilities_of_one(Ability::Icon { cost: 2, effect: IconEffect::Restore }),
        on_enter_play: Some(EnterPlayEffect::RestoreCard),
        is_holdout: false,
    });
    v.push(PersonType {
        name: "Rabble Rouser",
        num_in_deck: 2,
        junk_effect: IconEffect::Raid,
        cost: 1,
        abilities: abilities_of_two(
            Ability::Icon { cost: 1, effect: IconEffect::GainPunk },
            Ability::Special { cost: 1, kind: SpecialAbility::DamageIfHasPunk },
        ),
        on_enter_play: None,
        is_holdout: false,
    });
    v.push(PersonType {
        name: "Looter",
        num_in_deck: 2,
        junk_effect: IconEffect::Water,
        cost: 1,
        abilities: abilities_of_one(
            Ability::Special { cost: 2, kind: SpecialAbility::DamageThenDrawIfCamp },
        ),
        on_enter_play: None,
        is_holdout: false,
    });
    v.push(PersonType {
        name: "Sniper",
        num_in_deck: 2,
        junk_effect: IconEffect::Restore,
        cost: 1,
        abilities: abilities_of_one(
            Ability::Special { cost: 2, kind: SpecialAbility::DamageAnyEnemy },
        ),
        on_enter_play: None,
        is_holdout: false,
    });
    v.push(PersonType {
        name: "Vigilante",
        num_in_deck: 2,
        junk_effect: IconEffect::Injure,
        cost: 1,
        abilities: abilities_of_one(Ability::Icon { cost: 1, effect: IconEffect::Injure }),
        on_enter_play: None,
        is_holdout: false,
    });
    v.push(PersonType {
        name: "Scout",
        num_in_deck: 2,
        junk_effect: IconEffect::Water,
        cost: 1,
        abilities: abilities_of_one(Ability::Icon { cost: 1, effect: IconEffect::Raid }),
        on_enter_play: None,
        is_holdout: false,
    });
    v
}

} // verus!
