use moontool::game::{GameResult, IconEffect, Player};
use moontool::people::{get_person_types, Ability, EnterPlayEffect, SpecialAbility};

#[test]
fn catalog_lists_nine_person_types_in_order() {
    let names: Vec<&str> = get_person_types().iter().map(|p| p.display_name()).collect();
    assert_eq!(
        names,
        vec![
            "Cult Leader",
            "Gunner",
            "Holdout",
            "Repair Bot",
            "Rabble Rouser",
            "Looter",
            "Sniper",
            "Vigilante",
            "Scout"
        ]
    );
}

#[test]
fn catalog_deck_has_eighteen_people() {
    let types = get_person_types();
    assert!(types.iter().all(|p| p.num_in_deck == 2));
    assert_eq!(types.iter().map(|p| p.num_in_deck).sum::<u32>(), 18);
}

#[test]
fn catalog_has_single_holdout() {
    let types = get_person_types();
    let holdouts: Vec<&str> = types.iter().filter(|p| p.is_holdout).map(|p| p.name).collect();
    assert_eq!(holdouts, vec!["Holdout"]);
    let holdout = &types[2];
    assert_eq!(holdout.cost, 2);
    assert_eq!(holdout.junk_effect, IconEffect::Raid);
    assert_eq!(holdout.abilities, vec![Ability::Icon { cost: 1, effect: IconEffect::Damage }]);
}

#[test]
fn catalog_only_repair_bot_enters_play_with_effect() {
    let types = get_person_types();
    let with_effect: Vec<(&str, EnterPlayEffect)> =
        types.iter().filter_map(|p| p.on_enter_play.map(|e| (p.name, e))).collect();
    assert_eq!(with_effect, vec![("Repair Bot", EnterPlayEffect::RestoreCard)]);
}

#[test]
fn catalog_costs_and_abilities() {
    let types = get_person_types();
    for p in &types {
        assert!(p.cost >= 1 && p.cost <= 2);
        assert!(!p.abilities.is_empty());
        assert!(p.abilities.iter().all(|a| a.cost() <= 2));
    }
    assert_eq!(
        types[4].abilities,
        vec![
            Ability::Icon { cost: 1, effect: IconEffect::GainPunk },
            Ability::Special { cost: 1, kind: SpecialAbility::DamageIfHasPunk },
        ]
    );
    assert_eq!(types[0].abilities[0].cost(), 0);
    assert_eq!(types[5].junk_effect, IconEffect::Water);
}

#[test]
fn special_ability_descriptions() {
    assert_eq!(
        SpecialAbility::DestroyOwnPersonThenDamage.description(),
        "Destroy one of your people, then damage"
    );
    assert_eq!(SpecialAbility::InjureAllUnprotectedEnemies.description(), "Injure all unprotected enemies");
    assert_eq!(SpecialAbility::DamageIfHasPunk.description(), "(If you have a punk) Damage");
    assert_eq!(SpecialAbility::DamageThenDrawIfCamp.description(), "Damage; if this hits a camp, draw");
    assert_eq!(SpecialAbility::DamageAnyEnemy.description(), "Damage any (opponent) card");
}

#[test]
fn players_alternate() {
    assert_eq!(Player::Player1.other(), Player::Player2);
    assert_eq!(Player::Player2.other(), Player::Player1);
    assert_eq!(Player::Player1.other().other(), Player::Player1);
}

#[test]
fn end_messages() {
    assert_eq!(GameResult::P1Wins.end_message(), "player 1 wins!");
    assert_eq!(GameResult::P2Wins.end_message(), "player 2 wins!");
    assert_eq!(GameResult::Tie.end_message(), "tie!");
}

use moontool::game::{after_turn, first_turn, TurnAction};
use moontool::people::{GameOp, OpOutcome, PerformStep, Usability};

fn run_ability(
    kind: SpecialAbility,
    outcomes: &[OpOutcome],
) -> (Vec<GameOp>, Result<(), GameResult>) {
    let mut done = Vec::new();
    let mut ops = Vec::new();
    loop {
        match kind.next_step(&done) {
            PerformStep::Run(op) => {
                ops.push(op);
                done.push(outcomes[done.len()]);
            }
            PerformStep::Return(r) => return (ops, r),
        }
    }
}

#[test]
fn special_abilities_usability() {
    let types = get_person_types();
    let kind = |i: usize, k: usize| match types[i].abilities[k] {
        Ability::Special { kind, .. } => kind,
        _ => panic!("expected a special ability"),
    };
    assert_eq!(kind(0, 0).usability(), Usability::Always);
    assert_eq!(kind(1, 0).usability(), Usability::AsIcon(IconEffect::Injure));
    assert_eq!(kind(4, 1).usability(), Usability::WithPunk);
    assert_eq!(kind(5, 0).usability(), Usability::Always);
    assert_eq!(kind(6, 0).usability(), Usability::Always);
    assert!(kind(0, 0).can_perform(false, false));
    assert!(!kind(1, 0).can_perform(false, true));
    assert!(kind(1, 0).can_perform(true, false));
    assert!(!kind(4, 1).can_perform(true, false));
    assert!(kind(4, 1).can_perform(false, true));
}

#[test]
fn looter_draws_only_after_hitting_a_camp() {
    let looter = SpecialAbility::DamageThenDrawIfCamp;
    assert_eq!(
        run_ability(looter, &[OpOutcome::Damaged { camp: true }, OpOutcome::Done]),
        (vec![GameOp::DamageEnemy, GameOp::DrawCardIntoHand], Ok(()))
    );
    assert_eq!(
        run_ability(looter, &[OpOutcome::Damaged { camp: false }]),
        (vec![GameOp::DamageEnemy], Ok(()))
    );
    assert_eq!(
        run_ability(looter, &[OpOutcome::Failed(GameResult::P1Wins)]),
        (vec![GameOp::DamageEnemy], Err(GameResult::P1Wins))
    );
    assert_eq!(
        run_ability(looter, &[OpOutcome::Damaged { camp: true }, OpOutcome::Failed(GameResult::Tie)]),
        (vec![GameOp::DamageEnemy, GameOp::DrawCardIntoHand], Err(GameResult::Tie))
    );
}

#[test]
fn other_special_abilities_steps() {
    assert_eq!(
        run_ability(
            SpecialAbility::DestroyOwnPersonThenDamage,
            &[OpOutcome::Done, OpOutcome::Failed(GameResult::P2Wins)]
        ),
        (
            vec![GameOp::DestroyOwnPerson, GameOp::PerformIcon(IconEffect::Damage)],
            Err(GameResult::P2Wins)
        )
    );
    assert_eq!(
        run_ability(SpecialAbility::InjureAllUnprotectedEnemies, &[OpOutcome::Done]),
        (vec![GameOp::InjureAllUnprotectedEnemies], Ok(()))
    );
    assert_eq!(
        run_ability(SpecialAbility::DamageIfHasPunk, &[OpOutcome::Done]),
        (vec![GameOp::PerformIcon(IconEffect::Damage)], Ok(()))
    );
    assert_eq!(
        run_ability(SpecialAbility::DamageAnyEnemy, &[OpOutcome::Failed(GameResult::P1Wins)]),
        (vec![GameOp::DamageAnyEnemy], Err(GameResult::P1Wins))
    );
}

#[test]
fn repair_bot_restores_and_never_ends_game() {
    let effect = get_person_types()[3].on_enter_play.unwrap();
    assert!(matches!(effect.next_step(&[]), PerformStep::Run(GameOp::RestoreCard)));
    assert!(matches!(effect.next_step(&[OpOutcome::Done]), PerformStep::Return(Ok(()))));
    assert!(matches!(
        effect.next_step(&[OpOutcome::Failed(GameResult::P2Wins)]),
        PerformStep::Return(Ok(()))
    ));
}

#[test]
fn turns_follow_each_other_until_game_ends() {
    assert_eq!(first_turn(), TurnAction::Play { number: 1, first: true });
    assert_eq!(after_turn(1, Ok(())), TurnAction::Play { number: 2, first: false });
    assert_eq!(after_turn(7, Ok(())), TurnAction::Play { number: 8, first: false });
    assert_eq!(after_turn(7, Err(GameResult::Tie)), TurnAction::Announce(GameResult::Tie));
}
