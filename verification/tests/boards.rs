use moontool::choices::{column_targets, Board, CardTarget, ChoiceKind};
use moontool::game::Player;
use moontool::people::get_person_types;

#[test]
fn choice_answers_act_on_the_right_board() {
    assert_eq!(ChoiceKind::PlayLoc.board(), Board::Chooser);
    assert_eq!(ChoiceKind::Damage.board(), Board::Target);
    assert_eq!(ChoiceKind::Restore.acted_on(Player::Player1), Some(Player::Player1));
    assert_eq!(ChoiceKind::RescuePerson.acted_on(Player::Player2), Some(Player::Player2));
    assert_eq!(ChoiceKind::IconEffect.acted_on(Player::Player2), Some(Player::Player2));
    assert_eq!(ChoiceKind::MoveEvents.acted_on(Player::Player1), Some(Player::Player2));
    assert_eq!(ChoiceKind::DamageColumn.acted_on(Player::Player2), Some(Player::Player1));
    assert_eq!(ChoiceKind::Damage.acted_on(Player::Player1), None);
}

#[test]
fn only_damage_hands_its_answer_on() {
    assert!(ChoiceKind::Damage.passes_answer());
    for kind in [
        ChoiceKind::PlayLoc,
        ChoiceKind::Restore,
        ChoiceKind::IconEffect,
        ChoiceKind::RescuePerson,
        ChoiceKind::MoveEvents,
        ChoiceKind::DamageColumn,
    ] {
        assert!(!kind.passes_answer());
    }
}

#[test]
fn damaging_a_column_hits_each_card_row() {
    let targets = column_targets(2u8, &["camp", "back", "front"], Player::Player2);
    assert_eq!(
        targets,
        vec![
            CardTarget { column: 2u8, row: "camp", player: Player::Player2 },
            CardTarget { column: 2u8, row: "back", player: Player::Player2 },
            CardTarget { column: 2u8, row: "front", player: Player::Player2 },
        ]
    );
    assert!(column_targets(0u8, &[] as &[u8], Player::Player1).is_empty());
}

#[test]
fn holdout_is_free_on_a_destroyed_camp() {
    let types = get_person_types();
    assert_eq!(types[2].play_cost(true), 0);
    assert_eq!(types[2].play_cost(false), 2);
    assert_eq!(types[0].play_cost(true), 1);
    assert_eq!(types[0].play_cost(false), 1);
}
