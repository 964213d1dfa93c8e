use moontool::choices::{
    place_person, Choice, ChoiceFuture, ChoiceKind, ChoiceRequest, Continuation, Step, Value,
};
use moontool::game::{GameResult, Player};

type TestStep = Step<&'static str, &'static str, i32>;

fn request(kind: ChoiceKind) -> ChoiceRequest<&'static str> {
    ChoiceRequest { kind, chooser: Player::Player1, payload: "options" }
}

fn expect_call_map(step: TestStep, want_callback: u64) -> (Value<i32>, Continuation) {
    match step {
        Step::CallMap { callback, arg, rest } => {
            assert_eq!(callback, want_callback);
            (arg, rest)
        }
        _ => panic!("expected a call of a then_future callback"),
    }
}

fn expect_call_chain(step: TestStep, want_callback: u64) -> (Value<i32>, Continuation) {
    match step {
        Step::CallChain { callback, arg, rest } => {
            assert_eq!(callback, want_callback);
            (arg, rest)
        }
        _ => panic!("expected a call of a then_future_chain callback"),
    }
}

#[test]
fn immediate_runs_final_callback_at_once() {
    let step: TestStep = ChoiceFuture::<&'static str>::immediate().and_then(7);
    assert!(matches!(step, Step::Finish { callback: 7, arg: Value::Unit }));
}

#[test]
fn end_game_skips_every_stage() {
    let step: TestStep = ChoiceFuture::<&'static str>::end_game(GameResult::P2Wins)
        .then_future(1)
        .then_future_chain(2)
        .ignore_result()
        .and_then(3);
    assert!(matches!(step, Step::Ended(GameResult::P2Wins)));
}

#[test]
fn then_future_value_reaches_final_callback() {
    let step: TestStep = ChoiceFuture::<&'static str>::immediate().then_future(1).and_then(9);
    let (arg, rest) = expect_call_map(step, 1);
    assert!(matches!(arg, Value::Unit));
    let next: TestStep = rest.resume_with_value(Ok(Value::Data(5)));
    assert!(matches!(next, Step::Finish { callback: 9, arg: Value::Data(5) }));
}

#[test]
fn then_future_error_ends_game() {
    let step: TestStep =
        ChoiceFuture::<&'static str>::immediate().then_future(1).then_future(2).and_then(9);
    let (_, rest) = expect_call_map(step, 1);
    let next: TestStep = rest.resume_with_value(Err(GameResult::Tie));
    assert!(matches!(next, Step::Ended(GameResult::Tie)));
}

#[test]
fn then_futures_run_in_order() {
    let step: TestStep =
        ChoiceFuture::<&'static str>::immediate().then_future(1).then_future(2).and_then(9);
    let (_, rest) = expect_call_map(step, 1);
    let step2: TestStep = rest.resume_with_value(Ok(Value::Data(10)));
    let (arg, rest2) = expect_call_map(step2, 2);
    assert!(matches!(arg, Value::Data(10)));
    let step3: TestStep = rest2.resume_with_value(Ok(Value::Data(11)));
    assert!(matches!(step3, Step::Finish { callback: 9, arg: Value::Data(11) }));
}

#[test]
fn ignore_result_drops_value() {
    let step: TestStep =
        ChoiceFuture::<&'static str>::immediate().then_future(1).ignore_result().and_then(9);
    let (_, rest) = expect_call_map(step, 1);
    let next: TestStep = rest.resume_with_value(Ok(Value::Data(42)));
    assert!(matches!(next, Step::Finish { callback: 9, arg: Value::Unit }));
}

#[test]
fn chain_with_immediate_inner_future_goes_on_with_no_value() {
    let step: TestStep =
        ChoiceFuture::<&'static str>::immediate().then_future_chain(3).then_future(4).and_then(9);
    let (_, rest) = expect_call_chain(step, 3);
    let next: TestStep = rest.resume_with_future(Ok(ChoiceFuture::immediate()));
    let (arg, _) = expect_call_map(next, 4);
    assert!(matches!(arg, Value::Unit));
}

#[test]
fn chain_with_end_game_inner_future_ends_game() {
    let step: TestStep =
        ChoiceFuture::<&'static str>::immediate().then_future_chain(3).then_future(4).and_then(9);
    let (_, rest) = expect_call_chain(step, 3);
    let next: TestStep = rest.resume_with_future(Ok(ChoiceFuture::end_game(GameResult::P1Wins)));
    assert!(matches!(next, Step::Ended(GameResult::P1Wins)));
}

#[test]
fn chain_error_ends_game() {
    let step: TestStep = ChoiceFuture::<&'static str>::immediate().then_future_chain(3).and_then(9);
    let (_, rest) = expect_call_chain(step, 3);
    let next: TestStep = rest.resume_with_future(Err(GameResult::P2Wins));
    assert!(matches!(next, Step::Ended(GameResult::P2Wins)));
}

#[test]
fn chained_choice_resumes_into_outer_stages() {
    let step: TestStep =
        ChoiceFuture::<&'static str>::immediate().then_future_chain(3).then_future(4).and_then(9);
    let (_, rest) = expect_call_chain(step, 3);
    let inner = ChoiceFuture::awaiting_choice(request(ChoiceKind::Damage)).then_future(5);
    let asked: TestStep = rest.resume_with_future(Ok(inner));
    let pending = match asked {
        Step::Choose(Choice::Damage(p)) => p,
        _ => panic!("expected a damage choice"),
    };
    assert_eq!(pending.chooser(), Player::Player1);
    assert_eq!(*pending.payload(), "options");
    let after: TestStep = pending.resolve(Ok(Value::Data(77)));
    let (arg, rest2) = expect_call_map(after, 5);
    assert!(matches!(arg, Value::Data(77)));
    let after2: TestStep = rest2.resume_with_value(Ok(Value::Data(78)));
    let (arg2, rest3) = expect_call_map(after2, 4);
    assert!(matches!(arg2, Value::Data(78)));
    let last: TestStep = rest3.resume_with_value(Ok(Value::Unit));
    assert!(matches!(last, Step::Finish { callback: 9, arg: Value::Unit }));
}

#[test]
fn awaiting_choice_becomes_variant_of_its_kind() {
    let kinds = [
        ChoiceKind::PlayLoc,
        ChoiceKind::Damage,
        ChoiceKind::Restore,
        ChoiceKind::IconEffect,
        ChoiceKind::RescuePerson,
        ChoiceKind::MoveEvents,
        ChoiceKind::DamageColumn,
    ];
    for kind in kinds {
        let step: TestStep = ChoiceFuture::awaiting_choice(request(kind)).and_then(1);
        let ok = match (kind, step) {
            (ChoiceKind::PlayLoc, Step::Choose(Choice::PlayLoc(_))) => true,
            (ChoiceKind::Damage, Step::Choose(Choice::Damage(_))) => true,
            (ChoiceKind::Restore, Step::Choose(Choice::Restore(_))) => true,
            (ChoiceKind::IconEffect, Step::Choose(Choice::IconEffect(_))) => true,
            (ChoiceKind::RescuePerson, Step::Choose(Choice::RescuePerson(_))) => true,
            (ChoiceKind::MoveEvents, Step::Choose(Choice::MoveEvents(_))) => true,
            (ChoiceKind::DamageColumn, Step::Choose(Choice::DamageColumn(_))) => true,
            _ => false,
        };
        assert!(ok);
    }
}

#[test]
fn choice_answer_with_effect_future_runs_it_first() {
    let step: TestStep =
        ChoiceFuture::awaiting_choice(request(ChoiceKind::PlayLoc)).then_future(6).and_then(9);
    let pending = match step {
        Step::Choose(Choice::PlayLoc(p)) => p,
        _ => panic!("expected a play-location choice"),
    };
    let effect = ChoiceFuture::<&'static str>::immediate().then_future(8);
    let next: TestStep = pending.resolve_with_future(Ok(effect));
    let (_, rest) = expect_call_map(next, 8);
    let next2: TestStep = rest.resume_with_value(Ok(Value::Data(1)));
    let (arg, _) = expect_call_map(next2, 6);
    assert!(matches!(arg, Value::Data(1)));
}

#[test]
fn choice_answer_error_ends_game() {
    let step: TestStep =
        ChoiceFuture::awaiting_choice(request(ChoiceKind::Restore)).then_future(6).and_then(9);
    let pending = match step {
        Step::Choose(Choice::Restore(p)) => p,
        _ => panic!("expected a restore choice"),
    };
    let next: TestStep = pending.resolve(Err(GameResult::P1Wins));
    assert!(matches!(next, Step::Ended(GameResult::P1Wins)));
}

#[test]
fn action_choice_lists_and_picks_actions() {
    let choice: Choice<&'static str, ()> = Choice::new_actions(vec!["draw", "junk", "end turn"]);
    let actions = match &choice {
        Choice::Action(a) => a,
        _ => panic!("expected an action choice"),
    };
    assert_eq!(actions.actions(), &["draw", "junk", "end turn"]);
    assert_eq!(actions.choose_action(1), Some(&"junk"));
    assert_eq!(actions.choose_action(3), None);
}

#[test]
fn place_person_in_empty_slot() {
    let mut slots = [None, Some("Scout")];
    place_person(&mut slots, 0, "Sniper");
    assert_eq!(slots, [Some("Sniper"), Some("Scout")]);
}

#[test]
fn place_person_pushes_occupant_to_other_slot() {
    let mut slots = [None, Some("Scout")];
    place_person(&mut slots, 1, "Looter");
    assert_eq!(slots, [Some("Scout"), Some("Looter")]);
}

#[test]
fn resolve_after_no_effect_goes_on_with_no_value() {
    let step: TestStep =
        ChoiceFuture::awaiting_choice(request(ChoiceKind::IconEffect)).then_future(6).and_then(9);
    let pending = match step {
        Step::Choose(Choice::IconEffect(p)) => p,
        _ => panic!("expected an icon-effect choice"),
    };
    let next: TestStep = pending.resolve_after_effect(None);
    let (arg, _) = expect_call_map(next, 6);
    assert!(matches!(arg, Value::Unit));
}

#[test]
fn resolve_after_effect_that_ends_game() {
    let step: TestStep =
        ChoiceFuture::awaiting_choice(request(ChoiceKind::PlayLoc)).then_future(6).and_then(9);
    let pending = match step {
        Step::Choose(Choice::PlayLoc(p)) => p,
        _ => panic!("expected a play-location choice"),
    };
    let next: TestStep = pending.resolve_after_effect(Some(Ok(ChoiceFuture::end_game(GameResult::Tie))));
    assert!(matches!(next, Step::Ended(GameResult::Tie)));
}
