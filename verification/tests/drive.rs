//! Drives futures end to end with callbacks kept by handle, as a game loop does.

use moontool::choices::{Choice, ChoiceFuture, ChoiceKind, ChoiceRequest, Step, Value};
use moontool::game::{GameResult, Player};

struct Game {
    water: i32,
    log: Vec<String>,
}

type MapFn = Box<dyn Fn(&mut Game, Value<i32>) -> Result<Value<i32>, GameResult>>;
type ChainFn = Box<dyn Fn(&mut Game, Value<i32>) -> Result<ChoiceFuture<&'static str>, GameResult>>;
type FinishFn = Box<dyn Fn(&mut Game, Value<i32>) -> Result<Choice<&'static str, &'static str>, GameResult>>;

struct Callbacks {
    maps: Vec<MapFn>,
    chains: Vec<ChainFn>,
    finishes: Vec<FinishFn>,
}

fn drive(
    callbacks: &Callbacks,
    game: &mut Game,
    mut step: Step<&'static str, &'static str, i32>,
) -> Result<Choice<&'static str, &'static str>, GameResult> {
    loop {
        step = match step {
            Step::CallMap { callback, arg, rest } => {
                rest.resume_with_value(callbacks.maps[callback as usize](game, arg))
            }
            Step::CallChain { callback, arg, rest } => {
                rest.resume_with_future(callbacks.chains[callback as usize](game, arg))
            }
            Step::Finish { callback, arg } => return callbacks.finishes[callback as usize](game, arg),
            Step::Choose(choice) => return Ok(choice),
            Step::Ended(result) => return Err(result),
        };
    }
}

fn callbacks() -> Callbacks {
    Callbacks {
        maps: vec![
            // 0: gain two water, hand on the new total
            Box::new(|g: &mut Game, _| {
                g.water += 2;
                g.log.push("gain".to_string());
                Ok(Value::Data(g.water))
            }),
            // 1: spend the water handed in; running out ends the game
            Box::new(|g: &mut Game, v| match v {
                Value::Data(n) if n >= 3 => {
                    g.water -= 3;
                    g.log.push("spend".to_string());
                    Ok(Value::Unit)
                }
                _ => Err(GameResult::P2Wins),
            }),
        ],
        chains: vec![
            // 0: ask player 1 to damage a card
            Box::new(|g: &mut Game, _| {
                g.log.push("ask".to_string());
                Ok(ChoiceFuture::awaiting_choice(ChoiceRequest {
                    kind: ChoiceKind::Damage,
                    chooser: Player::Player1,
                    payload: "enemy cards",
                }))
            }),
        ],
        finishes: vec![
            // 0: back to the turn's actions
            Box::new(|g: &mut Game, _| {
                g.log.push("actions".to_string());
                Ok(Choice::new_actions(vec!["end turn"]))
            }),
        ],
    }
}

#[test]
fn driver_runs_stages_and_stops_at_choice() {
    let cbs = callbacks();
    let mut game = Game { water: 1, log: Vec::new() };
    let future = ChoiceFuture::immediate().then_future(0).then_future(1).then_future_chain(0);
    let choice = drive(&cbs, &mut game, future.and_then(0)).ok().unwrap();
    assert_eq!(game.water, 0);
    let pending = match choice {
        Choice::Damage(p) => p,
        _ => panic!("expected a damage choice"),
    };
    assert_eq!(*pending.payload(), "enemy cards");
    let next = drive(&cbs, &mut game, pending.resolve(Ok(Value::Data(4)))).ok().unwrap();
    assert!(matches!(next, Choice::Action(_)));
    assert_eq!(game.log, vec!["gain", "spend", "ask", "actions"]);
}

#[test]
fn driver_stops_when_callback_ends_game() {
    let cbs = callbacks();
    let mut game = Game { water: 0, log: Vec::new() };
    let future = ChoiceFuture::<&'static str>::immediate().then_future(0).then_future(1).then_future(0);
    let result = drive(&cbs, &mut game, future.and_then(0));
    assert!(matches!(result, Err(GameResult::P2Wins)));
    assert_eq!(game.log, vec!["gain"]);
}
