# moontool

The rules core of an engine for the Radlands card game, written in Verus.

- `src/game.rs`: players, game results, icon effects, and the turn sequence of a game
  (`first_turn`, `after_turn`).
- `src/people.rs`: the catalog of person cards, with its contract (`get_person_types`
  returns exactly `person_catalog()`) and proved facts about the deck. Special abilities
  and enter-play effects state when they may be used and, step by step, which game
  operations they ask for and what result they pass on (`special_step`,
  `enter_play_step`).
- `src/choices.rs`: choices and choice futures. A future describes game logic that may
  have to wait for a player's decision. Game callbacks are referred to by `u64` handles;
  composing futures appends stages, and attaching the final callback (`and_then`) yields the
  next `Step` for the driver: run a callback, ask a player a choice, or end the game.
  The driver keeps the callbacks and hands their results back (`resume_with_value`,
  `resume_with_future`, `PendingChoice::resolve*`). The sequencing rules (immediate futures,
  game ends that skip every stage, short-circuiting on a callback's failure, splicing of
  chained futures, stages that compose) are proved as lemmas.
- `src/runs.rs`: whole runs of futures under a model of the driver (`Driver`, `run`,
  `runs_to`), and the laws of the combinators over whole runs (`law_then_future`,
  `law_then_future_chain`, `law_ignore_result`, associativity, identities and more),
  proved from one general lemma: futures whose tails behave the same behave the same.
- `app/main.rs`: command-line front end.
- `tests/`: scenario tests, including an end-to-end driver with callbacks kept by handle.
