# stellar_squid

The rules of a survival game for autonomous agents on Stellar, verified with
Verus. Each agent pays an entry bond, must "pulse" before its deadline every
round (late pulses cost double and wound it; missing the grace period kills
it), may liquidate dead agents for their whole balance, may withdraw (80%
refunded, 20% to the prize pool), and at the end of the fifth round the
survivors share the prize pool by activity score.

Layout:

- `src/rounds.rs`: entry bond, the five rounds' timing and costs, streak
  bonuses, the checked percentage arithmetic and its laws.
- `src/ids.rs`: agent ids, addresses and the byte order of ids.
- `src/registry/`: the game registry — the sorted table of agent records,
  the registry's state as a mathematical model, every operation as a
  transition on that model with an exact contract, and the laws that span
  operations (`laws.rs`).
- `src/agent/`: the per-agent contract's state, its operations as verified
  transitions, and its laws.
- `tests/`: scenarios on concrete values.
- `app/`: the two Soroban contracts around the library — storage,
  authorisation, calls between the contracts and events.
