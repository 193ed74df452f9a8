# orchestrator_convos

The conversations that the orchestrator of the space exploration game holds
with its explorers (and the planets they move between), written as verified
state machines.

A conversation is an id and a state. The orchestrator routes to it the message
it waits for (or none, when it is about to act), and `Conversation::transition`
says what happens next: the conversation ends, moves to another state, releases
the channels of a dead explorer, or asks for something to be sent. In the last
case the orchestrator sends it and hands the outcome to `AfterDispatch::resolve`,
which yields the next state; how a send went is itself decided by
`messages::dispatch_outcome` from what the lookups found. Every transition is proved against its
specification in `src/step.rs`; `src/laws.rs` proves properties of all of them
(termination, kept ids, rejection of unexpected messages, what a kill queue and
a granted move achieve).

Layout:

- `src/messages.rs`: message kinds, messages received, commands sent.
- `src/states.rs`: one struct per state, and their sum.
- `src/conversation.rs`: the conversation and what the scheduler asks of it.
- `src/step.rs`: the transitions.
- `src/errors.rs`, `src/text.rs`: errors and their reports.
- `src/galaxy.rs`: planets and their neighbors.
- `src/locations.rs`: where each explorer stands, kept in a `dashmap::DashMap`.
- `src/laws.rs`: the proved properties.
- `app/`: conversions to and from the game's protocol (`common-game`), the
  channels (`crossbeam-channel`), and a driver that runs one transition.
