# Parachain template node

How a parachain template node starts, written in Verus.

A node is put together out of some twenty parts: a client and its backend, a transaction pool, an
import queue, a network, a relay chain node, a consensus. Which of them a node gets, in which order
they are made, what each is made with, and what becomes of a failure is decided in `src/`, and
proved there. The parts themselves come from Substrate, Cumulus and Polkadot, and are made in
`app/`.

## Layout

- `src/startup.rs`: the machine that carries any start-up out. A start-up asks its driver for one
  action at a time and is told what came of it.
- `src/action.rs`, `src/components.rs`, `src/config.rs`, `src/executor.rs`, `src/rpc.rs`,
  `src/error.rs`: what a start-up asks for and is told.
- `src/partial.rs`: the parts that every kind of node is built on (`new_partial`).
- `src/parachain.rs`, `src/consensus.rs`: a parachain node (`start_parachain_node`).
- `src/instant_seal.rs`: a node that stands alone (`start_instant_seal_node`).
- `src/node.rs`: what both kinds of node do with the parts they are built on.
- `src/inherents.rs`: what block authors put into a block that no transaction carries. The actions
  that make an import queue, a Nimbus consensus or a seal task hold the value that makes it for
  every block to come.
- `src/laws.rs`, `src/laws/`: what holds of every start-up, as public proof functions.
- `app/`: the driver. It files every part under a number, performs actions, and hands the results
  back.

## How a start-up is specified

A procedure has a plan: the sequence of actions that it asks for. An action names parts that
earlier actions brought, so a plan is a function of the answers. The contracts of `due`, `reply`
and `into_outcome` say that a start-up goes through its plan in order, that the first failure ends
it, and what it ends with.
