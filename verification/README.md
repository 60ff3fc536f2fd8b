# vrf_policy

The per-VRF configuration of a BGP daemon and the routing policy that it refers
to, written in Rust and verified with Verus.

## Layout

- `src/bgp/` stages the configuration of VRFs. Each callback takes the
  arguments of a configuration path and an operation, and its contract says
  what becomes of the instance. `staging.rs` holds what the callbacks share,
  `vrf_config.rs` the leaves, `networks.rs` the prefixes and redistribution,
  `prefix_set.rs` the bindings to prefix-sets and their publication,
  `structure.rs` the comparison of what running VRFs are built from.
  `laws.rs` and `transaction.rs` hold what is proved of the callbacks together.
- `src/policy/` is the policy service: named sets (`sets.rs`), policies
  (`list.rs`), clients and their watches (`watch.rs`, `syncer.rs`), requests and
  commits (`inst.rs`, `commit.rs`), and the policies that a changed set reaches
  (`cascade.rs`). `laws.rs` and `commit_laws.rs` hold what is proved of it.
- `src/sorted_map.rs`, `src/order.rs`, `src/value.rs`, `src/text.rs`,
  `src/net.rs` and `src/args.rs` are what both rest on: ordered maps and sets,
  copying and comparing by model, reading numbers, prefixes and arguments.
- `app/` holds the actors: channels, event loops, and the reading of addresses.
- `tests/` runs the library.

## What is taken on trust

Prefixes are read by the `ipnet` crate. Its three calls stand in `src/net.rs`,
each with the contract that the proofs rest on. Addresses and route
distinguishers reach the library as values, read where a command is taken in.

The library sends nothing itself. What is to be told waits in an outbox, which
the actors empty in order after every call.
