# automint-marketplace

A Soroban marketplace for trading bots that are kept in an NFT contract, with its
rules verified in Verus.

- `src/` is the verified library. `MarketplaceContract` in `src/contract.rs`
  answers each request from the ledger entries that it reads: with the actions that
  the network is to carry out, in order, and the result. `src/model.rs` states the
  answers; `src/consistency.rs`, `src/payments.rs`, `src/escrow.rs`, `src/pages.rs`
  and `src/laws.rs` prove what follows from them. `src/id_list.rs` holds what is
  trusted of `soroban_sdk::Vec`.
- `tests/` runs the library on a small network of its own.
- `app/` is the contract on the network: it reads ledger entries, and carries out
  what the library answers.
