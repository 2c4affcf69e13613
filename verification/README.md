# capi_core

The core of a platform for DAOs on Algorand, verified with Verus: the share and dividend
arithmetic, the splitting of drained funds between a DAO and the platform, the rendering of
the TEAL programs of the DAO's application and escrows, and the transaction groups of each
flow (create and set up a DAO or a project, invest, lock, claim, harvest, drain, reclaim,
pay, rekey, save a project in a note).

- `src/` is the verified library. Each flow is a function from plain values (addresses, ids,
  amounts, suggested parameters, compiled programs) to the transactions to sign, with a
  contract over the views of those transactions. What only the chain's SDK or a codec crate
  computes (transaction encoding, group ids, application and program addresses, decimal
  arithmetic, SHA-512/256, base32 and base64) is called through small trusted wrappers in
  `src/chain.rs`, `src/decimal.rs` and `src/encoding.rs`, whose results are named.
- A DAO's creation group starts with the DAO's setup call, which sends the init data of
  `DaoInitData` (asset ids, name, hashes, share price, investors' share, url, program
  versions, raise target and end date); the escrows' addresses are not among its arguments.
- `tests/` runs the library on concrete values, with the outside crates linked.
- `app/` is the node access around it: fetching parameters and account data, compiling TEAL,
  signing with contract accounts, broadcasting, and the serde form of a stored project.
