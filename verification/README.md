# secret_dao

Verified instruction logic of two Solana programs.

* A Merkle-root registry: `InitializeRoot` stores a root, `UpdateLeaf` checks
  a leaf and its path against the stored root and stores the root of the new
  leaf, `VerifyZkProof` checks a digest of the root, public inputs and proof
  against a stored commitment.
* A token front end over SPL token: mint into a freshly created associated
  token account, burn (optionally with an encrypted receipt) and close an
  emptied account, transfer and close an emptied sender, and mint a reward to
  a batch of owners.

Layout:

* `src/` — the library, verified with Verus. `merkle_program` and
  `secredao_program` hold the instructions and their specifications,
  `merkle_laws` and `dao_laws` the properties proved of them, `digest` and
  `token` the calls into `solana-program`, `spl-token` and
  `spl-associated-token-account`.
* `app/` — the entry points: they convert the runtime's accounts, perform the
  cross-program invocations that the token logic asks for, and write back the
  stored root.
* `tests/` — tests run against the real outside crates.
