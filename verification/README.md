# miden_clob

Tooling for benchmarking central-limit-order-book designs on the Miden rollup, with its
logic verified by Verus.

- `src/` is the verified library:
  - `swap` — the arithmetic of a partially fillable swap note (SWAPP) and its laws
    (conservation, full fills, rounding in the note's favour, completing a note in two fills);
  - `notes` — the notes of the order book (SWAPP, private and cancellable SWAPP, P2ID, option
    contract) described by plain values: inputs layout, tags, assets, serial numbers;
  - `falcon` — the advice-stack data for checking an RPO-Falcon512 signature in a Miden program;
  - `field` — canonical field elements and the RPO hash of `miden-crypto`;
  - `multisig` — the storage map of authorized public keys (a `miden-objects` `StorageMap`);
  - `setup`, `polling` — the decisions of the client's funding and polling loops;
  - `note_build` — turning note drafts into `miden-objects` notes, and the option contract's
    pair of notes;
  - `library` — assembling a Miden assembly library with `miden-assembly`;
  - `accounts` — building basic wallets, basic fungible faucets and the signature-check
    account with `miden-objects` and `miden-lib`.
- `app/` is the client glue: reading the anchor block and note scripts, adding accounts to
  the client, minting, polling the node, and the keystore and store on disk.
- `tests/` runs the library, and checks it against `miden-crypto`, `miden-objects` and
  `miden-lib` where they compute the same values.
