# bounty_board

A bounty board: posters lock lamports in escrow for a task, a developer
submits work, and the poster either pays the developer or cancels and gets
the escrow back. A web service indexes bounties, submissions and users.

- `src/pubkey.rs`: 32-byte account keys.
- `src/chain/`: the on-chain program. `board.rs` holds the accounts, their
  lamports and the rent-exempt minimums in force, `accounts.rs` the
  accounts each instruction names, `program.rs` the instructions with exact
  contracts over that model (which error refuses a request, and what an
  accepted one does, rent included), `laws.rs` what holds over all boards
  and instructions (escrow, conservation, status order).
  Each instruction takes the keys that signed its transaction and refuses
  one whose signer is not among them. The model leaves out what the runtime
  does around the program: it charges no transaction fees, and it names
  program-derived addresses by their seeds rather than hashing them. The
  rent-exempt minimums are given to the board, not computed from account
  sizes.
- `src/server/`: the service's rows and bodies and what its handlers decide.
- `app/`: the HTTP server (axum, sqlx) around the library.
