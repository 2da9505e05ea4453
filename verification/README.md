# idl_verification

A Solana program may keep its interface description (IDL) on chain, in an account of the
program-metadata program, beside a record of the repository, commit and path from which the IDL
can be reproduced. This library decides whether the two agree, and what to send to write such a
record. It is written in Verus: every function states what it returns, and the statements are
proved.

- `src/`: the library. It does no input or output; where something must be fetched, a function
  says so in its result and another takes what was fetched. Calls into other crates stand in
  small `external_body` functions, each with a comment on what is believed of the call.
- `tests/`: the library on concrete values, with those crates linked.
- `app/`: RPC calls, HTTP, files, prompts, messages and transactions around the library. It
  needs the `spl-program-metadata-client` crate for decoding metadata accounts.
