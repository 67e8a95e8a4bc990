# member_protocol

A verified library for an on-chain membership protocol: users issue memberships
priced on a bonding curve, others buy and sell them, and membership holders ask,
answer and reply in threads, each step paying fees that are shared between the
issuer, its members and the protocol.

- `src/` is the library, written in Verus: every function carries a contract and is
  proved against it. The member registry and market (`member`, `member_admin`,
  `member_query`), pricing and fees (`math`, `fees`), threads (`board`,
  `thread_user`, `thread_query`, `thread_contract`), key Q&A (`qa`) and reward
  distribution (`distribution`) work on plain state held in `ordered_map::OrderedMap`.
  Laws that relate several operations are public proof functions named `law_*`.
- `tests/` runs the library on concrete values.
- `app/` holds the CosmWasm entry points: message (de)serialisation, storage of the
  library's state, address validation and conversion of the library's actions into
  bank and wasm messages.
