# pet_market

Two Secret Network contracts with their decisions proved in Verus.

* **market** sells food tokens (one per 10000 `uscrt` paid) and pets (at a
  price only the owner may change), and keeps the running total it received.
* **pet** keeps the pets the market sells: unique names, ids counted from 1,
  each pet fed by its owner only inside its feeding window, against a food
  token balance; owners list their pets page by page.

Layout:

* `src/` – the verified library: message and state types, every decision of the handlers as a
  function from state, inputs and host answers to new state and outgoing
  messages (or, for a new viewing key, the request to create one), and the
  laws of the pet store and of the market. `src/snip20.rs` builds the
  SNIP-20 mint and burn messages with `secret_toolkit`, behind two trusted
  wrappers.
* `app/` – the entry points the chain calls: JSON messages, storage,
  canonical addresses, balance queries, the viewing-key store (an interface
  whose implementation lives outside this crate) and the JSON encoding of the
  library's own messages, all handed to and taken from the library.
* `tests/` – tests of the library on concrete values.
