# conversation

The decisions behind a story project's discussions and its project
conversation, written in Verus and proved against their contracts.

A discussion run is streamed, finished, failed, stopped, settled by a
provider worker, or extended by bounded story lookups; guidance, composer
drafts, background work, history pages and chat adoptions each have their
own rules. Every such rule is a verified function in `src/` that takes the
outcome of the reads it needs and returns the refusal or what it decides:
the run change to commit, the discussion a start creates, the targets of an
adoption preview, the page of history to show. Compiling a context packet,
decoding stored JSON and the SQL itself stay with the caller.

- `src/` — the verified library, one module per concern (`operations` for run
  commands, `lookup` and `lookup_storage` for lookup chains, `provider` for
  provider settlement, `start`, `request`, `pins` and `retry` for starting a
  discussion, `guidance`, `draft`, `background`, `history`, `chat`,
  `adoption`, `snapshot`, `chapters`, `brief` and `transfer` for the project
  conversation and its stored records). Laws that span calls are public proof
  functions named `law_*`.
- `src/digest.rs` holds the only trusted items: a name for the SHA-256
  digest and the wrapper that computes it with the `sha2` crate.
- `tests/` — tests on concrete values.
- `app/` — SQLite persistence and JSON transport around the library.
