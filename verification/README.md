# gearwit

A local-first host for coding-agent seats that already exist. A seat arms a
wait, the daemon covers a provider channel, claims what it finds once, and hands
the batch to an attached waiter. A managed controller may then start exactly one
turn for the claim, and only where the thread is proven idle.

The library under `src/` decides all of this and is verified with Verus. The
program under `app/` performs the reads, writes, process starts and clock
readings around it.

| part | modules |
| --- | --- |
| facts and receipts | `evidence`, `interrupt`, `attempt`, `sanitize`, `who`, `wait_on`, `check` |
| waiter links | `protocol`, `link`, `admission`, `delivery`, `ack`, `attach`, `ack_handled`, `daemon`, `child`, `paths` |
| authority | `controller`, `records`, `store`, `persist`, `authority_model`, `authority`, `coordinator` |
| Codex app server | `transport`, `exchange`, `launch`, `codex`, `codex_steps` |
| laws over several operations | `store_laws`, `authority_laws`, and the proof functions at the end of the other modules |
| groundwork | `bytes`, `text`, `ident`, `timestamp`, `secret`, `table`, `text_table`, `primitives` |

`primitives` and `secret` hold every call into another crate, each with the
contract that the rest relies on.
