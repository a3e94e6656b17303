# mochimo-crypto

The keystore of a Mochimo wallet, verified with Verus: durable storage for
account records under a one-time signature scheme, where signing twice with one
key loses it. What is proved is what a wallet rests on.

- A position only moves forward, and no key is reserved twice.
- Memory holds what the last durable image holds, or the handle refuses every
  call.
- No power cut, torn writes included, leaves an older state than a receipt
  attests, over any history of commits that end at any step.
- A power cut at any step of a commit leaves the old image or the new one, where
  the old one was on the device when the commit began to write. In the slot
  layout a commit sees to that first; in the rename layout it is so unless the
  commit before it ended between its rename and the flush of the directory.
- One key stream belongs to one account, over a store's whole lifetime, as long as
  every imported account carries the stream its root produces.
- What a prompt reads is the line that was typed, however it arrives.

## Layout

- `src/consts`, `src/error.rs`, `src/text.rs`, `src/utf.rs`: the protocol's
  constants, the errors and their messages, numbers and text.
- `src/scrubbed.rs`, `src/hash.rs`: bytes that are overwritten when dropped, and
  SHA3-256; the two places that rest on outside crates.
- `src/account.rs`: tags, positions, key material.
- `src/keystore`: the two on-disk layouts (`slots`, `medium`, `commit`), the
  handle (`store`, `accounts`, `change`), opening and creating a store
  (`opening`, `creating`), who may write to its directory (`perms`), and what
  holds of all of it together (`laws`, `crash`).
- `src/wallet`: prompts, lines, the Windows console, and the way from a command
  line to a command.
- `tests`: the library driven from outside.
- `app`: the program around it. It opens files and terminals, performs the steps
  the library hands out, and prints. The image codec, the mesh client and the
  commands are linked in through the traits of `app/link.rs`.

The library takes no step on the outside world itself. A commit, a prompt, an
open and a creation are each a value that says what to do next and is told how
that went.
