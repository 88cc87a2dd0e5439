# OrchardPay

A private contact, messaging and payment protocol on top of a document platform and a
shielded payment pool: the rules are verified with Verus, the network and the screens
around them are ordinary Rust.

Two people become contacts by each publishing an *anchor*, a document that only the
other side can read, and by pointing to it in the memo of a shielded transfer. From then
on they exchange encrypted messages, payments and payment requests; all of them have the
same outward shape.

## Layout

- `src/model` holds the values that everything else speaks of: identifiers, texts, the
  state of a contact, shielded transactions and how they are grouped.
- `src/primitives.rs` and `src/codec.rs` are the edge to the cryptographic and encoding
  crates. Each function there states what is believed of the crate that it calls.
- `src/orchardpay` is the protocol: sealing and reading (`encryption`), keys, anchors from
  both sides (`contact_anchor`, `anchor_signal`, `anchor_recovery`), memos and the scan for
  them, conversations (`messages`, `outgoing`), silent and direct payments.
- `src/context` is what happens once a wallet's seed is at hand.
- `src/ui` is what the screens show and what a click does.
- `src/ordering.rs` is a stable sort with its laws.
- `app` runs the tasks against a platform, a wallet and a store that the embedding
  application supplies, and draws the screens with egui.
- `tests` runs the library with the real crates linked.

Operations that alternate between the network and decisions are split: a function of the
library says which steps are to be taken, or what an answer means, and `app` performs them.
