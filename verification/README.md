# kaspawallet_egui

A desktop client for multisig Kaspa wallets that drives a local wallet
bridge over HTTP. The crate is split in two:

- `src/` is the verified library (Verus). It holds the wallet workspace as
  a state machine (`wallet.rs`): which pages may be opened, what the user
  should do next, which bridge tasks a click starts, and how each task's
  outcome changes the state. It also holds the forms (`forms.rs`), the
  closed sets of choices (`choices.rs`), the request and reply data
  (`messages.rs`), the endpoint of each request and the meaning of each
  reply (`bridge.rs`), and the text handling of form fields (`text.rs`).
  `text_laws.rs` and `wallet_laws.rs` state and prove the laws that tie
  these together.
- `app/` is ordinary Rust around it: launching the bridge process, HTTP
  with `ureq`, JSON with `serde`, worker threads, and the egui window.

The workspace never performs I/O itself. Each request leaves a `Command`
in its outbox; the application runs it on a worker thread and hands the
outcome back as an `AppEvent` to `WalletApp::handle_event`.

## Gaps in the surroundings

- The bridge itself (a Go program) is not part of this tree, and neither
  is the build step that compiled it. The application starts a bridge
  binary that must already be on disk.
- The bridge's client in this tree has no endpoint for binding a session
  to a wallet file and node. `app/backend.rs` binds the session by
  starting the wallet daemon with the same network, wallet file, node and
  timeout, and an empty listen address; that choice is the application's
  own, not the bridge's documented behaviour.
- The brand logo is read from `assets/igralabs-logo.png` at run time
  rather than embedded in the binary, since the image is not in this tree.
  Where it cannot be read or decoded the sidebar shows the brand name.
