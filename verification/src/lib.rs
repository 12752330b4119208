//! Verified core of the Kaspa multisig wallet desktop client: the text
//! handling of its forms, the decisions of its workspace, and the plain
//! data exchanged with the local wallet bridge.

pub mod bridge;
pub mod choices;
pub mod display;
pub mod forms;
pub mod logo;
pub mod messages;
pub mod text;
pub mod text_laws;
pub mod wallet;
pub mod wallet_laws;
