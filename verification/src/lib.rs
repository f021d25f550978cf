//! A reader for binary configuration profiles exported by a mesh radio's
//! companion application. The window state is a two-state machine — no file
//! picked yet, or one picked buffer — fed by an asynchronous file-pick dialog
//! through a channel and rendered as the buffer's decode outcome: the decoded
//! record's text, or the decode error's text. The decoding itself belongs to
//! the external schema library; everything around it — the pick request
//! bookkeeping, the buffer lifecycle, and what the pane shows for which
//! buffer — is specified and verified here.

pub mod app;
pub mod bridge;
pub mod decode;

pub use app::TemplateApp;

pub use decode::decode_outcome;
pub use decode::decode_pane_content;
pub use decode::PaneContent;
