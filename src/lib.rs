//! A gate that relays chat messages to a completion service for the senders on
//! an allow-list: command routing, the authorization rule, the allow-list and
//! its record, and the framing of completion requests and replies.

pub mod allowlist;
pub mod command;
pub mod completion;
pub mod dispatch;
pub mod json;
pub mod policy;
pub mod text;

pub use text::{eq_text, trim_spaces};
pub use allowlist::{Change, WhiteList};
pub use command::{route, Command};
pub use completion::{answer_text, read_response, request_body, CompletionError, COMPLETION_MODEL};
pub use policy::{authorize, Decision};
pub use dispatch::{add_reply, list_reply, plan, remove_reply, Action};
