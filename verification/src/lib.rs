//! Bridge between an embedded, remote-origin web page and the privileged
//! desktop shell that hosts it.
//!
//! The page side watches the document title for an unread-count badge and
//! intercepts anchor activations; the host side services the resulting
//! requests: desktop notifications, external link dispatch, and file saves.
//! This crate holds the decision logic of both halves, stated over plain
//! strings and bytes; the shell around it performs the actual OS calls.

pub mod text;
pub mod requests;
pub mod title;
pub mod links;
pub mod notify;
pub mod save;
