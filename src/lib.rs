//! A small static file server core: path resolution, method dispatch and
//! response finishing, with every decision stated and proved.

pub mod file;
pub mod log;
pub mod message;
pub mod net;
pub mod page;
pub mod request_handlers;
pub mod lemmas;
