//! What the handlers extract from a request besides its payload.

pub mod session;
