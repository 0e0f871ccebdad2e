//! A realtime chat relay: the connection lifecycle, the wire codec and the
//! room rules, stated and proved with Verus.
pub mod codec;
pub mod history;
pub mod laws;
pub mod model;
pub mod protocol;
pub mod session;
