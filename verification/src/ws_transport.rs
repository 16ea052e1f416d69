//! WebSocket-based remote transport: a gateway (`herdr ws-server`) on the
//! remote host and a local bridge subprocess (`herdr ws-client-bridge`).
pub mod auth;
pub mod bridge;
pub mod control;
pub mod server;
pub mod ssh;
pub mod tls;

use vstd::prelude::*;

verus! {

/// The effect of one command-line option on a configuration being built:
/// go on (having also consumed the following argument, or not), stop to
/// show the help, or stop with an error message.
pub enum ArgStep<S> {
    Continue(bool, S),
    Help,
    Fail(Seq<char>),
}

/// What a whole command line asks for.
pub enum Parsed<S> {
    Config(S),
    Help,
    Error(Seq<char>),
}

} // verus!
