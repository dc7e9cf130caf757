//! The outcome taxonomy of the editor: a recoverable `Unknown` condition,
//! a recoverable message-bearing error, and the `Exit` control signal that
//! ends the session.

use vstd::prelude::*;

verus! {

/// Result of a command that did not complete normally.
///
/// `Unknown` is a well-formed request that cannot be satisfied in the current
/// state and is shown to the user as `?`. `Msg` carries a message that is
/// stored as the last error and shown verbatim only when error display is
/// enabled. `Exit` is not a failure: it is the control signal that ends the
/// session, raised by the quit commands.
#[derive(Debug, Clone, PartialEq)]
pub enum EdError {
    Unknown,
    Exit,
    Msg(String),
}

} // verus!
