//! Message-composition core of a hub-protocol client.
//!
//! A [`builder::SendBuilder`] accumulates a remote method name together with
//! plain arguments and streaming arguments, and one of its three terminal
//! operations turns the accumulated state into an encoded invocation message
//! plus one frame producer per streaming argument, ready to hand to a
//! transport.

pub mod builder;
pub mod errors;
pub mod ids;
pub mod messages;
pub mod protocol;
pub mod response;
pub mod streams;
pub mod value;

use vstd::prelude::*;

verus! {

} // verus!
