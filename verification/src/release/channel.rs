//! Release channels.
use vstd::prelude::*;

verus! {

/// A release channel.
#[derive(Clone, Copy, Debug, PartialEq, Eq, Structural)]
pub enum Channel {
    Beta,
    Release,
    Esr,
}

} // verus!
