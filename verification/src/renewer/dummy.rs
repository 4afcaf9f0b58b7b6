//! A renewer that performs no action at all: the backend to configure when
//! the renewal side effect is not wanted, or when exercising the protocol.

use vstd::prelude::*;

verus! {

/// The do-nothing renewer. Every operation succeeds without side effects.
#[derive(Debug, Clone, Copy, PartialEq, Eq, Structural)]
pub struct Renewer;

impl crate::renewer::Renewer for Renewer {
    fn renew_ip(&mut self) -> Result<(), crate::renewer::Error> {
        Ok(())
    }
}

} // verus!
