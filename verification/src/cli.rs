//! Invocation parameters of the calibration wizard.
//!
//! One invocation configures one arm: the serial port it hangs off and
//! whether it is the puppet or the master arm.  Parsing the command line
//! into these fields is the front-end's job; the role decision is made
//! here.

use vstd::prelude::*;

verus! {

/// What one wizard invocation was asked to configure.
pub struct Cli {
    /// Path of the serial port the arm's servos are connected to.
    pub port: String,
    /// The invocation named the puppet arm.
    pub puppet: bool,
    /// The invocation named the master arm.
    pub master: bool,
}

impl Cli {
    /// The configured role: the puppet arm unless only the master flag was
    /// given.  One invocation configures one arm; naming both flags is not
    /// a third mode, the puppet wins.
    pub fn is_puppet(&self) -> (puppet: bool)
        ensures
            puppet == (self.puppet || !self.master),
    {
        self.puppet || !self.master
    }
}

} // verus!
