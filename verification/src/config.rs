//! The configuration record that drives both generators, with the defaults
//! that apply when the configuration file leaves a part out.

use vstd::prelude::*;

use crate::changelog::Changelog;
use crate::control::Control;

verus! {

/// The person a stanza or entry names as its maintainer.
#[derive(Debug)]
pub struct Maintainer {
    pub name: String,
    pub email: String,
}

impl Default for Maintainer {
    /// The maintainer used when the configuration names none: empty name and
    /// empty email.
    fn default() -> (r: Self)
        ensures
            r.name@ == Seq::<char>::empty(),
            r.email@ == Seq::<char>::empty(),
    {
        Maintainer { name: String::new(), email: String::new() }
    }
}

/// Everything read from the configuration file: the changelog settings and
/// the control settings, each with its own update switch.
#[derive(Debug)]
pub struct Config {
    pub changelog: Changelog,
    pub control: Control,
}

} // verus!
