//! The closed keyword sets of the Debian control and changelog formats, each
//! with its exact lowercase rendering.

use vstd::prelude::*;

verus! {

/// A value from one of the fixed Debian keyword sets, rendered in lowercase
/// exactly as the file formats ask.
pub trait FieldText {
    /// The lowercase text of this value.
    spec fn spec_text(&self) -> Seq<char>;

    /// Renders this value as its lowercase text.
    fn text(&self) -> (r: &'static str)
        ensures
            r@ == self.spec_text(),
    ;
}

/// The distribution a changelog entry targets.
#[derive(Clone, Copy, Debug, PartialEq, Eq, Structural)]
pub enum Distribution {
    Unstable,
    Experimental,
}

impl FieldText for Distribution {
    open spec fn spec_text(&self) -> Seq<char> {
        match self {
            Distribution::Unstable => "unstable"@,
            Distribution::Experimental => "experimental"@,
        }
    }

    fn text(&self) -> (r: &'static str)
        ensures
            r@ == self.spec_text(),
    {
        match self {
            Distribution::Unstable => "unstable",
            Distribution::Experimental => "experimental",
        }
    }
}

impl Default for Distribution {
    /// The distribution used when the configuration names none.
    fn default() -> (r: Self)
        ensures
            r == Distribution::Unstable,
    {
        Distribution::Unstable
    }
}

/// The urgency named in a changelog entry's header line.
#[derive(Clone, Copy, Debug, PartialEq, Eq, Structural)]
pub enum Urgency {
    Low,
    Medium,
    High,
    Emergency,
    Critical,
}

impl FieldText for Urgency {
    open spec fn spec_text(&self) -> Seq<char> {
        match self {
            Urgency::Low => "low"@,
            Urgency::Medium => "medium"@,
            Urgency::High => "high"@,
            Urgency::Emergency => "emergency"@,
            Urgency::Critical => "critical"@,
        }
    }

    fn text(&self) -> (r: &'static str)
        ensures
            r@ == self.spec_text(),
    {
        match self {
            Urgency::Low => "low",
            Urgency::Medium => "medium",
            Urgency::High => "high",
            Urgency::Emergency => "emergency",
            Urgency::Critical => "critical",
        }
    }
}

impl Default for Urgency {
    /// The urgency used when the configuration names none.
    fn default() -> (r: Self)
        ensures
            r == Urgency::Low,
    {
        Urgency::Low
    }
}

/// The priority of a source or binary package in the control file.
#[derive(Clone, Copy, Debug, PartialEq, Eq, Structural)]
pub enum Priority {
    Required,
    Important,
    Standard,
    Optional,
    Extra,
}

impl FieldText for Priority {
    open spec fn spec_text(&self) -> Seq<char> {
        match self {
            Priority::Required => "required"@,
            Priority::Important => "important"@,
            Priority::Standard => "standard"@,
            Priority::Optional => "optional"@,
            Priority::Extra => "extra"@,
        }
    }

    fn text(&self) -> (r: &'static str)
        ensures
            r@ == self.spec_text(),
    {
        match self {
            Priority::Required => "required",
            Priority::Important => "important",
            Priority::Standard => "standard",
            Priority::Optional => "optional",
            Priority::Extra => "extra",
        }
    }
}

impl Default for Priority {
    /// The priority used when the configuration names none.
    fn default() -> (r: Self)
        ensures
            r == Priority::Optional,
    {
        Priority::Optional
    }
}

/// The architecture named in the control file's binary stanza.
#[derive(Clone, Copy, Debug, PartialEq, Eq, Structural)]
pub enum Architecture {
    All,
    Any,
}

impl FieldText for Architecture {
    open spec fn spec_text(&self) -> Seq<char> {
        match self {
            Architecture::All => "all"@,
            Architecture::Any => "any"@,
        }
    }

    fn text(&self) -> (r: &'static str)
        ensures
            r@ == self.spec_text(),
    {
        match self {
            Architecture::All => "all",
            Architecture::Any => "any",
        }
    }
}

impl Default for Architecture {
    /// The architecture used when the configuration names none.
    fn default() -> (r: Self)
        ensures
            r == Architecture::Any,
    {
        Architecture::Any
    }
}

} // verus!
