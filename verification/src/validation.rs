//! The traceroute target as the user named it.

use vstd::prelude::*;

verus! {

/// A host name, kept exactly as it was given.
#[derive(Debug)]
pub struct Hostname {
    hostname: String,
}

impl View for Hostname {
    type V = Seq<char>;

    closed spec fn view(&self) -> Seq<char> {
        self.hostname@
    }
}

impl Hostname {
    /// Wraps `hostname` unchanged.
    pub fn new(hostname: String) -> (h: Self)
        ensures
            h@ == hostname@,
    {
        Self { hostname }
    }

    /// The name as it was given to `new`.
    pub fn hostname(&self) -> (s: &str)
        ensures
            s@ == self@,
    {
        self.hostname.as_str()
    }

    /// The name as owned text, for display.
    pub fn to_string(&self) -> (s: String)
        ensures
            s@ == self@,
    {
        self.hostname.clone()
    }
}

} // verus!
