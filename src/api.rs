use vstd::prelude::*;
use crate::text::{decimal, decimal_string, push_char};
use vstd::string::StringExecFns;

verus! {

/// A version of the server's REST API: `major.minor.patch`.
#[derive(Clone, Copy, Debug, PartialEq, Eq, Structural)]
pub struct Api {
    pub major: u64,
    pub minor: u64,
    pub patch: u64,
}

impl Api {
    /// Lexicographic order on the three components.
    pub open spec fn spec_at_least(self, o: Api) -> bool {
        self.major > o.major || (self.major == o.major && (self.minor > o.minor || (
        self.minor == o.minor && self.patch >= o.patch)))
    }

    /// The dotted text of the version.
    pub open spec fn text(self) -> Seq<char> {
        decimal(self.major as nat) + seq!['.'] + decimal(self.minor as nat) + seq!['.'] + decimal(
            self.patch as nat,
        )
    }

    pub fn new(major: u64, minor: u64, patch: u64) -> (r: Api)
        ensures
            r == (Api { major, minor, patch }),
    {
        Api { major, minor, patch }
    }

    /// Whether this version is `o` or later.
    pub fn at_least(&self, o: &Api) -> (r: bool)
        ensures
            r == self.spec_at_least(*o),
    {
        self.major > o.major || (self.major == o.major && (self.minor > o.minor || (self.minor
            == o.minor && self.patch >= o.patch)))
    }

    /// Renders the version as `major.minor.patch`.
    pub fn to_text(&self) -> (r: String)
        ensures
            r@ == self.text(),
    {
        let mut s = decimal_string(self.major);
        push_char(&mut s, '.');
        s.append(decimal_string(self.minor).as_str());
        push_char(&mut s, '.');
        s.append(decimal_string(self.patch).as_str());
        s
    }
}

} // verus!
