//! The result of a successful detection.
use vstd::prelude::*;
use vstd::string::*;

verus! {

/// A detected browser: its display name and the version found in the input.
#[derive(Debug)]
pub struct Browser {
    pub display_name: String,
    pub version: String,
}

impl View for Browser {
    type V = (Seq<char>, Seq<char>);

    open spec fn view(&self) -> (Seq<char>, Seq<char>) {
        (self.display_name@, self.version@)
    }
}

/// The model of an optional detection result.
pub open spec fn browser_view(r: Option<Browser>) -> Option<(Seq<char>, Seq<char>)> {
    match r {
        Some(b) => Some(b@),
        None => None,
    }
}

impl PartialEq for Browser {
    fn eq(&self, other: &Browser) -> (r: bool) {
        self.display_name == other.display_name && self.version == other.version
    }
}

impl vstd::std_specs::cmp::PartialEqSpecImpl for Browser {
    open spec fn obeys_eq_spec() -> bool {
        true
    }

    open spec fn eq_spec(&self, other: &Browser) -> bool {
        self@ == other@
    }
}

impl Browser {
    pub fn new(display_name: &str, version: &str) -> (r: Browser)
        ensures
            r@ == (display_name@, version@),
    {
        Browser { display_name: String::from_str(display_name), version: String::from_str(version) }
    }

    /// The line shown for a detection: `Browser: <name> Version: <version>`.
    pub fn to_display_string(&self) -> (r: String)
        ensures
            r@ == "Browser: "@ + self.display_name@ + " Version: "@ + self.version@,
    {
        let mut out = String::from_str("Browser: ");
        out.append(self.display_name.as_str());
        out.append(" Version: ");
        out.append(self.version.as_str());
        out
    }
}

} // verus!
