//! Page-anchor identifiers: the fragment names that pages use to link to a
//! rendered item or heading.

use vstd::prelude::*;
use vstd::string::StringExecFns;

verus! {

/// An anchor identifier inside a page.
#[derive(Debug)]
pub struct Id(String);

impl View for Id {
    type V = Seq<char>;

    closed spec fn view(&self) -> Seq<char> {
        self.0@
    }
}

impl Id {
    /// Wraps an already-built anchor text.
    pub fn new(id: String) -> (r: Self)
        ensures
            r@ == id@,
    {
        Id(id)
    }

    /// The anchor text itself.
    pub fn text(&self) -> (r: &str)
        ensures
            r@ == self@,
    {
        self.0.as_str()
    }

    /// The anchor as a fragment reference: a pound sign, then the text.
    pub fn with_pound(&self) -> (r: String)
        ensures
            r@ == seq!['#'] + self@,
    {
        let mut out = String::new();
        out.append("#");
        out.append(self.0.as_str());
        proof {
            reveal_strlit("#");
            assert(out@ =~= seq!['#'] + self@);
        }
        out
    }

    /// A child anchor: this anchor, a dot, then the other one.
    pub fn join(&self, other: &Id) -> (r: Id)
        ensures
            r@ == self@ + seq!['.'] + other@,
    {
        let mut out = self.0.clone();
        out.append(".");
        out.append(other.0.as_str());
        proof {
            reveal_strlit(".");
            assert(out@ =~= self@ + seq!['.'] + other@);
        }
        Id(out)
    }
}

} // verus!
