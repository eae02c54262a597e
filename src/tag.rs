//! The version tag of a release.
use vstd::prelude::*;
use vstd::string::*;

verus! {

/// A version tag, such as `v1.2.0` or `1.2.0`.
#[derive(Clone, Debug)]
pub struct Tag {
    pub name: String,
}

/// A tag without its leading `v`, if it has one.
pub open spec fn without_v(s: Seq<char>) -> Seq<char> {
    if s.len() > 0 && s[0] == 'v' {
        s.subrange(1, s.len() as int)
    } else {
        s
    }
}

impl Tag {
    pub fn new(name: String) -> (r: Tag)
        ensures
            r.name == name,
    {
        Tag { name }
    }

    /// The tag as given.
    pub fn value(&self) -> (r: &str)
        ensures
            r@ == self.name@,
    {
        self.name.as_str()
    }

    /// The tag without its leading `v`, as release download paths spell it.
    pub fn strip_v_prefix(&self) -> (r: &str)
        ensures
            r@ == without_v(self.name@),
    {
        let s = self.name.as_str();
        let n = s.unicode_len();
        if n > 0 && s.get_char(0) == 'v' {
            s.substring_char(1, n)
        } else {
            s
        }
    }
}

} // verus!
