use vstd::prelude::*;

verus! {

/// An opaque identifier of a party: the administrator, a recipient, or an
/// asset. Two identities are the same party exactly when their text is equal.
#[derive(Debug, PartialEq, Eq)]
pub struct Identity {
    text: String,
}

impl View for Identity {
    type V = Seq<char>;

    closed spec fn view(&self) -> Seq<char> {
        self.text@
    }
}

impl Clone for Identity {
    fn clone(&self) -> (r: Self)
        ensures
            r@ == self@,
    {
        Identity { text: self.text.clone() }
    }
}

impl Identity {
    /// The identity written as `text`.
    pub fn new(text: &str) -> (r: Self)
        ensures
            r@ == text@,
    {
        Identity { text: text.to_owned() }
    }

    /// The text this identity was made from.
    pub fn as_str(&self) -> (r: &str)
        ensures
            r@ == self@,
    {
        self.text.as_str()
    }

    /// Whether `self` and `other` name the same party.
    pub fn same_as(&self, other: &Identity) -> (r: bool)
        ensures
            r == (self@ == other@),
    {
        self.text == other.text
    }
}

} // verus!
