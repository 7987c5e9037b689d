//! Who acts in a session.

use vstd::prelude::*;

verus! {

/// An identity on the ledger, held as the text of its strkey. The rules of
/// a session only ever ask whether two identities are the same one.
#[derive(Debug)]
pub struct Address {
    strkey: String,
}

impl View for Address {
    type V = Seq<char>;

    closed spec fn view(&self) -> Seq<char> {
        self.strkey@
    }
}

impl PartialEq for Address {
    fn eq(&self, other: &Address) -> (r: bool) {
        self.strkey == other.strkey
    }
}

impl Eq for Address {

}

impl vstd::std_specs::cmp::PartialEqSpecImpl for Address {
    open spec fn obeys_eq_spec() -> bool {
        true
    }

    open spec fn eq_spec(&self, other: &Address) -> bool {
        self@ == other@
    }
}

impl Clone for Address {
    fn clone(&self) -> (r: Address)
        ensures
            r@ == self@,
    {
        Address { strkey: self.strkey.clone() }
    }
}

impl Address {
    /// The identity that `strkey` spells.
    pub fn from_str(strkey: &str) -> (a: Address)
        ensures
            a@ == strkey@,
    {
        Address { strkey: strkey.to_owned() }
    }

    /// The strkey of this identity.
    pub fn as_str(&self) -> (s: &str)
        ensures
            s@ == self@,
    {
        self.strkey.as_str()
    }
}

/// A copy of an identity that may be absent.
pub fn clone_opt(who: &Option<Address>) -> (r: Option<Address>)
    ensures
        opt_view(r) == opt_view(*who),
{
    match who {
        Some(a) => Some(a.clone()),
        None => None,
    }
}

/// The text of an identity that may be absent.
pub open spec fn opt_view(who: Option<Address>) -> Option<Seq<char>> {
    match who {
        Some(a) => Some(a@),
        None => None,
    }
}

} // verus!
