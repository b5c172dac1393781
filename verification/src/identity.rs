//! Opaque caller and owner identities.

use vstd::prelude::*;

verus! {

/// An account identity, compared only for equality.
///
/// Callers and owners are named by the host's account strings; the ledger
/// never inspects the text, it only asks whether two identities coincide.
#[derive(Debug)]
pub struct Identity {
    name: String,
}

impl View for Identity {
    type V = Seq<char>;

    closed spec fn view(&self) -> Seq<char> {
        self.name@
    }
}

impl Identity {
    /// Wraps an account name as an identity.
    pub fn new(name: String) -> (r: Identity)
        ensures
            r@ == name@,
    {
        Identity { name }
    }

    /// The account name this identity wraps.
    pub fn as_name(&self) -> (r: &String)
        ensures
            r@ == self@,
    {
        &self.name
    }
}

impl Clone for Identity {
    fn clone(&self) -> (r: Self)
        ensures
            r == *self,
    {
        Identity { name: self.name.clone() }
    }
}

impl PartialEq for Identity {
    fn eq(&self, other: &Self) -> bool {
        self.name == other.name
    }
}

impl Eq for Identity {

}

impl vstd::std_specs::cmp::PartialEqSpecImpl for Identity {
    open spec fn obeys_eq_spec() -> bool {
        true
    }

    open spec fn eq_spec(&self, other: &Self) -> bool {
        self@ == other@
    }
}

} // verus!
