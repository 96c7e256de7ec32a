//! Identifiers of the objects that a path names.
use crate::text::owned;
use vstd::prelude::*;

verus! {

/// The id of a customer, as it stands in a path.
#[derive(Debug, PartialEq, Eq)]
pub struct CustomerId {
    pub id: String,
}

impl View for CustomerId {
    type V = Seq<char>;

    open spec fn view(&self) -> Seq<char> {
        self.id@
    }
}

impl CustomerId {
    /// The id with the given text. The text is taken as it is.
    pub fn new(id: &str) -> (r: CustomerId)
        ensures
            r@ == id@,
    {
        CustomerId { id: owned(id) }
    }

    /// The text of the id.
    pub fn as_str(&self) -> (r: &str)
        ensures
            r@ == self@,
    {
        self.id.as_str()
    }
}

/// The id of a connected account, as it stands in a path.
#[derive(Debug, PartialEq, Eq)]
pub struct AccountId {
    pub id: String,
}

impl View for AccountId {
    type V = Seq<char>;

    open spec fn view(&self) -> Seq<char> {
        self.id@
    }
}

impl AccountId {
    /// The id with the given text. The text is taken as it is.
    pub fn new(id: &str) -> (r: AccountId)
        ensures
            r@ == id@,
    {
        AccountId { id: owned(id) }
    }

    /// The text of the id.
    pub fn as_str(&self) -> (r: &str)
        ensures
            r@ == self@,
    {
        self.id.as_str()
    }
}

} // verus!
