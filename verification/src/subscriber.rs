//! The subscriber record the ingestion endpoint persists: a name and an
//! email address, as submitted by the form.
use vstd::prelude::*;

verus! {

/// Abstract value of a [`Subscriber`].
pub ghost struct SubscriberView {
    pub name: Seq<char>,
    pub email: Seq<char>,
}

/// One newsletter subscriber, as submitted.
pub struct Subscriber {
    pub name: String,
    pub email: String,
}

impl View for Subscriber {
    type V = SubscriberView;

    open spec fn view(&self) -> SubscriberView {
        SubscriberView { name: self.name@, email: self.email@ }
    }
}

impl Subscriber {
    /// Build a subscriber record from its two fields.
    pub fn new(name: String, email: String) -> (s: Subscriber)
        ensures
            s@.name == name@,
            s@.email == email@,
    {
        Subscriber { name, email }
    }
}

} // verus!
