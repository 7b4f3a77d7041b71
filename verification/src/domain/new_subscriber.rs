//! A subscriber whose name and email have both been accepted.

use vstd::prelude::*;
use crate::domain::subscriber_email::SubscriberEmail;
use crate::domain::subscriber_name::SubscriberName;

verus! {

pub struct NewSubscriber {
    pub email: SubscriberEmail,
    pub name: SubscriberName,
}

impl View for NewSubscriber {
    type V = (Seq<char>, Seq<char>);

    /// The email and the name.
    open spec fn view(&self) -> (Seq<char>, Seq<char>) {
        (self.email@, self.name@)
    }
}

} // verus!
