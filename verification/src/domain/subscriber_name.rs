//! A subscriber name that has passed the name rules.

use vstd::prelude::*;
use crate::routes::subscriptions::{
    is_valid_name, spec_is_valid_name, short_name_judged_by_characters,
};

verus! {

/// The message with which a name is refused.
pub open spec fn invalid_name_message(s: Seq<char>) -> Seq<char> {
    s + " is not a valid subscriber name."@
}

/// A name that satisfies the name rules (its type invariant).
pub struct SubscriberName(String);

impl View for SubscriberName {
    type V = Seq<char>;

    closed spec fn view(&self) -> Seq<char> {
        self.0@
    }
}

impl SubscriberName {
    #[verifier::type_invariant]
    closed spec fn wf(self) -> bool {
        spec_is_valid_name(self.0@)
    }

    /// Accepts `s` when it is a valid subscriber name, and says why not otherwise.
    pub fn parse(s: String) -> (r: Result<SubscriberName, String>)
        ensures
            r is Ok <==> spec_is_valid_name(s@),
            short_name_judged_by_characters(s@),
            r matches Ok(n) ==> n@ == s@,
            r matches Err(e) ==> e@ == invalid_name_message(s@),
    {
        if is_valid_name(s.as_str()) {
            Ok(SubscriberName(s))
        } else {
            Err(s.concat(" is not a valid subscriber name."))
        }
    }

    /// The name as text; it always satisfies the name rules.
    pub fn as_str(&self) -> (r: &str)
        ensures
            r@ == self@,
            spec_is_valid_name(r@),
    {
        proof {
            use_type_invariant(self);
        }
        self.0.as_str()
    }
}

} // verus!
