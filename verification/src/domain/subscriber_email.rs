//! A subscriber email address that the `validator` crate accepts.

use vstd::prelude::*;
use validator::ValidateEmail;

verus! {

/// Whether `validator` accepts `s` as an email address (the HTML5 rules,
/// with the length limits of RFC 5321 and internationalised domains).
pub uninterp spec fn validator_accepts_email(s: Seq<char>) -> bool;

/// `s` has exactly one `@`, preceded by between 1 and 64 characters.
pub open spec fn has_single_at_after_local_part(s: Seq<char>) -> bool {
    exists|i: int|
        1 <= i <= 64 && i < s.len() && #[trigger] s[i] == '@' && (forall|j: int|
            0 <= j < s.len() && j != i ==> s[j] != '@')
}

/// `ValidateEmail::validate_email` on a string. The contract claims that the
/// answer is a function of the characters of `s`, and, of an accepted `s`,
/// what the validator's source checks before its regular expressions:
/// a non-empty local part of at most 64 characters (all outside `@`), then
/// the one `@`. What it accepts in full is left to its name.
#[verifier::external_body]
fn validate_email(s: &str) -> (r: bool)
    ensures
        r == validator_accepts_email(s@),
        r ==> has_single_at_after_local_part(s@),
{
    s.validate_email()
}

/// The empty string does not have the shape of an address.
pub proof fn lemma_empty_is_not_an_address(s: Seq<char>)
    requires
        s.len() == 0,
    ensures
        !has_single_at_after_local_part(s),
{
}

/// A string without `@` does not have the shape of an address.
pub proof fn lemma_missing_at_is_not_an_address(s: Seq<char>)
    requires
        !s.contains('@'),
    ensures
        !has_single_at_after_local_part(s),
{
    if has_single_at_after_local_part(s) {
        let i = choose|i: int|
            1 <= i <= 64 && i < s.len() && #[trigger] s[i] == '@' && (forall|j: int|
                0 <= j < s.len() && j != i ==> s[j] != '@');
        assert(s.contains('@'));
    }
}

/// A string that starts with `@` (no subject before it) does not have the
/// shape of an address.
pub proof fn lemma_missing_subject_is_not_an_address(s: Seq<char>)
    requires
        s.len() > 0,
        s[0] == '@',
    ensures
        !has_single_at_after_local_part(s),
{
}

/// The message with which an email address is refused.
pub open spec fn invalid_email_message(s: Seq<char>) -> Seq<char> {
    s + " is not a valid subscriber email."@
}

/// An email address that `validator` accepts (its type invariant).
#[derive(Debug)]
pub struct SubscriberEmail(String);

impl View for SubscriberEmail {
    type V = Seq<char>;

    closed spec fn view(&self) -> Seq<char> {
        self.0@
    }
}

impl SubscriberEmail {
    #[verifier::type_invariant]
    closed spec fn wf(self) -> bool {
        validator_accepts_email(self.0@)
    }

    /// Accepts `s` when `validator` accepts it as an email address.
    pub fn parse(s: String) -> (r: Result<SubscriberEmail, String>)
        ensures
            r is Ok <==> validator_accepts_email(s@),
            r is Ok ==> has_single_at_after_local_part(s@),
            r matches Ok(e) ==> e@ == s@,
            r matches Err(m) ==> m@ == invalid_email_message(s@),
    {
        if validate_email(s.as_str()) {
            Ok(SubscriberEmail(s))
        } else {
            Err(s.concat(" is not a valid subscriber email."))
        }
    }

    /// The address as text; `validator` accepts it.
    pub fn as_email_string(&self) -> (r: &str)
        ensures
            r@ == self@,
            validator_accepts_email(r@),
    {
        proof {
            use_type_invariant(self);
        }
        self.0.as_str()
    }
}

} // verus!
