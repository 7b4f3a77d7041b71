//! The subscription endpoint: the name rules, the parsing of a submitted form,
//! and the decisions and stored values of a subscription.

use vstd::prelude::*;
use unicode_segmentation::UnicodeSegmentation;
use uuid::Uuid;
use chrono::Utc;
use crate::text::{is_blank, trim, lemma_trim_empty_iff_blank};
use crate::domain::new_subscriber::NewSubscriber;
use crate::domain::subscriber_email::{
    SubscriberEmail, validator_accepts_email, invalid_email_message,
    has_single_at_after_local_part,
};
use crate::domain::subscriber_name::{SubscriberName, invalid_name_message};

verus! {

/// The number of extended grapheme clusters (UAX #29) in `s`, as
/// `unicode_segmentation` segments it.
pub uninterp spec fn extended_grapheme_count(s: Seq<char>) -> nat;

/// `UnicodeSegmentation::graphemes(s, true).count()`. The contract claims that
/// the count is a function of the characters of `s`, that it is no larger
/// than the number of characters (each cluster is a non-empty slice), and
/// that it is zero only for the empty string.
#[verifier::external_body]
fn count_extended_graphemes(s: &str) -> (n: usize)
    ensures
        n as nat == extended_grapheme_count(s@),
        n <= s@.len(),
        (n == 0) == (s@.len() == 0),
{
    s.graphemes(true).count()
}

/// The most grapheme clusters a subscriber name may have.
pub const MAX_NAME_GRAPHEMES: usize = 256;

/// The characters that a subscriber name may not contain.
pub open spec fn is_forbidden_name_char(c: char) -> bool {
    c == '/' || c == '(' || c == ')' || c == '"' || c == '<' || c == '>' || c == '\\'
        || c == '{' || c == '}'
}

/// Some character of `s` is forbidden in a name.
pub open spec fn has_forbidden_name_char(s: Seq<char>) -> bool {
    exists|i: int| 0 <= i < s.len() && is_forbidden_name_char(#[trigger] s[i])
}

/// The name rules, given the number of grapheme clusters of `s`: not blank,
/// at most `MAX_NAME_GRAPHEMES` clusters, no forbidden character.
pub open spec fn name_rules_hold(s: Seq<char>, graphemes: nat) -> bool {
    &&& !is_blank(s)
    &&& graphemes <= MAX_NAME_GRAPHEMES
    &&& !has_forbidden_name_char(s)
}

/// `s` is an acceptable subscriber name.
pub open spec fn spec_is_valid_name(s: Seq<char>) -> bool {
    name_rules_hold(s, extended_grapheme_count(s))
}

fn is_forbidden_char(c: char) -> (r: bool)
    ensures
        r == is_forbidden_name_char(c),
{
    c == '/' || c == '(' || c == ')' || c == '"' || c == '<' || c == '>' || c == '\\'
        || c == '{' || c == '}'
}

/// Whether some character of `s` is forbidden in a name.
pub fn contains_forbidden_characters(s: &str) -> (r: bool)
    ensures
        r == has_forbidden_name_char(s@),
{
    for c in it: s.chars()
        invariant
            it.seq() == s@,
            forall|j: int| 0 <= j < it.index() ==> !is_forbidden_name_char(#[trigger] s@[j]),
    {
        if is_forbidden_char(c) {
            assert(is_forbidden_name_char(s@[it.index() as int]));
            return true;
        }
    }
    false
}

/// The name rules applied to `s`, with `graphemes` the number of extended
/// grapheme clusters of `s`.
pub fn name_passes_rules(s: &str, graphemes: usize) -> (r: bool)
    ensures
        r == name_rules_hold(s@, graphemes as nat),
{
    let is_empty_or_whitespace = trim(s).is_empty();
    proof {
        lemma_trim_empty_iff_blank(s@);
    }
    let is_too_long = graphemes > MAX_NAME_GRAPHEMES;
    let has_forbidden = contains_forbidden_characters(s);
    !(is_empty_or_whitespace || is_too_long || has_forbidden)
}

/// A name of at most `MAX_NAME_GRAPHEMES` characters has at most that many
/// clusters, so only blankness and forbidden characters decide it.
pub open spec fn short_name_judged_by_characters(s: Seq<char>) -> bool {
    s.len() <= MAX_NAME_GRAPHEMES ==> (spec_is_valid_name(s) <==> !is_blank(s)
        && !has_forbidden_name_char(s))
}

/// Returns `true` if the input satisfies all our validation constraints
/// on subscriber names, `false` otherwise.
pub fn is_valid_name(s: &str) -> (r: bool)
    ensures
        r == spec_is_valid_name(s@),
        short_name_judged_by_characters(s@),
{
    let graphemes = count_extended_graphemes(s);
    name_passes_rules(s, graphemes)
}

/// The fields of the subscription form.
pub struct FormData {
    pub email: String,
    pub name: String,
}

/// What parsing a form with this email and name gives: the accepted
/// (email, name), or the message of the first rule broken (the name is
/// checked first).
pub open spec fn spec_parse_subscriber(email: Seq<char>, name: Seq<char>) -> Result<
    (Seq<char>, Seq<char>),
    Seq<char>,
> {
    if !spec_is_valid_name(name) {
        Err(invalid_name_message(name))
    } else if !validator_accepts_email(email) {
        Err(invalid_email_message(email))
    } else {
        Ok((email, name))
    }
}

/// The abstract outcome of parsing a subscriber.
pub open spec fn parse_outcome(r: Result<NewSubscriber, String>) -> Result<
    (Seq<char>, Seq<char>),
    Seq<char>,
> {
    match r {
        Ok(s) => Ok(s@),
        Err(e) => Err(e@),
    }
}

/// Builds a subscriber from the form: the name, then the email, must pass.
pub fn parse_subscriber(form: FormData) -> (r: Result<NewSubscriber, String>)
    ensures
        parse_outcome(r) == spec_parse_subscriber(form.email@, form.name@),
        r is Ok ==> has_single_at_after_local_part(form.email@),
        short_name_judged_by_characters(form.name@),
{
    let name = SubscriberName::parse(form.name)?;
    let email = SubscriberEmail::parse(form.email)?;
    Ok(NewSubscriber { email, name })
}

impl TryFrom<FormData> for NewSubscriber {
    type Error = String;

    fn try_from(value: FormData) -> (r: Result<Self, Self::Error>)
        ensures
            parse_outcome(r) == spec_parse_subscriber(value.email@, value.name@),
            r is Ok ==> has_single_at_after_local_part(value.email@),
            short_name_judged_by_characters(value.name@),
    {
        let name = match SubscriberName::parse(value.name) {
            Ok(n) => n,
            Err(e) => return Err(e),
        };
        let email = match SubscriberEmail::parse(value.email) {
            Ok(e) => e,
            Err(e) => return Err(e),
        };
        Ok(Self { email, name })
    }
}

/// The conversion is described by the `ensures` of `try_from` above, which
/// callers of `NewSubscriber::try_from` see. This impl describes no generic
/// result (`obeys_try_from_spec` is false), so code generic over `TryFrom`
/// relies on nothing here.
impl vstd::std_specs::convert::TryFromSpecImpl<FormData> for NewSubscriber {
    open spec fn obeys_try_from_spec() -> bool {
        false
    }

    open spec fn try_from_spec(v: FormData) -> Result<Self, Self::Error> {
        vstd::pervasive::arbitrary()
    }
}

/// The answers that the subscription endpoint gives.
#[derive(PartialEq, Eq, Structural, Debug, Clone, Copy)]
pub enum HttpStatus {
    Success,
    BadRequest,
    InternalServerError,
}

/// The status code of each answer.
pub open spec fn spec_status_code(s: HttpStatus) -> u16 {
    match s {
        HttpStatus::Success => 200,
        HttpStatus::BadRequest => 400,
        HttpStatus::InternalServerError => 500,
    }
}

impl HttpStatus {
    /// The HTTP status code of this answer.
    pub fn code(&self) -> (c: u16)
        ensures
            c == spec_status_code(*self),
    {
        match self {
            HttpStatus::Success => 200,
            HttpStatus::BadRequest => 400,
            HttpStatus::InternalServerError => 500,
        }
    }
}

/// What the subscription endpoint does next with a submitted form.
pub enum SubscribeStep {
    /// Answer at once, inserting nothing.
    Respond(HttpStatus),
    /// Store this subscriber, then answer after `insert_outcome_status`.
    Insert(NewSubscriber),
}

/// A blank name (empty, or white space only) is never valid.
pub proof fn lemma_blank_name_is_invalid(s: Seq<char>)
    requires
        is_blank(s),
    ensures
        !spec_is_valid_name(s),
{
}

/// A name holding a forbidden character is never valid.
pub proof fn lemma_forbidden_character_makes_name_invalid(s: Seq<char>, i: int)
    requires
        0 <= i < s.len(),
        is_forbidden_name_char(s[i]),
    ensures
        !spec_is_valid_name(s),
{
}

/// A name of more than `MAX_NAME_GRAPHEMES` grapheme clusters is never valid.
pub proof fn lemma_long_name_is_invalid(s: Seq<char>)
    requires
        extended_grapheme_count(s) > MAX_NAME_GRAPHEMES,
    ensures
        !spec_is_valid_name(s),
{
}

/// Exactly nine characters make a name invalid: `/ ( ) " < > \ { }`. A name
/// of at most 256 clusters that holds an ASCII letter and none of the nine
/// is valid, whatever else it holds (apostrophes, hyphens, dots, spaces...).
pub proof fn lemma_names_without_the_nine_characters_are_valid(s: Seq<char>, k: int)
    requires
        extended_grapheme_count(s) <= 256,
        0 <= k < s.len(),
        ('a' <= s[k] && s[k] <= 'z') || ('A' <= s[k] && s[k] <= 'Z'),
        forall|i: int|
            0 <= i < s.len() ==> !(#[trigger] s[i] == '/' || s[i] == '(' || s[i] == ')' || s[i]
                == '"' || s[i] == '<' || s[i] == '>' || s[i] == '\\' || s[i] == '{' || s[i]
                == '}'),
    ensures
        spec_is_valid_name(s),
{
    assert(!crate::text::is_white_space(s[k]));
}

/// Each of the nine characters `/ ( ) " < > \ { }` makes any name that
/// holds it invalid.
pub proof fn lemma_each_of_the_nine_characters_makes_a_name_invalid(s: Seq<char>, i: int)
    requires
        0 <= i < s.len(),
        s[i] == '/' || s[i] == '(' || s[i] == ')' || s[i] == '"' || s[i] == '<' || s[i] == '>'
            || s[i] == '\\' || s[i] == '{' || s[i] == '}',
    ensures
        !spec_is_valid_name(s),
{
    assert(is_forbidden_name_char(s[i]));
}

/// A form is accepted exactly when its name and its email both are.
pub proof fn lemma_form_accepted_iff_fields_valid(email: Seq<char>, name: Seq<char>)
    ensures
        spec_parse_subscriber(email, name) is Ok <==> spec_is_valid_name(name)
            && validator_accepts_email(email),
        spec_parse_subscriber(email, name) matches Ok(v) ==> v == (email, name),
{
}

/// The first decision of the subscription endpoint: a form that does not
/// give a subscriber is answered with Bad Request and nothing is stored;
/// otherwise the subscriber it gives is to be stored.
pub fn subscribe_step(form: FormData) -> (step: SubscribeStep)
    ensures
        match step {
            SubscribeStep::Respond(status) => {
                &&& status == HttpStatus::BadRequest
                &&& spec_parse_subscriber(form.email@, form.name@) is Err
            },
            SubscribeStep::Insert(s) => {
                &&& spec_parse_subscriber(form.email@, form.name@) == Ok::<
                    (Seq<char>, Seq<char>),
                    Seq<char>,
                >(s@)
                &&& has_single_at_after_local_part(form.email@)
            },
        },
        short_name_judged_by_characters(form.name@),
{
    match NewSubscriber::try_from(form) {
        Ok(subscriber) => SubscribeStep::Insert(subscriber),
        Err(_) => SubscribeStep::Respond(HttpStatus::BadRequest),
    }
}

/// The answer once the insert has been tried: Ok when it succeeded,
/// Internal Server Error when it failed.
pub fn insert_outcome_status(inserted: bool) -> (status: HttpStatus)
    ensures
        status == (if inserted {
            HttpStatus::Success
        } else {
            HttpStatus::InternalServerError
        }),
{
    if inserted {
        HttpStatus::Success
    } else {
        HttpStatus::InternalServerError
    }
}

/// The statement that stores a subscriber, with its four parameters in the
/// order of `SubscriberRow`'s fields.
pub const INSERT_SUBSCRIBER_QUERY: &'static str =
    "\n        INSERT INTO LogEvents (message, level, exception, logevent)\n        VALUES (@P1, @P2, @P3, @P4)\n    ";

/// The values stored for one subscriber, in parameter order.
pub struct SubscriberRow {
    pub id: String,
    pub email: String,
    pub name: String,
    pub subscribed_at: String,
}

/// A lower-case hexadecimal digit.
pub open spec fn is_lower_hex_digit(c: char) -> bool {
    ('0' <= c && c <= '9') || ('a' <= c && c <= 'f')
}

/// The hyphenated text of a version 4 UUID: 36 characters, hyphens at
/// 8, 13, 18 and 23, the version digit `4` at 14, the variant digit (one of
/// `8`, `9`, `a`, `b`) at 19, lower-case hex elsewhere.
pub open spec fn is_hyphenated_v4_uuid(s: Seq<char>) -> bool {
    &&& s.len() == 36
    &&& forall|i: int|
        0 <= i < 36 ==> if i == 8 || i == 13 || i == 18 || i == 23 {
            #[trigger] s[i] == '-'
        } else {
            is_lower_hex_digit(s[i])
        }
    &&& s[14] == '4'
    &&& (s[19] == '8' || s[19] == '9' || s[19] == 'a' || s[19] == 'b')
}

/// `Uuid::new_v4().to_string()`: a fresh random identifier. Of every outcome
/// the contract claims only its hyphenated lower-case version 4 shape, with
/// the RFC 9562 variant.
#[verifier::external_body]
fn new_subscriber_id() -> (id: String)
    ensures
        is_hyphenated_v4_uuid(id@),
{
    Uuid::new_v4().to_string()
}

/// Text of at least 25 characters (the length of `YYYY-MM-DDTHH:MM:SS+00:00`)
/// that ends with the UTC offset `+00:00`; what precedes the offset is not
/// described.
pub open spec fn ends_with_utc_offset(s: Seq<char>) -> bool {
    &&& s.len() >= 25
    &&& s.subrange(s.len() - 6, s.len() as int) == seq!['+', '0', '0', ':', '0', '0']
}

/// `Utc::now().to_rfc3339()`: the current time. Of every outcome the
/// contract claims only its length and its `+00:00` offset.
#[verifier::external_body]
fn current_time_rfc3339() -> (t: String)
    ensures
        ends_with_utc_offset(t@),
{
    Utc::now().to_rfc3339()
}

/// The row for `subscriber` with the given identifier and timestamp.
pub fn subscriber_row_with(id: String, subscribed_at: String, subscriber: &NewSubscriber) -> (row:
    SubscriberRow)
    ensures
        row.id@ == id@,
        row.email@ == subscriber.email@,
        row.name@ == subscriber.name@,
        row.subscribed_at@ == subscribed_at@,
{
    let email = String::from_str(subscriber.email.as_email_string());
    let name = String::from_str(subscriber.name.as_str());
    SubscriberRow { id, email, name, subscribed_at }
}

/// The row that stores `subscriber`: a fresh version 4 UUID, its email and
/// name, and the current time in RFC 3339.
pub fn subscriber_row(subscriber: &NewSubscriber) -> (row: SubscriberRow)
    ensures
        is_hyphenated_v4_uuid(row.id@),
        row.email@ == subscriber.email@,
        row.name@ == subscriber.name@,
        ends_with_utc_offset(row.subscribed_at@),
{
    let id = new_subscriber_id();
    let subscribed_at = current_time_rfc3339();
    subscriber_row_with(id, subscribed_at, subscriber)
}

/// The greeting for a subscriber called `name`.
pub open spec fn spec_welcome_message(name: Seq<char>) -> Seq<char> {
    "Welcome "@ + name + "!"@
}

/// The greeting is `Welcome ` (8 characters), then the whole name, then `!`:
/// its length is 9 more than the name's, and no character of the name is
/// dropped or changed.
pub proof fn lemma_welcome_message_holds_the_whole_name(name: Seq<char>)
    ensures
        spec_welcome_message(name).len() == name.len() + 9,
        spec_welcome_message(name).subrange(0, 8) == seq!['W', 'e', 'l', 'c', 'o', 'm', 'e', ' '],
        spec_welcome_message(name).subrange(8, 8 + name.len() as int) == name,
        spec_welcome_message(name)[8 + name.len() as int] == '!',
{
    reveal_strlit("Welcome ");
    reveal_strlit("!");
    let m = spec_welcome_message(name);
    assert(m.subrange(0, 8) =~= seq!['W', 'e', 'l', 'c', 'o', 'm', 'e', ' ']);
    assert(m.subrange(8, 8 + name.len() as int) =~= name);
}

/// `Welcome {name}!`
pub fn welcome_message(name: &str) -> (m: String)
    ensures
        m@ == spec_welcome_message(name@),
{
    String::from_str("Welcome ").concat(name).concat("!")
}

} // verus!
