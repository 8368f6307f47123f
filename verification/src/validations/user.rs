//! The fields of a user: a name and an e-mail address.

use crate::email::{is_email_address, text_is_email_address};
use crate::pattern::{match_pattern, regex_match};
use crate::routes::users::NewUserData;
use crate::text::{is_blank, rejection, rejection_text, text_within_bounds, within_bounds};
use vstd::prelude::*;

verus! {

/// Most characters a user's name may hold.
pub const USER_NAME_MAX: usize = 256;

/// Most characters a user's e-mail address may hold.
pub const USER_EMAIL_MAX: usize = 90;

/// The shape of an e-mail address as a regular expression. The local part is
/// one or more of the letters, digits and signs listed; after the `@` come
/// two or more labels parted by dots, each of 1 to 63 letters, digits and
/// hyphens with no hyphen at either end. The anchors make the pattern span
/// the whole text.
pub const EMAIL_PATTERN: &'static str =
    "^[a-zA-Z0-9.!#$%&'*+/=?^_`{|}~-]+@[a-zA-Z0-9](?:[a-zA-Z0-9-]{0,61}[a-zA-Z0-9])?(?:\\.[a-zA-Z0-9](?:[a-zA-Z0-9-]{0,61}[a-zA-Z0-9])?)+$";

/// The rule for a user's name.
pub open spec fn is_user_name(s: Seq<char>) -> bool {
    within_bounds(s, USER_NAME_MAX as nat)
}

/// The rule for a user's e-mail address, given what matching it against
/// [`EMAIL_PATTERN`] has answered: it is within bounds, it has the shape of
/// an address, and the pattern matched. An answer of `None`, for a pattern
/// that could not be compiled, counts as no match.
///
/// The pattern spells the same shape as [`is_email_address`]. That the
/// answer of the `regex` crate agrees with it is not proved, so both are
/// asked, and whatever passes is proved to have the shape.
pub open spec fn is_user_email_given(s: Seq<char>, matched: Option<bool>) -> bool {
    within_bounds(s, USER_EMAIL_MAX as nat) && is_email_address(s) && matched == Some(true)
}

/// The rule for a user's e-mail address.
pub open spec fn is_user_email(s: Seq<char>) -> bool {
    is_user_email_given(s, regex_match(EMAIL_PATTERN@, s))
}

/// The message that turns down `s` as a user's name.
pub open spec fn user_name_rejection(s: Seq<char>) -> Seq<char> {
    rejection_text(s, "user name"@)
}

/// The message that turns down `s` as a user's e-mail address.
pub open spec fn user_email_rejection(s: Seq<char>) -> Seq<char> {
    rejection_text(s, "user email"@)
}

/// Whether both fields of a new user pass.
pub open spec fn is_new_user(name: Seq<char>, email: Seq<char>) -> bool {
    is_user_name(name) && is_user_email(email)
}

/// The message for a new user that does not pass: that of the first field
/// that fails, the name before the e-mail address.
pub open spec fn new_user_rejection(name: Seq<char>, email: Seq<char>) -> Seq<char> {
    if !is_user_name(name) {
        user_name_rejection(name)
    } else {
        user_email_rejection(email)
    }
}

/// An address is never blank: its `@` is no white space.
pub proof fn lemma_address_is_not_blank(s: Seq<char>)
    requires
        is_email_address(s),
    ensures
        !is_blank(s),
{
}

/// For an e-mail address the limit is sharp among the addresses that the
/// pattern matches; with one character more, or blank, nothing passes,
/// whatever the pattern answers.
pub proof fn lemma_email_limit_is_sharp(s: Seq<char>, matched: Option<bool>)
    ensures
        s.len() == USER_EMAIL_MAX && is_email_address(s) && matched == Some(true)
            ==> is_user_email_given(s, matched),
        s.len() == USER_EMAIL_MAX + 1 ==> !is_user_email_given(s, matched),
        is_blank(s) ==> !is_user_email_given(s, matched),
{
    if is_email_address(s) {
        lemma_address_is_not_blank(s);
    }
}

/// A user's name that has passed [`is_user_name`].
pub struct ValidatedUserName(String);

impl View for ValidatedUserName {
    type V = Seq<char>;

    closed spec fn view(&self) -> Seq<char> {
        self.0@
    }
}

impl ValidatedUserName {
    #[verifier::type_invariant]
    spec fn holds_a_name(self) -> bool {
        is_user_name(self.0@)
    }

    /// Accepts `value` exactly when it is a name; otherwise says why not.
    pub fn new(value: String) -> (r: Result<Self, String>)
        ensures
            r is Ok <==> is_user_name(value@),
            r is Ok ==> r->Ok_0@ == value@,
            r is Err ==> r->Err_0@ == user_name_rejection(value@),
    {
        if text_within_bounds(value.as_str(), USER_NAME_MAX) {
            Ok(Self(value))
        } else {
            Err(rejection(value.as_str(), "user name"))
        }
    }
}

impl AsRef<str> for ValidatedUserName {
    /// The text inside, which is known to be a name.
    fn as_ref(&self) -> (r: &str)
        ensures
            r@ == self@,
            is_user_name(r@),
    {
        proof {
            use_type_invariant(self);
        }
        self.0.as_str()
    }
}

/// Decides [`is_user_email_given`]: whether `value` is an e-mail address,
/// once the pattern's answer for it is known.
pub fn accepts_email(value: &str, matched: Option<bool>) -> (r: bool)
    ensures
        r == is_user_email_given(value@, matched),
{
    let shaped: bool = text_within_bounds(value, USER_EMAIL_MAX) && text_is_email_address(value);
    match matched {
        Some(found) => shaped && found,
        None => false,
    }
}

/// A user's e-mail address that has passed [`is_user_email`].
pub struct ValidatedUserEmail(String);

impl View for ValidatedUserEmail {
    type V = Seq<char>;

    closed spec fn view(&self) -> Seq<char> {
        self.0@
    }
}

impl ValidatedUserEmail {
    #[verifier::type_invariant]
    spec fn holds_an_email(self) -> bool {
        is_user_email(self.0@)
    }

    /// Accepts `value` exactly when it is an e-mail address; otherwise says
    /// why not.
    pub fn new(value: String) -> (r: Result<Self, String>)
        ensures
            r is Ok <==> is_user_email(value@),
            r is Ok ==> r->Ok_0@ == value@,
            r is Err ==> r->Err_0@ == user_email_rejection(value@),
    {
        let matched = match_pattern(EMAIL_PATTERN, value.as_str());
        if accepts_email(value.as_str(), matched) {
            Ok(Self(value))
        } else {
            Err(rejection(value.as_str(), "user email"))
        }
    }
}

impl AsRef<str> for ValidatedUserEmail {
    /// The text inside, which is known to be an e-mail address.
    fn as_ref(&self) -> (r: &str)
        ensures
            r@ == self@,
            is_user_email(r@),
            is_email_address(r@),
    {
        proof {
            use_type_invariant(self);
        }
        self.0.as_str()
    }
}

/// A user whose fields have both passed.
pub struct NewUser {
    pub name: ValidatedUserName,
    pub email: ValidatedUserEmail,
}

/// The conversion's result is stated by the contract of `try_from` itself,
/// over the views of the texts, so no spec function stands in for it here.
impl vstd::std_specs::convert::TryFromSpecImpl<NewUserData> for NewUser {
    open spec fn obeys_try_from_spec() -> bool {
        false
    }

    open spec fn try_from_spec(value: NewUserData) -> Result<Self, String> {
        arbitrary()
    }
}

impl TryFrom<NewUserData> for NewUser {
    type Error = String;

    /// Validates the name, then the e-mail address, and stops at the first
    /// that fails.
    fn try_from(value: NewUserData) -> (r: Result<Self, String>)
        ensures
            r is Ok <==> is_new_user(value.name@, value.email@),
            r is Ok ==> r->Ok_0.name@ == value.name@ && r->Ok_0.email@ == value.email@,
            r is Err ==> r->Err_0@ == new_user_rejection(value.name@, value.email@),
    {
        let name = match ValidatedUserName::new(value.name) {
            Ok(name) => name,
            Err(message) => {
                return Err(message);
            },
        };
        let email = match ValidatedUserEmail::new(value.email) {
            Ok(email) => email,
            Err(message) => {
                return Err(message);
            },
        };
        Ok(Self { name, email })
    }
}

} // verus!
