//! The fields of an author: a name and a nationality.

use crate::routes::authors::NewAuthorData;
use crate::text::{rejection, rejection_text, text_within_bounds, within_bounds};
use vstd::prelude::*;

verus! {

/// Most characters an author's name may hold.
pub const AUTHOR_NAME_MAX: usize = 256;

/// Most characters an author's nationality may hold.
pub const AUTHOR_NATIONALITY_MAX: usize = 80;

/// The rule for an author's name.
pub open spec fn is_author_name(s: Seq<char>) -> bool {
    within_bounds(s, AUTHOR_NAME_MAX as nat)
}

/// The rule for an author's nationality.
pub open spec fn is_author_nationality(s: Seq<char>) -> bool {
    within_bounds(s, AUTHOR_NATIONALITY_MAX as nat)
}

/// The message that turns down `s` as an author's name.
pub open spec fn author_name_rejection(s: Seq<char>) -> Seq<char> {
    rejection_text(s, "author name"@)
}

/// The message that turns down `s` as an author's nationality.
pub open spec fn author_nationality_rejection(s: Seq<char>) -> Seq<char> {
    rejection_text(s, "author nationality"@)
}

/// Whether both fields of a new author pass.
pub open spec fn is_new_author(name: Seq<char>, nationality: Seq<char>) -> bool {
    is_author_name(name) && is_author_nationality(nationality)
}

/// The message for a new author that does not pass: that of the first field
/// that fails, the name before the nationality.
pub open spec fn new_author_rejection(name: Seq<char>, nationality: Seq<char>) -> Seq<char> {
    if !is_author_name(name) {
        author_name_rejection(name)
    } else {
        author_nationality_rejection(nationality)
    }
}

/// An author's name that has passed [`is_author_name`].
pub struct ValidatedAuthorName(String);

impl View for ValidatedAuthorName {
    type V = Seq<char>;

    closed spec fn view(&self) -> Seq<char> {
        self.0@
    }
}

impl ValidatedAuthorName {
    #[verifier::type_invariant]
    spec fn holds_a_name(self) -> bool {
        is_author_name(self.0@)
    }

    /// Accepts `value` exactly when it is a name; otherwise says why not.
    pub fn new(value: String) -> (r: Result<Self, String>)
        ensures
            r is Ok <==> is_author_name(value@),
            r is Ok ==> r->Ok_0@ == value@,
            r is Err ==> r->Err_0@ == author_name_rejection(value@),
    {
        if text_within_bounds(value.as_str(), AUTHOR_NAME_MAX) {
            Ok(Self(value))
        } else {
            Err(rejection(value.as_str(), "author name"))
        }
    }
}

impl AsRef<str> for ValidatedAuthorName {
    /// The text inside, which is known to be a name.
    fn as_ref(&self) -> (r: &str)
        ensures
            r@ == self@,
            is_author_name(r@),
    {
        proof {
            use_type_invariant(self);
        }
        self.0.as_str()
    }
}

/// An author's nationality that has passed [`is_author_nationality`].
pub struct ValidatedAuthorNationality(String);

impl View for ValidatedAuthorNationality {
    type V = Seq<char>;

    closed spec fn view(&self) -> Seq<char> {
        self.0@
    }
}

impl ValidatedAuthorNationality {
    #[verifier::type_invariant]
    spec fn holds_a_nationality(self) -> bool {
        is_author_nationality(self.0@)
    }

    /// Accepts `value` exactly when it is a nationality; otherwise says why
    /// not.
    pub fn new(value: String) -> (r: Result<Self, String>)
        ensures
            r is Ok <==> is_author_nationality(value@),
            r is Ok ==> r->Ok_0@ == value@,
            r is Err ==> r->Err_0@ == author_nationality_rejection(value@),
    {
        if text_within_bounds(value.as_str(), AUTHOR_NATIONALITY_MAX) {
            Ok(Self(value))
        } else {
            Err(rejection(value.as_str(), "author nationality"))
        }
    }
}

impl AsRef<str> for ValidatedAuthorNationality {
    /// The text inside, which is known to be a nationality.
    fn as_ref(&self) -> (r: &str)
        ensures
            r@ == self@,
            is_author_nationality(r@),
    {
        proof {
            use_type_invariant(self);
        }
        self.0.as_str()
    }
}

/// An author whose fields have both passed.
pub struct NewAuthor {
    pub name: ValidatedAuthorName,
    pub nationality: ValidatedAuthorNationality,
}

/// The conversion's result is stated by the contract of `try_from` itself,
/// over the views of the texts, so no spec function stands in for it here.
impl vstd::std_specs::convert::TryFromSpecImpl<NewAuthorData> for NewAuthor {
    open spec fn obeys_try_from_spec() -> bool {
        false
    }

    open spec fn try_from_spec(value: NewAuthorData) -> Result<Self, String> {
        arbitrary()
    }
}

impl TryFrom<NewAuthorData> for NewAuthor {
    type Error = String;

    /// Validates the name, then the nationality, and stops at the first that
    /// fails.
    fn try_from(value: NewAuthorData) -> (r: Result<Self, String>)
        ensures
            r is Ok <==> is_new_author(value.name@, value.nationality@),
            r is Ok ==> r->Ok_0.name@ == value.name@ && r->Ok_0.nationality@
                == value.nationality@,
            r is Err ==> r->Err_0@ == new_author_rejection(value.name@, value.nationality@),
    {
        let name = match ValidatedAuthorName::new(value.name) {
            Ok(name) => name,
            Err(message) => {
                return Err(message);
            },
        };
        let nationality = match ValidatedAuthorNationality::new(value.nationality) {
            Ok(nationality) => nationality,
            Err(message) => {
                return Err(message);
            },
        };
        Ok(Self { name, nationality })
    }
}

} // verus!
