//! The fields of a book: a title, the name of its author and a genre.

use crate::routes::books::NewBookData;
use crate::text::{rejection, rejection_text, text_within_bounds, within_bounds};
use crate::validations::author::{author_name_rejection, is_author_name, ValidatedAuthorName};
use vstd::prelude::*;

verus! {

/// Most characters a book's title may hold.
pub const BOOK_TITLE_MAX: usize = 256;

/// Most characters a book's genre may hold.
pub const BOOK_GENRE_MAX: usize = 80;

/// The rule for a book's title.
pub open spec fn is_book_title(s: Seq<char>) -> bool {
    within_bounds(s, BOOK_TITLE_MAX as nat)
}

/// The rule for a book's genre.
pub open spec fn is_book_genre(s: Seq<char>) -> bool {
    within_bounds(s, BOOK_GENRE_MAX as nat)
}

/// The message that turns down `s` as a book's title.
pub open spec fn book_title_rejection(s: Seq<char>) -> Seq<char> {
    rejection_text(s, "author title"@)
}

/// The message that turns down `s` as a book's genre.
pub open spec fn book_genre_rejection(s: Seq<char>) -> Seq<char> {
    rejection_text(s, "author genre"@)
}

/// Whether all three fields of a new book pass.
pub open spec fn is_new_book(title: Seq<char>, author: Seq<char>, genre: Seq<char>) -> bool {
    is_book_title(title) && is_author_name(author) && is_book_genre(genre)
}

/// The message for a new book that does not pass: that of the first field
/// that fails, in the order title, author, genre.
pub open spec fn new_book_rejection(
    title: Seq<char>,
    author: Seq<char>,
    genre: Seq<char>,
) -> Seq<char> {
    if !is_book_title(title) {
        book_title_rejection(title)
    } else if !is_author_name(author) {
        author_name_rejection(author)
    } else {
        book_genre_rejection(genre)
    }
}

/// A book's title that has passed [`is_book_title`].
pub struct ValidatedBookTitle(String);

impl View for ValidatedBookTitle {
    type V = Seq<char>;

    closed spec fn view(&self) -> Seq<char> {
        self.0@
    }
}

impl ValidatedBookTitle {
    #[verifier::type_invariant]
    spec fn holds_a_title(self) -> bool {
        is_book_title(self.0@)
    }

    /// Accepts `title` exactly when it is a title; otherwise says why not.
    pub fn new(title: String) -> (r: Result<Self, String>)
        ensures
            r is Ok <==> is_book_title(title@),
            r is Ok ==> r->Ok_0@ == title@,
            r is Err ==> r->Err_0@ == book_title_rejection(title@),
    {
        if text_within_bounds(title.as_str(), BOOK_TITLE_MAX) {
            Ok(Self(title))
        } else {
            Err(rejection(title.as_str(), "author title"))
        }
    }
}

impl AsRef<str> for ValidatedBookTitle {
    /// The text inside, which is known to be a title.
    fn as_ref(&self) -> (r: &str)
        ensures
            r@ == self@,
            is_book_title(r@),
    {
        proof {
            use_type_invariant(self);
        }
        self.0.as_str()
    }
}

/// A book's genre that has passed [`is_book_genre`].
pub struct ValidatedBookGenre(String);

impl View for ValidatedBookGenre {
    type V = Seq<char>;

    closed spec fn view(&self) -> Seq<char> {
        self.0@
    }
}

impl ValidatedBookGenre {
    #[verifier::type_invariant]
    spec fn holds_a_genre(self) -> bool {
        is_book_genre(self.0@)
    }

    /// Accepts `genre` exactly when it is a genre; otherwise says why not.
    pub fn new(genre: String) -> (r: Result<Self, String>)
        ensures
            r is Ok <==> is_book_genre(genre@),
            r is Ok ==> r->Ok_0@ == genre@,
            r is Err ==> r->Err_0@ == book_genre_rejection(genre@),
    {
        if text_within_bounds(genre.as_str(), BOOK_GENRE_MAX) {
            Ok(Self(genre))
        } else {
            Err(rejection(genre.as_str(), "author genre"))
        }
    }
}

impl AsRef<str> for ValidatedBookGenre {
    /// The text inside, which is known to be a genre.
    fn as_ref(&self) -> (r: &str)
        ensures
            r@ == self@,
            is_book_genre(r@),
    {
        proof {
            use_type_invariant(self);
        }
        self.0.as_str()
    }
}

/// A book whose fields have all passed. Its author is still a name: whether
/// an author of that name exists is for the store to say.
pub struct NewBook {
    pub title: ValidatedBookTitle,
    pub author: ValidatedAuthorName,
    pub genre: ValidatedBookGenre,
}

/// The conversion's result is stated by the contract of `try_from` itself,
/// over the views of the texts, so no spec function stands in for it here.
impl vstd::std_specs::convert::TryFromSpecImpl<NewBookData> for NewBook {
    open spec fn obeys_try_from_spec() -> bool {
        false
    }

    open spec fn try_from_spec(value: NewBookData) -> Result<Self, String> {
        arbitrary()
    }
}

impl TryFrom<NewBookData> for NewBook {
    type Error = String;

    /// Validates the title, the author's name and the genre in that order,
    /// and stops at the first that fails.
    fn try_from(value: NewBookData) -> (r: Result<Self, String>)
        ensures
            r is Ok <==> is_new_book(value.title@, value.author@, value.genre@),
            r is Ok ==> r->Ok_0.title@ == value.title@ && r->Ok_0.author@ == value.author@
                && r->Ok_0.genre@ == value.genre@,
            r is Err ==> r->Err_0@ == new_book_rejection(
                value.title@,
                value.author@,
                value.genre@,
            ),
    {
        let title = match ValidatedBookTitle::new(value.title) {
            Ok(title) => title,
            Err(message) => {
                return Err(message);
            },
        };
        let author = match ValidatedAuthorName::new(value.author) {
            Ok(author) => author,
            Err(message) => {
                return Err(message);
            },
        };
        let genre = match ValidatedBookGenre::new(value.genre) {
            Ok(genre) => genre,
            Err(message) => {
                return Err(message);
            },
        };
        Ok(Self { title, author, genre })
    }
}

} // verus!
