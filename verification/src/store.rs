//! A store of authors, books and users that lives in memory.
//!
//! The store fixes what the handlers expect of any store: rows keep the
//! order in which they were inserted, every row gets an identifier that no
//! other row of its table has and that is never [`NIL_ID`], and each
//! operation touches at most one row. [`StoreState`] is the mathematical
//! model; [`MemoryStore`] is the store itself.

use crate::identifier::NIL_ID;
use crate::models::author::{author_views, Author, AuthorView};
use crate::models::book::{
    book_views, details_views, Book, BookDetails, BookDetailsView, BookView,
};
use crate::models::user::{user_views, User, UserView};
use vstd::prelude::*;

verus! {

/// Why the store could not do what it was asked.
#[derive(Clone, Copy, Debug, PartialEq, Eq, Structural)]
pub enum StoreError {
    /// A query that has to return a row found none.
    RowNotFound,
    /// The book to insert names an author that the store does not hold.
    NoSuchAuthor,
    /// No identifier is left to give to a new row.
    IdentifiersExhausted,
}

impl StoreError {
    /// The text of the error.
    pub open spec fn text(self) -> Seq<char> {
        match self {
            StoreError::RowNotFound =>
                "no rows returned by a query that expected to return at least one row"@,
            StoreError::NoSuchAuthor => "the author of the book is not in the store"@,
            StoreError::IdentifiersExhausted => "the store has no identifier left"@,
        }
    }

    /// Writes [`StoreError::text`] out.
    pub fn message(&self) -> (r: String)
        ensures
            r@ == self.text(),
    {
        match self {
            StoreError::RowNotFound => String::from_str(
                "no rows returned by a query that expected to return at least one row",
            ),
            StoreError::NoSuchAuthor => String::from_str(
                "the author of the book is not in the store",
            ),
            StoreError::IdentifiersExhausted => String::from_str(
                "the store has no identifier left",
            ),
        }
    }
}

/// The contents of a store: its three tables, each in order of insertion,
/// and the identifier that the next new row will get.
pub struct StoreState {
    pub authors: Seq<AuthorView>,
    pub books: Seq<BookView>,
    pub users: Seq<UserView>,
    pub next_id: u128,
}

impl StoreState {
    /// The store that holds nothing and hands out identifiers from `first`.
    pub open spec fn empty_from(first: u128) -> StoreState {
        StoreState { authors: Seq::empty(), books: Seq::empty(), users: Seq::empty(), next_id: first }
    }

    /// Every identifier in use is below `next_id` and is not [`NIL_ID`], and
    /// no two rows of one table share one.
    pub open spec fn well_formed(self) -> bool {
        &&& self.next_id > NIL_ID
        &&& forall|i: int|
            0 <= i < self.authors.len() ==> NIL_ID < (#[trigger] self.authors[i]).id < self.next_id
        &&& forall|i: int|
            0 <= i < self.books.len() ==> NIL_ID < (#[trigger] self.books[i]).id < self.next_id
        &&& forall|i: int|
            0 <= i < self.users.len() ==> NIL_ID < (#[trigger] self.users[i]).id < self.next_id
        &&& forall|i: int, j: int|
            0 <= i < j < self.authors.len() ==> (#[trigger] self.authors[i]).id != (
            #[trigger] self.authors[j]).id
        &&& forall|i: int, j: int|
            0 <= i < j < self.books.len() ==> (#[trigger] self.books[i]).id != (
            #[trigger] self.books[j]).id
        &&& forall|i: int, j: int|
            0 <= i < j < self.users.len() ==> (#[trigger] self.users[i]).id != (
            #[trigger] self.users[j]).id
    }

    /// No identifier is left for a new row.
    pub open spec fn is_full(self) -> bool {
        self.next_id == u128::MAX
    }

    /// Row `i` of the authors has identifier `id`.
    pub open spec fn author_at(self, id: u128, i: int) -> bool {
        0 <= i < self.authors.len() && self.authors[i].id == id
    }

    /// Some author has identifier `id`.
    pub open spec fn has_author(self, id: u128) -> bool {
        exists|i: int| self.author_at(id, i)
    }

    /// Where the author with identifier `id` stands, if there is one.
    pub open spec fn author_index(self, id: u128) -> int {
        choose|i: int| self.author_at(id, i)
    }

    /// The author with identifier `id`.
    pub open spec fn author_by_id(self, id: u128) -> Option<AuthorView> {
        if self.has_author(id) {
            Some(self.authors[self.author_index(id)])
        } else {
            None
        }
    }

    /// Row `i` is the first author whose name is exactly `name`.
    pub open spec fn first_named_at(self, name: Seq<char>, i: int) -> bool {
        &&& 0 <= i < self.authors.len()
        &&& self.authors[i].name == name
        &&& forall|j: int| 0 <= j < i ==> (#[trigger] self.authors[j]).name != name
    }

    /// Some author has exactly the name `name`.
    pub open spec fn has_author_named(self, name: Seq<char>) -> bool {
        exists|i: int| self.first_named_at(name, i)
    }

    /// The author named `name`; where several have that name, the one that
    /// was inserted first.
    pub open spec fn author_named(self, name: Seq<char>) -> Option<AuthorView> {
        if self.has_author_named(name) {
            Some(self.authors[choose|i: int| self.first_named_at(name, i)])
        } else {
            None
        }
    }

    /// The store after a new author went in at the end of its table.
    pub open spec fn with_author(
        self,
        name: Seq<char>,
        nationality: Seq<char>,
        created_at: i64,
    ) -> StoreState {
        StoreState {
            authors: self.authors.push(
                AuthorView { id: self.next_id, name, nationality, created_at },
            ),
            next_id: (self.next_id + 1) as u128,
            ..self
        }
    }

    /// The store after the author with identifier `id` left it. Nothing
    /// else changes: books of that author stay, and are no longer shown.
    pub open spec fn without_author(self, id: u128) -> StoreState {
        if self.has_author(id) {
            StoreState { authors: self.authors.remove(self.author_index(id)), ..self }
        } else {
            self
        }
    }

    /// Row `i` of the books has identifier `id`.
    pub open spec fn book_at(self, id: u128, i: int) -> bool {
        0 <= i < self.books.len() && self.books[i].id == id
    }

    /// Some book has identifier `id`.
    pub open spec fn has_book(self, id: u128) -> bool {
        exists|i: int| self.book_at(id, i)
    }

    /// Where the book with identifier `id` stands, if there is one.
    pub open spec fn book_index(self, id: u128) -> int {
        choose|i: int| self.book_at(id, i)
    }

    /// The book with identifier `id`.
    pub open spec fn book_by_id(self, id: u128) -> Option<BookView> {
        if self.has_book(id) {
            Some(self.books[self.book_index(id)])
        } else {
            None
        }
    }

    /// The store after a new book went in at the end of its table.
    pub open spec fn with_book(
        self,
        title: Seq<char>,
        genre: Seq<char>,
        author_id: u128,
        created_at: i64,
    ) -> StoreState {
        StoreState {
            books: self.books.push(
                BookView { id: self.next_id, title, author_id, genre, created_at },
            ),
            next_id: (self.next_id + 1) as u128,
            ..self
        }
    }

    /// The store after the book with identifier `id` left it.
    pub open spec fn without_book(self, id: u128) -> StoreState {
        if self.has_book(id) {
            StoreState { books: self.books.remove(self.book_index(id)), ..self }
        } else {
            self
        }
    }

    /// The store after a new user went in at the end of its table.
    pub open spec fn with_user(self, name: Seq<char>, email: Seq<char>, created_at: i64) -> StoreState {
        StoreState {
            users: self.users.push(UserView { id: self.next_id, name, email, created_at }),
            next_id: (self.next_id + 1) as u128,
            ..self
        }
    }

    /// Inserting an author keeps a store with an identifier to spare well
    /// formed.
    pub proof fn lemma_with_author_well_formed(
        self,
        name: Seq<char>,
        nationality: Seq<char>,
        created_at: i64,
    )
        requires
            self.well_formed(),
            !self.is_full(),
        ensures
            self.with_author(name, nationality, created_at).well_formed(),
    {
    }

    /// A well-formed store holds at most one author with a given
    /// identifier.
    pub proof fn lemma_author_index_unique(self, id: u128, i: int)
        requires
            self.well_formed(),
            self.author_at(id, i),
        ensures
            self.has_author(id),
            self.author_index(id) == i,
            self.author_by_id(id) == Some(self.authors[i]),
    {
    }

    /// Deleting an author keeps a store well formed.
    pub proof fn lemma_without_author_well_formed(self, id: u128)
        requires
            self.well_formed(),
        ensures
            self.without_author(id).well_formed(),
    {
    }

    /// The author that a name resolves to is one that the store holds.
    pub proof fn lemma_named_author_is_held(self, name: Seq<char>)
        requires
            self.author_named(name) is Some,
        ensures
            self.has_author(self.author_named(name)->0.id),
            self.author_named(name)->0.name == name,
    {
        let i = choose|i: int| self.first_named_at(name, i);
        assert(self.author_at(self.authors[i].id, i));
    }

    /// A well-formed store holds at most one book with a given identifier.
    pub proof fn lemma_book_index_unique(self, id: u128, i: int)
        requires
            self.well_formed(),
            self.book_at(id, i),
        ensures
            self.has_book(id),
            self.book_index(id) == i,
            self.book_by_id(id) == Some(self.books[i]),
    {
    }

    /// Inserting a book keeps a store with an identifier to spare well
    /// formed.
    pub proof fn lemma_with_book_well_formed(
        self,
        title: Seq<char>,
        genre: Seq<char>,
        author_id: u128,
        created_at: i64,
    )
        requires
            self.well_formed(),
            !self.is_full(),
        ensures
            self.with_book(title, genre, author_id, created_at).well_formed(),
    {
    }

    /// Deleting a book keeps a store well formed.
    pub proof fn lemma_without_book_well_formed(self, id: u128)
        requires
            self.well_formed(),
        ensures
            self.without_book(id).well_formed(),
    {
    }

    /// Inserting a user keeps a store with an identifier to spare well
    /// formed.
    pub proof fn lemma_with_user_well_formed(
        self,
        name: Seq<char>,
        email: Seq<char>,
        created_at: i64,
    )
        requires
            self.well_formed(),
            !self.is_full(),
        ensures
            self.with_user(name, email, created_at).well_formed(),
    {
    }

    /// A book joined with its author: the book as it is shown, or nothing
    /// where the store does not hold its author.
    pub open spec fn details(self, book: BookView) -> Option<BookDetailsView> {
        match self.author_by_id(book.author_id) {
            Some(author) => Some(
                BookDetailsView {
                    id: book.id,
                    title: book.title,
                    author: author.name,
                    genre: book.genre,
                    created_at: book.created_at,
                },
            ),
            None => None,
        }
    }

    /// The first `n` books, each joined with its author, in their order;
    /// books whose author is gone are left out.
    pub open spec fn listing_upto(self, n: nat) -> Seq<BookDetailsView>
        decreases n,
    {
        if n == 0 || n > self.books.len() {
            Seq::empty()
        } else {
            let before = self.listing_upto((n - 1) as nat);
            match self.details(self.books[n - 1]) {
                Some(shown) => before.push(shown),
                None => before,
            }
        }
    }

    /// All books, each joined with its author.
    pub open spec fn listing(self) -> Seq<BookDetailsView> {
        self.listing_upto(self.books.len())
    }

    /// The book with identifier `id`, joined with its author.
    pub open spec fn book_details(self, id: u128) -> Option<BookDetailsView> {
        match self.book_by_id(id) {
            Some(book) => self.details(book),
            None => None,
        }
    }
}

/// Where the first author with identifier `id` stands in `authors`.
fn author_position(authors: &Vec<Author>, id: u128) -> (r: Option<usize>)
    ensures
        match r {
            Some(i) => i < authors.len() && authors[i as int].id == id,
            None => forall|j: int| 0 <= j < authors.len() ==> (#[trigger] authors[j]).id != id,
        },
{
    let mut i: usize = 0;
    while i < authors.len()
        invariant
            i <= authors.len(),
            forall|j: int| 0 <= j < i ==> (#[trigger] authors[j]).id != id,
        decreases authors.len() - i,
    {
        if authors[i].id == id {
            return Some(i);
        }
        i += 1;
    }
    None
}

/// Where the first book with identifier `id` stands in `books`.
fn book_position(books: &Vec<Book>, id: u128) -> (r: Option<usize>)
    ensures
        match r {
            Some(i) => i < books.len() && books[i as int].id == id,
            None => forall|j: int| 0 <= j < books.len() ==> (#[trigger] books[j]).id != id,
        },
{
    let mut i: usize = 0;
    while i < books.len()
        invariant
            i <= books.len(),
            forall|j: int| 0 <= j < i ==> (#[trigger] books[j]).id != id,
        decreases books.len() - i,
    {
        if books[i].id == id {
            return Some(i);
        }
        i += 1;
    }
    None
}

/// A store in memory. Its fields are private, so every store there is has
/// been built by the functions below and is well formed.
pub struct MemoryStore {
    authors: Vec<Author>,
    books: Vec<Book>,
    users: Vec<User>,
    next_id: u128,
}

impl View for MemoryStore {
    type V = StoreState;

    closed spec fn view(&self) -> StoreState {
        StoreState {
            authors: author_views(self.authors@),
            books: book_views(self.books@),
            users: user_views(self.users@),
            next_id: self.next_id,
        }
    }
}

impl MemoryStore {
    #[verifier::type_invariant]
    spec fn is_well_formed(self) -> bool {
        self@.well_formed()
    }

    /// Every store is well formed. This does nothing when it runs; it hands
    /// the invariant to a caller that is being verified.
    pub(crate) fn known_well_formed(&self)
        ensures
            self@.well_formed(),
    {
        proof {
            use_type_invariant(self);
        }
    }

    /// An empty store that hands out identifiers from 1.
    pub fn new() -> (r: Self)
        ensures
            r@ == StoreState::empty_from(1),
            r@.well_formed(),
    {
        let r = MemoryStore { authors: Vec::new(), books: Vec::new(), users: Vec::new(), next_id: 1 };
        assert(r@ =~= StoreState::empty_from(1)) by {
            assert(author_views(r.authors@) =~= Seq::empty());
            assert(book_views(r.books@) =~= Seq::empty());
            assert(user_views(r.users@) =~= Seq::empty());
        }
        r
    }

    /// An empty store that hands out identifiers from `first`, or from 1
    /// where `first` is [`NIL_ID`].
    pub fn starting_at(first: u128) -> (r: Self)
        ensures
            r@ == StoreState::empty_from(if first == NIL_ID { 1 } else { first }),
            r@.well_formed(),
    {
        let next_id: u128 = if first == NIL_ID { 1 } else { first };
        let r = MemoryStore { authors: Vec::new(), books: Vec::new(), users: Vec::new(), next_id };
        assert(r@ =~= StoreState::empty_from(next_id)) by {
            assert(author_views(r.authors@) =~= Seq::empty());
            assert(book_views(r.books@) =~= Seq::empty());
            assert(user_views(r.users@) =~= Seq::empty());
        }
        r
    }

    /// Moves the whole store out and leaves an empty one in its place, so
    /// that the tables can be changed and put back in one piece.
    fn take_all(&mut self) -> (r: MemoryStore)
        ensures
            r == *old(self),
    {
        let mut taken = MemoryStore::new();
        core::mem::swap(&mut taken, self);
        taken
    }

    /// Every author, in order of insertion.
    pub fn authors(&self) -> (r: Vec<Author>)
        ensures
            author_views(r@) == self@.authors,
            self@.well_formed(),
    {
        proof {
            use_type_invariant(self);
        }
        let mut out: Vec<Author> = Vec::new();
        let mut i: usize = 0;
        while i < self.authors.len()
            invariant
                i <= self.authors.len(),
                out.len() == i,
                forall|j: int| 0 <= j < i ==> (#[trigger] out[j])@ == self.authors[j]@,
            decreases self.authors.len() - i,
        {
            out.push(self.authors[i].clone());
            i += 1;
        }
        out
    }

    /// The author with identifier `id`.
    pub fn author(&self, id: u128) -> (r: Result<Author, StoreError>)
        ensures
            self@.well_formed(),
            match r {
                Ok(author) => self@.author_by_id(id) == Some(author@),
                Err(e) => e == StoreError::RowNotFound && self@.author_by_id(id) is None,
            },
    {
        proof {
            use_type_invariant(self);
        }
        match author_position(&self.authors, id) {
            Some(i) => {
                proof {
                    assert(self@.author_at(id, i as int));
                }
                Ok(self.authors[i].clone())
            },
            None => Err(StoreError::RowNotFound),
        }
    }
    /// The first author whose name is exactly `name`.
    pub fn author_named(&self, name: &str) -> (r: Result<Author, StoreError>)
        ensures
            self@.well_formed(),
            match r {
                Ok(author) => self@.author_named(name@) == Some(author@),
                Err(e) => e == StoreError::RowNotFound && self@.author_named(name@) is None,
            },
    {
        proof {
            use_type_invariant(self);
        }
        let wanted = String::from_str(name);
        let mut i: usize = 0;
        while i < self.authors.len()
            invariant
                i <= self.authors.len(),
                wanted@ == name@,
                self@.well_formed(),
                forall|j: int| 0 <= j < i ==> (#[trigger] self@.authors[j]).name != name@,
            decreases self.authors.len() - i,
        {
            if self.authors[i].name == wanted {
                proof {
                    assert(self@.first_named_at(name@, i as int));
                }
                return Ok(self.authors[i].clone());
            }
            i += 1;
        }
        Err(StoreError::RowNotFound)
    }

    /// Inserts an author and returns its new identifier. This fails only
    /// where no identifier is left, and then changes nothing.
    pub fn insert_author(&mut self, name: &str, nationality: &str, created_at: i64) -> (r: Result<
        u128,
        StoreError,
    >)
        ensures
            final(self)@.well_formed(),
            match r {
                Ok(id) => {
                    &&& !old(self)@.is_full()
                    &&& id == old(self)@.next_id
                    &&& final(self)@ == old(self)@.with_author(name@, nationality@, created_at)
                },
                Err(e) => {
                    &&& old(self)@.is_full()
                    &&& e == StoreError::IdentifiersExhausted
                    &&& final(self)@ == old(self)@
                },
            },
    {
        proof {
            use_type_invariant(&*self);
        }
        if self.next_id == u128::MAX {
            return Err(StoreError::IdentifiersExhausted);
        }
        let id: u128 = self.next_id;
        let row = Author {
            id,
            name: String::from_str(name),
            nationality: String::from_str(nationality),
            created_at,
        };
        let MemoryStore { mut authors, books, users, next_id: _ } = self.take_all();
        authors.push(row);
        proof {
            let after = old(self)@.with_author(name@, nationality@, created_at);
            assert(author_views(authors@) =~= after.authors);
            old(self)@.lemma_with_author_well_formed(name@, nationality@, created_at);
        }
        *self = MemoryStore { authors, books, users, next_id: id + 1 };
        Ok(id)
    }

    /// Deletes the author with identifier `id` and returns how many rows
    /// went: 1 where the store held it, else 0.
    pub fn delete_author(&mut self, id: u128) -> (r: u64)
        ensures
            final(self)@.well_formed(),
            final(self)@ == old(self)@.without_author(id),
            r == if old(self)@.has_author(id) { 1u64 } else { 0u64 },
    {
        proof {
            use_type_invariant(&*self);
        }
        match author_position(&self.authors, id) {
            Some(i) => {
                proof {
                    assert(self@.author_at(id, i as int));
                }
                let MemoryStore { mut authors, books, users, next_id } = self.take_all();
                let _ = authors.remove(i);
                proof {
                    assert(author_views(authors@) =~= old(self)@.without_author(id).authors);
                    old(self)@.lemma_without_author_well_formed(id);
                }
                *self = MemoryStore { authors, books, users, next_id };
                1
            },
            None => 0,
        }
    }
    /// The book `book` joined with its author, where the store holds the
    /// author.
    fn join(&self, book: &Book) -> (r: Option<BookDetails>)
        ensures
            self@.well_formed(),
            match r {
                Some(shown) => self@.details(book@) == Some(shown@),
                None => self@.details(book@) is None,
            },
    {
        match self.author(book.author_id) {
            Ok(author) => Some(
                BookDetails {
                    id: book.id,
                    title: book.title.clone(),
                    author: author.name,
                    genre: book.genre.clone(),
                    created_at: book.created_at,
                },
            ),
            Err(_) => None,
        }
    }

    /// Every book whose author the store holds, joined with that author, in
    /// order of insertion.
    pub fn books(&self) -> (r: Vec<BookDetails>)
        ensures
            self@.well_formed(),
            details_views(r@) == self@.listing(),
    {
        proof {
            use_type_invariant(self);
        }
        let mut out: Vec<BookDetails> = Vec::new();
        let mut i: usize = 0;
        while i < self.books.len()
            invariant
                i <= self.books.len(),
                self@.books.len() == self.books.len(),
                details_views(out@) == self@.listing_upto(i as nat),
            decreases self.books.len() - i,
        {
            match self.join(&self.books[i]) {
                Some(shown) => {
                    out.push(shown);
                },
                None => {},
            }
            i += 1;
        }
        out
    }

    /// The book with identifier `id`, joined with its author. A book whose
    /// author is gone is not found.
    pub fn book(&self, id: u128) -> (r: Result<BookDetails, StoreError>)
        ensures
            self@.well_formed(),
            match r {
                Ok(shown) => self@.book_details(id) == Some(shown@),
                Err(e) => e == StoreError::RowNotFound && self@.book_details(id) is None,
            },
    {
        proof {
            use_type_invariant(self);
        }
        match book_position(&self.books, id) {
            Some(i) => {
                proof {
                    self@.lemma_book_index_unique(id, i as int);
                }
                match self.join(&self.books[i]) {
                    Some(shown) => Ok(shown),
                    None => Err(StoreError::RowNotFound),
                }
            },
            None => Err(StoreError::RowNotFound),
        }
    }

    /// Inserts a book of the author with identifier `author_id` and returns
    /// the book's new identifier. This fails where the store does not hold
    /// that author, or else where no identifier is left, and then changes
    /// nothing.
    pub fn insert_book(&mut self, title: &str, genre: &str, author_id: u128, created_at: i64) -> (r:
        Result<u128, StoreError>)
        ensures
            final(self)@.well_formed(),
            match r {
                Ok(id) => {
                    &&& old(self)@.has_author(author_id)
                    &&& !old(self)@.is_full()
                    &&& id == old(self)@.next_id
                    &&& final(self)@ == old(self)@.with_book(title@, genre@, author_id, created_at)
                },
                Err(e) => {
                    &&& final(self)@ == old(self)@
                    &&& !old(self)@.has_author(author_id) || old(self)@.is_full()
                    &&& e == if old(self)@.has_author(author_id) {
                        StoreError::IdentifiersExhausted
                    } else {
                        StoreError::NoSuchAuthor
                    }
                },
            },
    {
        proof {
            use_type_invariant(&*self);
        }
        match author_position(&self.authors, author_id) {
            Some(i) => {
                assert(self@.author_at(author_id, i as int));
            },
            None => {
                return Err(StoreError::NoSuchAuthor);
            },
        }
        if self.next_id == u128::MAX {
            return Err(StoreError::IdentifiersExhausted);
        }
        let id: u128 = self.next_id;
        let row = Book {
            id,
            title: String::from_str(title),
            author_id,
            genre: String::from_str(genre),
            created_at,
        };
        let MemoryStore { authors, mut books, users, next_id: _ } = self.take_all();
        books.push(row);
        proof {
            let after = old(self)@.with_book(title@, genre@, author_id, created_at);
            assert(book_views(books@) =~= after.books);
            old(self)@.lemma_with_book_well_formed(title@, genre@, author_id, created_at);
        }
        *self = MemoryStore { authors, books, users, next_id: id + 1 };
        Ok(id)
    }

    /// Deletes the book with identifier `id` and returns how many rows
    /// went: 1 where the store held it, else 0.
    pub fn delete_book(&mut self, id: u128) -> (r: u64)
        ensures
            final(self)@.well_formed(),
            final(self)@ == old(self)@.without_book(id),
            r == if old(self)@.has_book(id) { 1u64 } else { 0u64 },
    {
        proof {
            use_type_invariant(&*self);
        }
        match book_position(&self.books, id) {
            Some(i) => {
                proof {
                    self@.lemma_book_index_unique(id, i as int);
                }
                let MemoryStore { authors, mut books, users, next_id } = self.take_all();
                let _ = books.remove(i);
                proof {
                    assert(book_views(books@) =~= old(self)@.without_book(id).books);
                    old(self)@.lemma_without_book_well_formed(id);
                }
                *self = MemoryStore { authors, books, users, next_id };
                1
            },
            None => 0,
        }
    }

    /// Every user, in order of insertion.
    pub fn users(&self) -> (r: Vec<User>)
        ensures
            user_views(r@) == self@.users,
            self@.well_formed(),
    {
        proof {
            use_type_invariant(self);
        }
        let mut out: Vec<User> = Vec::new();
        let mut i: usize = 0;
        while i < self.users.len()
            invariant
                i <= self.users.len(),
                out.len() == i,
                forall|j: int| 0 <= j < i ==> (#[trigger] out[j])@ == self.users[j]@,
            decreases self.users.len() - i,
        {
            out.push(self.users[i].clone());
            i += 1;
        }
        out
    }

    /// Inserts a user and returns its new identifier. This fails only where
    /// no identifier is left, and then changes nothing.
    pub fn insert_user(&mut self, name: &str, email: &str, created_at: i64) -> (r: Result<
        u128,
        StoreError,
    >)
        ensures
            final(self)@.well_formed(),
            match r {
                Ok(id) => {
                    &&& !old(self)@.is_full()
                    &&& id == old(self)@.next_id
                    &&& final(self)@ == old(self)@.with_user(name@, email@, created_at)
                },
                Err(e) => {
                    &&& old(self)@.is_full()
                    &&& e == StoreError::IdentifiersExhausted
                    &&& final(self)@ == old(self)@
                },
            },
    {
        proof {
            use_type_invariant(&*self);
        }
        if self.next_id == u128::MAX {
            return Err(StoreError::IdentifiersExhausted);
        }
        let id: u128 = self.next_id;
        let row = User {
            id,
            name: String::from_str(name),
            email: String::from_str(email),
            created_at,
        };
        let MemoryStore { authors, books, mut users, next_id: _ } = self.take_all();
        users.push(row);
        proof {
            let after = old(self)@.with_user(name@, email@, created_at);
            assert(user_views(users@) =~= after.users);
            old(self)@.lemma_with_user_well_formed(name@, email@, created_at);
        }
        *self = MemoryStore { authors, books, users, next_id: id + 1 };
        Ok(id)
    }
}

} // verus!
