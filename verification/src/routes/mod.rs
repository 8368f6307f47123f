//! One module of request shapes and handlers for each kind of entity.

pub mod authors;
pub mod books;
pub mod health_check;
pub mod users;

pub use authors::{
    author_created, author_deleted, author_shown, authors_index, authors_listed, create_author,
    delete_author, show_author, AuthorId, NewAuthorData,
};
pub use books::{
    author_resolved, book_created, book_deleted, book_shown, books_index, books_listed,
    create_book, delete_book, show_book, BookId, NewBookData,
};
pub use health_check::health_check;
pub use users::{create_user, user_created, NewUserData};
