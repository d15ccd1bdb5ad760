pub mod article;
pub mod comment;
pub mod list;

pub use article::Article;
pub use comment::Comment;
pub use list::ListBlock;
