//! A type-erased glium vertex buffer that remembers the element type it was
//! built from and hands its storage back only to callers that name that type.
pub mod erased;
pub mod error;
pub mod tag;

pub use erased::TypedVertexBufferAny;
pub use error::IncorrectTypeError;
pub use tag::tag_of;
