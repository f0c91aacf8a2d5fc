//! Domain types: users, frames, templates. No I/O.

pub mod error;
pub mod frame;
pub mod templates;
pub mod user;

pub use error::DomainError;
pub use frame::{Frame, FrameError, FrameView, PixelFormat, StreamModality};
pub use templates::TemplateBundle;
pub use user::UserId;
