//! The validated fields of a clip.

pub mod content;
pub mod expires;
pub mod password;
pub mod short_code;
pub mod title;

pub use content::Content;
pub use expires::{ExpiresAt, Expiry};
pub use password::Password;
pub use short_code::ShortCode;
pub use title::Title;
