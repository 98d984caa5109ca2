pub use content::Content;
pub use expires::Expires;
pub use password::Password;
pub use posted::Posted;
pub use shortcode::ShortCode;

mod content;
mod expires;
pub mod password;
mod posted;
mod shortcode;
