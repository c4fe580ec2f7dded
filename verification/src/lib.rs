//! Rendering and dispatch rules of a transactional mail service: which
//! template and locale a request names, how a rendered page becomes a
//! two-part message, and how a batch of requests is fanned out over a bounded
//! number of senders and reported back in the order in which it was given.

pub mod bulk;
pub mod dispatch;
pub mod locale;
pub mod render;
pub mod send;
pub mod serve;
pub mod strings;
pub mod templates;
pub mod text;

pub use locale::locale_from_optional_code;
pub use locale::Locale;
pub use locale::Locales;
