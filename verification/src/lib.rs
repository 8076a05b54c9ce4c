//! Client core for a cryptocurrency exchange's authenticated REST and
//! streaming interfaces: request signing, envelope construction, response
//! decoding, and classification of streamed feed frames.
use vstd::prelude::*;

pub mod json;
pub mod num;
pub mod sign;
pub mod envelope;
pub mod parse;
pub mod extract;
pub mod types;
pub mod structs;
pub mod private;
pub mod public;
pub mod wsfeed;

pub use private::Private;
pub use public::Public;

verus! {

/// Base URL of the exchange's sandbox REST interface.
pub const GEMINI_SANDBOX_URL: &'static str = "https://api.sandbox.gemini.com";

/// Base URL of the exchange's sandbox streaming interface.
pub const GEMINI_SANDBOX_WS_URL: &'static str = "wss://api.sandbox.gemini.com";

/// Base URL of the exchange's production REST interface.
pub const GEMINI_MAIN_URL: &'static str = "https://api.gemini.com";

/// Base URL of the exchange's production streaming interface.
pub const GEMINI_WS_URL: &'static str = "wss://api.gemini.com";

} // verus!
