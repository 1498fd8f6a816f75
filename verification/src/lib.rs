//! A closed error taxonomy for the numeric result codes of the Steamworks
//! API, with a verified mapping from external failure codes to typed error
//! values, fixed human-readable descriptions, and a stable tag encoding.

pub mod codes;

pub mod error;

pub use codes::{is_known_failure_code, SUCCESS_CODE};
pub use error::SteamError;
