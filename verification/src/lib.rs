//! The decisions of a command-line weather lookup: the settings record and
//! how it is completed, the credentials and how a candidate key is judged,
//! the forecast request, and the readings taken from its response.
//!
//! Nothing here reads input or talks to the network: every function takes
//! what was read and says what follows from it.

use vstd::prelude::*;

pub mod acquisition;
pub mod api_keys;
pub mod arg_parser;
pub mod json;
pub mod link;
pub mod text;
pub mod weather_data;

pub use crate::api_keys::ApiKeys;
pub use crate::arg_parser::{Config, Timeframe, Unit};
pub use crate::weather_data::WeatherObject;

verus! {

/// Whether an HTTP status code is in the success class, 200 to 299.
pub open spec fn success_status(code: u16) -> bool {
    200 <= code < 300
}

/// Tells whether `code` is a success status.
pub fn status_is_success(code: u16) -> (ok: bool)
    ensures
        ok == success_status(code),
{
    200 <= code && code < 300
}

} // verus!
