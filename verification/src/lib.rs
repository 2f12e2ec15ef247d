//! Public-address discovery and IP geolocation lookups, normalised from the
//! response shapes of several providers into one record.

pub mod http;
pub mod json;
pub mod text;
pub mod lookup;
pub mod api;
pub mod ip;

pub use api::{lookup, LookupProvider};
pub use ip::get_public_ip_addr;
pub use lookup::LookupResult;
