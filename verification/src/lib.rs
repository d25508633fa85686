//! Client-side authentication core for the Nadeo web API family.
//!
//! The crate models the token lifecycle: decoding and encoding the
//! three-part bearer tokens the service issues, judging their expiry,
//! deciding when a session must refresh its credentials, and routing an
//! outgoing request to the session that serves its audience.  All logic
//! here is verified; network transport and clock reads live with the
//! caller, which hands plain values (timestamps, response bodies) in and
//! takes plain values back.

pub mod b64;
pub mod dispatch;
pub mod error;
pub mod factory;
pub mod json;
pub mod presets;
pub mod request;
pub mod session;
pub mod token;

pub use dispatch::NadeoClient;
pub use error::Error;
pub use request::NadeoRequest;
pub use session::AuthType;
