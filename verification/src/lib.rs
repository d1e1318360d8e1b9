//! Authentication and authorization core: a unified error model, a totally
//! ordered role lattice, a credential-hashing service with a bounded
//! concurrency gate, a stateless signed-claims session service, and a
//! request-correlation counter.

pub mod status;
pub mod role;
pub mod error;
pub mod correlate;
pub mod codec;
pub mod credential;
pub mod gate;
pub mod hashing;
pub mod token;
pub mod store;
pub mod captcha;
pub mod item;
