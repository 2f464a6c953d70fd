//! Session acquisition and command orchestration for a command-line client of
//! a streaming service: every decision the client takes before and around a
//! content operation, stated as contracts and proved.

pub mod cli;
pub mod context;
pub mod error;
pub mod locale;
pub mod proxy;
pub mod router;
pub mod session;
pub mod shutdown;
pub mod speed;
pub mod text;
pub mod version;
