//! The logic of a watch-only wallet.

pub mod amount;
pub mod chain;
pub mod client;
pub mod clock;
pub mod gate;
pub mod hex;
pub mod import;
pub mod ipc;
pub mod json;
pub mod notes;
pub mod notify;
pub mod paths;
pub mod price;
pub mod round;
pub mod run;
pub mod service;
pub mod sync;
pub mod text;
pub mod transport;
pub mod tx;
pub mod uri;
