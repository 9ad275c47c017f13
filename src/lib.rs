//! Authorization gate and call assembly for minting compressed NFT leaves and
//! verifying creator or collection claims on them.
//!
//! Every request passes a pure gate first; only a permitted request yields the
//! single outbound call, and the outcome of that call is surfaced unchanged.
pub mod accounts;
pub mod actuator;
pub mod gate;
pub mod key;
pub mod laws;
pub mod programs;
pub mod request;
