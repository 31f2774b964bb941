//! A gateway that decides who may ask a threshold-signing service for a
//! signature and over what, and that turns an allowed function call into the
//! exact request the service expects.
pub mod account;
pub mod codec;
pub mod contract;
pub mod laws;
