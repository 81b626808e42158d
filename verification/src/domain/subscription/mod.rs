//! Paid plans bought through a store or a payment provider.
pub mod vo;

#[allow(clippy::module_inception)]
pub mod subscription;

pub use subscription::Subscription;
