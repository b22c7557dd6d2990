//! Reading a fixed-layout oracle feed record and deriving a robust current
//! value from its submissions.
//!
//! The crate decodes a byte buffer — an 8-byte type tag followed by a
//! fixed-layout record — into [`record::PullFeedAccountData`], and derives a
//! median-based aggregate from the record's submission ledger, subject to a
//! staleness window and a quorum size.  Values are fixed-point integers at
//! scale 10^18, handed out as `rust_decimal::Decimal` values.

pub mod aggregate;
pub mod codec;
pub mod errors;
pub mod fixed_point;
pub mod record;

pub use aggregate::lower_bound_median;
pub use errors::OnDemandError;
pub use fixed_point::PRECISION;
pub use record::CompactResult;
pub use record::CurrentResult;
pub use record::OracleSubmission;
pub use record::PullFeedAccountData;
