//! Priority-based price resolution for a two-source oracle configuration.
//!
//! The crate has two parts: a lossless fixed-point numeric model
//! ([`decimal::Decimal`]) that converts normalized decimal prices to and from
//! a compact 18-fractional-digit integer encoding, and a priority resolver
//! ([`oracle::OracleInfo`]) that validates two-source rank configurations and
//! selects the highest-priority available reading.

pub mod decimal;
pub mod errors;
pub mod oracle;

pub use decimal::Decimal;
pub use errors::OracleError;
pub use oracle::check_oracle_priorities;
pub use oracle::OracleInfo;
pub use oracle::MAXIMUM_AGE;
