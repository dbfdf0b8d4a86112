//! Signed fixed-point decimals and signed 256-bit integers, kept as a sign
//! flag beside an unsigned magnitude whose arithmetic is done by
//! `cosmwasm_std`.
pub mod decimal256;
pub mod error;
pub mod signed_decimal;
pub mod signed_int;
pub mod text;
pub mod uint256;

pub use decimal256::Decimal256;
pub use error::{CommonError, CommonResult};
pub use signed_decimal::SignedDecimal;
pub use signed_int::SignedInt;
pub use uint256::Uint256;
