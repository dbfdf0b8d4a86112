//! The error type of the library's fallible operations.
use vstd::prelude::*;

verus! {

#[verifier::external_type_specification]
#[verifier::external_body]
pub struct ExStdError(cosmwasm_std::StdError);

#[verifier::external_type_specification]
#[verifier::external_body]
pub struct ExConversionOverflowError(cosmwasm_std::ConversionOverflowError);

#[verifier::external_type_specification]
#[verifier::external_body]
pub struct ExDecimal256RangeExceeded(cosmwasm_std::Decimal256RangeExceeded);

/// Why an operation failed. Parse failures and arithmetic overflow come as
/// `Std`; a negative value narrowed to an unsigned one comes as `Generic`.
#[derive(Debug)]
pub enum CommonError {
    Error(String),
    Generic(String),
    Std(cosmwasm_std::StdError),
    ConversionOverflowError(cosmwasm_std::ConversionOverflowError),
    Decimal256RangeExceeded(cosmwasm_std::Decimal256RangeExceeded),
    KeyNotFound(String),
    MultipleTx {},
    MissingHookMsg {},
}

pub type CommonResult<T> = core::result::Result<T, CommonError>;

} // verus!
