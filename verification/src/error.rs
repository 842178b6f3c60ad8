//! The application's error type.
use vstd::prelude::*;

verus! {

/// `anyhow::Error`, carried through unchanged.
#[verifier::external_type_specification]
#[verifier::external_body]
pub struct ExAnyhowError(anyhow::Error);

/// `std::io::Error`, carried through unchanged.
#[verifier::external_type_specification]
#[verifier::external_body]
pub struct ExIoError(std::io::Error);

/// Why the application stopped with an error.
#[derive(Debug)]
pub enum AppError {
    /// The logger could not be set up.
    LoggerInitError(anyhow::Error),
    /// An I/O operation failed.
    IoError(std::io::Error),
    /// The new-order listener failed.
    NewOrderListenerError(String),
    /// The vehicle PLC listener failed.
    LgvPlcListenerError(String),
}

impl From<anyhow::Error> for AppError {
    fn from(e: anyhow::Error) -> (res: AppError) {
        AppError::LoggerInitError(e)
    }
}

impl vstd::std_specs::convert::FromSpecImpl<anyhow::Error> for AppError {
    open spec fn obeys_from_spec() -> bool {
        true
    }

    open spec fn from_spec(e: anyhow::Error) -> AppError {
        AppError::LoggerInitError(e)
    }
}

impl From<std::io::Error> for AppError {
    fn from(e: std::io::Error) -> (res: AppError) {
        AppError::IoError(e)
    }
}

impl vstd::std_specs::convert::FromSpecImpl<std::io::Error> for AppError {
    open spec fn obeys_from_spec() -> bool {
        true
    }

    open spec fn from_spec(e: std::io::Error) -> AppError {
        AppError::IoError(e)
    }
}

} // verus!
