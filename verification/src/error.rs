//! Error taxonomy of the collection pipeline. A mandatory collector's
//! error aborts the whole report; every other failure is degraded into
//! absent fields before it can reach this type.

use vstd::prelude::*;

verus! {

/// Application-level error, carrying a message for the user.
#[derive(Debug, Clone)]
pub enum AppError {
    /// Failed to retrieve system information.
    SystemInfo { message: String },
    /// Platform-specific operation failed.
    Platform { message: String },
    /// I/O operation failed.
    Io { message: String },
    /// Configuration error.
    Config { message: String },
    /// Terminal/display error.
    Display { message: String },
}

impl AppError {
    /// The message carried by the error, whatever its category.
    pub open spec fn spec_message(&self) -> Seq<char> {
        match self {
            AppError::SystemInfo { message } => message@,
            AppError::Platform { message } => message@,
            AppError::Io { message } => message@,
            AppError::Config { message } => message@,
            AppError::Display { message } => message@,
        }
    }

    /// Create a system-information error.
    pub fn system_info(message: String) -> (e: AppError)
        ensures
            e == (AppError::SystemInfo { message }),
    {
        AppError::SystemInfo { message }
    }

    /// Create a platform error.
    pub fn platform(message: String) -> (e: AppError)
        ensures
            e == (AppError::Platform { message }),
    {
        AppError::Platform { message }
    }

    /// Create a configuration error.
    pub fn config(message: String) -> (e: AppError)
        ensures
            e == (AppError::Config { message }),
    {
        AppError::Config { message }
    }

    /// Create a display error.
    pub fn display(message: String) -> (e: AppError)
        ensures
            e == (AppError::Display { message }),
    {
        AppError::Display { message }
    }

    /// The error's message text.
    pub fn message(&self) -> (r: String)
        ensures
            r@ == self.spec_message(),
    {
        match self {
            AppError::SystemInfo { message } => message.clone(),
            AppError::Platform { message } => message.clone(),
            AppError::Io { message } => message.clone(),
            AppError::Config { message } => message.clone(),
            AppError::Display { message } => message.clone(),
        }
    }
}

} // verus!
