use vstd::prelude::*;

verus! {

/// Why logging could not be set up or reconfigured.
#[derive(Debug)]
pub enum LogInitError {
    AlreadyInitialized,
    InvalidConfig(String),
    CreateDirectory(std::io::Error),
    BuildFileAppender(std::io::Error),
    SetGlobalSubscriber(String),
}

/// Errors of the std logging backend: the same variants as `LogInitError`.
pub type StdLogInstallError = LogInitError;

/// `r` is an `InvalidConfig` error carrying exactly `message`.
pub open spec fn is_invalid_config<T>(r: Result<T, LogInitError>, message: Seq<char>) -> bool {
    r matches Err(LogInitError::InvalidConfig(m)) && m@ == message
}

} // verus!
