use vstd::prelude::*;

verus! {

/// Every failure a vault operation can report.
///
/// The cipher and key routines in this crate return the structured variants;
/// rendering them as user-facing text is the caller's concern.
#[derive(Debug)]
pub enum VaultError {
    /// A file could not be opened, read, created or written.
    /// Carries a message naming the file and the access that failed; the
    /// underlying operating-system error goes to the caller's log.
    IoError(String),
    /// The key file held some other number of bytes than a raw key must have.
    /// Carries the actual length that was read.
    InvalidKeyLength(usize),
    /// The ciphertext file ended before a whole initialization vector could
    /// be read. Carries the number of bytes the file held.
    TruncatedHeader(usize),
    /// The operating system's random source could not be used.
    RandomSourceUnavailable,
    /// The command line did not describe a runnable operation.
    /// Carries the message for the user.
    InvalidArguments(String),
}

} // verus!
