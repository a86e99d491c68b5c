use vstd::prelude::*;

verus! {

/// Why a binary structure could not be decoded.
#[derive(Clone, Copy, Debug, PartialEq, Eq, Structural)]
pub enum ParseError {
    /// The input ended in the middle of a record or field.
    Truncated,
    /// A fixed-size structure has the wrong length.
    WrongLength,
    /// An event log holds no bytes at all.
    EmptyLog,
    /// The first event-log record is not a Spec-ID (`EV_NO_ACTION`) record.
    MissingSpecId,
    /// An event names a digest algorithm that its log's Spec-ID record does not declare.
    UnknownAlgorithmInLog,
    /// The QE certification data carries an unknown type tag.
    UnsupportedCertType,
    /// The quote header carries a version this library does not decode.
    UnsupportedQuoteVersion,
}

/// Errors surfaced by the attestation core.
#[derive(Clone, Copy, Debug, PartialEq, Eq, Structural)]
pub enum CcError {
    /// A nonce or user-data string is not valid base64.
    Encoding,
    /// The device node is missing or could not be opened.
    Device,
    /// The kernel rejected an ioctl.
    Ioctl,
    /// The Quote Generation Service envelope has a wrong size or header.
    Protocol,
    /// A binary structure could not be decoded.
    Parse(ParseError),
    /// The algorithm identifier is not in the algorithm registry.
    UnknownAlgorithm,
    /// The event type has no registered name.
    UnknownEventType,
    /// No report has been recorded to read measurement registers from.
    NoReport,
    /// The measurement register index is above the TEE's largest index.
    IndexOutOfRange,
    /// The TEE has no decoder in this library, or no TEE was found.
    UnsupportedTee,
    /// An event-log selection lies outside the log.
    Range,
}

} // verus!
