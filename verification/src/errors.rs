//! The boundary's error taxonomy.
//!
//! Three families, never merged: `MalformedValue` errors raised by the value
//! converters before any engine call, build-time errors raised while turning
//! a [`crate::builder::Builder`] into a node, and runtime errors raised by a
//! live node. Every distinct kind carries a distinct stable status code, so
//! callers can branch on the kind; the descriptive message of an engine
//! error is preserved verbatim.

use vstd::prelude::*;

verus! {

/// A conversion rejected its input before any engine call was attempted.
#[derive(Clone, Copy, Debug, PartialEq, Eq, Structural)]
pub enum MalformedKind {
    /// A fixed-length byte field had the wrong length.
    WrongLength,
    /// A host:port string did not parse as a socket address.
    BadSocketAddress,
    /// A public-key string did not parse as a curve point.
    BadPublicKey,
    /// An on-chain address string did not parse.
    BadAddress,
    /// An invoice string did not parse.
    BadInvoice,
    /// A mnemonic string did not parse.
    BadMnemonic,
    /// A monetary amount exceeded the range of the narrower integer.
    AmountOutOfRange,
}

/// Why constructing a node from a builder failed.
///
/// The first three kinds are raised by the boundary itself; the rest mirror
/// the engine's build-time failures one to one.
#[derive(Clone, Copy, Debug, PartialEq, Eq, Structural)]
pub enum BuildErrorKind {
    /// `build()` was called with no entropy source chosen.
    MissingEntropySource,
    /// `build()` was called with no storage path set.
    MissingStoragePath,
    /// `build()` was called on a builder that already produced a node.
    AlreadyBuilt,
    /// The given seed bytes are invalid, e.g. have the wrong length.
    InvalidSeedBytes,
    /// The given seed file is invalid or could not be read.
    InvalidSeedFile,
    /// The system time is invalid.
    InvalidSystemTime,
    /// A read channel monitor is invalid.
    InvalidChannelMonitor,
    /// The given listening addresses are invalid.
    InvalidListeningAddresses,
    /// Reading from the store failed.
    ReadFailed,
    /// Writing to the store failed.
    WriteFailed,
    /// The given storage path could not be accessed.
    StoragePathAccessFailed,
    /// The key-value store could not be set up.
    KVStoreSetupFailed,
    /// The on-chain wallet could not be set up.
    WalletSetupFailed,
    /// The logger could not be set up.
    LoggerSetupFailed,
}

/// Why an operation on a live node failed.
///
/// These kinds mirror the engine's runtime error variants one to one.
#[derive(Clone, Copy, Debug, PartialEq, Eq, Structural)]
pub enum RuntimeErrorKind {
    /// The node was already running when `start` was called.
    AlreadyRunning,
    /// The node was not running.
    NotRunning,
    /// An on-chain transaction could not be created.
    OnchainTxCreationFailed,
    /// A network connection has been closed.
    ConnectionFailed,
    /// Invoice creation failed.
    InvoiceCreationFailed,
    /// Sending a payment has failed.
    PaymentSendingFailed,
    /// Sending a payment probe has failed.
    ProbeSendingFailed,
    /// A channel could not be opened.
    ChannelCreationFailed,
    /// A channel could not be closed.
    ChannelClosingFailed,
    /// A channel config could not be updated.
    ChannelConfigUpdateFailed,
    /// Persistence failed.
    PersistenceFailed,
    /// A fee rate estimation update failed.
    FeerateEstimationUpdateFailed,
    /// A wallet operation failed.
    WalletOperationFailed,
    /// A signing operation for a transaction failed.
    OnchainTxSigningFailed,
    /// A signing operation for a message failed.
    MessageSigningFailed,
    /// A transaction sync operation failed.
    TxSyncFailed,
    /// A gossip updating operation failed.
    GossipUpdateFailed,
    /// The given address is invalid.
    InvalidAddress,
    /// The given network address is invalid.
    InvalidSocketAddress,
    /// The given public key is invalid.
    InvalidPublicKey,
    /// The given secret key is invalid.
    InvalidSecretKey,
    /// The given payment hash is invalid.
    InvalidPaymentHash,
    /// The given payment preimage is invalid.
    InvalidPaymentPreimage,
    /// The given payment secret is invalid.
    InvalidPaymentSecret,
    /// The given amount is invalid.
    InvalidAmount,
    /// The given invoice is invalid.
    InvalidInvoice,
    /// The given channel ID is invalid.
    InvalidChannelId,
    /// The given network is invalid.
    InvalidNetwork,
    /// A payment with the given hash was already initiated.
    DuplicatePayment,
    /// There are insufficient funds to complete the operation.
    InsufficientFunds,
}

/// The three error families of the boundary.
#[derive(Clone, Copy, Debug, PartialEq, Eq, Structural)]
pub enum ErrorKind {
    Malformed(MalformedKind),
    Build(BuildErrorKind),
    Runtime(RuntimeErrorKind),
}

/// A boundary-visible error: a kind, its stable status code, and a
/// human-readable message.
#[derive(Debug)]
pub struct BoundaryError {
    pub kind: ErrorKind,
    pub code: u32,
    pub message: String,
}

/// The stable status code of each error kind.
///
/// Codes below 200 are conversion failures, codes in the 200s are
/// build-time failures, codes in the 300s are runtime failures.
pub open spec fn code_of(k: ErrorKind) -> u32 {
    match k {
        ErrorKind::Malformed(m) => match m {
            MalformedKind::WrongLength => 100u32,
            MalformedKind::BadSocketAddress => 101u32,
            MalformedKind::BadPublicKey => 102u32,
            MalformedKind::BadAddress => 103u32,
            MalformedKind::BadInvoice => 104u32,
            MalformedKind::BadMnemonic => 105u32,
            MalformedKind::AmountOutOfRange => 106u32,
        },
        ErrorKind::Build(b) => match b {
            BuildErrorKind::MissingEntropySource => 200u32,
            BuildErrorKind::MissingStoragePath => 201u32,
            BuildErrorKind::AlreadyBuilt => 202u32,
            BuildErrorKind::InvalidSeedBytes => 203u32,
            BuildErrorKind::InvalidSeedFile => 204u32,
            BuildErrorKind::InvalidSystemTime => 205u32,
            BuildErrorKind::InvalidChannelMonitor => 206u32,
            BuildErrorKind::InvalidListeningAddresses => 207u32,
            BuildErrorKind::ReadFailed => 208u32,
            BuildErrorKind::WriteFailed => 209u32,
            BuildErrorKind::StoragePathAccessFailed => 210u32,
            BuildErrorKind::KVStoreSetupFailed => 211u32,
            BuildErrorKind::WalletSetupFailed => 212u32,
            BuildErrorKind::LoggerSetupFailed => 213u32,
        },
        ErrorKind::Runtime(r) => match r {
            RuntimeErrorKind::AlreadyRunning => 300u32,
            RuntimeErrorKind::NotRunning => 301u32,
            RuntimeErrorKind::OnchainTxCreationFailed => 302u32,
            RuntimeErrorKind::ConnectionFailed => 303u32,
            RuntimeErrorKind::InvoiceCreationFailed => 304u32,
            RuntimeErrorKind::PaymentSendingFailed => 305u32,
            RuntimeErrorKind::ProbeSendingFailed => 306u32,
            RuntimeErrorKind::ChannelCreationFailed => 307u32,
            RuntimeErrorKind::ChannelClosingFailed => 308u32,
            RuntimeErrorKind::ChannelConfigUpdateFailed => 309u32,
            RuntimeErrorKind::PersistenceFailed => 310u32,
            RuntimeErrorKind::FeerateEstimationUpdateFailed => 311u32,
            RuntimeErrorKind::WalletOperationFailed => 312u32,
            RuntimeErrorKind::OnchainTxSigningFailed => 313u32,
            RuntimeErrorKind::MessageSigningFailed => 314u32,
            RuntimeErrorKind::TxSyncFailed => 315u32,
            RuntimeErrorKind::GossipUpdateFailed => 316u32,
            RuntimeErrorKind::InvalidAddress => 317u32,
            RuntimeErrorKind::InvalidSocketAddress => 318u32,
            RuntimeErrorKind::InvalidPublicKey => 319u32,
            RuntimeErrorKind::InvalidSecretKey => 320u32,
            RuntimeErrorKind::InvalidPaymentHash => 321u32,
            RuntimeErrorKind::InvalidPaymentPreimage => 322u32,
            RuntimeErrorKind::InvalidPaymentSecret => 323u32,
            RuntimeErrorKind::InvalidAmount => 324u32,
            RuntimeErrorKind::InvalidInvoice => 325u32,
            RuntimeErrorKind::InvalidChannelId => 326u32,
            RuntimeErrorKind::InvalidNetwork => 327u32,
            RuntimeErrorKind::DuplicatePayment => 328u32,
            RuntimeErrorKind::InsufficientFunds => 329u32,
        },
    }
}

/// A well-formed error carries the code of its kind.
pub open spec fn error_wf(e: BoundaryError) -> bool {
    e.code == code_of(e.kind)
}

/// Distinct error kinds always carry distinct status codes: the translation
/// never collapses two kinds into one code, so callers can branch on the
/// code alone.
pub proof fn lemma_error_codes_injective(a: ErrorKind, b: ErrorKind)
    ensures
        code_of(a) == code_of(b) ==> a == b,
{
}

/// The status code of an error kind.
pub fn error_code(k: &ErrorKind) -> (r: u32)
    ensures
        r == code_of(*k),
{
    match k {
        ErrorKind::Malformed(m) => match m {
            MalformedKind::WrongLength => 100,
            MalformedKind::BadSocketAddress => 101,
            MalformedKind::BadPublicKey => 102,
            MalformedKind::BadAddress => 103,
            MalformedKind::BadInvoice => 104,
            MalformedKind::BadMnemonic => 105,
            MalformedKind::AmountOutOfRange => 106,
        },
        ErrorKind::Build(b) => match b {
            BuildErrorKind::MissingEntropySource => 200,
            BuildErrorKind::MissingStoragePath => 201,
            BuildErrorKind::AlreadyBuilt => 202,
            BuildErrorKind::InvalidSeedBytes => 203,
            BuildErrorKind::InvalidSeedFile => 204,
            BuildErrorKind::InvalidSystemTime => 205,
            BuildErrorKind::InvalidChannelMonitor => 206,
            BuildErrorKind::InvalidListeningAddresses => 207,
            BuildErrorKind::ReadFailed => 208,
            BuildErrorKind::WriteFailed => 209,
            BuildErrorKind::StoragePathAccessFailed => 210,
            BuildErrorKind::KVStoreSetupFailed => 211,
            BuildErrorKind::WalletSetupFailed => 212,
            BuildErrorKind::LoggerSetupFailed => 213,
        },
        ErrorKind::Runtime(r) => match r {
            RuntimeErrorKind::AlreadyRunning => 300,
            RuntimeErrorKind::NotRunning => 301,
            RuntimeErrorKind::OnchainTxCreationFailed => 302,
            RuntimeErrorKind::ConnectionFailed => 303,
            RuntimeErrorKind::InvoiceCreationFailed => 304,
            RuntimeErrorKind::PaymentSendingFailed => 305,
            RuntimeErrorKind::ProbeSendingFailed => 306,
            RuntimeErrorKind::ChannelCreationFailed => 307,
            RuntimeErrorKind::ChannelClosingFailed => 308,
            RuntimeErrorKind::ChannelConfigUpdateFailed => 309,
            RuntimeErrorKind::PersistenceFailed => 310,
            RuntimeErrorKind::FeerateEstimationUpdateFailed => 311,
            RuntimeErrorKind::WalletOperationFailed => 312,
            RuntimeErrorKind::OnchainTxSigningFailed => 313,
            RuntimeErrorKind::MessageSigningFailed => 314,
            RuntimeErrorKind::TxSyncFailed => 315,
            RuntimeErrorKind::GossipUpdateFailed => 316,
            RuntimeErrorKind::InvalidAddress => 317,
            RuntimeErrorKind::InvalidSocketAddress => 318,
            RuntimeErrorKind::InvalidPublicKey => 319,
            RuntimeErrorKind::InvalidSecretKey => 320,
            RuntimeErrorKind::InvalidPaymentHash => 321,
            RuntimeErrorKind::InvalidPaymentPreimage => 322,
            RuntimeErrorKind::InvalidPaymentSecret => 323,
            RuntimeErrorKind::InvalidAmount => 324,
            RuntimeErrorKind::InvalidInvoice => 325,
            RuntimeErrorKind::InvalidChannelId => 326,
            RuntimeErrorKind::InvalidNetwork => 327,
            RuntimeErrorKind::DuplicatePayment => 328,
            RuntimeErrorKind::InsufficientFunds => 329,
        },
    }
}

/// The message the boundary itself attaches to a conversion failure.
pub open spec fn malformed_message_of(k: MalformedKind) -> Seq<char> {
    match k {
        MalformedKind::WrongLength => "fixed-length byte field has the wrong length"@,
        MalformedKind::BadSocketAddress => "socket address does not parse"@,
        MalformedKind::BadPublicKey => "public key does not parse"@,
        MalformedKind::BadAddress => "on-chain address does not parse"@,
        MalformedKind::BadInvoice => "invoice does not parse"@,
        MalformedKind::BadMnemonic => "mnemonic does not parse"@,
        MalformedKind::AmountOutOfRange => "monetary amount exceeds the boundary integer range"@,
    }
}

/// A conversion failure, raised before any engine call is attempted.
pub fn malformed(kind: MalformedKind) -> (r: BoundaryError)
    ensures
        r.kind == ErrorKind::Malformed(kind),
        error_wf(r),
        r.message@ == malformed_message_of(kind),
{
    let text: &str = match kind {
        MalformedKind::WrongLength => "fixed-length byte field has the wrong length",
        MalformedKind::BadSocketAddress => "socket address does not parse",
        MalformedKind::BadPublicKey => "public key does not parse",
        MalformedKind::BadAddress => "on-chain address does not parse",
        MalformedKind::BadInvoice => "invoice does not parse",
        MalformedKind::BadMnemonic => "mnemonic does not parse",
        MalformedKind::AmountOutOfRange => "monetary amount exceeds the boundary integer range",
    };
    let kind_tag = ErrorKind::Malformed(kind);
    let code = error_code(&kind_tag);
    BoundaryError { kind: kind_tag, code, message: text.to_owned() }
}

/// A build-time failure. The message is kept verbatim; for engine-raised
/// kinds it is the engine's own description.
pub fn build_error(kind: BuildErrorKind, message: String) -> (r: BoundaryError)
    ensures
        r.kind == ErrorKind::Build(kind),
        error_wf(r),
        r.message@ == message@,
{
    let kind_tag = ErrorKind::Build(kind);
    let code = error_code(&kind_tag);
    BoundaryError { kind: kind_tag, code, message }
}

/// A runtime failure of a live node. The message is kept verbatim; for
/// engine-raised kinds it is the engine's own description.
pub fn node_error(kind: RuntimeErrorKind, message: String) -> (r: BoundaryError)
    ensures
        r.kind == ErrorKind::Runtime(kind),
        error_wf(r),
        r.message@ == message@,
{
    let kind_tag = ErrorKind::Runtime(kind);
    let code = error_code(&kind_tag);
    BoundaryError { kind: kind_tag, code, message }
}

} // verus!
