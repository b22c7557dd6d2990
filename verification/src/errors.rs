use vstd::prelude::*;

verus! {

/// The failure conditions of the feed client, shared by every caller.
///
/// The decoder, the aggregator and the fixed-point conversion only ever
/// produce `InvalidDiscriminator`, `NotEnoughSamples`, `IllegalFeedValue` and
/// `DecimalConversionError`; the remaining variants cover the operational
/// concerns of the surrounding system, which propagates one error type across
/// the whole client.  `CustomMessage` carries free-form diagnostic text.
#[derive(Clone, Debug)]
pub enum OnDemandError {
    Generic,
    AccountBorrowError,
    AccountNotFound,
    AnchorParse,
    AnchorParseError,
    CheckSizeError,
    DecimalConversionError,
    DecryptError,
    EventListenerRoutineFailure,
    EvmError,
    FunctionResultIxIncorrectTargetChain,
    HeartbeatRoutineFailure,
    IntegerOverflowError,
    InvalidChain,
    InvalidData,
    InvalidDiscriminator,
    InvalidInstructionError,
    InvalidKeypairFile,
    InvalidNativeMint,
    InvalidQuote,
    InvalidQuoteError,
    InvalidSignature,
    IpfsNetworkError,
    IpfsParseError,
    KeyParseError,
    MrEnclaveMismatch,
    NetworkError,
    ParseError,
    PdaDerivationError,
    QuoteParseError,
    QvnTxSendFailure,
    SgxError,
    SgxWriteError,
    SolanaBlockhashError,
    SolanaMissingSigner,
    SolanaPayerSignerMissing,
    SolanaPayerMismatch,
    SolanaInstructionOverflow,
    SolanaInstructionsEmpty,
    TxCompileErr,
    TxDeserializationError,
    TxFailure,
    Unexpected,
    SolanaSignError,
    IoError,
    KeyDerivationFailed,
    InvalidSecretKey,
    EnvVariableMissing,
    AccountDeserializeError,
    NotEnoughSamples,
    IllegalFeedValue,
    CustomMessage(String),
    SwitchboardRandomnessTooOld,
    AddressLookupTableFetchError,
    AddressLookupTableDeserializeError,
}

} // verus!
