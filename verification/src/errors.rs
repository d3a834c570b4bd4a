use vstd::prelude::*;

verus! {

/// Failure of the key-generation entropy source or of scalar validation.
#[derive(Debug, Clone, Copy, PartialEq, Eq, Structural)]
pub enum KeyGenerationError {
    /// The operating-system entropy source refused to fill random bytes.
    RandomBytesError,
    /// No candidate drawn within the attempt bound was a valid curve scalar.
    SecretKeyError,
}

/// Every failure the custody and transfer pipeline can surface to a caller.
/// Each failure is propagated immediately; none is retried or downgraded.
#[derive(Debug, Clone, Copy, PartialEq, Eq, Structural)]
pub enum WalletError {
    /// A recipient or sender address is not a well-formed chain address.
    ValidationError,
    /// No stored account matches the request.
    AccountNotFound,
    /// The account has no configuration for the requested chain.
    ChainNotConfigured,
    /// Fewer shares were presented than the reconstruction threshold.
    InsufficientSharesError,
    /// A presented share has a malformed payload.
    CorruptShareError,
    /// A remote endpoint was unreachable or returned no usable answer.
    NetworkError,
    /// The latest block reports no base fee, so the fee market is unsupported.
    FeeFieldMissingError,
    /// The chain's estimation endpoint rejected the draft transaction.
    GasEstimationError,
    /// The broadcast transaction was never mined.
    TransactionDroppedError,
    /// An account with the same email already exists.
    DuplicateAccountError,
    /// Share parameters were rejected: zero shares, or threshold above count.
    SplitParameterError,
    /// The external store failed while loading or saving account data.
    StorageError,
}

impl WalletError {
    /// The HTTP status under which this failure is reported: 404 when
    /// account, chain configuration or on-chain block data is missing,
    /// 409 for a duplicate account, 403 for storage failure, 400 for
    /// rejected input, and 500 otherwise.
    pub fn status_code(&self) -> (code: u16)
        ensures
            code == self.spec_status_code(),
    {
        match self {
            WalletError::ValidationError => 400,
            WalletError::AccountNotFound => 404,
            WalletError::ChainNotConfigured => 404,
            WalletError::FeeFieldMissingError => 404,
            WalletError::DuplicateAccountError => 409,
            WalletError::StorageError => 403,
            WalletError::InsufficientSharesError => 500,
            WalletError::CorruptShareError => 500,
            WalletError::NetworkError => 500,
            WalletError::GasEstimationError => 500,
            WalletError::TransactionDroppedError => 500,
            WalletError::SplitParameterError => 500,
        }
    }

    pub open spec fn spec_status_code(&self) -> u16 {
        match self {
            WalletError::ValidationError => 400,
            WalletError::AccountNotFound => 404,
            WalletError::ChainNotConfigured => 404,
            WalletError::FeeFieldMissingError => 404,
            WalletError::DuplicateAccountError => 409,
            WalletError::StorageError => 403,
            WalletError::InsufficientSharesError => 500,
            WalletError::CorruptShareError => 500,
            WalletError::NetworkError => 500,
            WalletError::GasEstimationError => 500,
            WalletError::TransactionDroppedError => 500,
            WalletError::SplitParameterError => 500,
        }
    }

    /// A short, user-visible description of the failure.
    pub fn message(&self) -> (msg: String)
        ensures
            msg@ == self.spec_message(),
    {
        match self {
            WalletError::ValidationError => "INVALID_ADDRESS!".to_owned(),
            WalletError::AccountNotFound => "USER_NOT_FOUND!".to_owned(),
            WalletError::ChainNotConfigured => "USER_CHAIN_DATA_NOT_FOUND!".to_owned(),
            WalletError::InsufficientSharesError => "TOO_FEW_KEY_SHARES!".to_owned(),
            WalletError::CorruptShareError => "CORRUPT_KEY_SHARE!".to_owned(),
            WalletError::NetworkError => "NETWORK_ERROR!".to_owned(),
            WalletError::FeeFieldMissingError => "MISSING_BASE_FEE!".to_owned(),
            WalletError::GasEstimationError => "GAS_ESTIMATION_FAILED!".to_owned(),
            WalletError::TransactionDroppedError => "TX_DROPPED_FROM_MEMPOOL!".to_owned(),
            WalletError::DuplicateAccountError => "User already exists!".to_owned(),
            WalletError::SplitParameterError => "INVALID_SHARE_PARAMETERS!".to_owned(),
            WalletError::StorageError => "DATABASE_ERROR!".to_owned(),
        }
    }

    pub open spec fn spec_message(&self) -> Seq<char> {
        match self {
            WalletError::ValidationError => "INVALID_ADDRESS!"@,
            WalletError::AccountNotFound => "USER_NOT_FOUND!"@,
            WalletError::ChainNotConfigured => "USER_CHAIN_DATA_NOT_FOUND!"@,
            WalletError::InsufficientSharesError => "TOO_FEW_KEY_SHARES!"@,
            WalletError::CorruptShareError => "CORRUPT_KEY_SHARE!"@,
            WalletError::NetworkError => "NETWORK_ERROR!"@,
            WalletError::FeeFieldMissingError => "MISSING_BASE_FEE!"@,
            WalletError::GasEstimationError => "GAS_ESTIMATION_FAILED!"@,
            WalletError::TransactionDroppedError => "TX_DROPPED_FROM_MEMPOOL!"@,
            WalletError::DuplicateAccountError => "User already exists!"@,
            WalletError::SplitParameterError => "INVALID_SHARE_PARAMETERS!"@,
            WalletError::StorageError => "DATABASE_ERROR!"@,
        }
    }
}

/// The JSON body shape every endpoint answers with.
#[derive(Debug)]
pub struct JsonApiResponse<T> {
    pub data: Option<T>,
    pub message: Option<String>,
    pub error: Option<String>,
}

/// A successful endpoint answer together with its HTTP status.
#[derive(Debug)]
pub struct SuccessResponse<T> {
    pub data: Option<T>,
    pub message: Option<String>,
    pub status: u16,
}

/// A failed endpoint answer together with its HTTP status.
#[derive(Debug)]
pub struct ErrorResponse {
    pub error: Option<String>,
    pub status: u16,
}

impl ErrorResponse {
    /// Builds the outward-facing response for a pipeline failure, carrying
    /// its message and status code.
    pub fn from_error(err: &WalletError) -> (r: ErrorResponse)
        ensures
            r.status == err.spec_status_code(),
            r.error matches Some(m) && m@ == err.spec_message(),
    {
        ErrorResponse { error: Some(err.message()), status: err.status_code() }
    }
}

} // verus!
