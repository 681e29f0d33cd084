//! The error codes of the trading protocol.

use vstd::prelude::*;

verus! {

/// The code in the error object of a reply. On the wire it is a number.
#[derive(Debug, Clone, Copy, PartialEq, Eq, Structural)]
pub enum ErrorCode {
    OrderNotFound,
    DuplicateOrderId,
    TooManyPendingRequests,
    ThrottleExceeded,
    UnknownInstrument,
    InvalidRequest,
    NotLoggedIn,
    AlreadySubscribed,
    NotSubscribed,
    PartitionUnavailable,
    SessionExhausted,
    InvalidOrderId,
    InvalidPriceOrNonPositivePrice,
    InvalidQuantityOrAmountNotAlignedWithTick,
    PriceNotAlignedWithTick,
    InstrumentExists,
    UnknownProduct,
    ProductExists,
    AuthenticationFailed,
    TemporaryFailure,
    InvalidPartition,
    InvalidProtGroup,
    ProtNotSet,
    InsufficientMargin,
    InvalidTimeInForce,
    AccountLocked,
    InsufficientFunds,
    Unauthorized,
    NeedTOTP,
    NeedSMS,
    UnknownMethod,
    Require2FA,
    PasswordNotAccepted,
    InvalidVerificationCode,
    InvalidEmailAddress,
    DeprecatedInvalidSessionForMassQuoting,
    InvalidState,
    InvalidPhoneNumber,
    UnknownAsset,
    UnknownUnderlying,
    InsufficientLiquidity,
    ExcludedJurisdiction,
    PriceCollarBreach,
    QuoteExceedsProtGroupSize,
    UnboundedMarketOrder,
    UnsupportedBtcTransfer,
    SMSThrottleExceeded,
    InsufficientFeeFunds,
    TooManyOpenOrders,
    TotalOrderSizeTooLarge,
    MqpNotEnabled,
    PersistentSession,
    ApiConnectionLimitReached,
    AssetNotTransactable,
    MaxBotsReached,
    ComboTotalGrossAmountTooLarge,
    ReduceOnlyMode,
    RejectedOnVolumeQuota,
}

impl ErrorCode {
    /// The number that stands for the code on the wire.
    pub open spec fn spec_code(self) -> u8 {
        match self {
            ErrorCode::OrderNotFound => 1,
            ErrorCode::DuplicateOrderId => 2,
            ErrorCode::TooManyPendingRequests => 3,
            ErrorCode::ThrottleExceeded => 4,
            ErrorCode::UnknownInstrument => 5,
            ErrorCode::InvalidRequest => 6,
            ErrorCode::NotLoggedIn => 7,
            ErrorCode::AlreadySubscribed => 8,
            ErrorCode::NotSubscribed => 9,
            ErrorCode::PartitionUnavailable => 10,
            ErrorCode::SessionExhausted => 11,
            ErrorCode::InvalidOrderId => 12,
            ErrorCode::InvalidPriceOrNonPositivePrice => 13,
            ErrorCode::InvalidQuantityOrAmountNotAlignedWithTick => 14,
            ErrorCode::PriceNotAlignedWithTick => 15,
            ErrorCode::InstrumentExists => 16,
            ErrorCode::UnknownProduct => 17,
            ErrorCode::ProductExists => 18,
            ErrorCode::AuthenticationFailed => 19,
            ErrorCode::TemporaryFailure => 20,
            ErrorCode::InvalidPartition => 21,
            ErrorCode::InvalidProtGroup => 22,
            ErrorCode::ProtNotSet => 23,
            ErrorCode::InsufficientMargin => 24,
            ErrorCode::InvalidTimeInForce => 25,
            ErrorCode::AccountLocked => 26,
            ErrorCode::InsufficientFunds => 27,
            ErrorCode::Unauthorized => 28,
            ErrorCode::NeedTOTP => 29,
            ErrorCode::NeedSMS => 30,
            ErrorCode::UnknownMethod => 31,
            ErrorCode::Require2FA => 32,
            ErrorCode::PasswordNotAccepted => 33,
            ErrorCode::InvalidVerificationCode => 34,
            ErrorCode::InvalidEmailAddress => 35,
            ErrorCode::DeprecatedInvalidSessionForMassQuoting => 36,
            ErrorCode::InvalidState => 37,
            ErrorCode::InvalidPhoneNumber => 38,
            ErrorCode::UnknownAsset => 39,
            ErrorCode::UnknownUnderlying => 40,
            ErrorCode::InsufficientLiquidity => 41,
            ErrorCode::ExcludedJurisdiction => 42,
            ErrorCode::PriceCollarBreach => 43,
            ErrorCode::QuoteExceedsProtGroupSize => 44,
            ErrorCode::UnboundedMarketOrder => 45,
            ErrorCode::UnsupportedBtcTransfer => 46,
            ErrorCode::SMSThrottleExceeded => 47,
            ErrorCode::InsufficientFeeFunds => 48,
            ErrorCode::TooManyOpenOrders => 49,
            ErrorCode::TotalOrderSizeTooLarge => 50,
            ErrorCode::MqpNotEnabled => 51,
            ErrorCode::PersistentSession => 52,
            ErrorCode::ApiConnectionLimitReached => 53,
            ErrorCode::AssetNotTransactable => 54,
            ErrorCode::MaxBotsReached => 55,
            ErrorCode::ComboTotalGrossAmountTooLarge => 56,
            ErrorCode::ReduceOnlyMode => 57,
            ErrorCode::RejectedOnVolumeQuota => 58,
        }
    }

    /// The number that stands for the code on the wire.
    pub fn code(&self) -> (number: u8)
        ensures
            number == self.spec_code(),
            1 <= number <= 58,
    {
        match self {
            ErrorCode::OrderNotFound => 1,
            ErrorCode::DuplicateOrderId => 2,
            ErrorCode::TooManyPendingRequests => 3,
            ErrorCode::ThrottleExceeded => 4,
            ErrorCode::UnknownInstrument => 5,
            ErrorCode::InvalidRequest => 6,
            ErrorCode::NotLoggedIn => 7,
            ErrorCode::AlreadySubscribed => 8,
            ErrorCode::NotSubscribed => 9,
            ErrorCode::PartitionUnavailable => 10,
            ErrorCode::SessionExhausted => 11,
            ErrorCode::InvalidOrderId => 12,
            ErrorCode::InvalidPriceOrNonPositivePrice => 13,
            ErrorCode::InvalidQuantityOrAmountNotAlignedWithTick => 14,
            ErrorCode::PriceNotAlignedWithTick => 15,
            ErrorCode::InstrumentExists => 16,
            ErrorCode::UnknownProduct => 17,
            ErrorCode::ProductExists => 18,
            ErrorCode::AuthenticationFailed => 19,
            ErrorCode::TemporaryFailure => 20,
            ErrorCode::InvalidPartition => 21,
            ErrorCode::InvalidProtGroup => 22,
            ErrorCode::ProtNotSet => 23,
            ErrorCode::InsufficientMargin => 24,
            ErrorCode::InvalidTimeInForce => 25,
            ErrorCode::AccountLocked => 26,
            ErrorCode::InsufficientFunds => 27,
            ErrorCode::Unauthorized => 28,
            ErrorCode::NeedTOTP => 29,
            ErrorCode::NeedSMS => 30,
            ErrorCode::UnknownMethod => 31,
            ErrorCode::Require2FA => 32,
            ErrorCode::PasswordNotAccepted => 33,
            ErrorCode::InvalidVerificationCode => 34,
            ErrorCode::InvalidEmailAddress => 35,
            ErrorCode::DeprecatedInvalidSessionForMassQuoting => 36,
            ErrorCode::InvalidState => 37,
            ErrorCode::InvalidPhoneNumber => 38,
            ErrorCode::UnknownAsset => 39,
            ErrorCode::UnknownUnderlying => 40,
            ErrorCode::InsufficientLiquidity => 41,
            ErrorCode::ExcludedJurisdiction => 42,
            ErrorCode::PriceCollarBreach => 43,
            ErrorCode::QuoteExceedsProtGroupSize => 44,
            ErrorCode::UnboundedMarketOrder => 45,
            ErrorCode::UnsupportedBtcTransfer => 46,
            ErrorCode::SMSThrottleExceeded => 47,
            ErrorCode::InsufficientFeeFunds => 48,
            ErrorCode::TooManyOpenOrders => 49,
            ErrorCode::TotalOrderSizeTooLarge => 50,
            ErrorCode::MqpNotEnabled => 51,
            ErrorCode::PersistentSession => 52,
            ErrorCode::ApiConnectionLimitReached => 53,
            ErrorCode::AssetNotTransactable => 54,
            ErrorCode::MaxBotsReached => 55,
            ErrorCode::ComboTotalGrossAmountTooLarge => 56,
            ErrorCode::ReduceOnlyMode => 57,
            ErrorCode::RejectedOnVolumeQuota => 58,
        }
    }

    /// The code that a number stands for, if it stands for one.
    pub fn from_code(number: u8) -> (code: Option<ErrorCode>)
        ensures
            code.is_some() == (1 <= number <= 58),
            code matches Some(c) ==> c.spec_code() == number,
    {
        match number {
            1 => Some(ErrorCode::OrderNotFound),
            2 => Some(ErrorCode::DuplicateOrderId),
            3 => Some(ErrorCode::TooManyPendingRequests),
            4 => Some(ErrorCode::ThrottleExceeded),
            5 => Some(ErrorCode::UnknownInstrument),
            6 => Some(ErrorCode::InvalidRequest),
            7 => Some(ErrorCode::NotLoggedIn),
            8 => Some(ErrorCode::AlreadySubscribed),
            9 => Some(ErrorCode::NotSubscribed),
            10 => Some(ErrorCode::PartitionUnavailable),
            11 => Some(ErrorCode::SessionExhausted),
            12 => Some(ErrorCode::InvalidOrderId),
            13 => Some(ErrorCode::InvalidPriceOrNonPositivePrice),
            14 => Some(ErrorCode::InvalidQuantityOrAmountNotAlignedWithTick),
            15 => Some(ErrorCode::PriceNotAlignedWithTick),
            16 => Some(ErrorCode::InstrumentExists),
            17 => Some(ErrorCode::UnknownProduct),
            18 => Some(ErrorCode::ProductExists),
            19 => Some(ErrorCode::AuthenticationFailed),
            20 => Some(ErrorCode::TemporaryFailure),
            21 => Some(ErrorCode::InvalidPartition),
            22 => Some(ErrorCode::InvalidProtGroup),
            23 => Some(ErrorCode::ProtNotSet),
            24 => Some(ErrorCode::InsufficientMargin),
            25 => Some(ErrorCode::InvalidTimeInForce),
            26 => Some(ErrorCode::AccountLocked),
            27 => Some(ErrorCode::InsufficientFunds),
            28 => Some(ErrorCode::Unauthorized),
            29 => Some(ErrorCode::NeedTOTP),
            30 => Some(ErrorCode::NeedSMS),
            31 => Some(ErrorCode::UnknownMethod),
            32 => Some(ErrorCode::Require2FA),
            33 => Some(ErrorCode::PasswordNotAccepted),
            34 => Some(ErrorCode::InvalidVerificationCode),
            35 => Some(ErrorCode::InvalidEmailAddress),
            36 => Some(ErrorCode::DeprecatedInvalidSessionForMassQuoting),
            37 => Some(ErrorCode::InvalidState),
            38 => Some(ErrorCode::InvalidPhoneNumber),
            39 => Some(ErrorCode::UnknownAsset),
            40 => Some(ErrorCode::UnknownUnderlying),
            41 => Some(ErrorCode::InsufficientLiquidity),
            42 => Some(ErrorCode::ExcludedJurisdiction),
            43 => Some(ErrorCode::PriceCollarBreach),
            44 => Some(ErrorCode::QuoteExceedsProtGroupSize),
            45 => Some(ErrorCode::UnboundedMarketOrder),
            46 => Some(ErrorCode::UnsupportedBtcTransfer),
            47 => Some(ErrorCode::SMSThrottleExceeded),
            48 => Some(ErrorCode::InsufficientFeeFunds),
            49 => Some(ErrorCode::TooManyOpenOrders),
            50 => Some(ErrorCode::TotalOrderSizeTooLarge),
            51 => Some(ErrorCode::MqpNotEnabled),
            52 => Some(ErrorCode::PersistentSession),
            53 => Some(ErrorCode::ApiConnectionLimitReached),
            54 => Some(ErrorCode::AssetNotTransactable),
            55 => Some(ErrorCode::MaxBotsReached),
            56 => Some(ErrorCode::ComboTotalGrossAmountTooLarge),
            57 => Some(ErrorCode::ReduceOnlyMode),
            58 => Some(ErrorCode::RejectedOnVolumeQuota),
            _ => None,
        }
    }

    /// Every code is found again from its number.
    pub proof fn lemma_code_round_trip(self)
        ensures
            1 <= self.spec_code() <= 58,
            forall|other: ErrorCode| other.spec_code() == self.spec_code() ==> other == self,
    {
    }
}

impl Default for ErrorCode {
    fn default() -> (code: ErrorCode)
        ensures
            code == ErrorCode::OrderNotFound,
    {
        ErrorCode::OrderNotFound
    }
}

} // verus!
