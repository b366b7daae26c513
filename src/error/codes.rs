//! The venue's numeric error codes: a closed set of named conditions plus a
//! catch-all that keeps an unrecognised number as it came.
use vstd::prelude::*;

verus! {

/// Error codes returned by the venue, one variant per documented condition.
///
/// `Unknown` holds any number that names no documented condition, unchanged.
#[derive(Clone, Copy, PartialEq, Eq, Structural, Hash, Debug)]
pub enum DeribitErrorCode {
    /// Success, No error
    Success,
    /// Authorization issue, invalid or absent signature etc.
    AuthorizationRequired,
    /// Some general failure, no public information available
    Error,
    /// Order quantity is too low
    QtyTooLow,
    /// Rejection, order overlap is found and self-trading is not enabled
    OrderOverlap,
    /// Attempt to operate with order that can't be found by specified id or label
    OrderNotFound,
    /// Price is too low, limit defines current limit for the operation
    PriceTooLow,
    /// Price is too low for current index, limit defines current bottom limit
    PriceTooLow4Idx,
    /// Price is too high, limit defines current up limit for the operation
    PriceTooHigh,
    /// Account has not enough funds for the operation
    NotEnoughFunds,
    /// Attempt of doing something with closed order
    AlreadyClosed,
    /// This price is not allowed for some reason
    PriceNotAllowed,
    /// Operation for an instrument which order book had been closed
    BookClosed,
    /// Total limit of open orders has been exceeded (PME users)
    PmeMaxTotalOpenOrders,
    /// Limit of count of futures' open orders has been exceeded (PME users)
    PmeMaxFutureOpenOrders,
    /// Limit of count of options' open orders has been exceeded (PME users)
    PmeMaxOptionOpenOrders,
    /// Limit of size for futures has been exceeded (PME users)
    PmeMaxFutureOpenOrdersSize,
    /// Limit of size for options has been exceeded (PME users)
    PmeMaxOptionOpenOrdersSize,
    /// Limit of size for futures has been exceeded (non-PME users)
    NonPmeMaxFuturePositionSize,
    /// Trading is temporary locked by the admin
    LockedByAdmin,
    /// Instrument name is not valid
    InvalidOrUnsupportedInstrument,
    /// Amount is not valid
    InvalidAmount,
    /// Quantity was not recognized as a valid number (for API v1)
    InvalidQuantity,
    /// Price was not recognized as a valid number
    InvalidPrice,
    /// max_show parameter was not recognized as a valid number
    InvalidMaxShow,
    /// Order id is missing or its format was not recognized as valid
    InvalidOrderId,
    /// Extra precision of the price is not supported
    PricePrecisionExceeded,
    /// Futures contract amount was not recognized as integer
    NonIntegerContractAmount,
    /// Allowed request rate has been exceeded
    TooManyRequests,
    /// Attempt to operate with not own order
    NotOwnerOfOrder,
    /// REST request where Websocket is expected
    MustBeWebsocketRequest,
    /// Some of the arguments are not recognized as valid
    InvalidArgsForInstrument,
    /// Total cost is too low
    WholeCostTooLow,
    /// Method is not implemented yet
    NotImplemented,
    /// Trigger price is too high
    TriggerPriceTooHigh,
    /// Trigger price is too low
    TriggerPriceTooLow,
    /// Max Show Amount is not valid
    InvalidMaxShowAmount,
    /// Limit of total size for short options positions has been exceeded (non-PME users)
    NonPmeTotalShortOptionsPositionsSize,
    /// Limit of open risk reducing orders has been reached (PME users)
    PmeMaxRiskReducingOrders,
    /// User does not have sufficient spot reserves or negative impact on portfolio margin
    NotEnoughFundsInCurrency,
    /// Request can't be processed right now and should be retried
    Retry,
    /// Settlement is in progress
    SettlementInProgress,
    /// Price has to be rounded to an instrument tick size
    PriceWrongTick,
    /// Trigger Price has to be rounded to an instrument tick size
    TriggerPriceWrongTick,
    /// Liquidation order can't be cancelled
    CanNotCancelLiquidationOrder,
    /// Liquidation order can't be edited
    CanNotEditLiquidationOrder,
    /// Reached limit of pending Matching Engine requests for user
    MatchingEngineQueueFull,
    /// The requested operation is not available on this server
    NotOnThisServer,
    /// Enabling Cancel On Disconnect for the connection failed
    CancelOnDisconnectFailed,
    /// The client has sent too many public requests that have not yet been executed
    TooManyConcurrentRequests,
    /// Spot trading is disabled for users in reduce only mode
    DisabledWhilePositionLock,
    /// This request is not allowed in regards to the filled order
    AlreadyFilled,
    /// Total limit of open orders on spot instruments has been exceeded
    MaxSpotOpenOrders,
    /// Price modification for post only order is not possible
    PostOnlyPriceModificationNotPossible,
    /// Limit of quantity per currency for spot instruments has been exceeded
    MaxSpotOrderQuantity,
    /// Some invalid input has been detected
    InvalidArguments,
    /// Some rejects which are not considered as very often
    OtherReject,
    /// Some errors which are not considered as very often
    OtherError,
    /// Allowed amount of trigger orders has been exceeded
    NoMoreTriggers,
    /// Invalid trigger price in relation to the last trade, index or market price
    InvalidTriggerPrice,
    /// Instrument already not available for trading
    OutdatedInstrumentForIvOrder,
    /// Advanced orders are not available for futures
    NoAdvForFutures,
    /// Advanced post-only orders are not supported yet
    NoAdvPostonly,
    /// Advanced order properties can't be set if the order is not advanced
    NotAdvOrder,
    /// Permission for the operation has been denied
    PermissionDenied,
    /// Bad argument has been passed
    BadArgument,
    /// Attempt to do open order operations with the not open order
    NotOpenOrder,
    /// Event name has not been recognized
    InvalidEvent,
    /// At several minutes to instrument expiration, advanced IV orders are not allowed
    OutdatedInstrument,
    /// The specified combination of arguments is not supported
    UnsupportedArgCombination,
    /// Wrong Max Show for options
    WrongMaxShowForOption,
    /// Several bad arguments have been passed
    BadArguments,
    /// Request has not been parsed properly
    BadRequest,
    /// System is under maintenance
    SystemMaintenance,
    /// Subscription error
    SubscribeErrorUnsubscribed,
    /// Specified transfer is not found
    TransferNotFound,
    /// Request rejected due to reject_post_only flag
    PostOnlyReject,
    /// Post only flag not allowed for given order type
    PostOnlyNotAllowed,
    /// Unauthenticated public requests were temporarily disabled
    UnauthenticatedPublicRequestsTemporarilyDisabled,
    /// Invalid address
    InvalidAddr,
    /// Invalid address for the transfer
    InvalidTransferAddress,
    /// The address already exists
    AddressAlreadyExist,
    /// Limit of allowed addresses has been reached
    MaxAddrCountExceeded,
    /// Some unhandled error on server
    InternalServerError,
    /// Deposit address creation has been disabled by admin
    DisabledDepositAddressCreation,
    /// Withdrawal instead of transfer
    AddressBelongsToUser,
    /// Deposit address not specified
    NoDepositAddress,
    /// Account locked
    AccountLocked,
    /// Limit of subaccounts is reached
    TooManySubaccounts,
    /// The input is not allowed as the name of subaccount
    WrongSubaccountName,
    /// The number of failed login attempts is limited
    LoginOverLimit,
    /// The number of registration requests is limited
    RegistrationOverLimit,
    /// The country is banned (possibly via IP check)
    CountryIsBanned,
    /// Transfer is not allowed
    TransferNotAllowed,
    /// Too many failed security key authorizations
    SecurityKeyAuthorizationOverLimit,
    /// Invalid credentials have been used
    InvalidCredentials,
    /// Password confirmation error
    PwdMatchError,
    /// Invalid Security Code
    SecurityError,
    /// User's security code has been changed or wrong
    UserNotFound,
    /// Request failed because of invalid input or internal failure
    RequestFailed,
    /// Wrong or expired authorization token or bad signature
    Unauthorized,
    /// Invalid input, missing value
    ValueRequired,
    /// Input is too short
    ValueTooShort,
    /// Subaccount restrictions
    UnavailableInSubaccount,
    /// Unsupported or invalid phone number
    InvalidPhoneNumber,
    /// SMS sending failed -- phone number is wrong
    CannotSendSms,
    /// Invalid SMS code
    InvalidSmsCode,
    /// Invalid input
    InvalidInput,
    /// Invalid content type of the request
    InvalidContentType,
    /// Closed, expired order book
    OrderbookClosed,
    /// Instrument is not found, invalid instrument name
    NotFound,
    /// Not enough permissions to execute the request, forbidden
    Forbidden,
    /// API method temporarily switched off by the administrator
    MethodSwitchedOffByAdmin,
    /// The requested service is not responding or processing takes too long
    TemporarilyUnavailable,
    /// Order has been rejected due to the MMP trigger
    MmpTrigger,
    /// API method allowed only for verified users
    VerificationRequired,
    /// Request allowed only for orders uniquely identified by given label
    NonUniqueOrderLabel,
    /// Maximal number of tokens allowed reached
    NoMoreSecurityKeysAllowed,
    /// Limit of active combo books was reached
    ActiveComboLimitReached,
    /// Action is temporarily unavailable for combo books
    UnavailableForComboBooks,
    /// KYC verification data is insufficient for external service provider
    IncompleteKycData,
    /// User is not a MMP user
    MmpRequired,
    /// Cancel-on-Disconnect is not enabled for the connection
    CodNotEnabled,
    /// Quotes are still frozen after previous cancel
    QuotesFrozen,
    /// Error returned after the user tried to edit/delete an API key with insufficient scope
    ScopeExceeded,
    /// Method is currently not available
    Unavailable,
    /// Request was cancelled by the user with other api request
    RequestCancelledByUser,
    /// Edit request was replaced by other one
    Replaced,
    /// Raw subscriptions are not available for unauthorized requests
    RawSubscriptionsNotAvailableForUnauthorized,
    /// The client cannot execute the request yet, should wait
    MovePositionsOverLimit,
    /// The coupon has already been used by current account
    CouponAlreadyUsed,
    /// Sharing of KYC data with a third party provider was already initiated
    KycTransferAlreadyInitiated,
    /// A number that names no documented condition
    Unknown(i32),
}

impl DeribitErrorCode {
    /// The number the venue uses for this condition; `Unknown` gives back its payload.
    pub open spec fn spec_code(self) -> i32 {
        match self {
            DeribitErrorCode::Success => 0i32,
            DeribitErrorCode::AuthorizationRequired => 10000i32,
            DeribitErrorCode::Error => 10001i32,
            DeribitErrorCode::QtyTooLow => 10002i32,
            DeribitErrorCode::OrderOverlap => 10003i32,
            DeribitErrorCode::OrderNotFound => 10004i32,
            DeribitErrorCode::PriceTooLow => 10005i32,
            DeribitErrorCode::PriceTooLow4Idx => 10006i32,
            DeribitErrorCode::PriceTooHigh => 10007i32,
            DeribitErrorCode::NotEnoughFunds => 10009i32,
            DeribitErrorCode::AlreadyClosed => 10010i32,
            DeribitErrorCode::PriceNotAllowed => 10011i32,
            DeribitErrorCode::BookClosed => 10012i32,
            DeribitErrorCode::PmeMaxTotalOpenOrders => 10013i32,
            DeribitErrorCode::PmeMaxFutureOpenOrders => 10014i32,
            DeribitErrorCode::PmeMaxOptionOpenOrders => 10015i32,
            DeribitErrorCode::PmeMaxFutureOpenOrdersSize => 10016i32,
            DeribitErrorCode::PmeMaxOptionOpenOrdersSize => 10017i32,
            DeribitErrorCode::NonPmeMaxFuturePositionSize => 10018i32,
            DeribitErrorCode::LockedByAdmin => 10019i32,
            DeribitErrorCode::InvalidOrUnsupportedInstrument => 10020i32,
            DeribitErrorCode::InvalidAmount => 10021i32,
            DeribitErrorCode::InvalidQuantity => 10022i32,
            DeribitErrorCode::InvalidPrice => 10023i32,
            DeribitErrorCode::InvalidMaxShow => 10024i32,
            DeribitErrorCode::InvalidOrderId => 10025i32,
            DeribitErrorCode::PricePrecisionExceeded => 10026i32,
            DeribitErrorCode::NonIntegerContractAmount => 10027i32,
            DeribitErrorCode::TooManyRequests => 10028i32,
            DeribitErrorCode::NotOwnerOfOrder => 10029i32,
            DeribitErrorCode::MustBeWebsocketRequest => 10030i32,
            DeribitErrorCode::InvalidArgsForInstrument => 10031i32,
            DeribitErrorCode::WholeCostTooLow => 10032i32,
            DeribitErrorCode::NotImplemented => 10033i32,
            DeribitErrorCode::TriggerPriceTooHigh => 10034i32,
            DeribitErrorCode::TriggerPriceTooLow => 10035i32,
            DeribitErrorCode::InvalidMaxShowAmount => 10036i32,
            DeribitErrorCode::NonPmeTotalShortOptionsPositionsSize => 10037i32,
            DeribitErrorCode::PmeMaxRiskReducingOrders => 10038i32,
            DeribitErrorCode::NotEnoughFundsInCurrency => 10039i32,
            DeribitErrorCode::Retry => 10040i32,
            DeribitErrorCode::SettlementInProgress => 10041i32,
            DeribitErrorCode::PriceWrongTick => 10043i32,
            DeribitErrorCode::TriggerPriceWrongTick => 10044i32,
            DeribitErrorCode::CanNotCancelLiquidationOrder => 10045i32,
            DeribitErrorCode::CanNotEditLiquidationOrder => 10046i32,
            DeribitErrorCode::MatchingEngineQueueFull => 10047i32,
            DeribitErrorCode::NotOnThisServer => 10048i32,
            DeribitErrorCode::CancelOnDisconnectFailed => 10049i32,
            DeribitErrorCode::TooManyConcurrentRequests => 10066i32,
            DeribitErrorCode::DisabledWhilePositionLock => 10072i32,
            DeribitErrorCode::AlreadyFilled => 11008i32,
            DeribitErrorCode::MaxSpotOpenOrders => 11013i32,
            DeribitErrorCode::PostOnlyPriceModificationNotPossible => 11021i32,
            DeribitErrorCode::MaxSpotOrderQuantity => 11022i32,
            DeribitErrorCode::InvalidArguments => 11029i32,
            DeribitErrorCode::OtherReject => 11030i32,
            DeribitErrorCode::OtherError => 11031i32,
            DeribitErrorCode::NoMoreTriggers => 11035i32,
            DeribitErrorCode::InvalidTriggerPrice => 11036i32,
            DeribitErrorCode::OutdatedInstrumentForIvOrder => 11037i32,
            DeribitErrorCode::NoAdvForFutures => 11038i32,
            DeribitErrorCode::NoAdvPostonly => 11039i32,
            DeribitErrorCode::NotAdvOrder => 11041i32,
            DeribitErrorCode::PermissionDenied => 11042i32,
            DeribitErrorCode::BadArgument => 11043i32,
            DeribitErrorCode::NotOpenOrder => 11044i32,
            DeribitErrorCode::InvalidEvent => 11045i32,
            DeribitErrorCode::OutdatedInstrument => 11046i32,
            DeribitErrorCode::UnsupportedArgCombination => 11047i32,
            DeribitErrorCode::WrongMaxShowForOption => 11048i32,
            DeribitErrorCode::BadArguments => 11049i32,
            DeribitErrorCode::BadRequest => 11050i32,
            DeribitErrorCode::SystemMaintenance => 11051i32,
            DeribitErrorCode::SubscribeErrorUnsubscribed => 11052i32,
            DeribitErrorCode::TransferNotFound => 11053i32,
            DeribitErrorCode::PostOnlyReject => 11054i32,
            DeribitErrorCode::PostOnlyNotAllowed => 11055i32,
            DeribitErrorCode::UnauthenticatedPublicRequestsTemporarilyDisabled => 11056i32,
            DeribitErrorCode::InvalidAddr => 11090i32,
            DeribitErrorCode::InvalidTransferAddress => 11091i32,
            DeribitErrorCode::AddressAlreadyExist => 11092i32,
            DeribitErrorCode::MaxAddrCountExceeded => 11093i32,
            DeribitErrorCode::InternalServerError => 11094i32,
            DeribitErrorCode::DisabledDepositAddressCreation => 11095i32,
            DeribitErrorCode::AddressBelongsToUser => 11096i32,
            DeribitErrorCode::NoDepositAddress => 11097i32,
            DeribitErrorCode::AccountLocked => 11098i32,
            DeribitErrorCode::TooManySubaccounts => 12001i32,
            DeribitErrorCode::WrongSubaccountName => 12002i32,
            DeribitErrorCode::LoginOverLimit => 12003i32,
            DeribitErrorCode::RegistrationOverLimit => 12004i32,
            DeribitErrorCode::CountryIsBanned => 12005i32,
            DeribitErrorCode::TransferNotAllowed => 12100i32,
            DeribitErrorCode::SecurityKeyAuthorizationOverLimit => 12998i32,
            DeribitErrorCode::InvalidCredentials => 13004i32,
            DeribitErrorCode::PwdMatchError => 13005i32,
            DeribitErrorCode::SecurityError => 13006i32,
            DeribitErrorCode::UserNotFound => 13007i32,
            DeribitErrorCode::RequestFailed => 13008i32,
            DeribitErrorCode::Unauthorized => 13009i32,
            DeribitErrorCode::ValueRequired => 13010i32,
            DeribitErrorCode::ValueTooShort => 13011i32,
            DeribitErrorCode::UnavailableInSubaccount => 13012i32,
            DeribitErrorCode::InvalidPhoneNumber => 13013i32,
            DeribitErrorCode::CannotSendSms => 13014i32,
            DeribitErrorCode::InvalidSmsCode => 13015i32,
            DeribitErrorCode::InvalidInput => 13016i32,
            DeribitErrorCode::InvalidContentType => 13018i32,
            DeribitErrorCode::OrderbookClosed => 13019i32,
            DeribitErrorCode::NotFound => 13020i32,
            DeribitErrorCode::Forbidden => 13021i32,
            DeribitErrorCode::MethodSwitchedOffByAdmin => 13025i32,
            DeribitErrorCode::TemporarilyUnavailable => 13028i32,
            DeribitErrorCode::MmpTrigger => 13030i32,
            DeribitErrorCode::VerificationRequired => 13031i32,
            DeribitErrorCode::NonUniqueOrderLabel => 13032i32,
            DeribitErrorCode::NoMoreSecurityKeysAllowed => 13034i32,
            DeribitErrorCode::ActiveComboLimitReached => 13035i32,
            DeribitErrorCode::UnavailableForComboBooks => 13036i32,
            DeribitErrorCode::IncompleteKycData => 13037i32,
            DeribitErrorCode::MmpRequired => 13040i32,
            DeribitErrorCode::CodNotEnabled => 13042i32,
            DeribitErrorCode::QuotesFrozen => 13043i32,
            DeribitErrorCode::ScopeExceeded => 13403i32,
            DeribitErrorCode::Unavailable => 13503i32,
            DeribitErrorCode::RequestCancelledByUser => 13666i32,
            DeribitErrorCode::Replaced => 13777i32,
            DeribitErrorCode::RawSubscriptionsNotAvailableForUnauthorized => 13778i32,
            DeribitErrorCode::MovePositionsOverLimit => 13780i32,
            DeribitErrorCode::CouponAlreadyUsed => 13781i32,
            DeribitErrorCode::KycTransferAlreadyInitiated => 13791i32,
            DeribitErrorCode::Unknown(v) => v,
        }
    }

    /// The condition that a number names; a number outside the table becomes `Unknown`.
    pub open spec fn spec_from_code(value: i32) -> DeribitErrorCode {
        match value {
            0i32 => DeribitErrorCode::Success,
            10000i32 => DeribitErrorCode::AuthorizationRequired,
            10001i32 => DeribitErrorCode::Error,
            10002i32 => DeribitErrorCode::QtyTooLow,
            10003i32 => DeribitErrorCode::OrderOverlap,
            10004i32 => DeribitErrorCode::OrderNotFound,
            10005i32 => DeribitErrorCode::PriceTooLow,
            10006i32 => DeribitErrorCode::PriceTooLow4Idx,
            10007i32 => DeribitErrorCode::PriceTooHigh,
            10009i32 => DeribitErrorCode::NotEnoughFunds,
            10010i32 => DeribitErrorCode::AlreadyClosed,
            10011i32 => DeribitErrorCode::PriceNotAllowed,
            10012i32 => DeribitErrorCode::BookClosed,
            10013i32 => DeribitErrorCode::PmeMaxTotalOpenOrders,
            10014i32 => DeribitErrorCode::PmeMaxFutureOpenOrders,
            10015i32 => DeribitErrorCode::PmeMaxOptionOpenOrders,
            10016i32 => DeribitErrorCode::PmeMaxFutureOpenOrdersSize,
            10017i32 => DeribitErrorCode::PmeMaxOptionOpenOrdersSize,
            10018i32 => DeribitErrorCode::NonPmeMaxFuturePositionSize,
            10019i32 => DeribitErrorCode::LockedByAdmin,
            10020i32 => DeribitErrorCode::InvalidOrUnsupportedInstrument,
            10021i32 => DeribitErrorCode::InvalidAmount,
            10022i32 => DeribitErrorCode::InvalidQuantity,
            10023i32 => DeribitErrorCode::InvalidPrice,
            10024i32 => DeribitErrorCode::InvalidMaxShow,
            10025i32 => DeribitErrorCode::InvalidOrderId,
            10026i32 => DeribitErrorCode::PricePrecisionExceeded,
            10027i32 => DeribitErrorCode::NonIntegerContractAmount,
            10028i32 => DeribitErrorCode::TooManyRequests,
            10029i32 => DeribitErrorCode::NotOwnerOfOrder,
            10030i32 => DeribitErrorCode::MustBeWebsocketRequest,
            10031i32 => DeribitErrorCode::InvalidArgsForInstrument,
            10032i32 => DeribitErrorCode::WholeCostTooLow,
            10033i32 => DeribitErrorCode::NotImplemented,
            10034i32 => DeribitErrorCode::TriggerPriceTooHigh,
            10035i32 => DeribitErrorCode::TriggerPriceTooLow,
            10036i32 => DeribitErrorCode::InvalidMaxShowAmount,
            10037i32 => DeribitErrorCode::NonPmeTotalShortOptionsPositionsSize,
            10038i32 => DeribitErrorCode::PmeMaxRiskReducingOrders,
            10039i32 => DeribitErrorCode::NotEnoughFundsInCurrency,
            10040i32 => DeribitErrorCode::Retry,
            10041i32 => DeribitErrorCode::SettlementInProgress,
            10043i32 => DeribitErrorCode::PriceWrongTick,
            10044i32 => DeribitErrorCode::TriggerPriceWrongTick,
            10045i32 => DeribitErrorCode::CanNotCancelLiquidationOrder,
            10046i32 => DeribitErrorCode::CanNotEditLiquidationOrder,
            10047i32 => DeribitErrorCode::MatchingEngineQueueFull,
            10048i32 => DeribitErrorCode::NotOnThisServer,
            10049i32 => DeribitErrorCode::CancelOnDisconnectFailed,
            10066i32 => DeribitErrorCode::TooManyConcurrentRequests,
            10072i32 => DeribitErrorCode::DisabledWhilePositionLock,
            11008i32 => DeribitErrorCode::AlreadyFilled,
            11013i32 => DeribitErrorCode::MaxSpotOpenOrders,
            11021i32 => DeribitErrorCode::PostOnlyPriceModificationNotPossible,
            11022i32 => DeribitErrorCode::MaxSpotOrderQuantity,
            11029i32 => DeribitErrorCode::InvalidArguments,
            11030i32 => DeribitErrorCode::OtherReject,
            11031i32 => DeribitErrorCode::OtherError,
            11035i32 => DeribitErrorCode::NoMoreTriggers,
            11036i32 => DeribitErrorCode::InvalidTriggerPrice,
            11037i32 => DeribitErrorCode::OutdatedInstrumentForIvOrder,
            11038i32 => DeribitErrorCode::NoAdvForFutures,
            11039i32 => DeribitErrorCode::NoAdvPostonly,
            11041i32 => DeribitErrorCode::NotAdvOrder,
            11042i32 => DeribitErrorCode::PermissionDenied,
            11043i32 => DeribitErrorCode::BadArgument,
            11044i32 => DeribitErrorCode::NotOpenOrder,
            11045i32 => DeribitErrorCode::InvalidEvent,
            11046i32 => DeribitErrorCode::OutdatedInstrument,
            11047i32 => DeribitErrorCode::UnsupportedArgCombination,
            11048i32 => DeribitErrorCode::WrongMaxShowForOption,
            11049i32 => DeribitErrorCode::BadArguments,
            11050i32 => DeribitErrorCode::BadRequest,
            11051i32 => DeribitErrorCode::SystemMaintenance,
            11052i32 => DeribitErrorCode::SubscribeErrorUnsubscribed,
            11053i32 => DeribitErrorCode::TransferNotFound,
            11054i32 => DeribitErrorCode::PostOnlyReject,
            11055i32 => DeribitErrorCode::PostOnlyNotAllowed,
            11056i32 => DeribitErrorCode::UnauthenticatedPublicRequestsTemporarilyDisabled,
            11090i32 => DeribitErrorCode::InvalidAddr,
            11091i32 => DeribitErrorCode::InvalidTransferAddress,
            11092i32 => DeribitErrorCode::AddressAlreadyExist,
            11093i32 => DeribitErrorCode::MaxAddrCountExceeded,
            11094i32 => DeribitErrorCode::InternalServerError,
            11095i32 => DeribitErrorCode::DisabledDepositAddressCreation,
            11096i32 => DeribitErrorCode::AddressBelongsToUser,
            11097i32 => DeribitErrorCode::NoDepositAddress,
            11098i32 => DeribitErrorCode::AccountLocked,
            12001i32 => DeribitErrorCode::TooManySubaccounts,
            12002i32 => DeribitErrorCode::WrongSubaccountName,
            12003i32 => DeribitErrorCode::LoginOverLimit,
            12004i32 => DeribitErrorCode::RegistrationOverLimit,
            12005i32 => DeribitErrorCode::CountryIsBanned,
            12100i32 => DeribitErrorCode::TransferNotAllowed,
            12998i32 => DeribitErrorCode::SecurityKeyAuthorizationOverLimit,
            13004i32 => DeribitErrorCode::InvalidCredentials,
            13005i32 => DeribitErrorCode::PwdMatchError,
            13006i32 => DeribitErrorCode::SecurityError,
            13007i32 => DeribitErrorCode::UserNotFound,
            13008i32 => DeribitErrorCode::RequestFailed,
            13009i32 => DeribitErrorCode::Unauthorized,
            13010i32 => DeribitErrorCode::ValueRequired,
            13011i32 => DeribitErrorCode::ValueTooShort,
            13012i32 => DeribitErrorCode::UnavailableInSubaccount,
            13013i32 => DeribitErrorCode::InvalidPhoneNumber,
            13014i32 => DeribitErrorCode::CannotSendSms,
            13015i32 => DeribitErrorCode::InvalidSmsCode,
            13016i32 => DeribitErrorCode::InvalidInput,
            13018i32 => DeribitErrorCode::InvalidContentType,
            13019i32 => DeribitErrorCode::OrderbookClosed,
            13020i32 => DeribitErrorCode::NotFound,
            13021i32 => DeribitErrorCode::Forbidden,
            13025i32 => DeribitErrorCode::MethodSwitchedOffByAdmin,
            13028i32 => DeribitErrorCode::TemporarilyUnavailable,
            13030i32 => DeribitErrorCode::MmpTrigger,
            13031i32 => DeribitErrorCode::VerificationRequired,
            13032i32 => DeribitErrorCode::NonUniqueOrderLabel,
            13034i32 => DeribitErrorCode::NoMoreSecurityKeysAllowed,
            13035i32 => DeribitErrorCode::ActiveComboLimitReached,
            13036i32 => DeribitErrorCode::UnavailableForComboBooks,
            13037i32 => DeribitErrorCode::IncompleteKycData,
            13040i32 => DeribitErrorCode::MmpRequired,
            13042i32 => DeribitErrorCode::CodNotEnabled,
            13043i32 => DeribitErrorCode::QuotesFrozen,
            13403i32 => DeribitErrorCode::ScopeExceeded,
            13503i32 => DeribitErrorCode::Unavailable,
            13666i32 => DeribitErrorCode::RequestCancelledByUser,
            13777i32 => DeribitErrorCode::Replaced,
            13778i32 => DeribitErrorCode::RawSubscriptionsNotAvailableForUnauthorized,
            13780i32 => DeribitErrorCode::MovePositionsOverLimit,
            13781i32 => DeribitErrorCode::CouponAlreadyUsed,
            13791i32 => DeribitErrorCode::KycTransferAlreadyInitiated,
            _ => DeribitErrorCode::Unknown(value),
        }
    }

    /// Whether a number is one of the documented codes.
    pub open spec fn is_registered(value: i32) -> bool {
        !(DeribitErrorCode::spec_from_code(value) is Unknown)
    }

    /// The short snake-case message of a condition; every `Unknown` has the same one.
    pub open spec fn spec_message(self) -> Seq<char> {
        match self {
            DeribitErrorCode::Success => "success"@,
            DeribitErrorCode::AuthorizationRequired => "authorization_required"@,
            DeribitErrorCode::Error => "error"@,
            DeribitErrorCode::QtyTooLow => "qty_too_low"@,
            DeribitErrorCode::OrderOverlap => "order_overlap"@,
            DeribitErrorCode::OrderNotFound => "order_not_found"@,
            DeribitErrorCode::PriceTooLow => "price_too_low"@,
            DeribitErrorCode::PriceTooLow4Idx => "price_too_low4idx"@,
            DeribitErrorCode::PriceTooHigh => "price_too_high"@,
            DeribitErrorCode::NotEnoughFunds => "not_enough_funds"@,
            DeribitErrorCode::AlreadyClosed => "already_closed"@,
            DeribitErrorCode::PriceNotAllowed => "price_not_allowed"@,
            DeribitErrorCode::BookClosed => "book_closed"@,
            DeribitErrorCode::PmeMaxTotalOpenOrders => "pme_max_total_open_orders"@,
            DeribitErrorCode::PmeMaxFutureOpenOrders => "pme_max_future_open_orders"@,
            DeribitErrorCode::PmeMaxOptionOpenOrders => "pme_max_option_open_orders"@,
            DeribitErrorCode::PmeMaxFutureOpenOrdersSize => "pme_max_future_open_orders_size"@,
            DeribitErrorCode::PmeMaxOptionOpenOrdersSize => "pme_max_option_open_orders_size"@,
            DeribitErrorCode::NonPmeMaxFuturePositionSize => "non_pme_max_future_position_size"@,
            DeribitErrorCode::LockedByAdmin => "locked_by_admin"@,
            DeribitErrorCode::InvalidOrUnsupportedInstrument => "invalid_or_unsupported_instrument"@,
            DeribitErrorCode::InvalidAmount => "invalid_amount"@,
            DeribitErrorCode::InvalidQuantity => "invalid_quantity"@,
            DeribitErrorCode::InvalidPrice => "invalid_price"@,
            DeribitErrorCode::InvalidMaxShow => "invalid_max_show"@,
            DeribitErrorCode::InvalidOrderId => "invalid_order_id"@,
            DeribitErrorCode::PricePrecisionExceeded => "price_precision_exceeded"@,
            DeribitErrorCode::NonIntegerContractAmount => "non_integer_contract_amount"@,
            DeribitErrorCode::TooManyRequests => "too_many_requests"@,
            DeribitErrorCode::NotOwnerOfOrder => "not_owner_of_order"@,
            DeribitErrorCode::MustBeWebsocketRequest => "must_be_websocket_request"@,
            DeribitErrorCode::InvalidArgsForInstrument => "invalid_args_for_instrument"@,
            DeribitErrorCode::WholeCostTooLow => "whole_cost_too_low"@,
            DeribitErrorCode::NotImplemented => "not_implemented"@,
            DeribitErrorCode::TriggerPriceTooHigh => "trigger_price_too_high"@,
            DeribitErrorCode::TriggerPriceTooLow => "trigger_price_too_low"@,
            DeribitErrorCode::InvalidMaxShowAmount => "invalid_max_show_amount"@,
            DeribitErrorCode::NonPmeTotalShortOptionsPositionsSize => "non_pme_total_short_options_positions_size"@,
            DeribitErrorCode::PmeMaxRiskReducingOrders => "pme_max_risk_reducing_orders"@,
            DeribitErrorCode::NotEnoughFundsInCurrency => "not_enough_funds_in_currency"@,
            DeribitErrorCode::Retry => "retry"@,
            DeribitErrorCode::SettlementInProgress => "settlement_in_progress"@,
            DeribitErrorCode::PriceWrongTick => "price_wrong_tick"@,
            DeribitErrorCode::TriggerPriceWrongTick => "trigger_price_wrong_tick"@,
            DeribitErrorCode::CanNotCancelLiquidationOrder => "can_not_cancel_liquidation_order"@,
            DeribitErrorCode::CanNotEditLiquidationOrder => "can_not_edit_liquidation_order"@,
            DeribitErrorCode::MatchingEngineQueueFull => "matching_engine_queue_full"@,
            DeribitErrorCode::NotOnThisServer => "not_on_this_server"@,
            DeribitErrorCode::CancelOnDisconnectFailed => "cancel_on_disconnect_failed"@,
            DeribitErrorCode::TooManyConcurrentRequests => "too_many_concurrent_requests"@,
            DeribitErrorCode::DisabledWhilePositionLock => "disabled_while_position_lock"@,
            DeribitErrorCode::AlreadyFilled => "already_filled"@,
            DeribitErrorCode::MaxSpotOpenOrders => "max_spot_open_orders"@,
            DeribitErrorCode::PostOnlyPriceModificationNotPossible => "post_only_price_modification_not_possible"@,
            DeribitErrorCode::MaxSpotOrderQuantity => "max_spot_order_quantity"@,
            DeribitErrorCode::InvalidArguments => "invalid_arguments"@,
            DeribitErrorCode::OtherReject => "other_reject"@,
            DeribitErrorCode::OtherError => "other_error"@,
            DeribitErrorCode::NoMoreTriggers => "no_more_triggers"@,
            DeribitErrorCode::InvalidTriggerPrice => "invalid_trigger_price"@,
            DeribitErrorCode::OutdatedInstrumentForIvOrder => "outdated_instrument_for_iv_order"@,
            DeribitErrorCode::NoAdvForFutures => "no_adv_for_futures"@,
            DeribitErrorCode::NoAdvPostonly => "no_adv_postonly"@,
            DeribitErrorCode::NotAdvOrder => "not_adv_order"@,
            DeribitErrorCode::PermissionDenied => "permission_denied"@,
            DeribitErrorCode::BadArgument => "bad_argument"@,
            DeribitErrorCode::NotOpenOrder => "not_open_order"@,
            DeribitErrorCode::InvalidEvent => "invalid_event"@,
            DeribitErrorCode::OutdatedInstrument => "outdated_instrument"@,
            DeribitErrorCode::UnsupportedArgCombination => "unsupported_arg_combination"@,
            DeribitErrorCode::WrongMaxShowForOption => "wrong_max_show_for_option"@,
            DeribitErrorCode::BadArguments => "bad_arguments"@,
            DeribitErrorCode::BadRequest => "bad_request"@,
            DeribitErrorCode::SystemMaintenance => "system_maintenance"@,
            DeribitErrorCode::SubscribeErrorUnsubscribed => "subscribe_error_unsubscribed"@,
            DeribitErrorCode::TransferNotFound => "transfer_not_found"@,
            DeribitErrorCode::PostOnlyReject => "post_only_reject"@,
            DeribitErrorCode::PostOnlyNotAllowed => "post_only_not_allowed"@,
            DeribitErrorCode::UnauthenticatedPublicRequestsTemporarilyDisabled => "unauthenticated_public_requests_temporarily_disabled"@,
            DeribitErrorCode::InvalidAddr => "invalid_addr"@,
            DeribitErrorCode::InvalidTransferAddress => "invalid_transfer_address"@,
            DeribitErrorCode::AddressAlreadyExist => "address_already_exist"@,
            DeribitErrorCode::MaxAddrCountExceeded => "max_addr_count_exceeded"@,
            DeribitErrorCode::InternalServerError => "internal_server_error"@,
            DeribitErrorCode::DisabledDepositAddressCreation => "disabled_deposit_address_creation"@,
            DeribitErrorCode::AddressBelongsToUser => "address_belongs_to_user"@,
            DeribitErrorCode::NoDepositAddress => "no_deposit_address"@,
            DeribitErrorCode::AccountLocked => "account_locked"@,
            DeribitErrorCode::TooManySubaccounts => "too_many_subaccounts"@,
            DeribitErrorCode::WrongSubaccountName => "wrong_subaccount_name"@,
            DeribitErrorCode::LoginOverLimit => "login_over_limit"@,
            DeribitErrorCode::RegistrationOverLimit => "registration_over_limit"@,
            DeribitErrorCode::CountryIsBanned => "country_is_banned"@,
            DeribitErrorCode::TransferNotAllowed => "transfer_not_allowed"@,
            DeribitErrorCode::SecurityKeyAuthorizationOverLimit => "security_key_authorization_over_limit"@,
            DeribitErrorCode::InvalidCredentials => "invalid_credentials"@,
            DeribitErrorCode::PwdMatchError => "pwd_match_error"@,
            DeribitErrorCode::SecurityError => "security_error"@,
            DeribitErrorCode::UserNotFound => "user_not_found"@,
            DeribitErrorCode::RequestFailed => "request_failed"@,
            DeribitErrorCode::Unauthorized => "unauthorized"@,
            DeribitErrorCode::ValueRequired => "value_required"@,
            DeribitErrorCode::ValueTooShort => "value_too_short"@,
            DeribitErrorCode::UnavailableInSubaccount => "unavailable_in_subaccount"@,
            DeribitErrorCode::InvalidPhoneNumber => "invalid_phone_number"@,
            DeribitErrorCode::CannotSendSms => "cannot_send_sms"@,
            DeribitErrorCode::InvalidSmsCode => "invalid_sms_code"@,
            DeribitErrorCode::InvalidInput => "invalid_input"@,
            DeribitErrorCode::InvalidContentType => "invalid_content_type"@,
            DeribitErrorCode::OrderbookClosed => "orderbook_closed"@,
            DeribitErrorCode::NotFound => "not_found"@,
            DeribitErrorCode::Forbidden => "forbidden"@,
            DeribitErrorCode::MethodSwitchedOffByAdmin => "method_switched_off_by_admin"@,
            DeribitErrorCode::TemporarilyUnavailable => "temporarily_unavailable"@,
            DeribitErrorCode::MmpTrigger => "mmp_trigger"@,
            DeribitErrorCode::VerificationRequired => "verification_required"@,
            DeribitErrorCode::NonUniqueOrderLabel => "non_unique_order_label"@,
            DeribitErrorCode::NoMoreSecurityKeysAllowed => "no_more_security_keys_allowed"@,
            DeribitErrorCode::ActiveComboLimitReached => "active_combo_limit_reached"@,
            DeribitErrorCode::UnavailableForComboBooks => "unavailable_for_combo_books"@,
            DeribitErrorCode::IncompleteKycData => "incomplete_kyc_data"@,
            DeribitErrorCode::MmpRequired => "mmp_required"@,
            DeribitErrorCode::CodNotEnabled => "cod_not_enabled"@,
            DeribitErrorCode::QuotesFrozen => "quotes_frozen"@,
            DeribitErrorCode::ScopeExceeded => "scope_exceeded"@,
            DeribitErrorCode::Unavailable => "unavailable"@,
            DeribitErrorCode::RequestCancelledByUser => "request_cancelled_by_user"@,
            DeribitErrorCode::Replaced => "replaced"@,
            DeribitErrorCode::RawSubscriptionsNotAvailableForUnauthorized => "raw_subscriptions_not_available_for_unauthorized"@,
            DeribitErrorCode::MovePositionsOverLimit => "move_positions_over_limit"@,
            DeribitErrorCode::CouponAlreadyUsed => "coupon_already_used"@,
            DeribitErrorCode::KycTransferAlreadyInitiated => "kyc_transfer_already_initiated"@,
            DeribitErrorCode::Unknown(_) => "unknown_error"@,
        }
    }

    /// The success condition alone.
    pub open spec fn spec_is_success(self) -> bool {
        match self {
            DeribitErrorCode::Success => true,
            _ => false,
        }
    }

    /// Missing or rejected credentials.
    pub open spec fn spec_is_authorization_error(self) -> bool {
        match self {
            DeribitErrorCode::AuthorizationRequired | DeribitErrorCode::Unauthorized => true,
            _ => false,
        }
    }

    /// Too many requests, overall or at once.
    pub open spec fn spec_is_rate_limit_error(self) -> bool {
        match self {
            DeribitErrorCode::TooManyRequests | DeribitErrorCode::TooManyConcurrentRequests => true,
            _ => false,
        }
    }

    /// Arguments the venue did not accept.
    pub open spec fn spec_is_validation_error(self) -> bool {
        match self {
            DeribitErrorCode::InvalidAmount | DeribitErrorCode::InvalidPrice | DeribitErrorCode::InvalidQuantity | DeribitErrorCode::InvalidOrderId | DeribitErrorCode::InvalidArguments | DeribitErrorCode::BadArgument | DeribitErrorCode::BadArguments | DeribitErrorCode::InvalidInput => true,
            _ => false,
        }
    }

    /// Conditions met while placing or managing an order.
    pub open spec fn spec_is_trading_error(self) -> bool {
        match self {
            DeribitErrorCode::QtyTooLow | DeribitErrorCode::OrderOverlap | DeribitErrorCode::OrderNotFound | DeribitErrorCode::PriceTooLow | DeribitErrorCode::PriceTooHigh | DeribitErrorCode::NotEnoughFunds | DeribitErrorCode::AlreadyClosed | DeribitErrorCode::PriceNotAllowed | DeribitErrorCode::BookClosed => true,
            _ => false,
        }
    }

    /// Looks a number up in the table of documented codes; any other number
    /// becomes `Unknown` holding it unchanged.
    pub fn from_code(value: i32) -> (r: DeribitErrorCode)
        ensures
            r == DeribitErrorCode::spec_from_code(value),
    {
        match value {
            0 => DeribitErrorCode::Success,
            10000 => DeribitErrorCode::AuthorizationRequired,
            10001 => DeribitErrorCode::Error,
            10002 => DeribitErrorCode::QtyTooLow,
            10003 => DeribitErrorCode::OrderOverlap,
            10004 => DeribitErrorCode::OrderNotFound,
            10005 => DeribitErrorCode::PriceTooLow,
            10006 => DeribitErrorCode::PriceTooLow4Idx,
            10007 => DeribitErrorCode::PriceTooHigh,
            10009 => DeribitErrorCode::NotEnoughFunds,
            10010 => DeribitErrorCode::AlreadyClosed,
            10011 => DeribitErrorCode::PriceNotAllowed,
            10012 => DeribitErrorCode::BookClosed,
            10013 => DeribitErrorCode::PmeMaxTotalOpenOrders,
            10014 => DeribitErrorCode::PmeMaxFutureOpenOrders,
            10015 => DeribitErrorCode::PmeMaxOptionOpenOrders,
            10016 => DeribitErrorCode::PmeMaxFutureOpenOrdersSize,
            10017 => DeribitErrorCode::PmeMaxOptionOpenOrdersSize,
            10018 => DeribitErrorCode::NonPmeMaxFuturePositionSize,
            10019 => DeribitErrorCode::LockedByAdmin,
            10020 => DeribitErrorCode::InvalidOrUnsupportedInstrument,
            10021 => DeribitErrorCode::InvalidAmount,
            10022 => DeribitErrorCode::InvalidQuantity,
            10023 => DeribitErrorCode::InvalidPrice,
            10024 => DeribitErrorCode::InvalidMaxShow,
            10025 => DeribitErrorCode::InvalidOrderId,
            10026 => DeribitErrorCode::PricePrecisionExceeded,
            10027 => DeribitErrorCode::NonIntegerContractAmount,
            10028 => DeribitErrorCode::TooManyRequests,
            10029 => DeribitErrorCode::NotOwnerOfOrder,
            10030 => DeribitErrorCode::MustBeWebsocketRequest,
            10031 => DeribitErrorCode::InvalidArgsForInstrument,
            10032 => DeribitErrorCode::WholeCostTooLow,
            10033 => DeribitErrorCode::NotImplemented,
            10034 => DeribitErrorCode::TriggerPriceTooHigh,
            10035 => DeribitErrorCode::TriggerPriceTooLow,
            10036 => DeribitErrorCode::InvalidMaxShowAmount,
            10037 => DeribitErrorCode::NonPmeTotalShortOptionsPositionsSize,
            10038 => DeribitErrorCode::PmeMaxRiskReducingOrders,
            10039 => DeribitErrorCode::NotEnoughFundsInCurrency,
            10040 => DeribitErrorCode::Retry,
            10041 => DeribitErrorCode::SettlementInProgress,
            10043 => DeribitErrorCode::PriceWrongTick,
            10044 => DeribitErrorCode::TriggerPriceWrongTick,
            10045 => DeribitErrorCode::CanNotCancelLiquidationOrder,
            10046 => DeribitErrorCode::CanNotEditLiquidationOrder,
            10047 => DeribitErrorCode::MatchingEngineQueueFull,
            10048 => DeribitErrorCode::NotOnThisServer,
            10049 => DeribitErrorCode::CancelOnDisconnectFailed,
            10066 => DeribitErrorCode::TooManyConcurrentRequests,
            10072 => DeribitErrorCode::DisabledWhilePositionLock,
            11008 => DeribitErrorCode::AlreadyFilled,
            11013 => DeribitErrorCode::MaxSpotOpenOrders,
            11021 => DeribitErrorCode::PostOnlyPriceModificationNotPossible,
            11022 => DeribitErrorCode::MaxSpotOrderQuantity,
            11029 => DeribitErrorCode::InvalidArguments,
            11030 => DeribitErrorCode::OtherReject,
            11031 => DeribitErrorCode::OtherError,
            11035 => DeribitErrorCode::NoMoreTriggers,
            11036 => DeribitErrorCode::InvalidTriggerPrice,
            11037 => DeribitErrorCode::OutdatedInstrumentForIvOrder,
            11038 => DeribitErrorCode::NoAdvForFutures,
            11039 => DeribitErrorCode::NoAdvPostonly,
            11041 => DeribitErrorCode::NotAdvOrder,
            11042 => DeribitErrorCode::PermissionDenied,
            11043 => DeribitErrorCode::BadArgument,
            11044 => DeribitErrorCode::NotOpenOrder,
            11045 => DeribitErrorCode::InvalidEvent,
            11046 => DeribitErrorCode::OutdatedInstrument,
            11047 => DeribitErrorCode::UnsupportedArgCombination,
            11048 => DeribitErrorCode::WrongMaxShowForOption,
            11049 => DeribitErrorCode::BadArguments,
            11050 => DeribitErrorCode::BadRequest,
            11051 => DeribitErrorCode::SystemMaintenance,
            11052 => DeribitErrorCode::SubscribeErrorUnsubscribed,
            11053 => DeribitErrorCode::TransferNotFound,
            11054 => DeribitErrorCode::PostOnlyReject,
            11055 => DeribitErrorCode::PostOnlyNotAllowed,
            11056 => DeribitErrorCode::UnauthenticatedPublicRequestsTemporarilyDisabled,
            11090 => DeribitErrorCode::InvalidAddr,
            11091 => DeribitErrorCode::InvalidTransferAddress,
            11092 => DeribitErrorCode::AddressAlreadyExist,
            11093 => DeribitErrorCode::MaxAddrCountExceeded,
            11094 => DeribitErrorCode::InternalServerError,
            11095 => DeribitErrorCode::DisabledDepositAddressCreation,
            11096 => DeribitErrorCode::AddressBelongsToUser,
            11097 => DeribitErrorCode::NoDepositAddress,
            11098 => DeribitErrorCode::AccountLocked,
            12001 => DeribitErrorCode::TooManySubaccounts,
            12002 => DeribitErrorCode::WrongSubaccountName,
            12003 => DeribitErrorCode::LoginOverLimit,
            12004 => DeribitErrorCode::RegistrationOverLimit,
            12005 => DeribitErrorCode::CountryIsBanned,
            12100 => DeribitErrorCode::TransferNotAllowed,
            12998 => DeribitErrorCode::SecurityKeyAuthorizationOverLimit,
            13004 => DeribitErrorCode::InvalidCredentials,
            13005 => DeribitErrorCode::PwdMatchError,
            13006 => DeribitErrorCode::SecurityError,
            13007 => DeribitErrorCode::UserNotFound,
            13008 => DeribitErrorCode::RequestFailed,
            13009 => DeribitErrorCode::Unauthorized,
            13010 => DeribitErrorCode::ValueRequired,
            13011 => DeribitErrorCode::ValueTooShort,
            13012 => DeribitErrorCode::UnavailableInSubaccount,
            13013 => DeribitErrorCode::InvalidPhoneNumber,
            13014 => DeribitErrorCode::CannotSendSms,
            13015 => DeribitErrorCode::InvalidSmsCode,
            13016 => DeribitErrorCode::InvalidInput,
            13018 => DeribitErrorCode::InvalidContentType,
            13019 => DeribitErrorCode::OrderbookClosed,
            13020 => DeribitErrorCode::NotFound,
            13021 => DeribitErrorCode::Forbidden,
            13025 => DeribitErrorCode::MethodSwitchedOffByAdmin,
            13028 => DeribitErrorCode::TemporarilyUnavailable,
            13030 => DeribitErrorCode::MmpTrigger,
            13031 => DeribitErrorCode::VerificationRequired,
            13032 => DeribitErrorCode::NonUniqueOrderLabel,
            13034 => DeribitErrorCode::NoMoreSecurityKeysAllowed,
            13035 => DeribitErrorCode::ActiveComboLimitReached,
            13036 => DeribitErrorCode::UnavailableForComboBooks,
            13037 => DeribitErrorCode::IncompleteKycData,
            13040 => DeribitErrorCode::MmpRequired,
            13042 => DeribitErrorCode::CodNotEnabled,
            13043 => DeribitErrorCode::QuotesFrozen,
            13403 => DeribitErrorCode::ScopeExceeded,
            13503 => DeribitErrorCode::Unavailable,
            13666 => DeribitErrorCode::RequestCancelledByUser,
            13777 => DeribitErrorCode::Replaced,
            13778 => DeribitErrorCode::RawSubscriptionsNotAvailableForUnauthorized,
            13780 => DeribitErrorCode::MovePositionsOverLimit,
            13781 => DeribitErrorCode::CouponAlreadyUsed,
            13791 => DeribitErrorCode::KycTransferAlreadyInitiated,
            _ => DeribitErrorCode::Unknown(value),
        }
    }

    /// Get the numeric error code
    pub fn code(&self) -> (r: i32)
        ensures
            r == self.spec_code(),
    {
        match *self {
            DeribitErrorCode::Success => 0,
            DeribitErrorCode::AuthorizationRequired => 10000,
            DeribitErrorCode::Error => 10001,
            DeribitErrorCode::QtyTooLow => 10002,
            DeribitErrorCode::OrderOverlap => 10003,
            DeribitErrorCode::OrderNotFound => 10004,
            DeribitErrorCode::PriceTooLow => 10005,
            DeribitErrorCode::PriceTooLow4Idx => 10006,
            DeribitErrorCode::PriceTooHigh => 10007,
            DeribitErrorCode::NotEnoughFunds => 10009,
            DeribitErrorCode::AlreadyClosed => 10010,
            DeribitErrorCode::PriceNotAllowed => 10011,
            DeribitErrorCode::BookClosed => 10012,
            DeribitErrorCode::PmeMaxTotalOpenOrders => 10013,
            DeribitErrorCode::PmeMaxFutureOpenOrders => 10014,
            DeribitErrorCode::PmeMaxOptionOpenOrders => 10015,
            DeribitErrorCode::PmeMaxFutureOpenOrdersSize => 10016,
            DeribitErrorCode::PmeMaxOptionOpenOrdersSize => 10017,
            DeribitErrorCode::NonPmeMaxFuturePositionSize => 10018,
            DeribitErrorCode::LockedByAdmin => 10019,
            DeribitErrorCode::InvalidOrUnsupportedInstrument => 10020,
            DeribitErrorCode::InvalidAmount => 10021,
            DeribitErrorCode::InvalidQuantity => 10022,
            DeribitErrorCode::InvalidPrice => 10023,
            DeribitErrorCode::InvalidMaxShow => 10024,
            DeribitErrorCode::InvalidOrderId => 10025,
            DeribitErrorCode::PricePrecisionExceeded => 10026,
            DeribitErrorCode::NonIntegerContractAmount => 10027,
            DeribitErrorCode::TooManyRequests => 10028,
            DeribitErrorCode::NotOwnerOfOrder => 10029,
            DeribitErrorCode::MustBeWebsocketRequest => 10030,
            DeribitErrorCode::InvalidArgsForInstrument => 10031,
            DeribitErrorCode::WholeCostTooLow => 10032,
            DeribitErrorCode::NotImplemented => 10033,
            DeribitErrorCode::TriggerPriceTooHigh => 10034,
            DeribitErrorCode::TriggerPriceTooLow => 10035,
            DeribitErrorCode::InvalidMaxShowAmount => 10036,
            DeribitErrorCode::NonPmeTotalShortOptionsPositionsSize => 10037,
            DeribitErrorCode::PmeMaxRiskReducingOrders => 10038,
            DeribitErrorCode::NotEnoughFundsInCurrency => 10039,
            DeribitErrorCode::Retry => 10040,
            DeribitErrorCode::SettlementInProgress => 10041,
            DeribitErrorCode::PriceWrongTick => 10043,
            DeribitErrorCode::TriggerPriceWrongTick => 10044,
            DeribitErrorCode::CanNotCancelLiquidationOrder => 10045,
            DeribitErrorCode::CanNotEditLiquidationOrder => 10046,
            DeribitErrorCode::MatchingEngineQueueFull => 10047,
            DeribitErrorCode::NotOnThisServer => 10048,
            DeribitErrorCode::CancelOnDisconnectFailed => 10049,
            DeribitErrorCode::TooManyConcurrentRequests => 10066,
            DeribitErrorCode::DisabledWhilePositionLock => 10072,
            DeribitErrorCode::AlreadyFilled => 11008,
            DeribitErrorCode::MaxSpotOpenOrders => 11013,
            DeribitErrorCode::PostOnlyPriceModificationNotPossible => 11021,
            DeribitErrorCode::MaxSpotOrderQuantity => 11022,
            DeribitErrorCode::InvalidArguments => 11029,
            DeribitErrorCode::OtherReject => 11030,
            DeribitErrorCode::OtherError => 11031,
            DeribitErrorCode::NoMoreTriggers => 11035,
            DeribitErrorCode::InvalidTriggerPrice => 11036,
            DeribitErrorCode::OutdatedInstrumentForIvOrder => 11037,
            DeribitErrorCode::NoAdvForFutures => 11038,
            DeribitErrorCode::NoAdvPostonly => 11039,
            DeribitErrorCode::NotAdvOrder => 11041,
            DeribitErrorCode::PermissionDenied => 11042,
            DeribitErrorCode::BadArgument => 11043,
            DeribitErrorCode::NotOpenOrder => 11044,
            DeribitErrorCode::InvalidEvent => 11045,
            DeribitErrorCode::OutdatedInstrument => 11046,
            DeribitErrorCode::UnsupportedArgCombination => 11047,
            DeribitErrorCode::WrongMaxShowForOption => 11048,
            DeribitErrorCode::BadArguments => 11049,
            DeribitErrorCode::BadRequest => 11050,
            DeribitErrorCode::SystemMaintenance => 11051,
            DeribitErrorCode::SubscribeErrorUnsubscribed => 11052,
            DeribitErrorCode::TransferNotFound => 11053,
            DeribitErrorCode::PostOnlyReject => 11054,
            DeribitErrorCode::PostOnlyNotAllowed => 11055,
            DeribitErrorCode::UnauthenticatedPublicRequestsTemporarilyDisabled => 11056,
            DeribitErrorCode::InvalidAddr => 11090,
            DeribitErrorCode::InvalidTransferAddress => 11091,
            DeribitErrorCode::AddressAlreadyExist => 11092,
            DeribitErrorCode::MaxAddrCountExceeded => 11093,
            DeribitErrorCode::InternalServerError => 11094,
            DeribitErrorCode::DisabledDepositAddressCreation => 11095,
            DeribitErrorCode::AddressBelongsToUser => 11096,
            DeribitErrorCode::NoDepositAddress => 11097,
            DeribitErrorCode::AccountLocked => 11098,
            DeribitErrorCode::TooManySubaccounts => 12001,
            DeribitErrorCode::WrongSubaccountName => 12002,
            DeribitErrorCode::LoginOverLimit => 12003,
            DeribitErrorCode::RegistrationOverLimit => 12004,
            DeribitErrorCode::CountryIsBanned => 12005,
            DeribitErrorCode::TransferNotAllowed => 12100,
            DeribitErrorCode::SecurityKeyAuthorizationOverLimit => 12998,
            DeribitErrorCode::InvalidCredentials => 13004,
            DeribitErrorCode::PwdMatchError => 13005,
            DeribitErrorCode::SecurityError => 13006,
            DeribitErrorCode::UserNotFound => 13007,
            DeribitErrorCode::RequestFailed => 13008,
            DeribitErrorCode::Unauthorized => 13009,
            DeribitErrorCode::ValueRequired => 13010,
            DeribitErrorCode::ValueTooShort => 13011,
            DeribitErrorCode::UnavailableInSubaccount => 13012,
            DeribitErrorCode::InvalidPhoneNumber => 13013,
            DeribitErrorCode::CannotSendSms => 13014,
            DeribitErrorCode::InvalidSmsCode => 13015,
            DeribitErrorCode::InvalidInput => 13016,
            DeribitErrorCode::InvalidContentType => 13018,
            DeribitErrorCode::OrderbookClosed => 13019,
            DeribitErrorCode::NotFound => 13020,
            DeribitErrorCode::Forbidden => 13021,
            DeribitErrorCode::MethodSwitchedOffByAdmin => 13025,
            DeribitErrorCode::TemporarilyUnavailable => 13028,
            DeribitErrorCode::MmpTrigger => 13030,
            DeribitErrorCode::VerificationRequired => 13031,
            DeribitErrorCode::NonUniqueOrderLabel => 13032,
            DeribitErrorCode::NoMoreSecurityKeysAllowed => 13034,
            DeribitErrorCode::ActiveComboLimitReached => 13035,
            DeribitErrorCode::UnavailableForComboBooks => 13036,
            DeribitErrorCode::IncompleteKycData => 13037,
            DeribitErrorCode::MmpRequired => 13040,
            DeribitErrorCode::CodNotEnabled => 13042,
            DeribitErrorCode::QuotesFrozen => 13043,
            DeribitErrorCode::ScopeExceeded => 13403,
            DeribitErrorCode::Unavailable => 13503,
            DeribitErrorCode::RequestCancelledByUser => 13666,
            DeribitErrorCode::Replaced => 13777,
            DeribitErrorCode::RawSubscriptionsNotAvailableForUnauthorized => 13778,
            DeribitErrorCode::MovePositionsOverLimit => 13780,
            DeribitErrorCode::CouponAlreadyUsed => 13781,
            DeribitErrorCode::KycTransferAlreadyInitiated => 13791,
            DeribitErrorCode::Unknown(v) => v,
        }
    }

    /// Get the short error message
    pub fn message(&self) -> (r: &'static str)
        ensures
            r@ == self.spec_message(),
    {
        match *self {
            DeribitErrorCode::Success => "success",
            DeribitErrorCode::AuthorizationRequired => "authorization_required",
            DeribitErrorCode::Error => "error",
            DeribitErrorCode::QtyTooLow => "qty_too_low",
            DeribitErrorCode::OrderOverlap => "order_overlap",
            DeribitErrorCode::OrderNotFound => "order_not_found",
            DeribitErrorCode::PriceTooLow => "price_too_low",
            DeribitErrorCode::PriceTooLow4Idx => "price_too_low4idx",
            DeribitErrorCode::PriceTooHigh => "price_too_high",
            DeribitErrorCode::NotEnoughFunds => "not_enough_funds",
            DeribitErrorCode::AlreadyClosed => "already_closed",
            DeribitErrorCode::PriceNotAllowed => "price_not_allowed",
            DeribitErrorCode::BookClosed => "book_closed",
            DeribitErrorCode::PmeMaxTotalOpenOrders => "pme_max_total_open_orders",
            DeribitErrorCode::PmeMaxFutureOpenOrders => "pme_max_future_open_orders",
            DeribitErrorCode::PmeMaxOptionOpenOrders => "pme_max_option_open_orders",
            DeribitErrorCode::PmeMaxFutureOpenOrdersSize => "pme_max_future_open_orders_size",
            DeribitErrorCode::PmeMaxOptionOpenOrdersSize => "pme_max_option_open_orders_size",
            DeribitErrorCode::NonPmeMaxFuturePositionSize => "non_pme_max_future_position_size",
            DeribitErrorCode::LockedByAdmin => "locked_by_admin",
            DeribitErrorCode::InvalidOrUnsupportedInstrument => "invalid_or_unsupported_instrument",
            DeribitErrorCode::InvalidAmount => "invalid_amount",
            DeribitErrorCode::InvalidQuantity => "invalid_quantity",
            DeribitErrorCode::InvalidPrice => "invalid_price",
            DeribitErrorCode::InvalidMaxShow => "invalid_max_show",
            DeribitErrorCode::InvalidOrderId => "invalid_order_id",
            DeribitErrorCode::PricePrecisionExceeded => "price_precision_exceeded",
            DeribitErrorCode::NonIntegerContractAmount => "non_integer_contract_amount",
            DeribitErrorCode::TooManyRequests => "too_many_requests",
            DeribitErrorCode::NotOwnerOfOrder => "not_owner_of_order",
            DeribitErrorCode::MustBeWebsocketRequest => "must_be_websocket_request",
            DeribitErrorCode::InvalidArgsForInstrument => "invalid_args_for_instrument",
            DeribitErrorCode::WholeCostTooLow => "whole_cost_too_low",
            DeribitErrorCode::NotImplemented => "not_implemented",
            DeribitErrorCode::TriggerPriceTooHigh => "trigger_price_too_high",
            DeribitErrorCode::TriggerPriceTooLow => "trigger_price_too_low",
            DeribitErrorCode::InvalidMaxShowAmount => "invalid_max_show_amount",
            DeribitErrorCode::NonPmeTotalShortOptionsPositionsSize => "non_pme_total_short_options_positions_size",
            DeribitErrorCode::PmeMaxRiskReducingOrders => "pme_max_risk_reducing_orders",
            DeribitErrorCode::NotEnoughFundsInCurrency => "not_enough_funds_in_currency",
            DeribitErrorCode::Retry => "retry",
            DeribitErrorCode::SettlementInProgress => "settlement_in_progress",
            DeribitErrorCode::PriceWrongTick => "price_wrong_tick",
            DeribitErrorCode::TriggerPriceWrongTick => "trigger_price_wrong_tick",
            DeribitErrorCode::CanNotCancelLiquidationOrder => "can_not_cancel_liquidation_order",
            DeribitErrorCode::CanNotEditLiquidationOrder => "can_not_edit_liquidation_order",
            DeribitErrorCode::MatchingEngineQueueFull => "matching_engine_queue_full",
            DeribitErrorCode::NotOnThisServer => "not_on_this_server",
            DeribitErrorCode::CancelOnDisconnectFailed => "cancel_on_disconnect_failed",
            DeribitErrorCode::TooManyConcurrentRequests => "too_many_concurrent_requests",
            DeribitErrorCode::DisabledWhilePositionLock => "disabled_while_position_lock",
            DeribitErrorCode::AlreadyFilled => "already_filled",
            DeribitErrorCode::MaxSpotOpenOrders => "max_spot_open_orders",
            DeribitErrorCode::PostOnlyPriceModificationNotPossible => "post_only_price_modification_not_possible",
            DeribitErrorCode::MaxSpotOrderQuantity => "max_spot_order_quantity",
            DeribitErrorCode::InvalidArguments => "invalid_arguments",
            DeribitErrorCode::OtherReject => "other_reject",
            DeribitErrorCode::OtherError => "other_error",
            DeribitErrorCode::NoMoreTriggers => "no_more_triggers",
            DeribitErrorCode::InvalidTriggerPrice => "invalid_trigger_price",
            DeribitErrorCode::OutdatedInstrumentForIvOrder => "outdated_instrument_for_iv_order",
            DeribitErrorCode::NoAdvForFutures => "no_adv_for_futures",
            DeribitErrorCode::NoAdvPostonly => "no_adv_postonly",
            DeribitErrorCode::NotAdvOrder => "not_adv_order",
            DeribitErrorCode::PermissionDenied => "permission_denied",
            DeribitErrorCode::BadArgument => "bad_argument",
            DeribitErrorCode::NotOpenOrder => "not_open_order",
            DeribitErrorCode::InvalidEvent => "invalid_event",
            DeribitErrorCode::OutdatedInstrument => "outdated_instrument",
            DeribitErrorCode::UnsupportedArgCombination => "unsupported_arg_combination",
            DeribitErrorCode::WrongMaxShowForOption => "wrong_max_show_for_option",
            DeribitErrorCode::BadArguments => "bad_arguments",
            DeribitErrorCode::BadRequest => "bad_request",
            DeribitErrorCode::SystemMaintenance => "system_maintenance",
            DeribitErrorCode::SubscribeErrorUnsubscribed => "subscribe_error_unsubscribed",
            DeribitErrorCode::TransferNotFound => "transfer_not_found",
            DeribitErrorCode::PostOnlyReject => "post_only_reject",
            DeribitErrorCode::PostOnlyNotAllowed => "post_only_not_allowed",
            DeribitErrorCode::UnauthenticatedPublicRequestsTemporarilyDisabled => "unauthenticated_public_requests_temporarily_disabled",
            DeribitErrorCode::InvalidAddr => "invalid_addr",
            DeribitErrorCode::InvalidTransferAddress => "invalid_transfer_address",
            DeribitErrorCode::AddressAlreadyExist => "address_already_exist",
            DeribitErrorCode::MaxAddrCountExceeded => "max_addr_count_exceeded",
            DeribitErrorCode::InternalServerError => "internal_server_error",
            DeribitErrorCode::DisabledDepositAddressCreation => "disabled_deposit_address_creation",
            DeribitErrorCode::AddressBelongsToUser => "address_belongs_to_user",
            DeribitErrorCode::NoDepositAddress => "no_deposit_address",
            DeribitErrorCode::AccountLocked => "account_locked",
            DeribitErrorCode::TooManySubaccounts => "too_many_subaccounts",
            DeribitErrorCode::WrongSubaccountName => "wrong_subaccount_name",
            DeribitErrorCode::LoginOverLimit => "login_over_limit",
            DeribitErrorCode::RegistrationOverLimit => "registration_over_limit",
            DeribitErrorCode::CountryIsBanned => "country_is_banned",
            DeribitErrorCode::TransferNotAllowed => "transfer_not_allowed",
            DeribitErrorCode::SecurityKeyAuthorizationOverLimit => "security_key_authorization_over_limit",
            DeribitErrorCode::InvalidCredentials => "invalid_credentials",
            DeribitErrorCode::PwdMatchError => "pwd_match_error",
            DeribitErrorCode::SecurityError => "security_error",
            DeribitErrorCode::UserNotFound => "user_not_found",
            DeribitErrorCode::RequestFailed => "request_failed",
            DeribitErrorCode::Unauthorized => "unauthorized",
            DeribitErrorCode::ValueRequired => "value_required",
            DeribitErrorCode::ValueTooShort => "value_too_short",
            DeribitErrorCode::UnavailableInSubaccount => "unavailable_in_subaccount",
            DeribitErrorCode::InvalidPhoneNumber => "invalid_phone_number",
            DeribitErrorCode::CannotSendSms => "cannot_send_sms",
            DeribitErrorCode::InvalidSmsCode => "invalid_sms_code",
            DeribitErrorCode::InvalidInput => "invalid_input",
            DeribitErrorCode::InvalidContentType => "invalid_content_type",
            DeribitErrorCode::OrderbookClosed => "orderbook_closed",
            DeribitErrorCode::NotFound => "not_found",
            DeribitErrorCode::Forbidden => "forbidden",
            DeribitErrorCode::MethodSwitchedOffByAdmin => "method_switched_off_by_admin",
            DeribitErrorCode::TemporarilyUnavailable => "temporarily_unavailable",
            DeribitErrorCode::MmpTrigger => "mmp_trigger",
            DeribitErrorCode::VerificationRequired => "verification_required",
            DeribitErrorCode::NonUniqueOrderLabel => "non_unique_order_label",
            DeribitErrorCode::NoMoreSecurityKeysAllowed => "no_more_security_keys_allowed",
            DeribitErrorCode::ActiveComboLimitReached => "active_combo_limit_reached",
            DeribitErrorCode::UnavailableForComboBooks => "unavailable_for_combo_books",
            DeribitErrorCode::IncompleteKycData => "incomplete_kyc_data",
            DeribitErrorCode::MmpRequired => "mmp_required",
            DeribitErrorCode::CodNotEnabled => "cod_not_enabled",
            DeribitErrorCode::QuotesFrozen => "quotes_frozen",
            DeribitErrorCode::ScopeExceeded => "scope_exceeded",
            DeribitErrorCode::Unavailable => "unavailable",
            DeribitErrorCode::RequestCancelledByUser => "request_cancelled_by_user",
            DeribitErrorCode::Replaced => "replaced",
            DeribitErrorCode::RawSubscriptionsNotAvailableForUnauthorized => "raw_subscriptions_not_available_for_unauthorized",
            DeribitErrorCode::MovePositionsOverLimit => "move_positions_over_limit",
            DeribitErrorCode::CouponAlreadyUsed => "coupon_already_used",
            DeribitErrorCode::KycTransferAlreadyInitiated => "kyc_transfer_already_initiated",
            DeribitErrorCode::Unknown(_) => "unknown_error",
        }
    }

    /// Check if this is a success code
    pub fn is_success(&self) -> (r: bool)
        ensures
            r == self.spec_is_success(),
    {
        match *self {
            DeribitErrorCode::Success => true,
            _ => false,
        }
    }

    /// Check if this is an authorization error
    pub fn is_authorization_error(&self) -> (r: bool)
        ensures
            r == self.spec_is_authorization_error(),
    {
        match *self {
            DeribitErrorCode::AuthorizationRequired | DeribitErrorCode::Unauthorized => true,
            _ => false,
        }
    }

    /// Check if this is a rate limiting error
    pub fn is_rate_limit_error(&self) -> (r: bool)
        ensures
            r == self.spec_is_rate_limit_error(),
    {
        match *self {
            DeribitErrorCode::TooManyRequests | DeribitErrorCode::TooManyConcurrentRequests => true,
            _ => false,
        }
    }

    /// Check if this is a validation error
    pub fn is_validation_error(&self) -> (r: bool)
        ensures
            r == self.spec_is_validation_error(),
    {
        match *self {
            DeribitErrorCode::InvalidAmount | DeribitErrorCode::InvalidPrice | DeribitErrorCode::InvalidQuantity | DeribitErrorCode::InvalidOrderId | DeribitErrorCode::InvalidArguments | DeribitErrorCode::BadArgument | DeribitErrorCode::BadArguments | DeribitErrorCode::InvalidInput => true,
            _ => false,
        }
    }

    /// Check if this is a trading error
    pub fn is_trading_error(&self) -> (r: bool)
        ensures
            r == self.spec_is_trading_error(),
    {
        match *self {
            DeribitErrorCode::QtyTooLow | DeribitErrorCode::OrderOverlap | DeribitErrorCode::OrderNotFound | DeribitErrorCode::PriceTooLow | DeribitErrorCode::PriceTooHigh | DeribitErrorCode::NotEnoughFunds | DeribitErrorCode::AlreadyClosed | DeribitErrorCode::PriceNotAllowed | DeribitErrorCode::BookClosed => true,
            _ => false,
        }
    }

}

/// Looking a number up and asking for its code gives the number back, for
/// every number: documented codes through their variant, the others through
/// `Unknown`.
pub proof fn lemma_code_round_trip(value: i32)
    ensures
        DeribitErrorCode::spec_from_code(value).spec_code() == value,
{
}

/// A documented code names one variant, and that variant's code is the number.
pub proof fn lemma_registered_round_trip(value: i32)
    requires
        DeribitErrorCode::is_registered(value),
    ensures
        !(DeribitErrorCode::spec_from_code(value) is Unknown),
        DeribitErrorCode::spec_from_code(value).spec_code() == value,
{
}

/// A number outside the table is kept verbatim in `Unknown`, and its message is
/// the fixed sentinel, whatever the number.
pub proof fn lemma_unknown_preserved(value: i32)
    requires
        !DeribitErrorCode::is_registered(value),
    ensures
        DeribitErrorCode::spec_from_code(value) == DeribitErrorCode::Unknown(value),
        DeribitErrorCode::spec_from_code(value).spec_code() == value,
        DeribitErrorCode::spec_from_code(value).spec_message() == "unknown_error"@,
{
}

/// Every named variant is found again from its own code: no two named
/// variants share a number.
pub proof fn lemma_named_round_trip(c: DeribitErrorCode)
    requires
        !(c is Unknown),
    ensures
        DeribitErrorCode::spec_from_code(c.spec_code()) == c,
        DeribitErrorCode::is_registered(c.spec_code()),
{
}

/// Every variant, `Unknown` with any payload included, has a non-empty message.
pub proof fn lemma_message_nonempty(c: DeribitErrorCode)
    ensures
        c.spec_message().len() > 0,
{
    match c {
        DeribitErrorCode::Success => reveal_strlit("success"),
        DeribitErrorCode::AuthorizationRequired => reveal_strlit("authorization_required"),
        DeribitErrorCode::Error => reveal_strlit("error"),
        DeribitErrorCode::QtyTooLow => reveal_strlit("qty_too_low"),
        DeribitErrorCode::OrderOverlap => reveal_strlit("order_overlap"),
        DeribitErrorCode::OrderNotFound => reveal_strlit("order_not_found"),
        DeribitErrorCode::PriceTooLow => reveal_strlit("price_too_low"),
        DeribitErrorCode::PriceTooLow4Idx => reveal_strlit("price_too_low4idx"),
        DeribitErrorCode::PriceTooHigh => reveal_strlit("price_too_high"),
        DeribitErrorCode::NotEnoughFunds => reveal_strlit("not_enough_funds"),
        DeribitErrorCode::AlreadyClosed => reveal_strlit("already_closed"),
        DeribitErrorCode::PriceNotAllowed => reveal_strlit("price_not_allowed"),
        DeribitErrorCode::BookClosed => reveal_strlit("book_closed"),
        DeribitErrorCode::PmeMaxTotalOpenOrders => reveal_strlit("pme_max_total_open_orders"),
        DeribitErrorCode::PmeMaxFutureOpenOrders => reveal_strlit("pme_max_future_open_orders"),
        DeribitErrorCode::PmeMaxOptionOpenOrders => reveal_strlit("pme_max_option_open_orders"),
        DeribitErrorCode::PmeMaxFutureOpenOrdersSize => reveal_strlit("pme_max_future_open_orders_size"),
        DeribitErrorCode::PmeMaxOptionOpenOrdersSize => reveal_strlit("pme_max_option_open_orders_size"),
        DeribitErrorCode::NonPmeMaxFuturePositionSize => reveal_strlit("non_pme_max_future_position_size"),
        DeribitErrorCode::LockedByAdmin => reveal_strlit("locked_by_admin"),
        DeribitErrorCode::InvalidOrUnsupportedInstrument => reveal_strlit("invalid_or_unsupported_instrument"),
        DeribitErrorCode::InvalidAmount => reveal_strlit("invalid_amount"),
        DeribitErrorCode::InvalidQuantity => reveal_strlit("invalid_quantity"),
        DeribitErrorCode::InvalidPrice => reveal_strlit("invalid_price"),
        DeribitErrorCode::InvalidMaxShow => reveal_strlit("invalid_max_show"),
        DeribitErrorCode::InvalidOrderId => reveal_strlit("invalid_order_id"),
        DeribitErrorCode::PricePrecisionExceeded => reveal_strlit("price_precision_exceeded"),
        DeribitErrorCode::NonIntegerContractAmount => reveal_strlit("non_integer_contract_amount"),
        DeribitErrorCode::TooManyRequests => reveal_strlit("too_many_requests"),
        DeribitErrorCode::NotOwnerOfOrder => reveal_strlit("not_owner_of_order"),
        DeribitErrorCode::MustBeWebsocketRequest => reveal_strlit("must_be_websocket_request"),
        DeribitErrorCode::InvalidArgsForInstrument => reveal_strlit("invalid_args_for_instrument"),
        DeribitErrorCode::WholeCostTooLow => reveal_strlit("whole_cost_too_low"),
        DeribitErrorCode::NotImplemented => reveal_strlit("not_implemented"),
        DeribitErrorCode::TriggerPriceTooHigh => reveal_strlit("trigger_price_too_high"),
        DeribitErrorCode::TriggerPriceTooLow => reveal_strlit("trigger_price_too_low"),
        DeribitErrorCode::InvalidMaxShowAmount => reveal_strlit("invalid_max_show_amount"),
        DeribitErrorCode::NonPmeTotalShortOptionsPositionsSize => reveal_strlit("non_pme_total_short_options_positions_size"),
        DeribitErrorCode::PmeMaxRiskReducingOrders => reveal_strlit("pme_max_risk_reducing_orders"),
        DeribitErrorCode::NotEnoughFundsInCurrency => reveal_strlit("not_enough_funds_in_currency"),
        DeribitErrorCode::Retry => reveal_strlit("retry"),
        DeribitErrorCode::SettlementInProgress => reveal_strlit("settlement_in_progress"),
        DeribitErrorCode::PriceWrongTick => reveal_strlit("price_wrong_tick"),
        DeribitErrorCode::TriggerPriceWrongTick => reveal_strlit("trigger_price_wrong_tick"),
        DeribitErrorCode::CanNotCancelLiquidationOrder => reveal_strlit("can_not_cancel_liquidation_order"),
        DeribitErrorCode::CanNotEditLiquidationOrder => reveal_strlit("can_not_edit_liquidation_order"),
        DeribitErrorCode::MatchingEngineQueueFull => reveal_strlit("matching_engine_queue_full"),
        DeribitErrorCode::NotOnThisServer => reveal_strlit("not_on_this_server"),
        DeribitErrorCode::CancelOnDisconnectFailed => reveal_strlit("cancel_on_disconnect_failed"),
        DeribitErrorCode::TooManyConcurrentRequests => reveal_strlit("too_many_concurrent_requests"),
        DeribitErrorCode::DisabledWhilePositionLock => reveal_strlit("disabled_while_position_lock"),
        DeribitErrorCode::AlreadyFilled => reveal_strlit("already_filled"),
        DeribitErrorCode::MaxSpotOpenOrders => reveal_strlit("max_spot_open_orders"),
        DeribitErrorCode::PostOnlyPriceModificationNotPossible => reveal_strlit("post_only_price_modification_not_possible"),
        DeribitErrorCode::MaxSpotOrderQuantity => reveal_strlit("max_spot_order_quantity"),
        DeribitErrorCode::InvalidArguments => reveal_strlit("invalid_arguments"),
        DeribitErrorCode::OtherReject => reveal_strlit("other_reject"),
        DeribitErrorCode::OtherError => reveal_strlit("other_error"),
        DeribitErrorCode::NoMoreTriggers => reveal_strlit("no_more_triggers"),
        DeribitErrorCode::InvalidTriggerPrice => reveal_strlit("invalid_trigger_price"),
        DeribitErrorCode::OutdatedInstrumentForIvOrder => reveal_strlit("outdated_instrument_for_iv_order"),
        DeribitErrorCode::NoAdvForFutures => reveal_strlit("no_adv_for_futures"),
        DeribitErrorCode::NoAdvPostonly => reveal_strlit("no_adv_postonly"),
        DeribitErrorCode::NotAdvOrder => reveal_strlit("not_adv_order"),
        DeribitErrorCode::PermissionDenied => reveal_strlit("permission_denied"),
        DeribitErrorCode::BadArgument => reveal_strlit("bad_argument"),
        DeribitErrorCode::NotOpenOrder => reveal_strlit("not_open_order"),
        DeribitErrorCode::InvalidEvent => reveal_strlit("invalid_event"),
        DeribitErrorCode::OutdatedInstrument => reveal_strlit("outdated_instrument"),
        DeribitErrorCode::UnsupportedArgCombination => reveal_strlit("unsupported_arg_combination"),
        DeribitErrorCode::WrongMaxShowForOption => reveal_strlit("wrong_max_show_for_option"),
        DeribitErrorCode::BadArguments => reveal_strlit("bad_arguments"),
        DeribitErrorCode::BadRequest => reveal_strlit("bad_request"),
        DeribitErrorCode::SystemMaintenance => reveal_strlit("system_maintenance"),
        DeribitErrorCode::SubscribeErrorUnsubscribed => reveal_strlit("subscribe_error_unsubscribed"),
        DeribitErrorCode::TransferNotFound => reveal_strlit("transfer_not_found"),
        DeribitErrorCode::PostOnlyReject => reveal_strlit("post_only_reject"),
        DeribitErrorCode::PostOnlyNotAllowed => reveal_strlit("post_only_not_allowed"),
        DeribitErrorCode::UnauthenticatedPublicRequestsTemporarilyDisabled => reveal_strlit("unauthenticated_public_requests_temporarily_disabled"),
        DeribitErrorCode::InvalidAddr => reveal_strlit("invalid_addr"),
        DeribitErrorCode::InvalidTransferAddress => reveal_strlit("invalid_transfer_address"),
        DeribitErrorCode::AddressAlreadyExist => reveal_strlit("address_already_exist"),
        DeribitErrorCode::MaxAddrCountExceeded => reveal_strlit("max_addr_count_exceeded"),
        DeribitErrorCode::InternalServerError => reveal_strlit("internal_server_error"),
        DeribitErrorCode::DisabledDepositAddressCreation => reveal_strlit("disabled_deposit_address_creation"),
        DeribitErrorCode::AddressBelongsToUser => reveal_strlit("address_belongs_to_user"),
        DeribitErrorCode::NoDepositAddress => reveal_strlit("no_deposit_address"),
        DeribitErrorCode::AccountLocked => reveal_strlit("account_locked"),
        DeribitErrorCode::TooManySubaccounts => reveal_strlit("too_many_subaccounts"),
        DeribitErrorCode::WrongSubaccountName => reveal_strlit("wrong_subaccount_name"),
        DeribitErrorCode::LoginOverLimit => reveal_strlit("login_over_limit"),
        DeribitErrorCode::RegistrationOverLimit => reveal_strlit("registration_over_limit"),
        DeribitErrorCode::CountryIsBanned => reveal_strlit("country_is_banned"),
        DeribitErrorCode::TransferNotAllowed => reveal_strlit("transfer_not_allowed"),
        DeribitErrorCode::SecurityKeyAuthorizationOverLimit => reveal_strlit("security_key_authorization_over_limit"),
        DeribitErrorCode::InvalidCredentials => reveal_strlit("invalid_credentials"),
        DeribitErrorCode::PwdMatchError => reveal_strlit("pwd_match_error"),
        DeribitErrorCode::SecurityError => reveal_strlit("security_error"),
        DeribitErrorCode::UserNotFound => reveal_strlit("user_not_found"),
        DeribitErrorCode::RequestFailed => reveal_strlit("request_failed"),
        DeribitErrorCode::Unauthorized => reveal_strlit("unauthorized"),
        DeribitErrorCode::ValueRequired => reveal_strlit("value_required"),
        DeribitErrorCode::ValueTooShort => reveal_strlit("value_too_short"),
        DeribitErrorCode::UnavailableInSubaccount => reveal_strlit("unavailable_in_subaccount"),
        DeribitErrorCode::InvalidPhoneNumber => reveal_strlit("invalid_phone_number"),
        DeribitErrorCode::CannotSendSms => reveal_strlit("cannot_send_sms"),
        DeribitErrorCode::InvalidSmsCode => reveal_strlit("invalid_sms_code"),
        DeribitErrorCode::InvalidInput => reveal_strlit("invalid_input"),
        DeribitErrorCode::InvalidContentType => reveal_strlit("invalid_content_type"),
        DeribitErrorCode::OrderbookClosed => reveal_strlit("orderbook_closed"),
        DeribitErrorCode::NotFound => reveal_strlit("not_found"),
        DeribitErrorCode::Forbidden => reveal_strlit("forbidden"),
        DeribitErrorCode::MethodSwitchedOffByAdmin => reveal_strlit("method_switched_off_by_admin"),
        DeribitErrorCode::TemporarilyUnavailable => reveal_strlit("temporarily_unavailable"),
        DeribitErrorCode::MmpTrigger => reveal_strlit("mmp_trigger"),
        DeribitErrorCode::VerificationRequired => reveal_strlit("verification_required"),
        DeribitErrorCode::NonUniqueOrderLabel => reveal_strlit("non_unique_order_label"),
        DeribitErrorCode::NoMoreSecurityKeysAllowed => reveal_strlit("no_more_security_keys_allowed"),
        DeribitErrorCode::ActiveComboLimitReached => reveal_strlit("active_combo_limit_reached"),
        DeribitErrorCode::UnavailableForComboBooks => reveal_strlit("unavailable_for_combo_books"),
        DeribitErrorCode::IncompleteKycData => reveal_strlit("incomplete_kyc_data"),
        DeribitErrorCode::MmpRequired => reveal_strlit("mmp_required"),
        DeribitErrorCode::CodNotEnabled => reveal_strlit("cod_not_enabled"),
        DeribitErrorCode::QuotesFrozen => reveal_strlit("quotes_frozen"),
        DeribitErrorCode::ScopeExceeded => reveal_strlit("scope_exceeded"),
        DeribitErrorCode::Unavailable => reveal_strlit("unavailable"),
        DeribitErrorCode::RequestCancelledByUser => reveal_strlit("request_cancelled_by_user"),
        DeribitErrorCode::Replaced => reveal_strlit("replaced"),
        DeribitErrorCode::RawSubscriptionsNotAvailableForUnauthorized => reveal_strlit("raw_subscriptions_not_available_for_unauthorized"),
        DeribitErrorCode::MovePositionsOverLimit => reveal_strlit("move_positions_over_limit"),
        DeribitErrorCode::CouponAlreadyUsed => reveal_strlit("coupon_already_used"),
        DeribitErrorCode::KycTransferAlreadyInitiated => reveal_strlit("kyc_transfer_already_initiated"),
        DeribitErrorCode::Unknown(_) => reveal_strlit("unknown_error"),
    }
}

/// Whether every character is a lowercase ASCII letter, a digit or `_`.
pub open spec fn is_snake_case(t: Seq<char>) -> bool {
    forall|i: int|
        0 <= i < t.len() ==> {
            let c = #[trigger] t[i];
            ('a' <= c && c <= 'z') || ('0' <= c && c <= '9') || c == '_'
        }
}

/// Every message, that of `Unknown` included, is a lowercase snake-case
/// identifier.
pub proof fn lemma_message_snake_case(c: DeribitErrorCode)
    ensures
        is_snake_case(c.spec_message()),
{
    match c {
        DeribitErrorCode::Success => reveal_strlit("success"),
        DeribitErrorCode::AuthorizationRequired => reveal_strlit("authorization_required"),
        DeribitErrorCode::Error => reveal_strlit("error"),
        DeribitErrorCode::QtyTooLow => reveal_strlit("qty_too_low"),
        DeribitErrorCode::OrderOverlap => reveal_strlit("order_overlap"),
        DeribitErrorCode::OrderNotFound => reveal_strlit("order_not_found"),
        DeribitErrorCode::PriceTooLow => reveal_strlit("price_too_low"),
        DeribitErrorCode::PriceTooLow4Idx => reveal_strlit("price_too_low4idx"),
        DeribitErrorCode::PriceTooHigh => reveal_strlit("price_too_high"),
        DeribitErrorCode::NotEnoughFunds => reveal_strlit("not_enough_funds"),
        DeribitErrorCode::AlreadyClosed => reveal_strlit("already_closed"),
        DeribitErrorCode::PriceNotAllowed => reveal_strlit("price_not_allowed"),
        DeribitErrorCode::BookClosed => reveal_strlit("book_closed"),
        DeribitErrorCode::PmeMaxTotalOpenOrders => reveal_strlit("pme_max_total_open_orders"),
        DeribitErrorCode::PmeMaxFutureOpenOrders => reveal_strlit("pme_max_future_open_orders"),
        DeribitErrorCode::PmeMaxOptionOpenOrders => reveal_strlit("pme_max_option_open_orders"),
        DeribitErrorCode::PmeMaxFutureOpenOrdersSize => reveal_strlit("pme_max_future_open_orders_size"),
        DeribitErrorCode::PmeMaxOptionOpenOrdersSize => reveal_strlit("pme_max_option_open_orders_size"),
        DeribitErrorCode::NonPmeMaxFuturePositionSize => reveal_strlit("non_pme_max_future_position_size"),
        DeribitErrorCode::LockedByAdmin => reveal_strlit("locked_by_admin"),
        DeribitErrorCode::InvalidOrUnsupportedInstrument => reveal_strlit("invalid_or_unsupported_instrument"),
        DeribitErrorCode::InvalidAmount => reveal_strlit("invalid_amount"),
        DeribitErrorCode::InvalidQuantity => reveal_strlit("invalid_quantity"),
        DeribitErrorCode::InvalidPrice => reveal_strlit("invalid_price"),
        DeribitErrorCode::InvalidMaxShow => reveal_strlit("invalid_max_show"),
        DeribitErrorCode::InvalidOrderId => reveal_strlit("invalid_order_id"),
        DeribitErrorCode::PricePrecisionExceeded => reveal_strlit("price_precision_exceeded"),
        DeribitErrorCode::NonIntegerContractAmount => reveal_strlit("non_integer_contract_amount"),
        DeribitErrorCode::TooManyRequests => reveal_strlit("too_many_requests"),
        DeribitErrorCode::NotOwnerOfOrder => reveal_strlit("not_owner_of_order"),
        DeribitErrorCode::MustBeWebsocketRequest => reveal_strlit("must_be_websocket_request"),
        DeribitErrorCode::InvalidArgsForInstrument => reveal_strlit("invalid_args_for_instrument"),
        DeribitErrorCode::WholeCostTooLow => reveal_strlit("whole_cost_too_low"),
        DeribitErrorCode::NotImplemented => reveal_strlit("not_implemented"),
        DeribitErrorCode::TriggerPriceTooHigh => reveal_strlit("trigger_price_too_high"),
        DeribitErrorCode::TriggerPriceTooLow => reveal_strlit("trigger_price_too_low"),
        DeribitErrorCode::InvalidMaxShowAmount => reveal_strlit("invalid_max_show_amount"),
        DeribitErrorCode::NonPmeTotalShortOptionsPositionsSize => reveal_strlit("non_pme_total_short_options_positions_size"),
        DeribitErrorCode::PmeMaxRiskReducingOrders => reveal_strlit("pme_max_risk_reducing_orders"),
        DeribitErrorCode::NotEnoughFundsInCurrency => reveal_strlit("not_enough_funds_in_currency"),
        DeribitErrorCode::Retry => reveal_strlit("retry"),
        DeribitErrorCode::SettlementInProgress => reveal_strlit("settlement_in_progress"),
        DeribitErrorCode::PriceWrongTick => reveal_strlit("price_wrong_tick"),
        DeribitErrorCode::TriggerPriceWrongTick => reveal_strlit("trigger_price_wrong_tick"),
        DeribitErrorCode::CanNotCancelLiquidationOrder => reveal_strlit("can_not_cancel_liquidation_order"),
        DeribitErrorCode::CanNotEditLiquidationOrder => reveal_strlit("can_not_edit_liquidation_order"),
        DeribitErrorCode::MatchingEngineQueueFull => reveal_strlit("matching_engine_queue_full"),
        DeribitErrorCode::NotOnThisServer => reveal_strlit("not_on_this_server"),
        DeribitErrorCode::CancelOnDisconnectFailed => reveal_strlit("cancel_on_disconnect_failed"),
        DeribitErrorCode::TooManyConcurrentRequests => reveal_strlit("too_many_concurrent_requests"),
        DeribitErrorCode::DisabledWhilePositionLock => reveal_strlit("disabled_while_position_lock"),
        DeribitErrorCode::AlreadyFilled => reveal_strlit("already_filled"),
        DeribitErrorCode::MaxSpotOpenOrders => reveal_strlit("max_spot_open_orders"),
        DeribitErrorCode::PostOnlyPriceModificationNotPossible => reveal_strlit("post_only_price_modification_not_possible"),
        DeribitErrorCode::MaxSpotOrderQuantity => reveal_strlit("max_spot_order_quantity"),
        DeribitErrorCode::InvalidArguments => reveal_strlit("invalid_arguments"),
        DeribitErrorCode::OtherReject => reveal_strlit("other_reject"),
        DeribitErrorCode::OtherError => reveal_strlit("other_error"),
        DeribitErrorCode::NoMoreTriggers => reveal_strlit("no_more_triggers"),
        DeribitErrorCode::InvalidTriggerPrice => reveal_strlit("invalid_trigger_price"),
        DeribitErrorCode::OutdatedInstrumentForIvOrder => reveal_strlit("outdated_instrument_for_iv_order"),
        DeribitErrorCode::NoAdvForFutures => reveal_strlit("no_adv_for_futures"),
        DeribitErrorCode::NoAdvPostonly => reveal_strlit("no_adv_postonly"),
        DeribitErrorCode::NotAdvOrder => reveal_strlit("not_adv_order"),
        DeribitErrorCode::PermissionDenied => reveal_strlit("permission_denied"),
        DeribitErrorCode::BadArgument => reveal_strlit("bad_argument"),
        DeribitErrorCode::NotOpenOrder => reveal_strlit("not_open_order"),
        DeribitErrorCode::InvalidEvent => reveal_strlit("invalid_event"),
        DeribitErrorCode::OutdatedInstrument => reveal_strlit("outdated_instrument"),
        DeribitErrorCode::UnsupportedArgCombination => reveal_strlit("unsupported_arg_combination"),
        DeribitErrorCode::WrongMaxShowForOption => reveal_strlit("wrong_max_show_for_option"),
        DeribitErrorCode::BadArguments => reveal_strlit("bad_arguments"),
        DeribitErrorCode::BadRequest => reveal_strlit("bad_request"),
        DeribitErrorCode::SystemMaintenance => reveal_strlit("system_maintenance"),
        DeribitErrorCode::SubscribeErrorUnsubscribed => reveal_strlit("subscribe_error_unsubscribed"),
        DeribitErrorCode::TransferNotFound => reveal_strlit("transfer_not_found"),
        DeribitErrorCode::PostOnlyReject => reveal_strlit("post_only_reject"),
        DeribitErrorCode::PostOnlyNotAllowed => reveal_strlit("post_only_not_allowed"),
        DeribitErrorCode::UnauthenticatedPublicRequestsTemporarilyDisabled => reveal_strlit("unauthenticated_public_requests_temporarily_disabled"),
        DeribitErrorCode::InvalidAddr => reveal_strlit("invalid_addr"),
        DeribitErrorCode::InvalidTransferAddress => reveal_strlit("invalid_transfer_address"),
        DeribitErrorCode::AddressAlreadyExist => reveal_strlit("address_already_exist"),
        DeribitErrorCode::MaxAddrCountExceeded => reveal_strlit("max_addr_count_exceeded"),
        DeribitErrorCode::InternalServerError => reveal_strlit("internal_server_error"),
        DeribitErrorCode::DisabledDepositAddressCreation => reveal_strlit("disabled_deposit_address_creation"),
        DeribitErrorCode::AddressBelongsToUser => reveal_strlit("address_belongs_to_user"),
        DeribitErrorCode::NoDepositAddress => reveal_strlit("no_deposit_address"),
        DeribitErrorCode::AccountLocked => reveal_strlit("account_locked"),
        DeribitErrorCode::TooManySubaccounts => reveal_strlit("too_many_subaccounts"),
        DeribitErrorCode::WrongSubaccountName => reveal_strlit("wrong_subaccount_name"),
        DeribitErrorCode::LoginOverLimit => reveal_strlit("login_over_limit"),
        DeribitErrorCode::RegistrationOverLimit => reveal_strlit("registration_over_limit"),
        DeribitErrorCode::CountryIsBanned => reveal_strlit("country_is_banned"),
        DeribitErrorCode::TransferNotAllowed => reveal_strlit("transfer_not_allowed"),
        DeribitErrorCode::SecurityKeyAuthorizationOverLimit => reveal_strlit("security_key_authorization_over_limit"),
        DeribitErrorCode::InvalidCredentials => reveal_strlit("invalid_credentials"),
        DeribitErrorCode::PwdMatchError => reveal_strlit("pwd_match_error"),
        DeribitErrorCode::SecurityError => reveal_strlit("security_error"),
        DeribitErrorCode::UserNotFound => reveal_strlit("user_not_found"),
        DeribitErrorCode::RequestFailed => reveal_strlit("request_failed"),
        DeribitErrorCode::Unauthorized => reveal_strlit("unauthorized"),
        DeribitErrorCode::ValueRequired => reveal_strlit("value_required"),
        DeribitErrorCode::ValueTooShort => reveal_strlit("value_too_short"),
        DeribitErrorCode::UnavailableInSubaccount => reveal_strlit("unavailable_in_subaccount"),
        DeribitErrorCode::InvalidPhoneNumber => reveal_strlit("invalid_phone_number"),
        DeribitErrorCode::CannotSendSms => reveal_strlit("cannot_send_sms"),
        DeribitErrorCode::InvalidSmsCode => reveal_strlit("invalid_sms_code"),
        DeribitErrorCode::InvalidInput => reveal_strlit("invalid_input"),
        DeribitErrorCode::InvalidContentType => reveal_strlit("invalid_content_type"),
        DeribitErrorCode::OrderbookClosed => reveal_strlit("orderbook_closed"),
        DeribitErrorCode::NotFound => reveal_strlit("not_found"),
        DeribitErrorCode::Forbidden => reveal_strlit("forbidden"),
        DeribitErrorCode::MethodSwitchedOffByAdmin => reveal_strlit("method_switched_off_by_admin"),
        DeribitErrorCode::TemporarilyUnavailable => reveal_strlit("temporarily_unavailable"),
        DeribitErrorCode::MmpTrigger => reveal_strlit("mmp_trigger"),
        DeribitErrorCode::VerificationRequired => reveal_strlit("verification_required"),
        DeribitErrorCode::NonUniqueOrderLabel => reveal_strlit("non_unique_order_label"),
        DeribitErrorCode::NoMoreSecurityKeysAllowed => reveal_strlit("no_more_security_keys_allowed"),
        DeribitErrorCode::ActiveComboLimitReached => reveal_strlit("active_combo_limit_reached"),
        DeribitErrorCode::UnavailableForComboBooks => reveal_strlit("unavailable_for_combo_books"),
        DeribitErrorCode::IncompleteKycData => reveal_strlit("incomplete_kyc_data"),
        DeribitErrorCode::MmpRequired => reveal_strlit("mmp_required"),
        DeribitErrorCode::CodNotEnabled => reveal_strlit("cod_not_enabled"),
        DeribitErrorCode::QuotesFrozen => reveal_strlit("quotes_frozen"),
        DeribitErrorCode::ScopeExceeded => reveal_strlit("scope_exceeded"),
        DeribitErrorCode::Unavailable => reveal_strlit("unavailable"),
        DeribitErrorCode::RequestCancelledByUser => reveal_strlit("request_cancelled_by_user"),
        DeribitErrorCode::Replaced => reveal_strlit("replaced"),
        DeribitErrorCode::RawSubscriptionsNotAvailableForUnauthorized => reveal_strlit("raw_subscriptions_not_available_for_unauthorized"),
        DeribitErrorCode::MovePositionsOverLimit => reveal_strlit("move_positions_over_limit"),
        DeribitErrorCode::CouponAlreadyUsed => reveal_strlit("coupon_already_used"),
        DeribitErrorCode::KycTransferAlreadyInitiated => reveal_strlit("kyc_transfer_already_initiated"),
        DeribitErrorCode::Unknown(_) => reveal_strlit("unknown_error"),
    }
}

} // verus!
