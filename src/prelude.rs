//! The items most clients use, in one place.

pub use crate::constants::{
    get_amount_precision, get_price_precision, is_supported_currency, CURRENCY_BTC, CURRENCY_ETH,
    CURRENCY_EURR, CURRENCY_SOL, CURRENCY_USDC, CURRENCY_USDT, DERIBIT_HTTP_URL_PROD,
    DERIBIT_HTTP_URL_TEST, DERIBIT_WS_URL_PROD, DERIBIT_WS_URL_TEST, JSONRPC_VERSION,
};
pub use crate::error::codes::DeribitErrorCode;
pub use crate::error::types::{DeribitError, DeribitResult};
pub use crate::model::config::{DeribitConfig, DeribitUrls, HttpConfig, WebSocketConfig};
pub use crate::model::instrument::{InstrumentKind, InstrumentType, OptionType};
pub use crate::model::order::{OrderSide, OrderStatus, OrderType, TimeInForce};
pub use crate::model::order_management::{QuoteResult, TransferResult};
pub use crate::model::position::Direction;
pub use crate::model::request::{
    AdvancedOrderType, AuthRequest, CancelAllOrdersRequest, CancelOrderRequest, TriggerType,
};
pub use crate::model::response::{
    AuthResponse, CurrencyExpirations, ExpirationsResponse, HeartbeatResponse, HelloResponse,
    JsonRpcError, JsonRpcResponse, MassQuoteResponse, Notification, PaginatedResponse, Pagination,
    ServerTimeResponse, SettlementsResponse, StatusResponse, SubscriptionResponse, TestResponse,
};
pub use crate::model::settlement::Settlement;
pub use crate::model::trade::Liquidity;
pub use crate::model::transaction::TransactionType;
pub use crate::model::transfer::{AddressBookEntry, AddressType, TransferState};
pub use crate::utils::tools::{generate_nonce, generate_request_id};
