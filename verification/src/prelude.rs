//! What most callers need, in one import.

pub use crate::client::Client;
pub use crate::client::Request;
pub use crate::decode::Decode;
pub use crate::endpoints::Call;
pub use crate::error::Error;
pub use crate::error::JsonFailure;
pub use crate::header::Header;
pub use crate::json::Json;
pub use crate::message::Method;
pub use crate::target::Target;
pub use crate::types::decode;
pub use crate::types::AccountCurrency;
pub use crate::types::AccountType;
pub use crate::types::Currency;
pub use crate::types::DateTime;
pub use crate::types::ErrorMessage;
pub use crate::types::Language;
pub use crate::types::Money;
pub use crate::types::Order;
pub use crate::types::Pagination;
pub use crate::types::PaymentMethodType;
pub use crate::types::Rates;
pub use crate::types::ResourceMeta;
pub use crate::types::ResourceRef;
pub use crate::types::ResourceType;
pub use crate::types::Response;
pub use crate::types::SimpleMap;
pub use crate::types::Time;
pub use crate::types::TransactionStatus;
pub use crate::types::TransactionType;
pub use crate::types::TransferStatus;
pub use crate::types::UserAuth;
pub use crate::types::UserCountry;
pub use crate::types::WarningMessage;
