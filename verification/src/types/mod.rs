//! The values that requests and responses are made of.

pub mod datetime;
pub mod language;
pub mod money;
pub mod order;
pub mod pagination;
pub mod public;
pub mod resource;
pub mod response;
pub mod wallet;

pub use self::datetime::DateTime;
pub use self::language::Language;
pub use self::money::Money;
pub use self::order::Order;
pub use self::pagination::Pagination;
pub use self::public::Currency;
pub use self::public::Rates;
pub use self::public::SimpleMap;
pub use self::public::Time;
pub use self::resource::ResourceMeta;
pub use self::resource::ResourceRef;
pub use self::resource::ResourceType;
pub use self::response::decode;
pub use self::response::decode_parcel;
pub use self::response::ErrorMessage;
pub use self::response::Response;
pub use self::response::WarningMessage;
pub use self::wallet::AccountCurrency;
pub use self::wallet::AccountType;
pub use self::wallet::PaymentMethodType;
pub use self::wallet::TransactionStatus;
pub use self::wallet::TransactionType;
pub use self::wallet::TransferStatus;
pub use self::wallet::UserAuth;
pub use self::wallet::UserCountry;
