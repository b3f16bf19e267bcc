//! Building GraphQL requests for a storefront cart, deciding what the
//! responses mean, and the small bookkeeping around stored magazine issues.
pub mod value;
pub mod selection;
pub mod query;
pub mod cart;
pub mod responses;
pub mod storage;
pub mod records;
pub mod json;
