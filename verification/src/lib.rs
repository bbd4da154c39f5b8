//! Verified core of a trading client for a game platform: session login with
//! one-time codes and public-key password encryption, inventory indexing and
//! asset resolution, and construction and classification of trade-offer
//! submissions. Network transport lives outside this crate; the logic here is
//! specified and proved.
pub mod account;
pub mod error;
pub mod inventory;
pub mod json;
pub mod session;
pub mod text;
pub mod trade;
pub mod url;
