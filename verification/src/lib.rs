//! Verified core of the account-monitoring server: request signing for the
//! Binance REST API, retry decisions, SQL query selection, and the shaping of
//! exchange data into report rows.

pub mod answers;
pub mod binance;
pub mod clock;
pub mod entries;
pub mod models;
pub mod order;
pub mod params;
pub mod queries;
pub mod retry;
pub mod rows;
pub mod session;
pub mod signing;
pub mod text;
pub mod traders;
pub mod venue;
