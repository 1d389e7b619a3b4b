pub mod address;
pub mod error;
pub mod fees;
pub mod mint;
pub mod transaction;
