pub mod curve;
pub mod error;
pub mod fees;
pub mod instructions;
pub mod migration;
pub mod quote;
pub mod states;
pub mod utils;
