pub mod decimal;
pub mod pubkey;
pub mod swap_referral;
