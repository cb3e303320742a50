pub mod config;
pub mod global_reward_info;
pub mod oracle;
pub mod partner;
pub mod pool;
pub mod reward_info;
pub mod user_pool_liquidity;
pub mod user_reward_info;
