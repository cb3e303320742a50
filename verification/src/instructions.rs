pub mod admin;
pub mod calculate_rewards;
pub mod create_rewards;
pub mod init_user_pool_liquidity;
pub mod oracle_based_swap_base_input;
pub mod partner;
pub mod swap_base_output;
pub mod withdraw;
