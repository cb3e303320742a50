pub mod raydium_cp_swap_to_gamma;
