use crate::error::GammaError;
use crate::states::partner::PoolPartnerInfos;
use crate::states::user_pool_liquidity::UserPoolLiquidity;
use crate::utils::pubkey::Pubkey;
use vstd::prelude::*;

verus! {

/// Sets up the record of a new holder of liquidity tokens of a pool.
///
/// A partner that is named has to be in the partner table of the pool: else
/// the error is `InvalidPartner` and the record is left as it was.
pub fn init_user_pool_liquidity(
    user_pool_liquidity: &mut UserPoolLiquidity,
    pool_partners: &PoolPartnerInfos,
    user: Pubkey,
    pool_state: Pubkey,
    partner: Option<Pubkey>,
    current_time: u64,
) -> (r: Result<(), GammaError>)
    ensures
        if partner.is_some() && pool_partners.spec_slot(partner.unwrap()).is_none() {
            r == Err::<(), GammaError>(GammaError::InvalidPartner) && *final(user_pool_liquidity) == *old(user_pool_liquidity)
        } else {
            r.is_ok() && *final(user_pool_liquidity) == UserPoolLiquidity::spec_initial(
                user,
                pool_state,
                partner,
                current_time,
            )
        },
{
    if let Some(new_partner) = partner {
        if !pool_partners.has(&new_partner) {
            return Err(GammaError::InvalidPartner);
        }
    }
    user_pool_liquidity.initialize(user, pool_state, partner, current_time);
    Ok(())
}

} // verus!
