//! Creating the protocol's configuration.

use vstd::prelude::*;
use crate::address::Address;
use crate::error::ApolloError;
use crate::records::Config;

verus! {

/// What `initialize` works on.
#[derive(Clone, Copy, Debug, PartialEq, Eq)]
pub struct Initialize {
    /// The place of the configuration record: `None` until it is created.
    pub config: Option<Config>,
    /// The caller, who becomes the protocol authority.
    pub authority: Address,
}

impl Initialize {
    /// Why initialization is refused: only that a configuration exists already.
    pub open spec fn refusal(self) -> Option<ApolloError> {
        if self.config is Some {
            Some(ApolloError::AlreadyInitialized)
        } else {
            None
        }
    }

    /// The configuration that initialization creates: the caller as authority, the two
    /// denominations and the threshold as given, and no policy counted yet.
    pub open spec fn created(self, usdc_mint: Address, aph_mint: Address, fast_claim_threshold: u64)
        -> Config {
        Config {
            authority: self.authority,
            usdc_mint,
            aph_mint,
            fast_claim_threshold,
            next_policy_id: 0,
        }
    }
}

/// Creates the protocol configuration, once. Any threshold is accepted.
///
/// Refused with `AlreadyInitialized` exactly when a configuration exists; then nothing
/// changes.
pub fn initialize(
    ctx: &mut Initialize,
    usdc_mint: Address,
    aph_mint: Address,
    fast_claim_threshold: u64,
) -> (res: Result<(), ApolloError>)
    ensures
        final(ctx).authority == old(ctx).authority,
        match old(ctx).refusal() {
            Some(e) => res == Err::<(), ApolloError>(e) && final(ctx).config == old(ctx).config,
            None => res is Ok && final(ctx).config == Some(
                old(ctx).created(usdc_mint, aph_mint, fast_claim_threshold),
            ),
        },
{
    if ctx.config.is_some() {
        return Err(ApolloError::AlreadyInitialized);
    }
    ctx.config = Some(
        Config {
            authority: ctx.authority,
            usdc_mint,
            aph_mint,
            fast_claim_threshold,
            next_policy_id: 0,
        },
    );
    Ok(())
}

} // verus!
