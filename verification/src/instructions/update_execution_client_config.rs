use crate::error::AiNftError;
use crate::events::ExecutionClientConfigUpdated;
use crate::pubkey::Pubkey;
use crate::state::{ExecutionClient, MAX_GAS};
use crate::token::Account;
use vstd::prelude::*;

verus! {

/// The records that a change of a client's settings touches.
#[derive(Clone, Debug, PartialEq, Eq)]
pub struct UpdateExecutionClientConfig {
    /// The client to change.
    pub execution_client: Account<ExecutionClient>,
    /// The wallet that signed; it must own the client.
    pub authority: Pubkey,
}

/// Replaces a client's gas price.
///
/// Only the client's owner may do so (`InvalidAuthority` otherwise), and a
/// price above the cap is refused with `InvalidGasAmount`. No other field
/// changes; a refusal changes nothing.
pub fn update_execution_client_config_handler(
    ctx: &mut UpdateExecutionClientConfig,
    new_gas: u64,
) -> (result: Result<ExecutionClientConfigUpdated, AiNftError>)
    ensures
        old(ctx).execution_client.data.authority != old(ctx).authority ==> result == Err::<
            ExecutionClientConfigUpdated,
            AiNftError,
        >(AiNftError::InvalidAuthority),
        old(ctx).execution_client.data.authority == old(ctx).authority && new_gas > MAX_GAS
            ==> result == Err::<ExecutionClientConfigUpdated, AiNftError>(
            AiNftError::InvalidGasAmount,
        ),
        old(ctx).execution_client.data.authority == old(ctx).authority && new_gas <= MAX_GAS
            ==> result == Ok::<ExecutionClientConfigUpdated, AiNftError>(
            ExecutionClientConfigUpdated { client: old(ctx).execution_client.key, new_gas },
        ),
        result is Err ==> *final(ctx) == *old(ctx),
        result is Ok ==> *final(ctx) == (UpdateExecutionClientConfig {
            execution_client: Account {
                key: old(ctx).execution_client.key,
                data: ExecutionClient { gas: new_gas, ..old(ctx).execution_client.data },
            },
            ..*old(ctx)
        }),
{
    if ctx.execution_client.data.authority != ctx.authority {
        return Err(AiNftError::InvalidAuthority);
    }
    match ctx.execution_client.data.update_gas(new_gas) {
        Ok(()) => {},
        Err(e) => {
            return Err(e);
        },
    }
    Ok(ExecutionClientConfigUpdated { client: ctx.execution_client.key, new_gas })
}

/// Switches a client on or off.
///
/// Only the client's owner may do so (`InvalidAuthority` otherwise, with
/// nothing changed). A client that is switched off stays on record.
pub fn set_execution_client_active_handler(
    ctx: &mut UpdateExecutionClientConfig,
    active: bool,
) -> (result: Result<(), AiNftError>)
    ensures
        old(ctx).execution_client.data.authority != old(ctx).authority ==> result == Err::<
            (),
            AiNftError,
        >(AiNftError::InvalidAuthority) && *final(ctx) == *old(ctx),
        old(ctx).execution_client.data.authority == old(ctx).authority ==> result is Ok
            && *final(ctx) == (UpdateExecutionClientConfig {
            execution_client: Account {
                key: old(ctx).execution_client.key,
                data: ExecutionClient { active, ..old(ctx).execution_client.data },
            },
            ..*old(ctx)
        }),
{
    if ctx.execution_client.data.authority != ctx.authority {
        return Err(AiNftError::InvalidAuthority);
    }
    ctx.execution_client.data.active = active;
    Ok(())
}

} // verus!
