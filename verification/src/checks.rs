use vstd::prelude::*;

use crate::error::ExchangeError;
use crate::key::{is_default_key, PublicKey};
use crate::state::{GlobalConfig, UserPoints};

verus! {

/// The configuration has been written: neither its owner nor its mint is
/// the all-zero address.
pub open spec fn config_ready(config: GlobalConfig) -> bool {
    !is_default_key(config.owner) && !is_default_key(config.atx_mint)
}

/// A user-points account may be used for `user`: it is still fresh (no
/// owner yet) or it already belongs to `user`.
pub open spec fn may_claim(user_points: UserPoints, user: PublicKey) -> bool {
    is_default_key(user_points.owner) || user_points.owner == user
}

/// The user-points account as `user` sees it once claimed: a fresh account
/// starts empty and owned by `user`; an account that already has an owner
/// is left as it is.
pub open spec fn claimed(user_points: UserPoints, user: PublicKey) -> UserPoints {
    if is_default_key(user_points.owner) {
        UserPoints { owner: user, points: 0, exchange_count: 0, last_exchange_time: 0 }
    } else {
        user_points
    }
}

/// Refuses with `NotOwner` unless `owner` is the configured owner.
pub fn require_owner(config: &GlobalConfig, owner: &PublicKey) -> (r: Result<(), ExchangeError>)
    ensures
        r == (if config.owner == *owner {
            Ok::<(), ExchangeError>(())
        } else {
            Err(ExchangeError::NotOwner)
        }),
{
    if config.owner.same_as(owner) {
        Ok(())
    } else {
        Err(ExchangeError::NotOwner)
    }
}

/// Refuses with `ConfigNotInitialized` unless the configuration has an
/// owner and a mint.
pub fn require_config_ready(config: &GlobalConfig) -> (r: Result<(), ExchangeError>)
    ensures
        r == (if config_ready(*config) {
            Ok::<(), ExchangeError>(())
        } else {
            Err(ExchangeError::ConfigNotInitialized)
        }),
        r is Ok <==> !is_default_key(config.owner) && !is_default_key(config.atx_mint),
{
    if config.owner.is_default() {
        return Err(ExchangeError::ConfigNotInitialized);
    }
    if config.atx_mint.is_default() {
        return Err(ExchangeError::ConfigNotInitialized);
    }
    Ok(())
}

/// Claims a fresh user-points account for `owner`, or checks that the
/// account already belongs to `owner` (refusing with `UnauthorizedUser`
/// otherwise, and leaving the account as it was).
pub fn initialize_user_points_if_needed(user_points: &mut UserPoints, owner: PublicKey) -> (r:
    Result<(), ExchangeError>)
    ensures
        may_claim(*old(user_points), owner) ==> {
            &&& r == Ok::<(), ExchangeError>(())
            &&& *final(user_points) == claimed(*old(user_points), owner)
        },
        !may_claim(*old(user_points), owner) ==> {
            &&& r == Err::<(), ExchangeError>(ExchangeError::UnauthorizedUser)
            &&& *final(user_points) == *old(user_points)
        },
        is_default_key(old(user_points).owner) ==> {
            &&& r is Ok
            &&& *final(user_points) == UserPoints {
                owner,
                points: 0,
                exchange_count: 0,
                last_exchange_time: 0,
            }
        },
        !is_default_key(old(user_points).owner) && old(user_points).owner == owner ==> {
            &&& r is Ok
            &&& *final(user_points) == *old(user_points)
        },
        !is_default_key(old(user_points).owner) && old(user_points).owner != owner ==> {
            &&& r == Err::<(), ExchangeError>(ExchangeError::UnauthorizedUser)
            &&& *final(user_points) == *old(user_points)
        },
{
    if user_points.owner.is_default() {
        user_points.owner = owner;
        user_points.points = 0;
        user_points.exchange_count = 0;
        user_points.last_exchange_time = 0;
        return Ok(());
    }
    if !user_points.owner.same_as(&owner) {
        return Err(ExchangeError::UnauthorizedUser);
    }
    Ok(())
}

} // verus!
