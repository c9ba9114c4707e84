use crate::types::{ChainType, Error};
use vstd::prelude::*;

verus! {

/// Height of the third hard fork on the production network.
pub const MAINNET_THIRD_HARD_FORK: u64 = 786_240;

/// Height of the third hard fork on the public test network.
pub const TESTNET_THIRD_HARD_FORK: u64 = 552_960;

/// Height of the third hard fork on local test chains.
pub const TESTING_THIRD_HARD_FORK: u64 = 9;

pub open spec fn third_hard_fork_height_spec(chain: ChainType) -> u64 {
    match chain {
        ChainType::Mainnet => MAINNET_THIRD_HARD_FORK,
        ChainType::Testnet => TESTNET_THIRD_HARD_FORK,
        _ => TESTING_THIRD_HARD_FORK,
    }
}

/// Height at which the third hard fork activates on `chain`.
pub fn third_hard_fork_height(chain: ChainType) -> (r: u64)
    ensures
        r == third_hard_fork_height_spec(chain),
{
    match chain {
        ChainType::Mainnet => MAINNET_THIRD_HARD_FORK,
        ChainType::Testnet => TESTNET_THIRD_HARD_FORK,
        _ => TESTING_THIRD_HARD_FORK,
    }
}

/// Lowest peer protocol version accepted on `chain` at chain height `height`:
/// 3 on the public test network, 2 elsewhere, and 3 everywhere once the
/// third hard fork is reached.
pub open spec fn min_compatible_version_spec(chain: ChainType, height: u64) -> u32 {
    if chain == ChainType::Testnet || height >= third_hard_fork_height_spec(chain) {
        3
    } else {
        2
    }
}

pub fn min_compatible_version(chain: ChainType, height: u64) -> (r: u32)
    ensures
        r == min_compatible_version_spec(chain, height),
{
    if chain == ChainType::Testnet || height >= third_hard_fork_height(chain) {
        3
    } else {
        2
    }
}

/// The version gate: `Ok` exactly when `version` reaches the minimum.
pub fn check_version(chain: ChainType, height: u64, version: u32) -> (r: Result<(), Error>)
    ensures
        r == (if version >= min_compatible_version_spec(chain, height) {
            Ok::<(), Error>(())
        } else {
            Err(Error::LowProtocolVersion)
        }),
{
    let minimum: u32 = if chain == ChainType::Testnet { 3 } else { 2 };
    if version < minimum {
        return Err(Error::LowProtocolVersion);
    }
    if height >= third_hard_fork_height(chain) {
        if version < 3 {
            return Err(Error::LowProtocolVersion);
        }
    }
    Ok(())
}

} // verus!
