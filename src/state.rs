use vstd::prelude::*;

verus! {

/// A 32-byte account address or mint identifier.
pub type Key = [u8; 32];

/// Whether two keys hold the same bytes.
pub fn keys_equal(a: &Key, b: &Key) -> (r: bool)
    ensures
        r == (a@ == b@),
{
    let mut i: usize = 0;
    while i < 32
        invariant
            0 <= i <= 32,
            a@.len() == 32,
            b@.len() == 32,
            forall|j: int| 0 <= j < i ==> a@[j] == b@[j],
        decreases 32 - i,
    {
        if a[i] != b[i] {
            return false;
        }
        i = i + 1;
    }
    assert(a@ =~= b@);
    true
}

/// Marker for the confidential token program that holds the custody accounts.
#[derive(Clone, Copy, Debug)]
pub struct ConfidentialTokenProgram;

impl ConfidentialTokenProgram {
    /// The program's address (all zero until a deployment is fixed).
    pub fn id() -> (r: Key)
        ensures
            forall|i: int| 0 <= i < 32 ==> r@[i] == 0u8,
    {
        [0u8; 32]
    }
}

/// One pool per (authority, asset mint).
#[derive(Clone, Copy, Debug)]
pub struct LiquidityPool {
    pub authority: Key,
    pub token_mint: Key,
    /// Sum of the live stakes in this pool, in plaintext.
    pub total_staked: u64,
    /// Seed of the pool's derived signing address.
    pub bump: u8,
}

impl LiquidityPool {
    /// Stored size: authority, mint, total and bump.
    pub const LEN: usize = 32 + 32 + 8 + 1;
}

/// A user's position in one pool: an opaque balance commitment, the time of
/// the last stake and the asset it tracks.
#[derive(Clone, Debug)]
pub struct UserStake {
    pub confidential_balance: [u8; 64],
    pub encrypted_data: Vec<u8>,
    pub stake_timestamp: i64,
    pub asset_mint: Key,
}

impl UserStake {
    /// Stored size, with room for 64 bytes of metadata.
    pub const LEN: usize = 64 + 4 + 64 + 8 + 32;

    /// A position that has never been staked: all-zero commitment.
    pub fn new() -> (r: UserStake)
        ensures
            forall|i: int| 0 <= i < 64 ==> r.confidential_balance@[i] == 0u8,
            r.encrypted_data@.len() == 0,
            r.stake_timestamp == 0,
            forall|i: int| 0 <= i < 32 ==> r.asset_mint@[i] == 0u8,
    {
        UserStake {
            confidential_balance: [0u8; 64],
            encrypted_data: Vec::new(),
            stake_timestamp: 0,
            asset_mint: [0u8; 32],
        }
    }
}

/// Reward parameter and vote tally.
#[derive(Clone, Copy, Debug)]
pub struct Governance {
    pub authority: Key,
    pub reward_rate: u64,
    pub vote_count: u64,
}

/// A custody account of the confidential token program.
#[derive(Clone, Copy, Debug)]
pub struct ConfidentialTokenAccount {
    pub balance_commitment: [u8; 64],
}

/// A trade order of the commit–reveal protocol.
#[derive(Clone, Debug)]
pub struct TradeOrder {
    /// Hash binding the order's contents and a secret nonce.
    pub commitment: [u8; 32],
    pub encrypted_order: [u8; 64],
    pub trade_timestamp: i64,
    /// Empty until the order is revealed.
    pub revealed_order: Vec<u8>,
}

impl TradeOrder {
    /// Stored size, with room for 128 bytes of revealed order.
    pub const LEN: usize = 32 + 64 + 8 + 4 + 128;
}

} // verus!
