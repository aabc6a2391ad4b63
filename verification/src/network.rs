//! Where the ledger is reached, and when an account is topped up from the
//! faucet.

use crate::address::Address;
use crate::util::LAMPORTS_PER_SOL;
use vstd::prelude::*;

verus! {

/// The endpoint that takes requests.
pub const RPC_URL: &'static str = "https://api.devnet.solana.com";

/// The endpoint that streams notifications.
pub const WS_URL: &'static str = "wss://api.devnet.solana.com";

/// The balance in SOL below which an account is topped up, which is also the
/// amount it is topped up by.
pub const AIRDROP_SOL: u64 = 2;

/// A request to the faucet.
#[derive(Clone, Copy, Debug, PartialEq, Eq)]
pub struct Airdrop {
    pub recipient: Address,
    pub lamports: u64,
}

/// A request to the faucet as plain values.
pub struct AirdropView {
    pub recipient: Seq<u8>,
    pub lamports: u64,
}

impl View for Airdrop {
    type V = AirdropView;

    open spec fn view(&self) -> AirdropView {
        AirdropView { recipient: self.recipient@, lamports: self.lamports }
    }
}

/// Whether a balance in lamports is low enough for a top-up.
pub open spec fn is_low(balance: u64) -> bool {
    balance < AIRDROP_SOL * LAMPORTS_PER_SOL
}

/// The top-up of an account.
pub open spec fn top_up(recipient: Seq<u8>) -> AirdropView {
    AirdropView { recipient, lamports: (AIRDROP_SOL * LAMPORTS_PER_SOL) as u64 }
}

/// The top-ups that a list of accounts with their balances calls for: one
/// for each account with a low balance, in the order of the list.
pub open spec fn airdrops_due(accounts: Seq<(Seq<u8>, u64)>) -> Seq<AirdropView>
    decreases accounts.len(),
{
    if accounts.len() == 0 {
        seq![]
    } else {
        let before = airdrops_due(accounts.drop_last());
        let (recipient, balance) = accounts.last();
        if is_low(balance) {
            before.push(top_up(recipient))
        } else {
            before
        }
    }
}

/// The request to the faucet for `amount_sol` SOL, or nothing where that many
/// lamports cannot be counted in 64 bits.
pub fn request_airdrop(pub_key: &Address, amount_sol: u64) -> (r: Option<Airdrop>)
    ensures
        r is Some <==> amount_sol * LAMPORTS_PER_SOL <= u64::MAX,
        r matches Some(airdrop) ==> airdrop.recipient@ == pub_key@ && airdrop.lamports
            == amount_sol * LAMPORTS_PER_SOL,
{
    match amount_sol.checked_mul(LAMPORTS_PER_SOL) {
        Some(lamports) => Some(Airdrop { recipient: *pub_key, lamports }),
        None => None,
    }
}

/// The top-ups to request for a list of accounts, each given with its
/// balance in lamports.
pub fn check_airdrop_users(accounts: &Vec<(Address, u64)>) -> (due: Vec<Airdrop>)
    ensures
        due@.map_values(|a: Airdrop| a@) == airdrops_due(
            accounts@.map_values(|entry: (Address, u64)| (entry.0@, entry.1)),
        ),
{
    let ghost entries = accounts@.map_values(|entry: (Address, u64)| (entry.0@, entry.1));
    let mut due: Vec<Airdrop> = Vec::new();
    let mut i: usize = 0;
    assert(entries.subrange(0, 0) =~= Seq::empty());
    while i < accounts.len()
        invariant
            i <= accounts.len(),
            entries == accounts@.map_values(|entry: (Address, u64)| (entry.0@, entry.1)),
            due@.map_values(|a: Airdrop| a@) == airdrops_due(entries.subrange(0, i as int)),
        decreases accounts.len() - i,
    {
        let (recipient, balance) = accounts[i];
        proof {
            let upto = entries.subrange(0, i + 1);
            assert(upto.drop_last() =~= entries.subrange(0, i as int));
            assert(upto.last() == (recipient@, balance));
        }
        if balance < AIRDROP_SOL * LAMPORTS_PER_SOL {
            let ghost before = due@.map_values(|a: Airdrop| a@);
            let airdrop = Airdrop { recipient, lamports: AIRDROP_SOL * LAMPORTS_PER_SOL };
            due.push(airdrop);
            assert(due@.map_values(|a: Airdrop| a@) =~= before.push(airdrop@));
        }
        i += 1;
    }
    assert(entries.subrange(0, i as int) =~= entries);
    due
}

} // verus!
