use crypto_wedding_cli::address::Address;
use crypto_wedding_cli::network::{
    check_airdrop_users, request_airdrop, Airdrop, AIRDROP_SOL, RPC_URL, WS_URL,
};
use crypto_wedding_cli::util::{get_tx_link, Signature, LAMPORTS_PER_SOL};

fn filled(byte: u8) -> Address {
    Address { bytes: [byte; 32] }
}

fn counting() -> Signature {
    let mut bytes = [0u8; 64];
    for (i, byte) in bytes.iter_mut().enumerate() {
        *byte = i as u8;
    }
    Signature { bytes }
}

const COUNTING_IN_BASE58: &str =
    "1GMkH3brNXiNNs1tiFZHu4yZSRrzJwxi5wB9bHFtMinfCXNnR1adh8Vo8NTheK4evneedH4qmvjeqcBBNAefgS";

#[test]
fn link_without_a_cluster() {
    assert_eq!(
        get_tx_link(&counting(), None),
        format!("https://explorer.solana.com/tx/{}", COUNTING_IN_BASE58)
    );
}

#[test]
fn link_with_a_cluster() {
    assert_eq!(
        get_tx_link(&counting(), Some("devnet")),
        format!("https://explorer.solana.com/tx/{}?cluster=devnet", COUNTING_IN_BASE58)
    );
    assert_eq!(
        get_tx_link(&Signature { bytes: [0; 64] }, Some("")),
        format!("https://explorer.solana.com/tx/{}?cluster=", "1".repeat(64))
    );
}

#[test]
fn link_of_the_largest_signature() {
    assert_eq!(
        get_tx_link(&Signature { bytes: [255; 64] }, Some("testnet")),
        "https://explorer.solana.com/tx/67rpwLCuS5DGA8KGZXKsVQ7dnPb9goRLoKfgGbLfQg9WoLUgNY77E2jT11fem3coV9nAkguBACzrU1iyZM4B8roQ?cluster=testnet"
    );
}

#[test]
fn airdrop_amount_is_counted_in_lamports() {
    assert_eq!(LAMPORTS_PER_SOL, 1_000_000_000);
    assert_eq!(
        request_airdrop(&filled(1), 2),
        Some(Airdrop { recipient: filled(1), lamports: 2_000_000_000 })
    );
    assert_eq!(request_airdrop(&filled(1), 0), Some(Airdrop { recipient: filled(1), lamports: 0 }));
    assert_eq!(
        request_airdrop(&filled(3), 18_446_744_073),
        Some(Airdrop { recipient: filled(3), lamports: 18_446_744_073_000_000_000 })
    );
}

#[test]
fn airdrop_amount_that_overflows_is_refused() {
    assert_eq!(request_airdrop(&filled(1), 18_446_744_074), None);
    assert_eq!(request_airdrop(&filled(1), u64::MAX), None);
}

#[test]
fn accounts_below_two_sol_are_topped_up() {
    assert_eq!(AIRDROP_SOL, 2);
    let accounts = vec![
        (filled(1), 0),
        (filled(2), 2_000_000_000),
        (filled(3), 1_999_999_999),
        (filled(4), u64::MAX),
    ];
    assert_eq!(
        check_airdrop_users(&accounts),
        vec![
            Airdrop { recipient: filled(1), lamports: 2_000_000_000 },
            Airdrop { recipient: filled(3), lamports: 2_000_000_000 },
        ]
    );
    assert_eq!(check_airdrop_users(&vec![]), vec![]);
    assert_eq!(check_airdrop_users(&vec![(filled(9), 5_000_000_000)]), vec![]);
}

#[test]
fn the_ledger_is_reached_on_devnet() {
    assert_eq!(RPC_URL, "https://api.devnet.solana.com");
    assert_eq!(WS_URL, "wss://api.devnet.solana.com");
}
