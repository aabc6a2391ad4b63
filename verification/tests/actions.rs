use crypto_wedding_cli::actions::{
    cancel_wedding, close_partner, divorce, give_answer, setup_partner, setup_wedding,
    update_name, update_partner, update_vows, AccountMeta, Instruction, RequestError,
    CANCEL_WEDDING_TAG, CLOSE_PARTNER_TAG, DIVORCE_TAG, GIVE_ANSWER_TAG, SETUP_PARTNER_TAG,
    SETUP_WEDDING_TAG, UPDATE_NAME_TAG, UPDATE_PARTNER_TAG, UPDATE_VOWS_TAG,
};
use crypto_wedding_cli::address::Address;
use crypto_wedding_cli::layout::DecodeError;
use crypto_wedding_cli::state::{encode_wedding, AccountReply, ReadError, Status, Wedding};
use solana_sdk::hash::hash;

fn filled(byte: u8) -> Address {
    Address { bytes: [byte; 32] }
}

fn program() -> Address {
    filled(7)
}

fn partner_of_ones() -> Address {
    Address {
        bytes: [
            200, 67, 216, 183, 153, 230, 191, 208, 32, 25, 96, 179, 11, 77, 127, 97, 8, 196, 141,
            227, 130, 67, 180, 106, 39, 227, 83, 145, 24, 118, 135, 101,
        ],
    }
}

fn partner_of_twos() -> Address {
    Address {
        bytes: [
            127, 94, 61, 200, 132, 217, 153, 181, 77, 121, 124, 87, 84, 156, 232, 88, 239, 71, 20,
            16, 103, 54, 155, 49, 7, 155, 68, 52, 254, 136, 148, 184,
        ],
    }
}

fn wedding_of_ones_and_twos() -> Address {
    Address {
        bytes: [
            90, 114, 111, 156, 11, 117, 163, 139, 181, 249, 1, 6, 95, 104, 218, 237, 155, 136, 137,
            6, 189, 181, 83, 132, 118, 187, 37, 157, 226, 44, 54, 184,
        ],
    }
}

fn payer(address: Address) -> AccountMeta {
    AccountMeta { address, is_signer: true, is_writable: true }
}

fn writable(address: Address) -> AccountMeta {
    AccountMeta { address, is_signer: false, is_writable: true }
}

fn readonly(address: Address) -> AccountMeta {
    AccountMeta { address, is_signer: false, is_writable: false }
}

fn system_program() -> Address {
    filled(0)
}

fn wedding_reply(creator: Address) -> AccountReply {
    AccountReply::Data(encode_wedding(&Wedding {
        creator,
        partner0: filled(1),
        partner1: filled(2),
        status: Status::Proposed,
    }))
}

fn text(s: &str) -> Vec<u8> {
    let mut bytes = (s.len() as u32).to_le_bytes().to_vec();
    bytes.extend_from_slice(s.as_bytes());
    bytes
}

fn tagged(tag: [u8; 8], arguments: &[Vec<u8>]) -> Vec<u8> {
    let mut bytes = tag.to_vec();
    for argument in arguments {
        bytes.extend_from_slice(argument);
    }
    bytes
}

fn own_record_accounts() -> Vec<AccountMeta> {
    vec![
        payer(filled(1)),
        readonly(filled(2)),
        writable(partner_of_ones()),
        readonly(wedding_of_ones_and_twos()),
        readonly(system_program()),
    ]
}

#[test]
fn instruction_tags_are_the_leading_bytes_of_the_name_hash() {
    let table: [([u8; 8], &str); 9] = [
        (SETUP_WEDDING_TAG, "global:setup_wedding"),
        (CANCEL_WEDDING_TAG, "global:cancel_wedding"),
        (SETUP_PARTNER_TAG, "global:setup_partner"),
        (CLOSE_PARTNER_TAG, "global:close_partner"),
        (UPDATE_PARTNER_TAG, "global:update_partner"),
        (UPDATE_NAME_TAG, "global:update_name"),
        (UPDATE_VOWS_TAG, "global:update_vows"),
        (GIVE_ANSWER_TAG, "global:give_answer"),
        (DIVORCE_TAG, "global:divorce"),
    ];
    for (tag, name) in table {
        assert_eq!(tag[..], hash(name.as_bytes()).to_bytes()[..8]);
    }
}

#[test]
fn setup_wedding_lists_creator_partners_and_records() {
    let built = setup_wedding(&program(), &filled(3), &filled(1), &filled(2));
    assert_eq!(
        built,
        Ok(Instruction {
            program_id: program(),
            accounts: vec![
                payer(filled(3)),
                readonly(filled(1)),
                readonly(filled(2)),
                writable(wedding_of_ones_and_twos()),
                readonly(partner_of_ones()),
                readonly(partner_of_twos()),
                readonly(system_program()),
            ],
            data: vec![69, 81, 149, 84, 105, 127, 208, 120],
        })
    );
}

#[test]
fn setup_wedding_keeps_the_partners_as_named() {
    let built = setup_wedding(&program(), &filled(3), &filled(2), &filled(1)).unwrap();
    assert_eq!(built.accounts[1], readonly(filled(2)));
    assert_eq!(built.accounts[2], readonly(filled(1)));
    assert_eq!(built.accounts[3], writable(wedding_of_ones_and_twos()));
    assert_eq!(built.accounts[4], readonly(partner_of_twos()));
    assert_eq!(built.accounts[5], readonly(partner_of_ones()));
}

#[test]
fn cancel_wedding_names_the_creator_read_from_the_record() {
    let built = cancel_wedding(
        &program(),
        &filled(2),
        &filled(1),
        &filled(2),
        &wedding_reply(filled(5)),
    );
    assert_eq!(
        built,
        Ok(Instruction {
            program_id: program(),
            accounts: vec![
                payer(filled(2)),
                writable(filled(5)),
                readonly(filled(1)),
                readonly(filled(2)),
                writable(wedding_of_ones_and_twos()),
            ],
            data: CANCEL_WEDDING_TAG.to_vec(),
        })
    );
}

#[test]
fn cancel_wedding_fails_where_the_record_cannot_be_read() {
    let cancel = |reply: &AccountReply| {
        cancel_wedding(&program(), &filled(2), &filled(1), &filled(2), reply)
    };
    assert_eq!(cancel(&AccountReply::Missing), Err(RequestError::Read(ReadError::NotFound)));
    assert_eq!(cancel(&AccountReply::Unreachable), Err(RequestError::Read(ReadError::Network)));
    assert_eq!(
        cancel(&AccountReply::Data(vec![0; 200])),
        Err(RequestError::Read(ReadError::Decode(DecodeError::WrongRecordType)))
    );
}

#[test]
fn setup_partner_carries_name_and_vows() {
    let built = setup_partner(&program(), &filled(1), &filled(2), "Ada", "I do");
    assert_eq!(
        built,
        Ok(Instruction {
            program_id: program(),
            accounts: own_record_accounts(),
            data: vec![
                95, 140, 27, 237, 73, 54, 166, 89, 3, 0, 0, 0, 65, 100, 97, 4, 0, 0, 0, 73, 32,
                100, 111,
            ],
        })
    );
}

#[test]
fn close_partner_needs_no_system_program() {
    let built = close_partner(&program(), &filled(1), &filled(2));
    assert_eq!(
        built,
        Ok(Instruction {
            program_id: program(),
            accounts: vec![
                payer(filled(1)),
                readonly(filled(2)),
                writable(partner_of_ones()),
                readonly(wedding_of_ones_and_twos()),
            ],
            data: CLOSE_PARTNER_TAG.to_vec(),
        })
    );
}

#[test]
fn update_partner_carries_name_and_vows() {
    let built = update_partner(&program(), &filled(1), &filled(2), "Zo\u{eb}", "");
    assert_eq!(
        built,
        Ok(Instruction {
            program_id: program(),
            accounts: own_record_accounts(),
            data: tagged(UPDATE_PARTNER_TAG, &[vec![4, 0, 0, 0, 90, 111, 0xc3, 0xab], text("")]),
        })
    );
}

#[test]
fn update_name_carries_the_name_alone() {
    let built = update_name(&program(), &filled(1), &filled(2), "Ada Lovelace");
    assert_eq!(
        built,
        Ok(Instruction {
            program_id: program(),
            accounts: own_record_accounts(),
            data: tagged(UPDATE_NAME_TAG, &[text("Ada Lovelace")]),
        })
    );
}

#[test]
fn update_vows_carries_the_vows_alone() {
    let built = update_vows(&program(), &filled(1), &filled(2), "for better, for worse");
    assert_eq!(
        built,
        Ok(Instruction {
            program_id: program(),
            accounts: own_record_accounts(),
            data: tagged(UPDATE_VOWS_TAG, &[text("for better, for worse")]),
        })
    );
    let name = update_name(&program(), &filled(1), &filled(2), "x").unwrap();
    let vows = update_vows(&program(), &filled(1), &filled(2), "x").unwrap();
    assert_ne!(name.data, vows.data);
}

#[test]
fn give_answer_carries_one_byte() {
    let yes = give_answer(&program(), &filled(1), &filled(2), true);
    assert_eq!(
        yes,
        Ok(Instruction {
            program_id: program(),
            accounts: vec![
                payer(filled(1)),
                readonly(filled(2)),
                writable(partner_of_ones()),
                readonly(partner_of_twos()),
                writable(wedding_of_ones_and_twos()),
                readonly(system_program()),
            ],
            data: tagged(GIVE_ANSWER_TAG, &[vec![1]]),
        })
    );
    let no = give_answer(&program(), &filled(1), &filled(2), false).unwrap();
    assert_eq!(no.data, tagged(GIVE_ANSWER_TAG, &[vec![0]]));
}

#[test]
fn give_answer_of_the_other_party_swaps_the_records() {
    let built = give_answer(&program(), &filled(2), &filled(1), true).unwrap();
    assert_eq!(built.accounts[0], payer(filled(2)));
    assert_eq!(built.accounts[2], writable(partner_of_twos()));
    assert_eq!(built.accounts[3], readonly(partner_of_ones()));
    assert_eq!(built.accounts[4], writable(wedding_of_ones_and_twos()));
}

#[test]
fn divorce_names_the_creator_first() {
    let built = divorce(&program(), &filled(1), &filled(2), &wedding_reply(filled(5)));
    assert_eq!(
        built,
        Ok(Instruction {
            program_id: program(),
            accounts: vec![
                writable(filled(5)),
                payer(filled(1)),
                readonly(filled(2)),
                writable(partner_of_ones()),
                writable(partner_of_twos()),
                writable(wedding_of_ones_and_twos()),
                readonly(system_program()),
            ],
            data: DIVORCE_TAG.to_vec(),
        })
    );
}

#[test]
fn divorce_fails_where_the_record_cannot_be_read() {
    let split = |reply: &AccountReply| divorce(&program(), &filled(1), &filled(2), reply);
    assert_eq!(split(&AccountReply::Missing), Err(RequestError::Read(ReadError::NotFound)));
    assert_eq!(split(&AccountReply::Unreachable), Err(RequestError::Read(ReadError::Network)));
    assert_eq!(
        split(&AccountReply::Data(vec![12, 206, 161, 97, 38, 49, 114, 232, 0])),
        Err(RequestError::Read(ReadError::Decode(DecodeError::Truncated)))
    );
}

#[test]
fn every_instruction_has_exactly_one_signer() {
    let reply = wedding_reply(filled(5));
    let built = vec![
        setup_wedding(&program(), &filled(3), &filled(1), &filled(2)).unwrap(),
        cancel_wedding(&program(), &filled(1), &filled(1), &filled(2), &reply).unwrap(),
        setup_partner(&program(), &filled(1), &filled(2), "a", "b").unwrap(),
        close_partner(&program(), &filled(1), &filled(2)).unwrap(),
        update_partner(&program(), &filled(1), &filled(2), "a", "b").unwrap(),
        update_name(&program(), &filled(1), &filled(2), "a").unwrap(),
        update_vows(&program(), &filled(1), &filled(2), "b").unwrap(),
        give_answer(&program(), &filled(1), &filled(2), true).unwrap(),
        divorce(&program(), &filled(1), &filled(2), &reply).unwrap(),
    ];
    for instruction in built {
        assert_eq!(instruction.program_id, program());
        assert_eq!(instruction.accounts.iter().filter(|meta| meta.is_signer).count(), 1);
        assert!(instruction.accounts.iter().all(|meta| !meta.is_signer || meta.is_writable));
    }
}
