use crypto_wedding_cli::address::Address;
use crypto_wedding_cli::layout::DecodeError;
use crypto_wedding_cli::state::{
    decode_partner, decode_wedding, encode_partner, encode_wedding, get_partner_state,
    get_wedding_state, status_from_byte, status_to_byte, AccountReply, Partner, ReadError,
    Status, Wedding, PARTNER_TAG, WEDDING_SIZE, WEDDING_TAG,
};
use solana_sdk::hash::hash;

fn filled(byte: u8) -> Address {
    Address { bytes: [byte; 32] }
}

fn sample_wedding(status: Status) -> Wedding {
    Wedding { creator: filled(1), partner0: filled(1), partner1: filled(2), status }
}

fn sample_partner(name: &str, vows: &str, answer: bool) -> Partner {
    Partner {
        wedding: filled(9),
        user: filled(1),
        name: name.to_string(),
        vows: vows.to_string(),
        answer,
    }
}

fn wedding_layout(status: u8) -> Vec<u8> {
    let mut bytes = vec![12, 206, 161, 97, 38, 49, 114, 232];
    bytes.extend_from_slice(&[1u8; 32]);
    bytes.extend_from_slice(&[1u8; 32]);
    bytes.extend_from_slice(&[2u8; 32]);
    bytes.push(status);
    bytes
}

fn partner_layout(name: &[u8], vows: &[u8], answer: u8) -> Vec<u8> {
    let mut bytes = vec![122, 43, 246, 239, 141, 56, 243, 182];
    bytes.extend_from_slice(&[9u8; 32]);
    bytes.extend_from_slice(&[1u8; 32]);
    bytes.extend_from_slice(&(name.len() as u32).to_le_bytes());
    bytes.extend_from_slice(name);
    bytes.extend_from_slice(&(vows.len() as u32).to_le_bytes());
    bytes.extend_from_slice(vows);
    bytes.push(answer);
    bytes
}

#[test]
fn record_tags_are_the_leading_bytes_of_the_type_hash() {
    assert_eq!(WEDDING_TAG[..], hash(b"account:Wedding").to_bytes()[..8]);
    assert_eq!(PARTNER_TAG[..], hash(b"account:Partner").to_bytes()[..8]);
}

#[test]
fn wedding_layout_is_tag_addresses_status() {
    let bytes = encode_wedding(&sample_wedding(Status::Accepted));
    assert_eq!(bytes, wedding_layout(2));
    assert_eq!(bytes.len(), WEDDING_SIZE);
}

#[test]
fn wedding_round_trip_for_every_status() {
    for status in [Status::Proposed, Status::Cancelled, Status::Accepted, Status::Dissolved] {
        let wedding = sample_wedding(status);
        assert_eq!(decode_wedding(&encode_wedding(&wedding)), Ok(wedding));
    }
}

#[test]
fn status_bytes_count_from_zero() {
    assert_eq!(status_to_byte(Status::Proposed), 0);
    assert_eq!(status_to_byte(Status::Cancelled), 1);
    assert_eq!(status_to_byte(Status::Accepted), 2);
    assert_eq!(status_to_byte(Status::Dissolved), 3);
    assert_eq!(status_from_byte(0), Some(Status::Proposed));
    assert_eq!(status_from_byte(3), Some(Status::Dissolved));
    assert_eq!(status_from_byte(4), None);
    assert_eq!(status_from_byte(255), None);
}

#[test]
fn partner_layout_is_tag_addresses_texts_flag() {
    let bytes = encode_partner(&sample_partner("Ada", "I do", true)).unwrap();
    assert_eq!(bytes, partner_layout(b"Ada", b"I do", 1));
    assert_eq!(&bytes[72..76], &[3, 0, 0, 0]);
}

#[test]
fn partner_round_trip() {
    let partners = [
        sample_partner("", "", false),
        sample_partner("Ada", "I do", true),
        sample_partner("Zo\u{eb} \u{1f48d}", "pour toujours \u{2764}", false),
        sample_partner(&"n".repeat(300), &"v".repeat(70000), true),
    ];
    for partner in partners {
        let bytes = encode_partner(&partner).unwrap();
        assert_eq!(decode_partner(&bytes), Ok(partner));
    }
}

#[test]
fn text_length_is_counted_in_bytes_little_endian() {
    let partner = sample_partner(&"\u{e9}".repeat(200), "", false);
    let bytes = encode_partner(&partner).unwrap();
    assert_eq!(&bytes[72..76], &[144, 1, 0, 0]);
    assert_eq!(bytes.len(), 72 + 4 + 400 + 4 + 1);
}

#[test]
fn padding_behind_a_record_is_ignored() {
    let wedding = sample_wedding(Status::Proposed);
    let mut bytes = encode_wedding(&wedding);
    bytes.extend_from_slice(&[0u8; 40]);
    assert_eq!(decode_wedding(&bytes), Ok(wedding));

    let partner = sample_partner("Ada", "I do", true);
    let mut bytes = encode_partner(&partner).unwrap();
    bytes.extend_from_slice(&[0xffu8; 17]);
    assert_eq!(decode_partner(&bytes), Ok(partner));
}

#[test]
fn short_bytes_are_truncated() {
    assert_eq!(decode_wedding(&[]), Err(DecodeError::Truncated));
    assert_eq!(decode_wedding(&WEDDING_TAG[..7]), Err(DecodeError::Truncated));
    assert_eq!(decode_wedding(&WEDDING_TAG), Err(DecodeError::Truncated));
    let full = wedding_layout(0);
    assert_eq!(decode_wedding(&full[..104]), Err(DecodeError::Truncated));

    assert_eq!(decode_partner(&[]), Err(DecodeError::Truncated));
    assert_eq!(decode_partner(&PARTNER_TAG), Err(DecodeError::Truncated));
    let full = partner_layout(b"Ada", b"I do", 1);
    for cut in 8..full.len() {
        assert_eq!(decode_partner(&full[..cut]), Err(DecodeError::Truncated));
    }
}

#[test]
fn a_text_longer_than_the_rest_is_truncated() {
    let mut bytes = partner_layout(b"Ada", b"I do", 1);
    bytes[72] = 200;
    assert_eq!(decode_partner(&bytes), Err(DecodeError::Truncated));
    let mut bytes = partner_layout(b"Ada", b"I do", 1);
    bytes[75] = 255;
    assert_eq!(decode_partner(&bytes), Err(DecodeError::Truncated));
}

#[test]
fn another_tag_is_the_wrong_record_type() {
    let wedding = wedding_layout(0);
    let partner = partner_layout(b"Ada", b"I do", 1);
    assert_eq!(decode_partner(&wedding), Err(DecodeError::WrongRecordType));
    assert_eq!(decode_wedding(&partner), Err(DecodeError::WrongRecordType));
    let mut off_by_one = wedding_layout(0);
    off_by_one[7] ^= 1;
    assert_eq!(decode_wedding(&off_by_one), Err(DecodeError::WrongRecordType));
    assert_eq!(decode_wedding(&[0u8; 8]), Err(DecodeError::WrongRecordType));
}

#[test]
fn bytes_that_stand_for_no_value_are_invalid() {
    assert_eq!(decode_wedding(&wedding_layout(4)), Err(DecodeError::InvalidField));
    assert_eq!(decode_wedding(&wedding_layout(255)), Err(DecodeError::InvalidField));
    assert_eq!(
        decode_partner(&partner_layout(b"Ada", b"I do", 2)),
        Err(DecodeError::InvalidField)
    );
    assert_eq!(
        decode_partner(&partner_layout(&[0xff, 0xfe], b"I do", 1)),
        Err(DecodeError::InvalidField)
    );
    assert_eq!(
        decode_partner(&partner_layout(b"Ada", &[0xc3], 0)),
        Err(DecodeError::InvalidField)
    );
    assert_eq!(
        decode_partner(&partner_layout(&[0xed, 0xa0, 0x80], b"", 0)),
        Err(DecodeError::InvalidField)
    );
}

#[test]
fn an_address_without_an_account_reads_as_not_found() {
    assert_eq!(get_wedding_state(&AccountReply::Missing), Err(ReadError::NotFound));
    assert_eq!(get_partner_state(&AccountReply::Missing), Err(ReadError::NotFound));
}

#[test]
fn an_unreachable_ledger_reads_as_a_network_error() {
    assert_eq!(get_wedding_state(&AccountReply::Unreachable), Err(ReadError::Network));
    assert_eq!(get_partner_state(&AccountReply::Unreachable), Err(ReadError::Network));
}

#[test]
fn account_bytes_read_as_the_record_or_a_decode_error() {
    let wedding = sample_wedding(Status::Dissolved);
    let reply = AccountReply::Data(encode_wedding(&wedding));
    assert_eq!(get_wedding_state(&reply), Ok(wedding));
    assert_eq!(
        get_partner_state(&reply),
        Err(ReadError::Decode(DecodeError::WrongRecordType))
    );
    let partner = sample_partner("Ada", "I do", false);
    let reply = AccountReply::Data(encode_partner(&partner).unwrap());
    assert_eq!(get_partner_state(&reply), Ok(partner));
    assert_eq!(
        get_wedding_state(&AccountReply::Data(vec![1, 2, 3])),
        Err(ReadError::Decode(DecodeError::Truncated))
    );
    assert_eq!(
        get_wedding_state(&AccountReply::Data(wedding_layout(9))),
        Err(ReadError::Decode(DecodeError::InvalidField))
    );
}

#[test]
fn records_compare_field_by_field() {
    let partner = sample_partner("Ada", "I do", true);
    assert_eq!(partner.clone(), partner);
    assert_ne!(sample_partner("Ada", "I do", false), partner);
    assert_ne!(sample_partner("Ada", "I don't", true), partner);
    assert_ne!(sample_partner("Eve", "I do", true), partner);
    let mut elsewhere = partner.clone();
    elsewhere.wedding = filled(8);
    assert_ne!(elsewhere, partner);
    let mut someone_else = partner.clone();
    someone_else.user = filled(8);
    assert_ne!(someone_else, partner);

    let wedding = sample_wedding(Status::Proposed);
    assert_eq!(wedding, sample_wedding(Status::Proposed));
    assert_ne!(wedding, sample_wedding(Status::Accepted));
    let mut other = wedding;
    other.creator = filled(2);
    assert_ne!(wedding, other);
    let mut other = wedding;
    other.partner0 = filled(3);
    assert_ne!(wedding, other);
    let mut other = wedding;
    other.partner1 = filled(3);
    assert_ne!(wedding, other);
}
