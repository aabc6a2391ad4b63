//! The two record types the ledger keeps for a wedding, their binary layout,
//! and what a read of an address amounts to.
//!
//! A record is laid out as an eight-byte tag that names its type, followed by
//! its fields in order. Bytes behind the last field are padding and are
//! ignored by the decoder.

use crate::address::Address;
use crate::layout::{
    flag_byte, lemma_parse_text_at, lemma_text_roundtrip, outcome_view, parse_flag, parse_text,
    read_address, read_flag, read_text, text_bytes, text_fits, write_address, write_flag,
    write_text, DecodeError,
};
use vstd::prelude::*;

verus! {

/// Where an agreement stands.
#[derive(Clone, Copy, Debug, PartialEq, Eq, Structural)]
pub enum Status {
    Proposed,
    Cancelled,
    Accepted,
    Dissolved,
}

/// The agreement record: one per pair of participants.
#[derive(Clone, Copy, Debug)]
pub struct Wedding {
    /// The party that proposed the agreement.
    pub creator: Address,
    /// The first participant in canonical order.
    pub partner0: Address,
    /// The second participant in canonical order.
    pub partner1: Address,
    pub status: Status,
}

/// The participant record: one per participant.
#[derive(Debug)]
pub struct Partner {
    /// The address of the agreement record this participant belongs to.
    pub wedding: Address,
    /// The participant's own identity.
    pub user: Address,
    pub name: String,
    pub vows: String,
    pub answer: bool,
}

/// An agreement record as plain values.
pub struct WeddingView {
    pub creator: Seq<u8>,
    pub partner0: Seq<u8>,
    pub partner1: Seq<u8>,
    pub status: Status,
}

/// A participant record as plain values.
pub struct PartnerView {
    pub wedding: Seq<u8>,
    pub user: Seq<u8>,
    pub name: Seq<char>,
    pub vows: Seq<char>,
    pub answer: bool,
}

impl View for Wedding {
    type V = WeddingView;

    open spec fn view(&self) -> WeddingView {
        WeddingView {
            creator: self.creator@,
            partner0: self.partner0@,
            partner1: self.partner1@,
            status: self.status,
        }
    }
}

impl View for Partner {
    type V = PartnerView;

    open spec fn view(&self) -> PartnerView {
        PartnerView {
            wedding: self.wedding@,
            user: self.user@,
            name: self.name@,
            vows: self.vows@,
            answer: self.answer,
        }
    }
}

impl PartialEq for Wedding {
    fn eq(&self, other: &Self) -> (r: bool) {
        self.creator == other.creator && self.partner0 == other.partner0 && self.partner1
            == other.partner1 && self.status == other.status
    }
}

impl Eq for Wedding {}

impl vstd::std_specs::cmp::PartialEqSpecImpl for Wedding {
    open spec fn obeys_eq_spec() -> bool {
        true
    }

    open spec fn eq_spec(&self, other: &Self) -> bool {
        self@ == other@
    }
}

impl PartialEq for Partner {
    fn eq(&self, other: &Self) -> (r: bool) {
        self.wedding == other.wedding && self.user == other.user && self.name == other.name
            && self.vows == other.vows && self.answer == other.answer
    }
}

impl Eq for Partner {}

impl vstd::std_specs::cmp::PartialEqSpecImpl for Partner {
    open spec fn obeys_eq_spec() -> bool {
        true
    }

    open spec fn eq_spec(&self, other: &Self) -> bool {
        self@ == other@
    }
}

impl Clone for Partner {
    fn clone(&self) -> (r: Self)
        ensures
            r@ == self@,
    {
        Partner {
            wedding: self.wedding,
            user: self.user,
            name: self.name.clone(),
            vows: self.vows.clone(),
            answer: self.answer,
        }
    }
}

/// A record that can be compared with another of its type and copied, field
/// by field.
pub trait Snapshot: View + Sized {
    /// Whether two records agree in every field.
    fn same(&self, other: &Self) -> (r: bool)
        ensures
            r == (self@ == other@),
    ;

    /// A copy that agrees with the record in every field.
    fn copy(&self) -> (r: Self)
        ensures
            r@ == self@,
    ;
}

impl Snapshot for Wedding {
    fn same(&self, other: &Self) -> (r: bool) {
        *self == *other
    }

    fn copy(&self) -> (r: Self) {
        *self
    }
}

impl Snapshot for Partner {
    fn same(&self, other: &Self) -> (r: bool) {
        *self == *other
    }

    fn copy(&self) -> (r: Self) {
        self.clone()
    }
}

/// The tag that opens the layout of an agreement record.
pub const WEDDING_TAG: [u8; 8] = [12, 206, 161, 97, 38, 49, 114, 232];

/// The tag that opens the layout of a participant record.
pub const PARTNER_TAG: [u8; 8] = [122, 43, 246, 239, 141, 56, 243, 182];

/// The length of the layout of an agreement record.
pub const WEDDING_SIZE: usize = 105;

/// The byte that stands for a status.
pub open spec fn status_byte(status: Status) -> u8 {
    match status {
        Status::Proposed => 0,
        Status::Cancelled => 1,
        Status::Accepted => 2,
        Status::Dissolved => 3,
    }
}

/// The status that a byte stands for, if any.
pub open spec fn status_of(byte: u8) -> Option<Status> {
    if byte == 0 {
        Some(Status::Proposed)
    } else if byte == 1 {
        Some(Status::Cancelled)
    } else if byte == 2 {
        Some(Status::Accepted)
    } else if byte == 3 {
        Some(Status::Dissolved)
    } else {
        None
    }
}

/// Whether an agreement record has a layout: its addresses are 32 bytes long.
pub open spec fn wedding_fits(w: WeddingView) -> bool {
    w.creator.len() == 32 && w.partner0.len() == 32 && w.partner1.len() == 32
}

/// Whether a participant record has a layout: its addresses are 32 bytes
/// long and the length of each text can be written in four bytes.
pub open spec fn partner_fits(p: PartnerView) -> bool {
    p.wedding.len() == 32 && p.user.len() == 32 && text_fits(p.name) && text_fits(p.vows)
}

/// The layout of an agreement record.
pub open spec fn wedding_bytes(w: WeddingView) -> Seq<u8> {
    WEDDING_TAG@ + w.creator + w.partner0 + w.partner1 + seq![status_byte(w.status)]
}

/// The layout of a participant record.
pub open spec fn partner_bytes(p: PartnerView) -> Seq<u8> {
    PARTNER_TAG@ + p.wedding + p.user + text_bytes(p.name) + text_bytes(p.vows) + seq![
        flag_byte(p.answer),
    ]
}

/// The agreement record that a byte string holds, or why it holds none.
pub open spec fn parse_wedding(data: Seq<u8>) -> Result<WeddingView, DecodeError> {
    if data.len() < 8 {
        Err(DecodeError::Truncated)
    } else if data.subrange(0, 8) != WEDDING_TAG@ {
        Err(DecodeError::WrongRecordType)
    } else if data.len() < WEDDING_SIZE {
        Err(DecodeError::Truncated)
    } else {
        match status_of(data[104]) {
            None => Err(DecodeError::InvalidField),
            Some(status) => Ok(
                WeddingView {
                    creator: data.subrange(8, 40),
                    partner0: data.subrange(40, 72),
                    partner1: data.subrange(72, 104),
                    status,
                },
            ),
        }
    }
}

/// The participant record that a byte string holds, or why it holds none.
pub open spec fn parse_partner(data: Seq<u8>) -> Result<PartnerView, DecodeError> {
    if data.len() < 8 {
        Err(DecodeError::Truncated)
    } else if data.subrange(0, 8) != PARTNER_TAG@ {
        Err(DecodeError::WrongRecordType)
    } else if data.len() < 72 {
        Err(DecodeError::Truncated)
    } else {
        match parse_text(data, 72) {
            Err(e) => Err(e),
            Ok((name, after_name)) => match parse_text(data, after_name) {
                Err(e) => Err(e),
                Ok((vows, after_vows)) => match parse_flag(data, after_vows) {
                    Err(e) => Err(e),
                    Ok((answer, _)) => Ok(
                        PartnerView {
                            wedding: data.subrange(8, 40),
                            user: data.subrange(40, 72),
                            name,
                            vows,
                            answer,
                        },
                    ),
                },
            },
        }
    }
}

/// Laying an agreement record out and reading the bytes back gives the
/// record again, whatever padding follows the layout.
pub proof fn lemma_wedding_roundtrip(w: WeddingView, padding: Seq<u8>)
    requires
        wedding_fits(w),
    ensures
        parse_wedding(wedding_bytes(w) + padding) == Ok::<WeddingView, DecodeError>(w),
{
    let data = wedding_bytes(w) + padding;
    assert(data.subrange(0, 8) =~= WEDDING_TAG@);
    assert(data.subrange(8, 40) =~= w.creator);
    assert(data.subrange(40, 72) =~= w.partner0);
    assert(data.subrange(72, 104) =~= w.partner1);
    assert(data[104] == status_byte(w.status));
}

/// Laying a participant record out and reading the bytes back gives the
/// record again, whatever padding follows the layout.
pub proof fn lemma_partner_roundtrip(p: PartnerView, padding: Seq<u8>)
    requires
        partner_fits(p),
    ensures
        parse_partner(partner_bytes(p) + padding) == Ok::<PartnerView, DecodeError>(p),
{
    let data = partner_bytes(p) + padding;
    let head = PARTNER_TAG@ + p.wedding + p.user;
    let flag = seq![flag_byte(p.answer)];
    let after_name = text_bytes(p.vows) + flag + padding;
    let after_vows = flag + padding;
    assert(data.subrange(0, 8) =~= PARTNER_TAG@);
    assert(data.subrange(8, 40) =~= p.wedding);
    assert(data.subrange(40, 72) =~= p.user);

    assert(data =~= head + (text_bytes(p.name) + after_name));
    lemma_parse_text_at(head, text_bytes(p.name) + after_name);
    lemma_text_roundtrip(p.name, after_name);
    let name_end = 72 + text_bytes(p.name).len() as int;
    assert(parse_text(data, 72) == Ok::<(Seq<char>, int), DecodeError>((p.name, name_end)));

    let head2 = head + text_bytes(p.name);
    assert(data =~= head2 + (text_bytes(p.vows) + after_vows));
    lemma_parse_text_at(head2, text_bytes(p.vows) + after_vows);
    lemma_text_roundtrip(p.vows, after_vows);
    let vows_end = name_end + text_bytes(p.vows).len() as int;
    assert(parse_text(data, name_end) == Ok::<(Seq<char>, int), DecodeError>((p.vows, vows_end)));

    assert(data[vows_end] == flag_byte(p.answer));
}

/// Whether the first eight bytes of `data` are `tag`.
fn starts_with_tag(data: &[u8], tag: &[u8; 8]) -> (r: bool)
    requires
        data@.len() >= 8,
    ensures
        r == (data@.subrange(0, 8) == tag@),
{
    let mut i: usize = 0;
    while i < 8
        invariant
            i <= 8,
            data@.len() >= 8,
            forall|j: int| 0 <= j < i ==> data@[j] == tag@[j],
        decreases 8 - i,
    {
        if data[i] != tag[i] {
            assert(data@.subrange(0, 8)[i as int] != tag@[i as int]);
            return false;
        }
        i += 1;
    }
    assert(data@.subrange(0, 8) =~= tag@);
    true
}

/// The byte that stands for a status.
pub fn status_to_byte(status: Status) -> (byte: u8)
    ensures
        byte == status_byte(status),
{
    match status {
        Status::Proposed => 0,
        Status::Cancelled => 1,
        Status::Accepted => 2,
        Status::Dissolved => 3,
    }
}

/// The status that a byte stands for, if any.
pub fn status_from_byte(byte: u8) -> (status: Option<Status>)
    ensures
        status == status_of(byte),
{
    if byte == 0 {
        Some(Status::Proposed)
    } else if byte == 1 {
        Some(Status::Cancelled)
    } else if byte == 2 {
        Some(Status::Accepted)
    } else if byte == 3 {
        Some(Status::Dissolved)
    } else {
        None
    }
}

/// Lays an agreement record out.
pub fn encode_wedding(wedding: &Wedding) -> (bytes: Vec<u8>)
    ensures
        bytes@ == wedding_bytes(wedding@),
        parse_wedding(bytes@) == Ok::<WeddingView, DecodeError>(wedding@),
{
    let mut out: Vec<u8> = Vec::new();
    out.extend_from_slice(WEDDING_TAG.as_slice());
    write_address(&mut out, &wedding.creator);
    write_address(&mut out, &wedding.partner0);
    write_address(&mut out, &wedding.partner1);
    out.push(status_to_byte(wedding.status));
    proof {
        assert(out@ =~= wedding_bytes(wedding@));
        lemma_wedding_roundtrip(wedding@, Seq::empty());
        assert(wedding_bytes(wedding@) + Seq::<u8>::empty() =~= wedding_bytes(wedding@));
    }
    out
}

/// Lays a participant record out. A record with a text too long for the
/// layout has none.
pub fn encode_partner(partner: &Partner) -> (bytes: Option<Vec<u8>>)
    ensures
        bytes is Some <==> partner_fits(partner@),
        bytes matches Some(b) ==> b@ == partner_bytes(partner@) && parse_partner(b@) == Ok::<
            PartnerView,
            DecodeError,
        >(partner@),
{
    let mut out: Vec<u8> = Vec::new();
    out.extend_from_slice(PARTNER_TAG.as_slice());
    write_address(&mut out, &partner.wedding);
    write_address(&mut out, &partner.user);
    if !write_text(&mut out, partner.name.as_str()) {
        return None;
    }
    if !write_text(&mut out, partner.vows.as_str()) {
        return None;
    }
    write_flag(&mut out, partner.answer);
    proof {
        assert(out@ =~= partner_bytes(partner@));
        lemma_partner_roundtrip(partner@, Seq::empty());
        assert(partner_bytes(partner@) + Seq::<u8>::empty() =~= partner_bytes(partner@));
    }
    Some(out)
}

/// Reads an agreement record from the bytes of an account.
pub fn decode_wedding(data: &[u8]) -> (r: Result<Wedding, DecodeError>)
    ensures
        outcome_view(r) == parse_wedding(data@),
{
    if data.len() < 8 {
        return Err(DecodeError::Truncated);
    }
    if !starts_with_tag(data, &WEDDING_TAG) {
        return Err(DecodeError::WrongRecordType);
    }
    if data.len() < WEDDING_SIZE {
        return Err(DecodeError::Truncated);
    }
    let (creator, _) = read_address(data, 8)?;
    let (partner0, _) = read_address(data, 40)?;
    let (partner1, _) = read_address(data, 72)?;
    match status_from_byte(data[104]) {
        None => Err(DecodeError::InvalidField),
        Some(status) => Ok(Wedding { creator, partner0, partner1, status }),
    }
}

/// Reads a participant record from the bytes of an account.
pub fn decode_partner(data: &[u8]) -> (r: Result<Partner, DecodeError>)
    ensures
        outcome_view(r) == parse_partner(data@),
{
    if data.len() < 8 {
        return Err(DecodeError::Truncated);
    }
    if !starts_with_tag(data, &PARTNER_TAG) {
        return Err(DecodeError::WrongRecordType);
    }
    if data.len() < 72 {
        return Err(DecodeError::Truncated);
    }
    let (wedding, _) = read_address(data, 8)?;
    let (user, _) = read_address(data, 40)?;
    let (name, after_name) = read_text(data, 72)?;
    let (vows, after_vows) = read_text(data, after_name)?;
    let (answer, _) = read_flag(data, after_vows)?;
    Ok(Partner { wedding, user, name, vows, answer })
}

/// What the ledger answered when asked for the account at an address.
#[derive(Clone, Debug, PartialEq, Eq)]
pub enum AccountReply {
    /// The address holds no account.
    Missing,
    /// The bytes of the account at the address.
    Data(Vec<u8>),
    /// The question did not reach the ledger, or no answer came back.
    Unreachable,
}

/// Why a read gave no record.
#[derive(Clone, Copy, Debug, PartialEq, Eq, Structural)]
pub enum ReadError {
    /// The address holds no account: the record does not exist, or no longer.
    NotFound,
    /// The account's bytes are not the layout of the expected record.
    Decode(DecodeError),
    /// The ledger could not be asked.
    Network,
}

/// What a read of an agreement record amounts to, given the ledger's answer.
pub open spec fn wedding_read(reply: AccountReply) -> Result<WeddingView, ReadError> {
    match reply {
        AccountReply::Missing => Err(ReadError::NotFound),
        AccountReply::Unreachable => Err(ReadError::Network),
        AccountReply::Data(bytes) => match parse_wedding(bytes@) {
            Ok(w) => Ok(w),
            Err(e) => Err(ReadError::Decode(e)),
        },
    }
}

/// What a read of a participant record amounts to, given the ledger's answer.
pub open spec fn partner_read(reply: AccountReply) -> Result<PartnerView, ReadError> {
    match reply {
        AccountReply::Missing => Err(ReadError::NotFound),
        AccountReply::Unreachable => Err(ReadError::Network),
        AccountReply::Data(bytes) => match parse_partner(bytes@) {
            Ok(p) => Ok(p),
            Err(e) => Err(ReadError::Decode(e)),
        },
    }
}

/// The agreement record in the ledger's answer for the agreement's address.
/// An address without an account is `NotFound`, which is a state like any
/// other and no failure of the read.
pub fn get_wedding_state(reply: &AccountReply) -> (r: Result<Wedding, ReadError>)
    ensures
        outcome_view(r) == wedding_read(*reply),
{
    match reply {
        AccountReply::Missing => Err(ReadError::NotFound),
        AccountReply::Unreachable => Err(ReadError::Network),
        AccountReply::Data(bytes) => match decode_wedding(bytes.as_slice()) {
            Ok(wedding) => Ok(wedding),
            Err(e) => Err(ReadError::Decode(e)),
        },
    }
}

/// The participant record in the ledger's answer for the participant's
/// record address.
pub fn get_partner_state(reply: &AccountReply) -> (r: Result<Partner, ReadError>)
    ensures
        outcome_view(r) == partner_read(*reply),
{
    match reply {
        AccountReply::Missing => Err(ReadError::NotFound),
        AccountReply::Unreachable => Err(ReadError::Network),
        AccountReply::Data(bytes) => match decode_partner(bytes.as_slice()) {
            Ok(partner) => Ok(partner),
            Err(e) => Err(ReadError::Decode(e)),
        },
    }
}

} // verus!
