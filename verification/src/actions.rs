//! The requests a participant can make of the wedding program: one
//! instruction per kind, each with its fixed tag, arguments and ordered list
//! of accounts.
//!
//! An instruction names the program, lists the accounts it touches and
//! carries its arguments in the binary layout: the tag of its kind, then the
//! arguments in order. The accounts are listed in the order the program
//! expects. The party that makes the request signs and pays, so its account
//! is a writable signer. A record that the instruction creates, changes or
//! closes is writable, and so is the account of the proposer where a closed
//! agreement hands its deposit back. Every other account is read only.

use crate::address::{
    find_partner_pda, find_wedding_pda, partner_address, wedding_address, Address,
};
use crate::layout::{flag_byte, outcome_view, text_bytes, text_fits, write_flag, write_text};
use crate::state::{get_wedding_state, wedding_read, AccountReply, ReadError};
use vstd::prelude::*;

verus! {

/// One account in an instruction's list, with what the instruction may do
/// with it.
#[derive(Clone, Copy, Debug, PartialEq, Eq)]
pub struct AccountMeta {
    pub address: Address,
    /// The account's owner has to sign the request.
    pub is_signer: bool,
    /// The instruction may change the account.
    pub is_writable: bool,
}

/// An account of an instruction's list as plain values.
pub struct AccountMetaView {
    pub address: Seq<u8>,
    pub is_signer: bool,
    pub is_writable: bool,
}

impl View for AccountMeta {
    type V = AccountMetaView;

    open spec fn view(&self) -> AccountMetaView {
        AccountMetaView {
            address: self.address@,
            is_signer: self.is_signer,
            is_writable: self.is_writable,
        }
    }
}

/// A request to the program, ready to be signed and sent.
#[derive(Clone, Debug, PartialEq, Eq)]
pub struct Instruction {
    pub program_id: Address,
    pub accounts: Vec<AccountMeta>,
    pub data: Vec<u8>,
}

/// An instruction as plain values.
pub struct InstructionView {
    pub program_id: Seq<u8>,
    pub accounts: Seq<AccountMetaView>,
    pub data: Seq<u8>,
}

impl View for Instruction {
    type V = InstructionView;

    open spec fn view(&self) -> InstructionView {
        InstructionView {
            program_id: self.program_id@,
            accounts: self.accounts@.map_values(|meta: AccountMeta| meta@),
            data: self.data@,
        }
    }
}

/// Why no instruction was built.
#[derive(Clone, Copy, Debug, PartialEq, Eq, Structural)]
pub enum RequestError {
    /// The address of a record could not be derived.
    Derivation,
    /// The agreement record that the instruction depends on could not be read.
    Read(ReadError),
    /// A text is too long for the layout of the arguments.
    TextTooLong,
}

/// The tags of the instruction kinds.
pub const SETUP_WEDDING_TAG: [u8; 8] = [69, 81, 149, 84, 105, 127, 208, 120];

pub const CANCEL_WEDDING_TAG: [u8; 8] = [120, 65, 136, 19, 218, 96, 165, 123];

pub const SETUP_PARTNER_TAG: [u8; 8] = [95, 140, 27, 237, 73, 54, 166, 89];

pub const CLOSE_PARTNER_TAG: [u8; 8] = [7, 106, 248, 66, 24, 20, 121, 143];

pub const UPDATE_PARTNER_TAG: [u8; 8] = [19, 112, 236, 81, 127, 55, 21, 196];

pub const UPDATE_NAME_TAG: [u8; 8] = [70, 146, 141, 213, 58, 44, 119, 169];

pub const UPDATE_VOWS_TAG: [u8; 8] = [50, 225, 110, 178, 251, 24, 53, 12];

pub const GIVE_ANSWER_TAG: [u8; 8] = [32, 9, 80, 190, 141, 157, 255, 39];

pub const DIVORCE_TAG: [u8; 8] = [50, 134, 17, 206, 10, 71, 98, 10];

/// The address of the ledger's system program: 32 zero bytes.
pub open spec fn system_program() -> Seq<u8> {
    Seq::new(32, |i: int| 0u8)
}

/// The account of the party that signs and pays.
pub open spec fn payer(address: Seq<u8>) -> AccountMetaView {
    AccountMetaView { address, is_signer: true, is_writable: true }
}

/// An account that the instruction may change.
pub open spec fn writable(address: Seq<u8>) -> AccountMetaView {
    AccountMetaView { address, is_signer: false, is_writable: true }
}

/// An account that the instruction only reads.
pub open spec fn readonly(address: Seq<u8>) -> AccountMetaView {
    AccountMetaView { address, is_signer: false, is_writable: false }
}

/// The record addresses of a participant and of the agreement with the other
/// party, where both can be derived.
pub open spec fn own_records(program_id: Seq<u8>, user: Seq<u8>, other: Seq<u8>) -> Option<
    (Seq<u8>, Seq<u8>),
> {
    match (partner_address(program_id, user), wedding_address(program_id, user, other)) {
        (Some(partner), Some(wedding)) => Some((partner, wedding)),
        _ => None,
    }
}

/// The record addresses of both participants and of their agreement, where
/// all three can be derived.
pub open spec fn all_records(program_id: Seq<u8>, user: Seq<u8>, other: Seq<u8>) -> Option<
    (Seq<u8>, Seq<u8>, Seq<u8>),
> {
    match (
        partner_address(program_id, user),
        partner_address(program_id, other),
        wedding_address(program_id, user, other),
    ) {
        (Some(partner), Some(other_partner), Some(wedding)) => Some(
            (partner, other_partner, wedding),
        ),
        _ => None,
    }
}

/// The request that proposes the agreement of two participants.
pub open spec fn setup_wedding_request(
    program_id: Seq<u8>,
    creator: Seq<u8>,
    partner0: Seq<u8>,
    partner1: Seq<u8>,
) -> Result<InstructionView, RequestError> {
    match all_records(program_id, partner0, partner1) {
        None => Err(RequestError::Derivation),
        Some((record0, record1, wedding)) => Ok(
            InstructionView {
                program_id,
                accounts: seq![
                    payer(creator),
                    readonly(partner0),
                    readonly(partner1),
                    writable(wedding),
                    readonly(record0),
                    readonly(record1),
                    readonly(system_program()),
                ],
                data: SETUP_WEDDING_TAG@,
            },
        ),
    }
}

/// The request that withdraws a proposed agreement, given the ledger's answer
/// for the agreement record, which names the proposer.
pub open spec fn cancel_wedding_request(
    program_id: Seq<u8>,
    user: Seq<u8>,
    partner0: Seq<u8>,
    partner1: Seq<u8>,
    reply: AccountReply,
) -> Result<InstructionView, RequestError> {
    match wedding_address(program_id, partner0, partner1) {
        None => Err(RequestError::Derivation),
        Some(wedding) => match wedding_read(reply) {
            Err(e) => Err(RequestError::Read(e)),
            Ok(state) => Ok(
                InstructionView {
                    program_id,
                    accounts: seq![
                        payer(user),
                        writable(state.creator),
                        readonly(partner0),
                        readonly(partner1),
                        writable(wedding),
                    ],
                    data: CANCEL_WEDDING_TAG@,
                },
            ),
        },
    }
}

/// The accounts of a request that a participant makes about the own record.
pub open spec fn own_record_accounts(
    user: Seq<u8>,
    other: Seq<u8>,
    partner: Seq<u8>,
    wedding: Seq<u8>,
) -> Seq<AccountMetaView> {
    seq![
        payer(user),
        readonly(other),
        writable(partner),
        readonly(wedding),
        readonly(system_program()),
    ]
}

/// The request that creates a participant's record with a name and vows.
pub open spec fn setup_partner_request(
    program_id: Seq<u8>,
    user: Seq<u8>,
    other: Seq<u8>,
    name: Seq<char>,
    vows: Seq<char>,
) -> Result<InstructionView, RequestError> {
    match own_records(program_id, user, other) {
        None => Err(RequestError::Derivation),
        Some((partner, wedding)) => if !text_fits(name) || !text_fits(vows) {
            Err(RequestError::TextTooLong)
        } else {
            Ok(
                InstructionView {
                    program_id,
                    accounts: own_record_accounts(user, other, partner, wedding),
                    data: SETUP_PARTNER_TAG@ + text_bytes(name) + text_bytes(vows),
                },
            )
        },
    }
}

/// The request that closes a participant's record.
pub open spec fn close_partner_request(program_id: Seq<u8>, user: Seq<u8>, other: Seq<u8>) -> Result<
    InstructionView,
    RequestError,
> {
    match own_records(program_id, user, other) {
        None => Err(RequestError::Derivation),
        Some((partner, wedding)) => Ok(
            InstructionView {
                program_id,
                accounts: seq![
                    payer(user),
                    readonly(other),
                    writable(partner),
                    readonly(wedding),
                ],
                data: CLOSE_PARTNER_TAG@,
            },
        ),
    }
}

/// The request that replaces both the name and the vows of a participant.
pub open spec fn update_partner_request(
    program_id: Seq<u8>,
    user: Seq<u8>,
    other: Seq<u8>,
    name: Seq<char>,
    vows: Seq<char>,
) -> Result<InstructionView, RequestError> {
    match own_records(program_id, user, other) {
        None => Err(RequestError::Derivation),
        Some((partner, wedding)) => if !text_fits(name) || !text_fits(vows) {
            Err(RequestError::TextTooLong)
        } else {
            Ok(
                InstructionView {
                    program_id,
                    accounts: own_record_accounts(user, other, partner, wedding),
                    data: UPDATE_PARTNER_TAG@ + text_bytes(name) + text_bytes(vows),
                },
            )
        },
    }
}

/// The request that replaces one text of a participant: the name or the
/// vows, as the tag says.
pub open spec fn update_text_request(
    tag: Seq<u8>,
    program_id: Seq<u8>,
    user: Seq<u8>,
    other: Seq<u8>,
    text: Seq<char>,
) -> Result<InstructionView, RequestError> {
    match own_records(program_id, user, other) {
        None => Err(RequestError::Derivation),
        Some((partner, wedding)) => if !text_fits(text) {
            Err(RequestError::TextTooLong)
        } else {
            Ok(
                InstructionView {
                    program_id,
                    accounts: own_record_accounts(user, other, partner, wedding),
                    data: tag + text_bytes(text),
                },
            )
        },
    }
}

/// The request that records a participant's answer to the proposal.
pub open spec fn give_answer_request(
    program_id: Seq<u8>,
    user: Seq<u8>,
    other: Seq<u8>,
    answer: bool,
) -> Result<InstructionView, RequestError> {
    match all_records(program_id, user, other) {
        None => Err(RequestError::Derivation),
        Some((partner, other_partner, wedding)) => Ok(
            InstructionView {
                program_id,
                accounts: seq![
                    payer(user),
                    readonly(other),
                    writable(partner),
                    readonly(other_partner),
                    writable(wedding),
                    readonly(system_program()),
                ],
                data: GIVE_ANSWER_TAG@ + seq![flag_byte(answer)],
            },
        ),
    }
}

/// The request that dissolves an agreement, given the ledger's answer for the
/// agreement record, which names the proposer.
pub open spec fn divorce_request(
    program_id: Seq<u8>,
    user: Seq<u8>,
    other: Seq<u8>,
    reply: AccountReply,
) -> Result<InstructionView, RequestError> {
    match all_records(program_id, user, other) {
        None => Err(RequestError::Derivation),
        Some((partner, other_partner, wedding)) => match wedding_read(reply) {
            Err(e) => Err(RequestError::Read(e)),
            Ok(state) => Ok(
                InstructionView {
                    program_id,
                    accounts: seq![
                        writable(state.creator),
                        payer(user),
                        readonly(other),
                        writable(partner),
                        writable(other_partner),
                        writable(wedding),
                        readonly(system_program()),
                    ],
                    data: DIVORCE_TAG@,
                },
            ),
        },
    }
}

/// `system_program::id` of solana_sdk: the address of the ledger's system
/// program, which is the address of 32 zero bytes.
#[verifier::external_body]
#[allow(deprecated)]
fn system_program_id() -> (id: Address)
    ensures
        id@ == system_program(),
{
    Address { bytes: solana_sdk::system_program::id().to_bytes() }
}

fn payer_meta(address: &Address) -> (meta: AccountMeta)
    ensures
        meta@ == payer(address@),
{
    AccountMeta { address: *address, is_signer: true, is_writable: true }
}

fn writable_meta(address: &Address) -> (meta: AccountMeta)
    ensures
        meta@ == writable(address@),
{
    AccountMeta { address: *address, is_signer: false, is_writable: true }
}

fn readonly_meta(address: &Address) -> (meta: AccountMeta)
    ensures
        meta@ == readonly(address@),
{
    AccountMeta { address: *address, is_signer: false, is_writable: false }
}

/// Derives the record addresses of a participant and of the agreement with
/// the other party.
fn derive_own(program_id: &Address, user: &Address, other: &Address) -> (r: Option<
    (Address, Address),
>)
    ensures
        match own_records(program_id@, user@, other@) {
            Some((partner, wedding)) => r matches Some((p, w)) && p@ == partner && w@ == wedding,
            None => r is None,
        },
{
    let partner = match find_partner_pda(program_id, user) {
        Ok(address) => address,
        Err(_) => { return None; },
    };
    let wedding = match find_wedding_pda(program_id, user, other) {
        Ok(address) => address,
        Err(_) => { return None; },
    };
    Some((partner, wedding))
}

/// Derives the record addresses of both participants and of their agreement.
fn derive_all(program_id: &Address, user: &Address, other: &Address) -> (r: Option<
    (Address, Address, Address),
>)
    ensures
        match all_records(program_id@, user@, other@) {
            Some((partner, other_partner, wedding)) => r matches Some((p, o, w)) && p@ == partner
                && o@ == other_partner && w@ == wedding,
            None => r is None,
        },
{
    let partner = match find_partner_pda(program_id, user) {
        Ok(address) => address,
        Err(_) => { return None; },
    };
    let other_partner = match find_partner_pda(program_id, other) {
        Ok(address) => address,
        Err(_) => { return None; },
    };
    let wedding = match find_wedding_pda(program_id, user, other) {
        Ok(address) => address,
        Err(_) => { return None; },
    };
    Some((partner, other_partner, wedding))
}

/// The list of accounts of a request that a participant makes about the own
/// record.
fn own_record_metas(user: &Address, other: &Address, partner: &Address, wedding: &Address) -> (metas:
    Vec<AccountMeta>)
    ensures
        metas@.map_values(|meta: AccountMeta| meta@) == own_record_accounts(
            user@,
            other@,
            partner@,
            wedding@,
        ),
{
    let mut metas: Vec<AccountMeta> = Vec::new();
    metas.push(payer_meta(user));
    metas.push(readonly_meta(other));
    metas.push(writable_meta(partner));
    metas.push(readonly_meta(wedding));
    metas.push(readonly_meta(&system_program_id()));
    assert(metas@.map_values(|meta: AccountMeta| meta@) =~= own_record_accounts(
        user@,
        other@,
        partner@,
        wedding@,
    ));
    metas
}

/// Builds the request that proposes the agreement of two participants.
pub fn setup_wedding(
    program_id: &Address,
    creator: &Address,
    partner0: &Address,
    partner1: &Address,
) -> (r: Result<Instruction, RequestError>)
    ensures
        outcome_view(r) == setup_wedding_request(program_id@, creator@, partner0@, partner1@),
{
    let (record0, record1, wedding) = match derive_all(program_id, partner0, partner1) {
        Some(found) => found,
        None => { return Err(RequestError::Derivation); },
    };
    let mut accounts: Vec<AccountMeta> = Vec::new();
    accounts.push(payer_meta(creator));
    accounts.push(readonly_meta(partner0));
    accounts.push(readonly_meta(partner1));
    accounts.push(writable_meta(&wedding));
    accounts.push(readonly_meta(&record0));
    accounts.push(readonly_meta(&record1));
    accounts.push(readonly_meta(&system_program_id()));
    let mut data: Vec<u8> = Vec::new();
    data.extend_from_slice(SETUP_WEDDING_TAG.as_slice());
    let instruction = Instruction { program_id: *program_id, accounts, data };
    proof {
        let expected = setup_wedding_request(program_id@, creator@, partner0@, partner1@);
        assert(instruction@.accounts =~= expected->Ok_0.accounts);
        assert(instruction@.data =~= expected->Ok_0.data);
    }
    Ok(instruction)
}

/// Builds the request that withdraws a proposed agreement. `reply` is the
/// ledger's answer for the agreement record, read beforehand: the proposer
/// named in it gets the deposit back.
pub fn cancel_wedding(
    program_id: &Address,
    user: &Address,
    partner0: &Address,
    partner1: &Address,
    reply: &AccountReply,
) -> (r: Result<Instruction, RequestError>)
    ensures
        outcome_view(r) == cancel_wedding_request(program_id@, user@, partner0@, partner1@, *reply),
{
    let wedding = match find_wedding_pda(program_id, partner0, partner1) {
        Ok(address) => address,
        Err(_) => { return Err(RequestError::Derivation); },
    };
    let state = match get_wedding_state(reply) {
        Ok(state) => state,
        Err(e) => { return Err(RequestError::Read(e)); },
    };
    let mut accounts: Vec<AccountMeta> = Vec::new();
    accounts.push(payer_meta(user));
    accounts.push(writable_meta(&state.creator));
    accounts.push(readonly_meta(partner0));
    accounts.push(readonly_meta(partner1));
    accounts.push(writable_meta(&wedding));
    let mut data: Vec<u8> = Vec::new();
    data.extend_from_slice(CANCEL_WEDDING_TAG.as_slice());
    let instruction = Instruction { program_id: *program_id, accounts, data };
    proof {
        let expected = cancel_wedding_request(program_id@, user@, partner0@, partner1@, *reply);
        assert(instruction@.accounts =~= expected->Ok_0.accounts);
        assert(instruction@.data =~= expected->Ok_0.data);
    }
    Ok(instruction)
}

/// Builds the request that creates the record of `user` for the wedding with
/// `other`, with a name and vows.
pub fn setup_partner(
    program_id: &Address,
    user: &Address,
    other: &Address,
    name: &str,
    vows: &str,
) -> (r: Result<Instruction, RequestError>)
    ensures
        outcome_view(r) == setup_partner_request(program_id@, user@, other@, name@, vows@),
{
    let (partner, wedding) = match derive_own(program_id, user, other) {
        Some(found) => found,
        None => { return Err(RequestError::Derivation); },
    };
    let mut data: Vec<u8> = Vec::new();
    data.extend_from_slice(SETUP_PARTNER_TAG.as_slice());
    if !write_text(&mut data, name) {
        return Err(RequestError::TextTooLong);
    }
    if !write_text(&mut data, vows) {
        return Err(RequestError::TextTooLong);
    }
    let accounts = own_record_metas(user, other, &partner, &wedding);
    assert(data@ =~= SETUP_PARTNER_TAG@ + text_bytes(name@) + text_bytes(vows@));
    Ok(Instruction { program_id: *program_id, accounts, data })
}

/// Builds the request that closes the record of `user`.
pub fn close_partner(program_id: &Address, user: &Address, other: &Address) -> (r: Result<
    Instruction,
    RequestError,
>)
    ensures
        outcome_view(r) == close_partner_request(program_id@, user@, other@),
{
    let (partner, wedding) = match derive_own(program_id, user, other) {
        Some(found) => found,
        None => { return Err(RequestError::Derivation); },
    };
    let mut accounts: Vec<AccountMeta> = Vec::new();
    accounts.push(payer_meta(user));
    accounts.push(readonly_meta(other));
    accounts.push(writable_meta(&partner));
    accounts.push(readonly_meta(&wedding));
    let mut data: Vec<u8> = Vec::new();
    data.extend_from_slice(CLOSE_PARTNER_TAG.as_slice());
    let instruction = Instruction { program_id: *program_id, accounts, data };
    proof {
        let expected = close_partner_request(program_id@, user@, other@);
        assert(instruction@.accounts =~= expected->Ok_0.accounts);
        assert(instruction@.data =~= expected->Ok_0.data);
    }
    Ok(instruction)
}

/// Builds the request that replaces both the name and the vows of `user`.
pub fn update_partner(
    program_id: &Address,
    user: &Address,
    other: &Address,
    name: &str,
    vows: &str,
) -> (r: Result<Instruction, RequestError>)
    ensures
        outcome_view(r) == update_partner_request(program_id@, user@, other@, name@, vows@),
{
    let (partner, wedding) = match derive_own(program_id, user, other) {
        Some(found) => found,
        None => { return Err(RequestError::Derivation); },
    };
    let mut data: Vec<u8> = Vec::new();
    data.extend_from_slice(UPDATE_PARTNER_TAG.as_slice());
    if !write_text(&mut data, name) {
        return Err(RequestError::TextTooLong);
    }
    if !write_text(&mut data, vows) {
        return Err(RequestError::TextTooLong);
    }
    let accounts = own_record_metas(user, other, &partner, &wedding);
    assert(data@ =~= UPDATE_PARTNER_TAG@ + text_bytes(name@) + text_bytes(vows@));
    Ok(Instruction { program_id: *program_id, accounts, data })
}

/// Builds the request that replaces the name of `user`.
pub fn update_name(program_id: &Address, user: &Address, other: &Address, name: &str) -> (r:
    Result<Instruction, RequestError>)
    ensures
        outcome_view(r) == update_text_request(UPDATE_NAME_TAG@, program_id@, user@, other@, name@),
{
    let (partner, wedding) = match derive_own(program_id, user, other) {
        Some(found) => found,
        None => { return Err(RequestError::Derivation); },
    };
    let mut data: Vec<u8> = Vec::new();
    data.extend_from_slice(UPDATE_NAME_TAG.as_slice());
    if !write_text(&mut data, name) {
        return Err(RequestError::TextTooLong);
    }
    let accounts = own_record_metas(user, other, &partner, &wedding);
    assert(data@ =~= UPDATE_NAME_TAG@ + text_bytes(name@));
    Ok(Instruction { program_id: *program_id, accounts, data })
}

/// Builds the request that replaces the vows of `user`.
pub fn update_vows(program_id: &Address, user: &Address, other: &Address, vows: &str) -> (r:
    Result<Instruction, RequestError>)
    ensures
        outcome_view(r) == update_text_request(UPDATE_VOWS_TAG@, program_id@, user@, other@, vows@),
{
    let (partner, wedding) = match derive_own(program_id, user, other) {
        Some(found) => found,
        None => { return Err(RequestError::Derivation); },
    };
    let mut data: Vec<u8> = Vec::new();
    data.extend_from_slice(UPDATE_VOWS_TAG.as_slice());
    if !write_text(&mut data, vows) {
        return Err(RequestError::TextTooLong);
    }
    let accounts = own_record_metas(user, other, &partner, &wedding);
    assert(data@ =~= UPDATE_VOWS_TAG@ + text_bytes(vows@));
    Ok(Instruction { program_id: *program_id, accounts, data })
}

/// Builds the request that records the answer of `user` to the proposal.
pub fn give_answer(program_id: &Address, user: &Address, other: &Address, answer: bool) -> (r:
    Result<Instruction, RequestError>)
    ensures
        outcome_view(r) == give_answer_request(program_id@, user@, other@, answer),
{
    let (partner, other_partner, wedding) = match derive_all(program_id, user, other) {
        Some(found) => found,
        None => { return Err(RequestError::Derivation); },
    };
    let mut accounts: Vec<AccountMeta> = Vec::new();
    accounts.push(payer_meta(user));
    accounts.push(readonly_meta(other));
    accounts.push(writable_meta(&partner));
    accounts.push(readonly_meta(&other_partner));
    accounts.push(writable_meta(&wedding));
    accounts.push(readonly_meta(&system_program_id()));
    let mut data: Vec<u8> = Vec::new();
    data.extend_from_slice(GIVE_ANSWER_TAG.as_slice());
    write_flag(&mut data, answer);
    let instruction = Instruction { program_id: *program_id, accounts, data };
    proof {
        let expected = give_answer_request(program_id@, user@, other@, answer);
        assert(instruction@.accounts =~= expected->Ok_0.accounts);
        assert(instruction@.data =~= expected->Ok_0.data);
    }
    Ok(instruction)
}

/// Builds the request that dissolves the agreement of `user` with `other`.
/// `reply` is the ledger's answer for the agreement record, read beforehand:
/// the proposer named in it gets the deposit back.
pub fn divorce(program_id: &Address, user: &Address, other: &Address, reply: &AccountReply) -> (r:
    Result<Instruction, RequestError>)
    ensures
        outcome_view(r) == divorce_request(program_id@, user@, other@, *reply),
{
    let (partner, other_partner, wedding) = match derive_all(program_id, user, other) {
        Some(found) => found,
        None => { return Err(RequestError::Derivation); },
    };
    let state = match get_wedding_state(reply) {
        Ok(state) => state,
        Err(e) => { return Err(RequestError::Read(e)); },
    };
    let mut accounts: Vec<AccountMeta> = Vec::new();
    accounts.push(writable_meta(&state.creator));
    accounts.push(payer_meta(user));
    accounts.push(readonly_meta(other));
    accounts.push(writable_meta(&partner));
    accounts.push(writable_meta(&other_partner));
    accounts.push(writable_meta(&wedding));
    accounts.push(readonly_meta(&system_program_id()));
    let mut data: Vec<u8> = Vec::new();
    data.extend_from_slice(DIVORCE_TAG.as_slice());
    let instruction = Instruction { program_id: *program_id, accounts, data };
    proof {
        let expected = divorce_request(program_id@, user@, other@, *reply);
        assert(instruction@.accounts =~= expected->Ok_0.accounts);
        assert(instruction@.data =~= expected->Ok_0.data);
    }
    Ok(instruction)
}

} // verus!
