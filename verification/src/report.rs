//! The text in which records and the watcher's notices are shown to a user.
//!
//! Every line ends with a line feed. Addresses are shown in base58, texts in
//! quotes with their special characters escaped.

use crate::address::Address;
use crate::layout::{outcome_view, DecodeError};
use crate::state::{Partner, PartnerView, ReadError, Status, Wedding, WeddingView};
use crate::watch::{Notice, Notices};
use vstd::prelude::*;
use vstd::string::StringExecFns;

verus! {

/// The text that stands for the 32 bytes of an address: their base58 form.
pub uninterp spec fn address_base58(bytes: Seq<u8>) -> Seq<char>;

/// A text as a quoted literal, with its special characters escaped.
pub uninterp spec fn quoted_text(text: Seq<char>) -> Seq<char>;

/// `Display` of solana_sdk's `Pubkey`: the address's bytes in base58. The
/// text depends on the bytes alone; the contract gives it its name and claims
/// nothing more.
#[verifier::external_body]
fn address_text(address: &Address) -> (text: String)
    ensures
        text@ == address_base58(address@),
{
    solana_sdk::pubkey::Pubkey::new_from_array(address.bytes).to_string()
}

/// `Debug` of std's `str`, through `format!`: the text between double quotes,
/// escaped as a string literal. The result depends on the text alone; the
/// contract gives it its name and claims nothing more.
#[verifier::external_body]
fn quote(text: &str) -> (shown: String)
    ensures
        shown@ == quoted_text(text@),
{
    format!("{:?}", text)
}

/// The word for a status.
pub open spec fn status_name(status: Status) -> Seq<char> {
    match status {
        Status::Proposed => "Proposed"@,
        Status::Cancelled => "Cancelled"@,
        Status::Accepted => "Accepted"@,
        Status::Dissolved => "Dissolved"@,
    }
}

/// The word for a flag.
pub open spec fn flag_name(flag: bool) -> Seq<char> {
    if flag {
        "true"@
    } else {
        "false"@
    }
}

/// The words for the reason a read gave no record.
pub open spec fn read_error_name(error: ReadError) -> Seq<char> {
    match error {
        ReadError::NotFound => "NotFound"@,
        ReadError::Network => "Network"@,
        ReadError::Decode(DecodeError::Truncated) => "Decode(Truncated)"@,
        ReadError::Decode(DecodeError::WrongRecordType) => "Decode(WrongRecordType)"@,
        ReadError::Decode(DecodeError::InvalidField) => "Decode(InvalidField)"@,
    }
}

/// One line that shows an address under a label.
pub open spec fn address_line(label: Seq<char>, address: Seq<u8>) -> Seq<char> {
    label + address_base58(address) + "\n"@
}

/// The text that shows what a read of an agreement record gave.
pub open spec fn wedding_text(reading: Result<WeddingView, ReadError>) -> Seq<char> {
    match reading {
        Ok(wedding) => "---| wedding state |---\n"@ + address_line("creator: "@, wedding.creator)
            + address_line("partner0: "@, wedding.partner0) + address_line(
            "partner1: "@,
            wedding.partner1,
        ) + "status: "@ + status_name(wedding.status) + "\n"@ + "-----------------------\n"@,
        Err(error) => "---| wedding state |---\n"@ + "error getting state: "@ + read_error_name(
            error,
        ) + "\n"@ + "-----------------------\n"@,
    }
}

/// The text that shows what a read of a participant record gave.
pub open spec fn partner_text(reading: Result<PartnerView, ReadError>) -> Seq<char> {
    match reading {
        Ok(partner) => "---| partner state |---\n"@ + address_line("wedding: "@, partner.wedding)
            + address_line("user: "@, partner.user) + "name: "@ + quoted_text(partner.name)
            + "\n"@ + "vows: "@ + quoted_text(partner.vows) + "\n"@ + "answer: "@ + flag_name(
            partner.answer,
        ) + "\n"@ + "-----------------------\n"@,
        Err(error) => "---| partner state |---\n"@ + "error getting partner state: "@
            + read_error_name(error) + "\n"@ + "-----------------------\n"@,
    }
}

/// The text for the watcher's notice on the agreement record: the record
/// where it is new or has changed, one line where it is gone, the failure
/// where the read failed, and nothing where there is nothing to report.
pub open spec fn wedding_notice_text(notice: Notice<WeddingView>) -> Seq<char> {
    match notice {
        Notice::Quiet => Seq::empty(),
        Notice::Changed(wedding) => wedding_text(Ok(wedding)),
        Notice::Gone => "wedding account no longer exists...\n"@,
        Notice::ReadFailed(error) => wedding_text(Err(error)),
    }
}

/// The text for the watcher's notice on a participant record, which `gone`
/// tells of where the record is gone.
pub open spec fn partner_notice_text(notice: Notice<PartnerView>, gone: Seq<char>) -> Seq<char> {
    match notice {
        Notice::Quiet => Seq::empty(),
        Notice::Changed(partner) => partner_text(Ok(partner)),
        Notice::Gone => gone,
        Notice::ReadFailed(error) => partner_text(Err(error)),
    }
}

/// The text for one tick of the watcher: the notices on the agreement record
/// and on the two participant records, in this order.
pub open spec fn notices_text(
    wedding: Notice<WeddingView>,
    partner0: Notice<PartnerView>,
    partner1: Notice<PartnerView>,
) -> Seq<char> {
    wedding_notice_text(wedding) + partner_notice_text(
        partner0,
        "partner0 account no longer exists...\n"@,
    ) + partner_notice_text(partner1, "partner1 account no longer exists...\n"@)
}

/// Appends one line that shows an address under a label.
fn push_address_line(out: &mut String, label: &str, address: &Address)
    ensures
        final(out)@ == old(out)@ + address_line(label@, address@),
{
    out.append(label);
    let text = address_text(address);
    out.append(text.as_str());
    out.append("\n");
    assert(out@ =~= old(out)@ + address_line(label@, address@));
}

/// The word for a status.
pub fn status_word(status: Status) -> (word: &'static str)
    ensures
        word@ == status_name(status),
{
    match status {
        Status::Proposed => "Proposed",
        Status::Cancelled => "Cancelled",
        Status::Accepted => "Accepted",
        Status::Dissolved => "Dissolved",
    }
}

/// The words for the reason a read gave no record.
pub fn read_error_words(error: ReadError) -> (words: &'static str)
    ensures
        words@ == read_error_name(error),
{
    match error {
        ReadError::NotFound => "NotFound",
        ReadError::Network => "Network",
        ReadError::Decode(DecodeError::Truncated) => "Decode(Truncated)",
        ReadError::Decode(DecodeError::WrongRecordType) => "Decode(WrongRecordType)",
        ReadError::Decode(DecodeError::InvalidField) => "Decode(InvalidField)",
    }
}

/// Appends the text that shows an agreement record.
fn push_wedding(out: &mut String, wedding: &Wedding)
    ensures
        final(out)@ == old(out)@ + wedding_text(Ok(wedding@)),
{
    out.append("---| wedding state |---\n");
    push_address_line(out, "creator: ", &wedding.creator);
    push_address_line(out, "partner0: ", &wedding.partner0);
    push_address_line(out, "partner1: ", &wedding.partner1);
    out.append("status: ");
    out.append(status_word(wedding.status));
    out.append("\n");
    out.append("-----------------------\n");
    assert(out@ =~= old(out)@ + wedding_text(Ok(wedding@)));
}

/// Appends the text that shows a failed read of an agreement record.
fn push_wedding_error(out: &mut String, error: ReadError)
    ensures
        final(out)@ == old(out)@ + wedding_text(Err(error)),
{
    out.append("---| wedding state |---\n");
    out.append("error getting state: ");
    out.append(read_error_words(error));
    out.append("\n");
    out.append("-----------------------\n");
    assert(out@ =~= old(out)@ + wedding_text(Err(error)));
}

/// Appends the text that shows a participant record.
fn push_partner(out: &mut String, partner: &Partner)
    ensures
        final(out)@ == old(out)@ + partner_text(Ok(partner@)),
{
    out.append("---| partner state |---\n");
    push_address_line(out, "wedding: ", &partner.wedding);
    push_address_line(out, "user: ", &partner.user);
    out.append("name: ");
    let name = quote(partner.name.as_str());
    out.append(name.as_str());
    out.append("\n");
    out.append("vows: ");
    let vows = quote(partner.vows.as_str());
    out.append(vows.as_str());
    out.append("\n");
    out.append("answer: ");
    out.append(if partner.answer { "true" } else { "false" });
    out.append("\n");
    out.append("-----------------------\n");
    assert(out@ =~= old(out)@ + partner_text(Ok(partner@)));
}

/// Appends the text that shows a failed read of a participant record.
fn push_partner_error(out: &mut String, error: ReadError)
    ensures
        final(out)@ == old(out)@ + partner_text(Err(error)),
{
    out.append("---| partner state |---\n");
    out.append("error getting partner state: ");
    out.append(read_error_words(error));
    out.append("\n");
    out.append("-----------------------\n");
    assert(out@ =~= old(out)@ + partner_text(Err(error)));
}

/// The text that shows what a read of an agreement record gave: the record
/// field by field, or the reason there is none.
pub fn print_wedding(reading: &Result<Wedding, ReadError>) -> (text: String)
    ensures
        text@ == wedding_text(outcome_view(*reading)),
{
    let mut out = String::new();
    match reading {
        Ok(wedding) => push_wedding(&mut out, wedding),
        Err(error) => push_wedding_error(&mut out, *error),
    }
    assert(out@ =~= wedding_text(outcome_view(*reading)));
    out
}

/// The text that shows what a read of a participant record gave: the record
/// field by field, or the reason there is none.
pub fn print_partner(reading: &Result<Partner, ReadError>) -> (text: String)
    ensures
        text@ == partner_text(outcome_view(*reading)),
{
    let mut out = String::new();
    match reading {
        Ok(partner) => push_partner(&mut out, partner),
        Err(error) => push_partner_error(&mut out, *error),
    }
    assert(out@ =~= partner_text(outcome_view(*reading)));
    out
}

/// Appends the text for the watcher's notice on a participant record.
fn push_partner_notice(out: &mut String, notice: &Notice<Partner>, gone: &str)
    ensures
        final(out)@ == old(out)@ + partner_notice_text(notice@, gone@),
{
    match notice {
        Notice::Quiet => {},
        Notice::Changed(partner) => push_partner(out, partner),
        Notice::Gone => out.append(gone),
        Notice::ReadFailed(error) => push_partner_error(out, *error),
    }
    assert(out@ =~= old(out)@ + partner_notice_text(notice@, gone@));
}

/// The text to show for one tick of the watcher. It is empty where no
/// address has anything to report.
pub fn print_notices(notices: &Notices) -> (text: String)
    ensures
        text@ == notices_text(notices.wedding@, notices.partner0@, notices.partner1@),
{
    let mut out = String::new();
    match &notices.wedding {
        Notice::Quiet => {},
        Notice::Changed(wedding) => push_wedding(&mut out, wedding),
        Notice::Gone => out.append("wedding account no longer exists...\n"),
        Notice::ReadFailed(error) => push_wedding_error(&mut out, *error),
    }
    assert(out@ =~= wedding_notice_text(notices.wedding@));
    push_partner_notice(&mut out, &notices.partner0, "partner0 account no longer exists...\n");
    push_partner_notice(&mut out, &notices.partner1, "partner1 account no longer exists...\n");
    out
}

} // verus!
