//! Transaction handles and the links that show them to a user.

use vstd::prelude::*;
use vstd::string::StringExecFns;

verus! {

/// The number of lamports in one SOL.
pub const LAMPORTS_PER_SOL: u64 = 1_000_000_000;

/// The handle of a transaction: the 64 bytes of its first signature.
#[derive(Clone, Copy, Debug, PartialEq, Eq)]
pub struct Signature {
    pub bytes: [u8; 64],
}

impl View for Signature {
    type V = Seq<u8>;

    open spec fn view(&self) -> Seq<u8> {
        self.bytes@
    }
}

/// The text that stands for the 64 bytes of a signature: their base58 form.
pub uninterp spec fn signature_base58(bytes: Seq<u8>) -> Seq<char>;

/// `Display` of solana_sdk's `Signature`: the signature's bytes in base58.
/// The text depends on the bytes alone; the contract gives it its name and
/// claims nothing more.
#[verifier::external_body]
fn signature_text(signature: &Signature) -> (text: String)
    ensures
        text@ == signature_base58(signature@),
{
    solana_sdk::signature::Signature::from(signature.bytes).to_string()
}

/// The address of the explorer page of a transaction, on the main cluster or
/// on the named one.
pub open spec fn tx_link(signature: Seq<u8>, cluster: Option<Seq<char>>) -> Seq<char> {
    match cluster {
        None => "https://explorer.solana.com/tx/"@ + signature_base58(signature),
        Some(network) => "https://explorer.solana.com/tx/"@ + signature_base58(signature)
            + "?cluster="@ + network,
    }
}

/// The link under which a user can look a transaction up.
pub fn get_tx_link(sig: &Signature, cluster: Option<&str>) -> (link: String)
    ensures
        link@ == tx_link(
            sig@,
            match cluster {
                Some(network) => Some(network@),
                None => None,
            },
        ),
{
    let mut link = String::from_str("https://explorer.solana.com/tx/");
    let text = signature_text(sig);
    link.append(text.as_str());
    match cluster {
        None => {},
        Some(network) => {
            link.append("?cluster=");
            link.append(network);
        },
    }
    link
}

} // verus!
