//! Ledger addresses and the deterministic derivation of record addresses.
//!
//! A record's address is derived from a tag, the identities it belongs to and
//! the identifier of the program that owns the record. The agreement record of
//! two participants is addressed by the pair in canonical order, so that both
//! of them arrive at the same address whoever is named first.

use vstd::prelude::*;
use vstd::string::StringSliceAdditionalSpecFns;

verus! {

/// A 32-byte ledger address: a participant's identity or a derived record address.
#[derive(Clone, Copy, Debug)]
pub struct Address {
    pub bytes: [u8; 32],
}

impl View for Address {
    type V = Seq<u8>;

    open spec fn view(&self) -> Seq<u8> {
        self.bytes@
    }
}

impl PartialEq for Address {
    fn eq(&self, other: &Self) -> (r: bool) {
        let mut i: usize = 0;
        while i < 32
            invariant
                i <= 32,
                forall|j: int| 0 <= j < i ==> self.bytes@[j] == other.bytes@[j],
            decreases 32 - i,
        {
            if self.bytes[i] != other.bytes[i] {
                return false;
            }
            i += 1;
        }
        assert(self.bytes@ =~= other.bytes@);
        true
    }
}

impl Eq for Address {}

impl vstd::std_specs::cmp::PartialEqSpecImpl for Address {
    open spec fn obeys_eq_spec() -> bool {
        true
    }

    open spec fn eq_spec(&self, other: &Self) -> bool {
        self@ == other@
    }
}

/// The derivation found no address for the given seeds and program.
#[derive(Clone, Copy, Debug, PartialEq, Eq, Structural)]
pub struct DerivationError;

/// `a` comes strictly before `b` in the lexicographic order of their bytes.
pub open spec fn lex_less(a: Seq<u8>, b: Seq<u8>) -> bool
    recommends
        a.len() == b.len(),
{
    exists|k: int|
        0 <= k < a.len() && k < b.len() && #[trigger] a[k] < b[k] && a.subrange(0, k)
            == b.subrange(0, k)
}

/// The two identities with the lexicographically smaller one first.
pub open spec fn canonical_pair(a: Seq<u8>, b: Seq<u8>) -> (Seq<u8>, Seq<u8>) {
    if lex_less(b, a) {
        (b, a)
    } else {
        (a, b)
    }
}

/// Of two distinct byte strings of one length that agree on their first `n`
/// bytes, one comes before the other.
proof fn lemma_lex_total_from(a: Seq<u8>, b: Seq<u8>, n: int)
    requires
        a.len() == b.len(),
        0 <= n <= a.len(),
        a.subrange(0, n) == b.subrange(0, n),
        a != b,
    ensures
        lex_less(a, b) || lex_less(b, a),
    decreases a.len() - n,
{
    if n == a.len() {
        assert(a.subrange(0, n) =~= a);
        assert(b.subrange(0, n) =~= b);
    } else if a[n] == b[n] {
        assert(a.subrange(0, n + 1) =~= a.subrange(0, n).push(a[n]));
        assert(b.subrange(0, n + 1) =~= b.subrange(0, n).push(b[n]));
        lemma_lex_total_from(a, b, n + 1);
    } else if a[n] < b[n] {
        assert(lex_less(a, b));
    } else {
        assert(b[n] < a[n]);
        assert(lex_less(b, a));
    }
}

/// No byte string comes both before and after another.
pub proof fn lemma_lex_asymmetric(a: Seq<u8>, b: Seq<u8>)
    ensures
        !(lex_less(a, b) && lex_less(b, a)),
{
    if lex_less(a, b) && lex_less(b, a) {
        let k = choose|k: int|
            0 <= k < a.len() && k < b.len() && #[trigger] a[k] < b[k] && a.subrange(0, k)
                == b.subrange(0, k);
        let m = choose|m: int|
            0 <= m < b.len() && m < a.len() && #[trigger] b[m] < a[m] && b.subrange(0, m)
                == a.subrange(0, m);
        if k < m {
            assert(b.subrange(0, m)[k] == a.subrange(0, m)[k]);
        } else if m < k {
            assert(a.subrange(0, k)[m] == b.subrange(0, k)[m]);
        }
    }
}

/// Of two distinct byte strings of one length exactly one comes first.
pub proof fn lemma_lex_total(a: Seq<u8>, b: Seq<u8>)
    requires
        a.len() == b.len(),
        a != b,
    ensures
        lex_less(a, b) != lex_less(b, a),
{
    assert(a.subrange(0, 0) =~= b.subrange(0, 0));
    lemma_lex_total_from(a, b, 0);
    lemma_lex_asymmetric(a, b);
}

/// The canonical order of a pair does not depend on which identity is named
/// first.
pub proof fn lemma_canonical_pair_symmetric(a: Seq<u8>, b: Seq<u8>)
    requires
        a.len() == b.len(),
    ensures
        canonical_pair(a, b) == canonical_pair(b, a),
{
    if a != b {
        lemma_lex_total(a, b);
    }
}

/// Whether `a` comes strictly before `b` in the lexicographic order of their
/// bytes.
pub fn precedes(a: &Address, b: &Address) -> (r: bool)
    ensures
        r == lex_less(a@, b@),
{
    let mut i: usize = 0;
    while i < 32
        invariant
            i <= 32,
            a@.subrange(0, i as int) == b@.subrange(0, i as int),
        decreases 32 - i,
    {
        if a.bytes[i] != b.bytes[i] {
            let r = a.bytes[i] < b.bytes[i];
            proof {
                if r {
                    assert(a@[i as int] < b@[i as int]);
                } else {
                    assert(b@[i as int] < a@[i as int]);
                    assert(lex_less(b@, a@));
                    lemma_lex_asymmetric(a@, b@);
                }
            }
            return r;
        }
        proof {
            let n = i as int;
            assert(a@.subrange(0, n + 1) =~= a@.subrange(0, n).push(a@[n]));
            assert(b@.subrange(0, n + 1) =~= b@.subrange(0, n).push(b@[n]));
        }
        i += 1;
    }
    proof {
        assert(a@.subrange(0, 32) =~= a@);
        assert(b@.subrange(0, 32) =~= b@);
        assert forall|k: int| 0 <= k < 32 implies !(#[trigger] a@[k] < b@[k]) by {}
    }
    false
}

/// Puts two identities in canonical order: the lexicographically smaller one
/// first.
pub fn sort_pubkeys(a: &Address, b: &Address) -> (r: (Address, Address))
    ensures
        (r.0@, r.1@) == canonical_pair(a@, b@),
{
    if precedes(b, a) {
        (*b, *a)
    } else {
        (*a, *b)
    }
}

/// The address, with its bump seed, that the ledger's derivation gives for a
/// list of seeds under a program, or `None` where it finds none.
pub uninterp spec fn program_address(seeds: Seq<Seq<u8>>, program_id: Seq<u8>) -> Option<
    (Seq<u8>, u8),
>;

/// A derivation's outcome with the address taken by its bytes.
pub open spec fn derived_view(found: Option<(Address, u8)>) -> Option<(Seq<u8>, u8)> {
    match found {
        Some((address, bump)) => Some((address@, bump)),
        None => None,
    }
}

/// `Pubkey::try_find_program_address` of solana_sdk: the search for an address
/// off the curve, from the highest bump seed down. The result depends on the
/// seeds and the program identifier alone; the contract gives it its name and
/// claims nothing more.
#[verifier::external_body]
fn try_find_program_address(seeds: &Vec<&[u8]>, program_id: &Address) -> (found: Option<
    (Address, u8),
>)
    ensures
        derived_view(found) == program_address(seeds.deep_view(), program_id@),
{
    let program = solana_sdk::pubkey::Pubkey::new_from_array(program_id.bytes);
    match solana_sdk::pubkey::Pubkey::try_find_program_address(seeds.as_slice(), &program) {
        Some((key, bump)) => Some((Address { bytes: key.to_bytes() }, bump)),
        None => None,
    }
}

/// The tag under which a participant's record is derived.
pub open spec fn partner_tag() -> Seq<u8> {
    "partner".spec_bytes()
}

/// The tag under which an agreement record is derived.
pub open spec fn wedding_tag() -> Seq<u8> {
    "wedding".spec_bytes()
}

/// The address of a participant's record: derived from the tag and the
/// participant's identity.
pub open spec fn partner_address(program_id: Seq<u8>, partner: Seq<u8>) -> Option<Seq<u8>> {
    match program_address(seq![partner_tag(), partner], program_id) {
        Some((address, _)) => Some(address),
        None => None,
    }
}

/// The address of the agreement record of two participants: derived from the
/// tag and the two identities in canonical order.
pub open spec fn wedding_address(program_id: Seq<u8>, partner_a: Seq<u8>, partner_b: Seq<u8>) -> Option<
    Seq<u8>,
> {
    let (first, second) = canonical_pair(partner_a, partner_b);
    match program_address(seq![wedding_tag(), first, second], program_id) {
        Some((address, _)) => Some(address),
        None => None,
    }
}

/// What a derivation returns for the address the ledger's search gave.
pub open spec fn derivation_result(address: Option<Seq<u8>>, r: Result<Address, DerivationError>) -> bool {
    match address {
        Some(bytes) => r matches Ok(a) && a@ == bytes,
        None => r is Err,
    }
}

/// Derives the address of a participant's record under `program_id`.
pub fn find_partner_pda(program_id: &Address, partner: &Address) -> (r: Result<
    Address,
    DerivationError,
>)
    ensures
        derivation_result(partner_address(program_id@, partner@), r),
{
    let mut seeds: Vec<&[u8]> = Vec::new();
    seeds.push("partner".as_bytes());
    seeds.push(partner.bytes.as_slice());
    assert(seeds.deep_view() =~~= seq![partner_tag(), partner@]);
    match try_find_program_address(&seeds, program_id) {
        Some((address, _)) => Ok(address),
        None => Err(DerivationError),
    }
}

/// Derives the address of the agreement record of two participants under
/// `program_id`. The order of the two does not matter.
pub fn find_wedding_pda(program_id: &Address, partner_a: &Address, partner_b: &Address) -> (r:
    Result<Address, DerivationError>)
    ensures
        derivation_result(wedding_address(program_id@, partner_a@, partner_b@), r),
        derivation_result(wedding_address(program_id@, partner_b@, partner_a@), r),
{
    let (first, second) = sort_pubkeys(partner_a, partner_b);
    let mut seeds: Vec<&[u8]> = Vec::new();
    seeds.push("wedding".as_bytes());
    seeds.push(first.bytes.as_slice());
    seeds.push(second.bytes.as_slice());
    assert(seeds.deep_view() =~~= seq![wedding_tag(), first@, second@]);
    proof {
        lemma_wedding_address_symmetric(program_id@, partner_a@, partner_b@);
    }
    match try_find_program_address(&seeds, program_id) {
        Some((address, _)) => Ok(address),
        None => Err(DerivationError),
    }
}

/// Either participant computes the same agreement address: the derivation
/// gives one result for a pair, whichever identity is named first.
pub proof fn lemma_wedding_address_symmetric(program_id: Seq<u8>, x: Seq<u8>, y: Seq<u8>)
    requires
        x.len() == 32,
        y.len() == 32,
    ensures
        wedding_address(program_id, x, y) == wedding_address(program_id, y, x),
{
    lemma_canonical_pair_symmetric(x, y);
}

} // verus!
