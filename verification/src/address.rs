//! Record addresses and their derivation from seeds.
//!
//! Every record of the ledger lives at an address that is derived from a
//! domain tag and the values that identify the record. The derivation itself
//! is the program-address search of the Solana SDK; this module builds the
//! seed lists and gives the search a name that contracts can speak of.

use anchor_lang::prelude::Pubkey;
use vstd::prelude::*;
use vstd::slice::*;
use vstd::std_specs::cmp::PartialEqSpecImpl;
use vstd::utf8::*;

verus! {

/// A 32-byte identity: a signer, an asset, a holding account or a record.
#[derive(Clone, Copy, Debug)]
pub struct Address {
    pub bytes: [u8; 32],
}

impl PartialEq for Address {
    fn eq(&self, other: &Address) -> (r: bool) {
        let mut i: usize = 0;
        while i < 32
            invariant
                i <= 32,
                forall|j: int| 0 <= j < i ==> self.bytes[j] == other.bytes[j],
            decreases 32 - i,
        {
            if self.bytes[i] != other.bytes[i] {
                return false;
            }
            i = i + 1;
        }
        proof {
            assert(self.bytes =~= other.bytes);
        }
        true
    }
}

impl Eq for Address {

}

impl PartialEqSpecImpl for Address {
    open spec fn obeys_eq_spec() -> bool {
        true
    }

    open spec fn eq_spec(&self, other: &Address) -> bool {
        *self == *other
    }
}

impl Address {
    /// The address made of the given bytes.
    pub fn new(bytes: [u8; 32]) -> (a: Address)
        ensures
            a.bytes == bytes,
    {
        Address { bytes }
    }

    /// The bytes of the address.
    pub fn to_bytes(&self) -> (bytes: [u8; 32])
        ensures
            bytes == self.bytes,
    {
        self.bytes
    }
}

/// Domain tag of merchant records: the bytes of `merchant`.
pub const MERCHANT_TAG: [u8; 8] = [109, 101, 114, 99, 104, 97, 110, 116];

/// Domain tag of payment requests: the bytes of `request`.
pub const REQUEST_TAG: [u8; 7] = [114, 101, 113, 117, 101, 115, 116];

/// Domain tag of payment receipts: the bytes of `receipt`.
pub const RECEIPT_TAG: [u8; 7] = [114, 101, 99, 101, 105, 112, 116];

/// The UTF-8 bytes of an id.
pub open spec fn id_bytes(id: Seq<char>) -> Seq<u8> {
    encode_utf8(id)
}

/// `bytes` cut into consecutive seeds of at most 32 bytes. The seeds of a
/// list are hashed one after the other, so the cut does not change what is
/// hashed; it only keeps every seed within the accepted length.
pub open spec fn chunks(bytes: Seq<u8>) -> Seq<Seq<u8>>
    decreases bytes.len(),
{
    if bytes.len() <= 32 {
        seq![bytes]
    } else {
        seq![bytes.subrange(0, 32)] + chunks(bytes.subrange(32, bytes.len() as int))
    }
}

/// Seeds of the merchant record of `owner`.
pub open spec fn merchant_seeds(owner: Address) -> Seq<Seq<u8>> {
    seq![MERCHANT_TAG@, owner.bytes@]
}

/// Seeds of the request `request_id` of the merchant at `merchant`.
pub open spec fn request_seeds(merchant: Address, request_id: Seq<char>) -> Seq<Seq<u8>> {
    seq![REQUEST_TAG@, merchant.bytes@] + chunks(id_bytes(request_id))
}

/// Seeds of the receipt `receipt_id` of `payer`.
pub open spec fn receipt_seeds(payer: Address, receipt_id: Seq<char>) -> Seq<Seq<u8>> {
    seq![RECEIPT_TAG@, payer.bytes@] + chunks(id_bytes(receipt_id))
}

/// The byte sequences that a list of seeds holds.
pub open spec fn seed_views(seeds: Seq<Vec<u8>>) -> Seq<Seq<u8>> {
    seeds.map_values(|seed: Vec<u8>| seed@)
}

/// What `Pubkey::try_find_program_address` returns for a list of seeds and a
/// program id: the derived address with its bump seed, or `None` where the
/// search finds no address for them.
pub uninterp spec fn program_address(seeds: Seq<Seq<u8>>, program_id: Seq<u8>) -> Option<
    ([u8; 32], u8),
>;

/// Whether a list of seeds is one that the address search turns down
/// unseen: it has 16 seeds or more, or a seed of more than 32 bytes.
pub open spec fn out_of_bounds(seeds: Seq<Seq<u8>>) -> bool {
    seeds.len() >= 16 || exists|i: int| 0 <= i < seeds.len() && (#[trigger] seeds[i]).len() > 32
}

/// Calls `Pubkey::try_find_program_address` of the Solana SDK. The search
/// hashes the seeds, a bump seed and the program id, and tries bump seeds
/// from 255 downwards until the hash is no point of the ed25519 curve. The
/// contract claims that the outcome is a function of the seeds and the
/// program id, the one named `program_address`, and that the search finds
/// nothing for 16 seeds or more and for a seed of more than 32 bytes, which
/// it turns down before it hashes.
#[verifier::external_body]
fn find_program_address(seeds: &Vec<Vec<u8>>, program_id: &[u8; 32]) -> (found: Option<
    ([u8; 32], u8),
>)
    ensures
        found == program_address(seed_views(seeds@), program_id@),
        out_of_bounds(seed_views(seeds@)) ==> found is None,
{
    let parts: Vec<&[u8]> = seeds.iter().map(|seed| seed.as_slice()).collect();
    let program = Pubkey::new_from_array(*program_id);
    match Pubkey::try_find_program_address(&parts, &program) {
        Some((key, bump)) => Some((key.to_bytes(), bump)),
        None => None,
    }
}

/// The address and bump seed derived for `seeds` under `program_id`, if any.
pub open spec fn derived(program_id: Address, seeds: Seq<Seq<u8>>) -> Option<(Address, u8)> {
    match program_address(seeds, program_id.bytes@) {
        Some((bytes, bump)) => Some((Address { bytes }, bump)),
        None => None,
    }
}

/// Derives the address of the record that `seeds` identify. Nothing is
/// found for 16 seeds or more, nor for a seed of more than 32 bytes.
pub fn derive_address(program_id: &Address, seeds: &Vec<Vec<u8>>) -> (found: Option<(Address, u8)>)
    ensures
        found == derived(*program_id, seed_views(seeds@)),
        out_of_bounds(seed_views(seeds@)) ==> found is None,
{
    match find_program_address(seeds, &program_id.bytes) {
        Some((bytes, bump)) => Some((Address { bytes }, bump)),
        None => None,
    }
}

/// Appends to `seeds` the pieces that `bytes` is cut into.
fn push_chunks(seeds: &mut Vec<Vec<u8>>, bytes: &[u8])
    ensures
        seed_views(final(seeds)@) == seed_views(old(seeds)@) + chunks(bytes@),
{
    let ghost before = seed_views(seeds@);
    let mut start: usize = 0;
    proof {
        assert(bytes@.subrange(0, bytes@.len() as int) == bytes@);
    }
    while bytes.len() - start > 32
        invariant
            start <= bytes.len(),
            seed_views(seeds@) + chunks(bytes@.subrange(start as int, bytes@.len() as int))
                == before + chunks(bytes@),
        decreases bytes.len() - start,
    {
        let ghost rest = bytes@.subrange(start as int, bytes@.len() as int);
        let piece = slice_to_vec(slice_subrange(bytes, start, start + 32));
        proof {
            assert(piece@ == rest.subrange(0, 32));
            assert(rest.subrange(32, rest.len() as int) == bytes@.subrange(
                start + 32,
                bytes@.len() as int,
            ));
            assert(seed_views(seeds@.push(piece)) == seed_views(seeds@).push(piece@));
        }
        seeds.push(piece);
        start = start + 32;
    }
    let ghost rest = bytes@.subrange(start as int, bytes@.len() as int);
    let piece = slice_to_vec(slice_subrange(bytes, start, bytes.len()));
    proof {
        assert(piece@ == rest);
        assert(seed_views(seeds@.push(piece)) == seed_views(seeds@).push(piece@));
    }
    seeds.push(piece);
}

/// The seeds that stand for an id: its bytes, cut into pieces of at most 32.
pub fn id_seeds(id: &str) -> (seeds: Vec<Vec<u8>>)
    ensures
        seed_views(seeds@) == chunks(id_bytes(id@)),
{
    let mut seeds: Vec<Vec<u8>> = Vec::new();
    push_chunks(&mut seeds, id.as_bytes());
    proof {
        assert(Seq::<Seq<u8>>::empty() + chunks(id_bytes(id@)) =~= chunks(id_bytes(id@)));
    }
    seeds
}

/// The seed list that starts with a domain tag and a 32-byte parent.
fn tagged_seeds(tag: &[u8], parent: &Address) -> (seeds: Vec<Vec<u8>>)
    ensures
        seed_views(seeds@) == seq![tag@, parent.bytes@],
{
    let mut seeds: Vec<Vec<u8>> = Vec::new();
    seeds.push(slice_to_vec(tag));
    seeds.push(slice_to_vec(parent.bytes.as_slice()));
    proof {
        assert(seed_views(seeds@) =~= seq![tag@, parent.bytes@]);
    }
    seeds
}

/// The address and bump seed of the merchant record of `owner`.
pub fn merchant_address(program_id: &Address, owner: &Address) -> (found: Option<(Address, u8)>)
    ensures
        found == derived(*program_id, merchant_seeds(*owner)),
{
    let seeds = tagged_seeds(MERCHANT_TAG.as_slice(), owner);
    derive_address(program_id, &seeds)
}

/// The address and bump seed of the request `request_id` of the merchant at
/// `merchant`.
pub fn request_address(program_id: &Address, merchant: &Address, request_id: &str) -> (found:
    Option<(Address, u8)>)
    ensures
        found == derived(*program_id, request_seeds(*merchant, request_id@)),
{
    let mut seeds = tagged_seeds(REQUEST_TAG.as_slice(), merchant);
    push_chunks(&mut seeds, request_id.as_bytes());
    derive_address(program_id, &seeds)
}

/// The address and bump seed of the receipt `receipt_id` of `payer`.
pub fn receipt_address(program_id: &Address, payer: &Address, receipt_id: &str) -> (found:
    Option<(Address, u8)>)
    ensures
        found == derived(*program_id, receipt_seeds(*payer, receipt_id@)),
{
    let mut seeds = tagged_seeds(RECEIPT_TAG.as_slice(), payer);
    push_chunks(&mut seeds, receipt_id.as_bytes());
    derive_address(program_id, &seeds)
}

} // verus!
