use anchor_lang::prelude::Pubkey;
use vstd::prelude::*;
use vstd::slice::slice_to_vec;
use vstd::string::StringSliceAdditionalSpecFns;

use crate::key::Key;

verus! {

/// The address of this program; every record address is derived under it.
pub const PROGRAM_ID: [u8; 32] = [
    147, 45, 148, 199, 14, 46, 33, 228, 146, 244, 93, 75, 205, 167, 17, 156, 139, 135, 99, 121,
    226, 169, 49, 174, 155, 132, 75, 136, 196, 81, 174, 3,
];

/// The address and bump seed that the ledger derives from `seeds` under
/// `program`, or none where no bump gives an address off the curve.
pub uninterp spec fn program_address(program: Seq<u8>, seeds: Seq<Seq<u8>>) -> Option<(Seq<u8>, u8)>;

/// Relies on `Pubkey::try_find_program_address` of solana-program: the result
/// is a function of the seeds and the program id alone.
#[verifier::external_body]
fn find_program_address(seeds: &Vec<Vec<u8>>, program: &Key) -> (r: Option<(Key, u8)>)
    ensures
        r matches Some((k, b)) ==> program_address(program@, seeds.deep_view()) == Some((k@, b)),
        r is None ==> program_address(program@, seeds.deep_view()) is None,
{
    let parts: Vec<&[u8]> = seeds.iter().map(|s| s.as_slice()).collect();
    let program = Pubkey::new_from_array(program.bytes);
    Pubkey::try_find_program_address(&parts, &program).map(|(k, b)| (Key::new(k.to_bytes()), b))
}

/// A derived address together with the bump seed that makes it one.
#[derive(Clone, Copy, Debug)]
pub struct DerivedAddress {
    pub address: Key,
    pub bump: u8,
}

pub open spec fn program_key() -> Seq<u8> {
    PROGRAM_ID@
}

/// What `derive_address` returns for `seeds`, viewed as plain values.
pub open spec fn derived(seeds: Seq<Seq<u8>>) -> Option<(Seq<u8>, u8)> {
    program_address(program_key(), seeds)
}

pub open spec fn campaign_seeds_of(campaign_id: u8) -> Seq<Seq<u8>> {
    seq!["campaign".spec_bytes(), seq![campaign_id]]
}

pub open spec fn completion_seeds_of(campaign_id: u8, player: Seq<u8>, bug_id: u8) -> Seq<Seq<u8>> {
    seq!["completion".spec_bytes(), seq![campaign_id], player, seq![bug_id]]
}

pub open spec fn progress_seeds_of(campaign_id: u8, player: Seq<u8>) -> Seq<Seq<u8>> {
    seq!["progress".spec_bytes(), seq![campaign_id], player]
}

pub open spec fn collection_seeds_of(collection: Seq<u8>) -> Seq<Seq<u8>> {
    seq!["collection".spec_bytes(), collection]
}

pub open spec fn derived_view(r: Option<DerivedAddress>) -> Option<(Seq<u8>, u8)> {
    match r {
        Some(d) => Some((d.address@, d.bump)),
        None => None,
    }
}

fn tag_bytes(tag: &str) -> (r: Vec<u8>)
    ensures
        r@ == tag.spec_bytes(),
{
    slice_to_vec(tag.as_bytes())
}

fn key_bytes(k: &Key) -> (r: Vec<u8>)
    ensures
        r@ == k@,
{
    slice_to_vec(k.bytes.as_slice())
}

/// Derives the address of a record from its seeds, under this program.
pub fn derive_address(seeds: &Vec<Vec<u8>>) -> (r: Option<DerivedAddress>)
    ensures
        derived_view(r) == derived(seeds.deep_view()),
{
    let program = Key::new(PROGRAM_ID);
    match find_program_address(seeds, &program) {
        Some((address, bump)) => Some(DerivedAddress { address, bump }),
        None => None,
    }
}

/// Seeds of a campaign record: the tag and the campaign id.
pub fn campaign_seeds(campaign_id: u8) -> (r: Vec<Vec<u8>>)
    ensures
        r.deep_view() == campaign_seeds_of(campaign_id),
{
    let r = vec![tag_bytes("campaign"), vec![campaign_id]];
    assert(r.deep_view() =~~= campaign_seeds_of(campaign_id));
    r
}

/// Seeds of a completion record: the tag, the campaign, the player and the bug.
pub fn completion_seeds(campaign_id: u8, player: &Key, bug_id: u8) -> (r: Vec<Vec<u8>>)
    ensures
        r.deep_view() == completion_seeds_of(campaign_id, player@, bug_id),
{
    let r = vec![tag_bytes("completion"), vec![campaign_id], key_bytes(player), vec![bug_id]];
    assert(r.deep_view() =~~= completion_seeds_of(campaign_id, player@, bug_id));
    r
}

/// Seeds of a progress record: the tag, the campaign and the player.
pub fn progress_seeds(campaign_id: u8, player: &Key) -> (r: Vec<Vec<u8>>)
    ensures
        r.deep_view() == progress_seeds_of(campaign_id, player@),
{
    let r = vec![tag_bytes("progress"), vec![campaign_id], key_bytes(player)];
    assert(r.deep_view() =~~= progress_seeds_of(campaign_id, player@));
    r
}

/// Seeds of a collection authority record: the tag and the collection.
pub fn collection_seeds(collection: &Key) -> (r: Vec<Vec<u8>>)
    ensures
        r.deep_view() == collection_seeds_of(collection@),
{
    let r = vec![tag_bytes("collection"), key_bytes(collection)];
    assert(r.deep_view() =~~= collection_seeds_of(collection@));
    r
}

/// The seeds with which a collection authority signs: its own seeds and its bump.
pub fn collection_signer_seeds(collection: &Key, bump: u8) -> (r: Vec<Vec<u8>>)
    ensures
        r.deep_view() == collection_seeds_of(collection@).push(seq![bump]),
{
    let mut r = collection_seeds(collection);
    r.push(vec![bump]);
    assert(r.deep_view() =~~= collection_seeds_of(collection@).push(seq![bump]));
    r
}

pub fn campaign_address(campaign_id: u8) -> (r: Option<DerivedAddress>)
    ensures
        derived_view(r) == derived(campaign_seeds_of(campaign_id)),
{
    derive_address(&campaign_seeds(campaign_id))
}

pub fn completion_address(campaign_id: u8, player: &Key, bug_id: u8) -> (r: Option<DerivedAddress>)
    ensures
        derived_view(r) == derived(completion_seeds_of(campaign_id, player@, bug_id)),
{
    derive_address(&completion_seeds(campaign_id, player, bug_id))
}

pub fn progress_address(campaign_id: u8, player: &Key) -> (r: Option<DerivedAddress>)
    ensures
        derived_view(r) == derived(progress_seeds_of(campaign_id, player@)),
{
    derive_address(&progress_seeds(campaign_id, player))
}

pub fn collection_authority_address(collection: &Key) -> (r: Option<DerivedAddress>)
    ensures
        derived_view(r) == derived(collection_seeds_of(collection@)),
{
    derive_address(&collection_seeds(collection))
}

} // verus!
