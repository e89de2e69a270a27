use anchor_lang::prelude::Pubkey;
use vstd::prelude::*;

use crate::address::{collection_seeds_of, collection_signer_seeds};
use crate::error::ErrorCode;
use crate::key::Key;
use crate::state::{Campaign, CollectionAuthority};

verus! {

/// The base58 text of a 32-byte identity.
pub uninterp spec fn base58_of(bytes: Seq<u8>) -> Seq<char>;

/// Relies on the `Display` impl of solana-program's `Pubkey`, which writes
/// `bs58::encode` of the 32 bytes.
#[verifier::external_body]
fn key_text(k: &Key) -> (r: String)
    ensures
        r@ == base58_of(k@),
{
    Pubkey::new_from_array(k.bytes).to_string()
}

/// The decimal digits of a natural number, most significant first.
pub open spec fn digits_of(n: nat) -> Seq<char>
    decreases n,
{
    let d = ((n % 10) + ('0' as nat)) as char;
    if n < 10 {
        seq![d]
    } else {
        digits_of(n / 10).push(d)
    }
}

/// The decimal text of an integer, with a leading `-` when negative.
pub open spec fn decimal_of(n: int) -> Seq<char> {
    if n < 0 {
        seq!['-'] + digits_of((-n) as nat)
    } else {
        digits_of(n as nat)
    }
}

/// Relies on `ToString` for `i64` through its `Display` impl: the decimal
/// text of the number.
#[verifier::external_body]
fn decimal_text(n: i64) -> (r: String)
    ensures
        r@ == decimal_of(n as int),
{
    n.to_string()
}

/// The bytes of the minting service's program id,
/// `CoREENxT6tW1HoK8ypY1SxRMZTcVPm7R94rH4PZNhX7d`.
pub open spec fn core_program_key() -> Seq<u8> {
    seq![
        175u8, 84u8, 171u8, 16u8, 189u8, 151u8, 165u8, 66u8, 160u8, 158u8, 247u8, 179u8, 152u8,
        137u8, 221u8, 12u8, 211u8, 148u8, 164u8, 204u8, 233u8, 223u8, 166u8, 205u8, 201u8, 126u8,
        190u8, 45u8, 35u8, 91u8, 167u8, 72u8,
    ]
}

/// Relies on `mpl_core::ID`, the program id that mpl-core declares.
#[verifier::external_body]
fn core_program_id() -> (r: Key)
    ensures
        r@ == core_program_key(),
{
    Key::new(mpl_core::ID.to_bytes())
}

/// What a new collection is called, and what its assets will be called.
#[derive(Clone, Debug)]
pub struct CreateCollectionArgs {
    pub name: String,
    pub uri: String,
    pub nft_name: String,
    pub nft_uri: String,
}

/// The records that creating a collection touches: the creator, the fresh
/// collection account, the slot of the collection authority at the address
/// derived from the collection, and the campaign.
#[derive(Clone, Debug)]
pub struct CreateCollection {
    pub creator: Key,
    pub collection: Key,
    pub collection_data_empty: bool,
    pub collection_authority: Option<CollectionAuthority>,
    pub campaign: Campaign,
}

#[derive(Clone, Copy, Debug)]
pub struct CreateCollectionBumps {
    pub collection_authority: u8,
}

/// What the minting service is asked to do to create a collection, signed
/// by the collection authority's seeds, with no plugins.
#[derive(Clone, Debug)]
pub struct CollectionRequest {
    pub collection: Key,
    pub payer: Key,
    pub name: String,
    pub uri: String,
    pub signer_seeds: Vec<Vec<u8>>,
}

/// The first failing check of a collection creation, if any.
pub open spec fn create_collection_check(ctx: CreateCollection) -> Option<ErrorCode> {
    if ctx.creator@ != ctx.campaign.game_authority@ {
        Some(ErrorCode::NotAuthorized)
    } else if !ctx.collection_data_empty || ctx.collection_authority is Some {
        Some(ErrorCode::CollectionAlreadyInitialized)
    } else {
        None
    }
}

/// The records after a successful collection creation: the authority record
/// is written, nothing else changes.
pub open spec fn collection_created(
    pre: CreateCollection,
    post: CreateCollection,
    args: CreateCollectionArgs,
    bump: u8,
) -> bool {
    let a = post.collection_authority->0;
    &&& post.collection_authority is Some
    &&& a.creator == pre.creator
    &&& a.collection == pre.collection
    &&& a.nft_name@ == args.nft_name@
    &&& a.nft_uri@ == args.nft_uri@
    &&& a.bump == bump
    &&& post.creator == pre.creator
    &&& post.collection == pre.collection
    &&& post.collection_data_empty == pre.collection_data_empty
    &&& post.campaign == pre.campaign
}

impl CreateCollection {
    /// Binds the collection to a collection authority record and prepares the
    /// request that creates it at the minting service, with that record as
    /// its update authority. Only the campaign's authority may do so, and
    /// only once per collection.
    pub fn create_collection(
        &mut self,
        campaign_id: u8,
        args: CreateCollectionArgs,
        bumps: &CreateCollectionBumps,
    ) -> (r: Result<CollectionRequest, ErrorCode>)
        ensures
            r is Ok <==> create_collection_check(*old(self)) is None,
            create_collection_check(*old(self)) matches Some(e) ==> r == Err::<
                CollectionRequest,
                ErrorCode,
            >(e),
            r is Err ==> *final(self) == *old(self),
            r is Ok ==> collection_created(*old(self), *final(self), args, bumps.collection_authority),
            r matches Ok(q) ==> {
                &&& q.collection == old(self).collection
                &&& q.payer == old(self).creator
                &&& q.name@ == args.name@
                &&& q.uri@ == args.uri@
                &&& q.signer_seeds.deep_view() == collection_seeds_of(old(self).collection@).push(
                    seq![bumps.collection_authority],
                )
            },
    {
        if !self.campaign.game_authority.equals(&self.creator) {
            return Err(ErrorCode::NotAuthorized);
        }
        if !self.collection_data_empty || self.collection_authority.is_some() {
            return Err(ErrorCode::CollectionAlreadyInitialized);
        }
        let CreateCollectionArgs { name, uri, nft_name, nft_uri } = args;
        self.collection_authority = Some(
            CollectionAuthority {
                creator: self.creator,
                collection: self.collection,
                nft_name,
                nft_uri,
                bump: bumps.collection_authority,
            },
        );
        Ok(
            CollectionRequest {
                collection: self.collection,
                payer: self.creator,
                name,
                uri,
                signer_seeds: collection_signer_seeds(&self.collection, bumps.collection_authority),
            },
        )
    }
}

/// One key/value attribute attached to a minted asset.
#[derive(Clone, Debug, PartialEq, Eq)]
pub struct Attribute {
    pub key: String,
    pub value: String,
}

pub open spec fn attribute_view(a: Attribute) -> (Seq<char>, Seq<char>) {
    (a.key@, a.value@)
}

pub open spec fn attributes_view(v: Seq<Attribute>) -> Seq<(Seq<char>, Seq<char>)> {
    v.map_values(|a: Attribute| attribute_view(a))
}

/// The attributes of an asset minted for `bug_id` at time `now`.
pub open spec fn mint_attributes(
    creator: Seq<u8>,
    minter: Seq<u8>,
    collection: Seq<u8>,
    now: i64,
    bug_id: u8,
) -> Seq<(Seq<char>, Seq<char>)> {
    seq![
        ("Creator"@, base58_of(creator)),
        ("Minter"@, base58_of(minter)),
        ("Collection"@, base58_of(collection)),
        ("Mint Timestamp"@, decimal_of(now as int)),
        ("Bug ID"@, decimal_of(bug_id as int)),
    ]
}

/// The records that minting touches: the minter, the fresh asset account,
/// the collection account and who owns it, and the collection authority.
#[derive(Clone, Debug)]
pub struct MintNft {
    pub minter: Key,
    pub asset: Key,
    pub asset_data_empty: bool,
    pub collection: Key,
    pub collection_owner: Key,
    pub collection_data_empty: bool,
    pub collection_authority: CollectionAuthority,
}

/// What the minting service is asked to do to mint one asset into the
/// collection, owned by the minter, signed by the collection authority's
/// seeds, with one attribute list and no update authority of its own.
#[derive(Clone, Debug)]
pub struct MintRequest {
    pub asset: Key,
    pub collection: Key,
    pub payer: Key,
    pub owner: Key,
    pub name: String,
    pub uri: String,
    pub attributes: Vec<Attribute>,
    pub signer_seeds: Vec<Vec<u8>>,
}

/// The first failing check of a mint, if any.
pub open spec fn mint_check(ctx: MintNft) -> Option<ErrorCode> {
    if !ctx.asset_data_empty {
        Some(ErrorCode::AssetAlreadyInitialized)
    } else if ctx.collection_owner@ != core_program_key() {
        Some(ErrorCode::InvalidCollection)
    } else if ctx.collection_data_empty {
        Some(ErrorCode::CollectionNotInitialized)
    } else if ctx.collection@ != ctx.collection_authority.collection@ {
        Some(ErrorCode::InvalidCollection)
    } else {
        None
    }
}

fn attribute(key: &str, value: String) -> (r: Attribute)
    ensures
        attribute_view(r) == (key@, value@),
{
    Attribute { key: key.to_owned(), value }
}

impl MintNft {
    /// Prepares the request that mints an asset for `bug_id` at time `now`,
    /// once the asset is fresh and the collection is the initialized one
    /// that the collection authority is bound to. Minting is decoupled from
    /// the completion records: no record learns the asset's identity.
    pub fn mint_nft(&self, bug_id: u8, name: String, nft_uri: String, now: i64) -> (r: Result<
        MintRequest,
        ErrorCode,
    >)
        ensures
            r is Ok <==> mint_check(*self) is None,
            mint_check(*self) matches Some(e) ==> r == Err::<MintRequest, ErrorCode>(e),
            r matches Ok(q) ==> {
                &&& q.asset == self.asset
                &&& q.collection == self.collection
                &&& q.payer == self.minter
                &&& q.owner == self.minter
                &&& q.name@ == name@
                &&& q.uri@ == nft_uri@
                &&& attributes_view(q.attributes@) == mint_attributes(
                    self.collection_authority.creator@,
                    self.minter@,
                    self.collection@,
                    now,
                    bug_id,
                )
                &&& q.signer_seeds.deep_view() == collection_seeds_of(self.collection@).push(
                    seq![self.collection_authority.bump],
                )
            },
    {
        if !self.asset_data_empty {
            return Err(ErrorCode::AssetAlreadyInitialized);
        }
        let core = core_program_id();
        if !self.collection_owner.equals(&core) {
            return Err(ErrorCode::InvalidCollection);
        }
        if self.collection_data_empty {
            return Err(ErrorCode::CollectionNotInitialized);
        }
        if !self.collection.equals(&self.collection_authority.collection) {
            return Err(ErrorCode::InvalidCollection);
        }
        let attributes = vec![
            attribute("Creator", key_text(&self.collection_authority.creator)),
            attribute("Minter", key_text(&self.minter)),
            attribute("Collection", key_text(&self.collection)),
            attribute("Mint Timestamp", decimal_text(now)),
            attribute("Bug ID", decimal_text(bug_id as i64)),
        ];
        assert(attributes_view(attributes@) =~= mint_attributes(
            self.collection_authority.creator@,
            self.minter@,
            self.collection@,
            now,
            bug_id,
        ));
        Ok(
            MintRequest {
                asset: self.asset,
                collection: self.collection,
                payer: self.minter,
                owner: self.minter,
                name,
                uri: nft_uri,
                attributes,
                signer_seeds: collection_signer_seeds(
                    &self.collection,
                    self.collection_authority.bump,
                ),
            },
        )
    }
}

} // verus!
