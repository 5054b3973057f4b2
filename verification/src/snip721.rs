//! Types shared with the NFT collection contract: token metadata, royalty
//! and mint-run records, the dossier the collection answers for a token, and
//! the messages this contract sends it.
//!
//! Each record that carries addresses exists in two forms: a displayable
//! form, as it crosses the wire, and a stored form over canonical addresses.
//! Conversion threads a [`KeyDirectory`] and never compares across forms.

use vstd::prelude::*;

verus! {

use crate::addr::CanonAddr;
use crate::addr::HumanAddr;
use crate::addr::KeyDirectory;
use crate::error::GumballError;

/// Media file authentication: a decryption key or basic-auth credentials.
#[derive(Debug)]
pub struct Authentication {
    pub key: Option<String>,
    pub user: Option<String>,
}

/// A media file attached to a token.
#[derive(Debug)]
pub struct MediaFile {
    pub file_type: Option<String>,
    pub extension: Option<String>,
    pub authentication: Option<Authentication>,
    pub url: String,
}

/// One display attribute of a token.
#[derive(Debug)]
pub struct Trait {
    pub display_type: Option<String>,
    pub trait_type: Option<String>,
    pub value: String,
    pub max_value: Option<String>,
}

/// On-chain metadata extension of a token.
#[derive(Debug)]
pub struct Extension {
    pub image: Option<String>,
    pub image_data: Option<String>,
    pub external_url: Option<String>,
    pub description: Option<String>,
    pub name: Option<String>,
    pub attributes: Option<Vec<Trait>>,
    pub background_color: Option<String>,
    pub animation_url: Option<String>,
    pub youtube_url: Option<String>,
    pub media: Option<Vec<MediaFile>>,
    pub protected_attributes: Option<Vec<String>>,
}

/// Public metadata of a token: an off-chain uri or an on-chain extension.
#[derive(Debug)]
pub struct Metadata {
    pub token_uri: Option<String>,
    pub extension: Option<Extension>,
}

/// Whether two optional strings display the same text.
pub open spec fn opt_str_eqv(a: Option<String>, b: Option<String>) -> bool {
    match (a, b) {
        (Option::None, Option::None) => true,
        (Option::Some(x), Option::Some(y)) => x@ == y@,
        _ => false,
    }
}

/// Whether two authentication records display the same.
pub open spec fn auth_eqv(a: Authentication, b: Authentication) -> bool {
    opt_str_eqv(a.key, b.key) && opt_str_eqv(a.user, b.user)
}

/// Whether two media files display the same.
pub open spec fn media_eqv(a: MediaFile, b: MediaFile) -> bool {
    &&& opt_str_eqv(a.file_type, b.file_type)
    &&& opt_str_eqv(a.extension, b.extension)
    &&& match (a.authentication, b.authentication) {
        (Option::None, Option::None) => true,
        (Option::Some(x), Option::Some(y)) => auth_eqv(x, y),
        _ => false,
    }
    &&& a.url@ == b.url@
}

/// Whether two attributes display the same.
pub open spec fn trait_eqv(a: Trait, b: Trait) -> bool {
    &&& opt_str_eqv(a.display_type, b.display_type)
    &&& opt_str_eqv(a.trait_type, b.trait_type)
    &&& a.value@ == b.value@
    &&& opt_str_eqv(a.max_value, b.max_value)
}

/// Whether two metadata extensions display the same.
pub open spec fn extension_eqv(a: Extension, b: Extension) -> bool {
    &&& opt_str_eqv(a.image, b.image)
    &&& opt_str_eqv(a.image_data, b.image_data)
    &&& opt_str_eqv(a.external_url, b.external_url)
    &&& opt_str_eqv(a.description, b.description)
    &&& opt_str_eqv(a.name, b.name)
    &&& match (a.attributes, b.attributes) {
        (Option::None, Option::None) => true,
        (Option::Some(x), Option::Some(y)) => x@.len() == y@.len() && (forall|i: int|
            0 <= i < x@.len() ==> trait_eqv(x@[i], #[trigger] y@[i])),
        _ => false,
    }
    &&& opt_str_eqv(a.background_color, b.background_color)
    &&& opt_str_eqv(a.animation_url, b.animation_url)
    &&& opt_str_eqv(a.youtube_url, b.youtube_url)
    &&& match (a.media, b.media) {
        (Option::None, Option::None) => true,
        (Option::Some(x), Option::Some(y)) => x@.len() == y@.len() && (forall|i: int|
            0 <= i < x@.len() ==> media_eqv(x@[i], #[trigger] y@[i])),
        _ => false,
    }
    &&& match (a.protected_attributes, b.protected_attributes) {
        (Option::None, Option::None) => true,
        (Option::Some(x), Option::Some(y)) => x@.len() == y@.len() && (forall|i: int|
            0 <= i < x@.len() ==> x@[i]@ == #[trigger] y@[i]@),
        _ => false,
    }
}

/// Whether two metadata records display the same.
pub open spec fn metadata_eqv(a: Metadata, b: Metadata) -> bool {
    &&& opt_str_eqv(a.token_uri, b.token_uri)
    &&& match (a.extension, b.extension) {
        (Option::None, Option::None) => true,
        (Option::Some(x), Option::Some(y)) => extension_eqv(x, y),
        _ => false,
    }
}

/// Whether two optional metadata records display the same.
pub open spec fn opt_metadata_eqv(a: Option<Metadata>, b: Option<Metadata>) -> bool {
    match (a, b) {
        (Option::None, Option::None) => true,
        (Option::Some(x), Option::Some(y)) => metadata_eqv(x, y),
        _ => false,
    }
}

/// An owned copy of an optional string.
pub fn dup_opt_str(a: &Option<String>) -> (r: Option<String>)
    ensures
        opt_str_eqv(*a, r),
{
    match a {
        Option::Some(s) => Option::Some(s.clone()),
        Option::None => Option::None,
    }
}

impl Authentication {
    /// An owned copy.
    pub fn dup(&self) -> (r: Authentication)
        ensures
            auth_eqv(*self, r),
    {
        Authentication { key: dup_opt_str(&self.key), user: dup_opt_str(&self.user) }
    }
}

impl MediaFile {
    /// An owned copy.
    pub fn dup(&self) -> (r: MediaFile)
        ensures
            media_eqv(*self, r),
    {
        MediaFile {
            file_type: dup_opt_str(&self.file_type),
            extension: dup_opt_str(&self.extension),
            authentication: match &self.authentication {
                Option::Some(a) => Option::Some(a.dup()),
                Option::None => Option::None,
            },
            url: self.url.clone(),
        }
    }
}

impl Trait {
    /// An owned copy.
    pub fn dup(&self) -> (r: Trait)
        ensures
            trait_eqv(*self, r),
    {
        Trait {
            display_type: dup_opt_str(&self.display_type),
            trait_type: dup_opt_str(&self.trait_type),
            value: self.value.clone(),
            max_value: dup_opt_str(&self.max_value),
        }
    }
}

impl Extension {
    /// An owned copy.
    pub fn dup(&self) -> (r: Extension)
        ensures
            extension_eqv(*self, r),
    {
        let attributes: Option<Vec<Trait>> = match &self.attributes {
            Option::Some(ts) => {
                let mut out: Vec<Trait> = Vec::new();
                let mut i: usize = 0;
                while i < ts.len()
                    invariant
                        i <= ts@.len(),
                        out@.len() == i,
                        forall|j: int| 0 <= j < i ==> trait_eqv(ts@[j], #[trigger] out@[j]),
                    decreases ts@.len() - i,
                {
                    out.push(ts[i].dup());
                    i = i + 1;
                }
                Option::Some(out)
            },
            Option::None => Option::None,
        };
        let media: Option<Vec<MediaFile>> = match &self.media {
            Option::Some(ms) => {
                let mut out: Vec<MediaFile> = Vec::new();
                let mut i: usize = 0;
                while i < ms.len()
                    invariant
                        i <= ms@.len(),
                        out@.len() == i,
                        forall|j: int| 0 <= j < i ==> media_eqv(ms@[j], #[trigger] out@[j]),
                    decreases ms@.len() - i,
                {
                    out.push(ms[i].dup());
                    i = i + 1;
                }
                Option::Some(out)
            },
            Option::None => Option::None,
        };
        let protected_attributes: Option<Vec<String>> = match &self.protected_attributes {
            Option::Some(ps) => {
                let mut out: Vec<String> = Vec::new();
                let mut i: usize = 0;
                while i < ps.len()
                    invariant
                        i <= ps@.len(),
                        out@.len() == i,
                        forall|j: int| 0 <= j < i ==> ps@[j]@ == #[trigger] out@[j]@,
                    decreases ps@.len() - i,
                {
                    out.push(ps[i].clone());
                    i = i + 1;
                }
                Option::Some(out)
            },
            Option::None => Option::None,
        };
        Extension {
            image: dup_opt_str(&self.image),
            image_data: dup_opt_str(&self.image_data),
            external_url: dup_opt_str(&self.external_url),
            description: dup_opt_str(&self.description),
            name: dup_opt_str(&self.name),
            attributes,
            background_color: dup_opt_str(&self.background_color),
            animation_url: dup_opt_str(&self.animation_url),
            youtube_url: dup_opt_str(&self.youtube_url),
            media,
            protected_attributes,
        }
    }
}

impl Metadata {
    /// An owned copy.
    pub fn dup(&self) -> (r: Metadata)
        ensures
            metadata_eqv(*self, r),
    {
        Metadata {
            token_uri: dup_opt_str(&self.token_uri),
            extension: match &self.extension {
                Option::Some(e) => Option::Some(e.dup()),
                Option::None => Option::None,
            },
        }
    }
}

/// One royalty share, displayable form.
#[derive(Debug)]
pub struct Royalty {
    pub recipient: Option<HumanAddr>,
    pub rate: u16,
}

/// One royalty share, stored form.
#[derive(Debug)]
pub struct StoredRoyalty {
    pub recipient: Option<CanonAddr>,
    pub rate: u16,
}

/// Whether the directory resolves every address of a displayable royalty.
pub open spec fn royalty_resolvable(a: Royalty, dir: KeyDirectory) -> bool {
    match a.recipient {
        Option::Some(h) => dir.canon_of(h@) is Some,
        Option::None => true,
    }
}

/// Whether `s` is the stored form of `a` under `dir`.
pub open spec fn royalty_stored_rel(a: Royalty, s: StoredRoyalty, dir: KeyDirectory) -> bool {
    &&& s.rate == a.rate
    &&& match (a.recipient, s.recipient) {
        (Option::None, Option::None) => true,
        (Option::Some(h), Option::Some(c)) => dir.canon_of(h@) == Some(c@),
        _ => false,
    }
}

/// Whether the directory resolves every address of a stored royalty.
pub open spec fn royalty_humanizable(s: StoredRoyalty, dir: KeyDirectory) -> bool {
    match s.recipient {
        Option::Some(c) => dir.human_of(c@) is Some,
        Option::None => true,
    }
}

/// Whether `a` is the displayable form of `s` under `dir`.
pub open spec fn royalty_human_rel(s: StoredRoyalty, a: Royalty, dir: KeyDirectory) -> bool {
    &&& a.rate == s.rate
    &&& match (s.recipient, a.recipient) {
        (Option::None, Option::None) => true,
        (Option::Some(c), Option::Some(h)) => dir.human_of(c@) == Some(h@),
        _ => false,
    }
}

impl Royalty {
    /// The stored form of this royalty under `dir`.
    pub fn into_stored(&self, dir: &KeyDirectory) -> (r: Result<StoredRoyalty, GumballError>)
        ensures
            r is Ok <==> royalty_resolvable(*self, *dir),
            match r {
                Ok(s) => royalty_stored_rel(*self, s, *dir),
                Err(e) => e == GumballError::AddrUnresolved,
            },
    {
        let recipient = match &self.recipient {
            Option::Some(h) => match dir.canonize(h) {
                Option::Some(c) => Option::Some(c),
                Option::None => {
                    return Err(GumballError::AddrUnresolved);
                },
            },
            Option::None => Option::None,
        };
        Ok(StoredRoyalty { recipient, rate: self.rate })
    }
}

impl StoredRoyalty {
    /// The displayable form of this royalty under `dir`.
    pub fn into_humanized(&self, dir: &KeyDirectory) -> (r: Result<Royalty, GumballError>)
        ensures
            r is Ok <==> royalty_humanizable(*self, *dir),
            match r {
                Ok(a) => royalty_human_rel(*self, a, *dir),
                Err(e) => e == GumballError::AddrUnresolved,
            },
    {
        let recipient = match &self.recipient {
            Option::Some(c) => match dir.humanize(c) {
                Option::Some(h) => Option::Some(h),
                Option::None => {
                    return Err(GumballError::AddrUnresolved);
                },
            },
            Option::None => Option::None,
        };
        Ok(Royalty { recipient, rate: self.rate })
    }
}

/// All royalty information of a token, displayable form.
#[derive(Debug)]
pub struct RoyaltyInfo {
    pub decimal_places_in_rates: u8,
    pub royalties: Vec<Royalty>,
}

/// All royalty information of a token, stored form.
#[derive(Debug)]
pub struct StoredRoyaltyInfo {
    pub decimal_places_in_rates: u8,
    pub royalties: Vec<StoredRoyalty>,
}

/// Whether the directory resolves every royalty recipient.
pub open spec fn royalty_info_resolvable(a: RoyaltyInfo, dir: KeyDirectory) -> bool {
    forall|i: int| 0 <= i < a.royalties@.len() ==> royalty_resolvable(#[trigger] a.royalties@[i], dir)
}

/// Whether `s` is the stored form of `a` under `dir`.
pub open spec fn royalty_info_stored_rel(a: RoyaltyInfo, s: StoredRoyaltyInfo, dir: KeyDirectory) -> bool {
    &&& s.decimal_places_in_rates == a.decimal_places_in_rates
    &&& s.royalties@.len() == a.royalties@.len()
    &&& forall|i: int|
        0 <= i < a.royalties@.len() ==> royalty_stored_rel(
            a.royalties@[i],
            #[trigger] s.royalties@[i],
            dir,
        )
}

/// Whether the directory resolves every stored royalty recipient.
pub open spec fn royalty_info_humanizable(s: StoredRoyaltyInfo, dir: KeyDirectory) -> bool {
    forall|i: int|
        0 <= i < s.royalties@.len() ==> royalty_humanizable(#[trigger] s.royalties@[i], dir)
}

/// Whether `a` is the displayable form of `s` under `dir`.
pub open spec fn royalty_info_human_rel(s: StoredRoyaltyInfo, a: RoyaltyInfo, dir: KeyDirectory) -> bool {
    &&& a.decimal_places_in_rates == s.decimal_places_in_rates
    &&& a.royalties@.len() == s.royalties@.len()
    &&& forall|i: int|
        0 <= i < s.royalties@.len() ==> royalty_human_rel(
            s.royalties@[i],
            #[trigger] a.royalties@[i],
            dir,
        )
}

impl RoyaltyInfo {
    /// The stored form of this record under `dir`.
    pub fn into_stored(&self, dir: &KeyDirectory) -> (r: Result<StoredRoyaltyInfo, GumballError>)
        ensures
            r is Ok <==> royalty_info_resolvable(*self, *dir),
            match r {
                Ok(s) => royalty_info_stored_rel(*self, s, *dir),
                Err(e) => e == GumballError::AddrUnresolved,
            },
    {
        let mut out: Vec<StoredRoyalty> = Vec::new();
        let mut i: usize = 0;
        while i < self.royalties.len()
            invariant
                i <= self.royalties@.len(),
                out@.len() == i,
                forall|j: int|
                    0 <= j < i ==> royalty_stored_rel(
                        self.royalties@[j],
                        #[trigger] out@[j],
                        *dir,
                    ),
            decreases self.royalties@.len() - i,
        {
            match self.royalties[i].into_stored(dir) {
                Ok(s) => out.push(s),
                Err(e) => {
                    proof {
                        assert(!royalty_resolvable(self.royalties@[i as int], *dir));
                    }
                    return Err(e);
                },
            }
            i = i + 1;
        }
        proof {
            assert forall|k: int|
                0 <= k < self.royalties@.len() implies royalty_resolvable(
                #[trigger] self.royalties@[k],
                *dir,
            ) by {
                assert(royalty_stored_rel(self.royalties@[k], out@[k], *dir));
            }
        }
        Ok(
            StoredRoyaltyInfo {
                decimal_places_in_rates: self.decimal_places_in_rates,
                royalties: out,
            },
        )
    }
}

impl StoredRoyaltyInfo {
    /// The displayable form of this record under `dir`.
    pub fn into_humanized(&self, dir: &KeyDirectory) -> (r: Result<RoyaltyInfo, GumballError>)
        ensures
            r is Ok <==> royalty_info_humanizable(*self, *dir),
            match r {
                Ok(a) => royalty_info_human_rel(*self, a, *dir),
                Err(e) => e == GumballError::AddrUnresolved,
            },
    {
        let mut out: Vec<Royalty> = Vec::new();
        let mut i: usize = 0;
        while i < self.royalties.len()
            invariant
                i <= self.royalties@.len(),
                out@.len() == i,
                forall|j: int|
                    0 <= j < i ==> royalty_human_rel(self.royalties@[j], #[trigger] out@[j], *dir),
            decreases self.royalties@.len() - i,
        {
            match self.royalties[i].into_humanized(dir) {
                Ok(a) => out.push(a),
                Err(e) => {
                    proof {
                        assert(!royalty_humanizable(self.royalties@[i as int], *dir));
                    }
                    return Err(e);
                },
            }
            i = i + 1;
        }
        proof {
            assert forall|k: int|
                0 <= k < self.royalties@.len() implies royalty_humanizable(
                #[trigger] self.royalties@[k],
                *dir,
            ) by {
                assert(royalty_human_rel(self.royalties@[k], out@[k], *dir));
            }
        }
        Ok(
            RoyaltyInfo {
                decimal_places_in_rates: self.decimal_places_in_rates,
                royalties: out,
            },
        )
    }
}

/// Mint-run information of a token, displayable form.
#[derive(Debug)]
pub struct MintRunInfo {
    pub collection_creator: Option<HumanAddr>,
    pub token_creator: Option<HumanAddr>,
    pub time_of_minting: Option<u64>,
    pub mint_run: Option<u32>,
    pub serial_number: Option<u32>,
    pub quantity_minted_this_run: Option<u32>,
}

/// Mint-run information of a token, stored form.
#[derive(Debug)]
pub struct StoredMintRunInfo {
    pub collection_creator: Option<CanonAddr>,
    pub token_creator: Option<CanonAddr>,
    pub time_of_minting: Option<u64>,
    pub mint_run: Option<u32>,
    pub serial_number: Option<u32>,
    pub quantity_minted_this_run: Option<u32>,
}

/// Whether the directory resolves both creator addresses.
pub open spec fn mint_run_resolvable(a: MintRunInfo, dir: KeyDirectory) -> bool {
    &&& match a.collection_creator {
        Option::Some(h) => dir.canon_of(h@) is Some,
        Option::None => true,
    }
    &&& match a.token_creator {
        Option::Some(h) => dir.canon_of(h@) is Some,
        Option::None => true,
    }
}

/// Whether `s` is the stored form of `a` under `dir`.
pub open spec fn mint_run_stored_rel(a: MintRunInfo, s: StoredMintRunInfo, dir: KeyDirectory) -> bool {
    &&& match (a.collection_creator, s.collection_creator) {
        (Option::None, Option::None) => true,
        (Option::Some(h), Option::Some(c)) => dir.canon_of(h@) == Some(c@),
        _ => false,
    }
    &&& match (a.token_creator, s.token_creator) {
        (Option::None, Option::None) => true,
        (Option::Some(h), Option::Some(c)) => dir.canon_of(h@) == Some(c@),
        _ => false,
    }
    &&& s.time_of_minting == a.time_of_minting
    &&& s.mint_run == a.mint_run
    &&& s.serial_number == a.serial_number
    &&& s.quantity_minted_this_run == a.quantity_minted_this_run
}

/// Whether the directory resolves both stored creator addresses.
pub open spec fn mint_run_humanizable(s: StoredMintRunInfo, dir: KeyDirectory) -> bool {
    &&& match s.collection_creator {
        Option::Some(c) => dir.human_of(c@) is Some,
        Option::None => true,
    }
    &&& match s.token_creator {
        Option::Some(c) => dir.human_of(c@) is Some,
        Option::None => true,
    }
}

/// Whether `a` is the displayable form of `s` under `dir`.
pub open spec fn mint_run_human_rel(s: StoredMintRunInfo, a: MintRunInfo, dir: KeyDirectory) -> bool {
    &&& match (s.collection_creator, a.collection_creator) {
        (Option::None, Option::None) => true,
        (Option::Some(c), Option::Some(h)) => dir.human_of(c@) == Some(h@),
        _ => false,
    }
    &&& match (s.token_creator, a.token_creator) {
        (Option::None, Option::None) => true,
        (Option::Some(c), Option::Some(h)) => dir.human_of(c@) == Some(h@),
        _ => false,
    }
    &&& a.time_of_minting == s.time_of_minting
    &&& a.mint_run == s.mint_run
    &&& a.serial_number == s.serial_number
    &&& a.quantity_minted_this_run == s.quantity_minted_this_run
}

impl MintRunInfo {
    /// The stored form of this record under `dir`.
    pub fn into_stored(&self, dir: &KeyDirectory) -> (r: Result<StoredMintRunInfo, GumballError>)
        ensures
            r is Ok <==> mint_run_resolvable(*self, *dir),
            match r {
                Ok(s) => mint_run_stored_rel(*self, s, *dir),
                Err(e) => e == GumballError::AddrUnresolved,
            },
    {
        let collection_creator = match &self.collection_creator {
            Option::Some(h) => match dir.canonize(h) {
                Option::Some(c) => Option::Some(c),
                Option::None => {
                    return Err(GumballError::AddrUnresolved);
                },
            },
            Option::None => Option::None,
        };
        let token_creator = match &self.token_creator {
            Option::Some(h) => match dir.canonize(h) {
                Option::Some(c) => Option::Some(c),
                Option::None => {
                    return Err(GumballError::AddrUnresolved);
                },
            },
            Option::None => Option::None,
        };
        Ok(
            StoredMintRunInfo {
                collection_creator,
                token_creator,
                time_of_minting: self.time_of_minting,
                mint_run: self.mint_run,
                serial_number: self.serial_number,
                quantity_minted_this_run: self.quantity_minted_this_run,
            },
        )
    }
}

impl StoredMintRunInfo {
    /// The displayable form of this record under `dir`.
    pub fn into_humanized(&self, dir: &KeyDirectory) -> (r: Result<MintRunInfo, GumballError>)
        ensures
            r is Ok <==> mint_run_humanizable(*self, *dir),
            match r {
                Ok(a) => mint_run_human_rel(*self, a, *dir),
                Err(e) => e == GumballError::AddrUnresolved,
            },
    {
        let collection_creator = match &self.collection_creator {
            Option::Some(c) => match dir.humanize(c) {
                Option::Some(h) => Option::Some(h),
                Option::None => {
                    return Err(GumballError::AddrUnresolved);
                },
            },
            Option::None => Option::None,
        };
        let token_creator = match &self.token_creator {
            Option::Some(c) => match dir.humanize(c) {
                Option::Some(h) => Option::Some(h),
                Option::None => {
                    return Err(GumballError::AddrUnresolved);
                },
            },
            Option::None => Option::None,
        };
        Ok(
            MintRunInfo {
                collection_creator,
                token_creator,
                time_of_minting: self.time_of_minting,
                mint_run: self.mint_run,
                serial_number: self.serial_number,
                quantity_minted_this_run: self.quantity_minted_this_run,
            },
        )
    }
}

/// The dossier fields a listing cares about, displayable form.
#[derive(Debug)]
pub struct NftDossierForListing {
    pub public_metadata: Option<Metadata>,
    pub royalty_info: Option<RoyaltyInfo>,
    pub mint_run_info: Option<MintRunInfo>,
}

/// The dossier fields a listing cares about, stored form.
#[derive(Debug)]
pub struct StoredNftDossierForListing {
    pub public_metadata: Option<Metadata>,
    pub royalty_info: Option<StoredRoyaltyInfo>,
    pub mint_run_info: Option<StoredMintRunInfo>,
}

/// Whether the directory resolves every address of a displayable dossier.
pub open spec fn dossier_resolvable(a: NftDossierForListing, dir: KeyDirectory) -> bool {
    &&& match a.royalty_info {
        Option::Some(ri) => royalty_info_resolvable(ri, dir),
        Option::None => true,
    }
    &&& match a.mint_run_info {
        Option::Some(mi) => mint_run_resolvable(mi, dir),
        Option::None => true,
    }
}

/// Whether `s` is the stored form of `a` under `dir`.
pub open spec fn dossier_stored_rel(
    a: NftDossierForListing,
    s: StoredNftDossierForListing,
    dir: KeyDirectory,
) -> bool {
    &&& opt_metadata_eqv(a.public_metadata, s.public_metadata)
    &&& match (a.royalty_info, s.royalty_info) {
        (Option::None, Option::None) => true,
        (Option::Some(x), Option::Some(y)) => royalty_info_stored_rel(x, y, dir),
        _ => false,
    }
    &&& match (a.mint_run_info, s.mint_run_info) {
        (Option::None, Option::None) => true,
        (Option::Some(x), Option::Some(y)) => mint_run_stored_rel(x, y, dir),
        _ => false,
    }
}

/// Whether the directory resolves every address of a stored dossier.
pub open spec fn dossier_humanizable(s: StoredNftDossierForListing, dir: KeyDirectory) -> bool {
    &&& match s.royalty_info {
        Option::Some(ri) => royalty_info_humanizable(ri, dir),
        Option::None => true,
    }
    &&& match s.mint_run_info {
        Option::Some(mi) => mint_run_humanizable(mi, dir),
        Option::None => true,
    }
}

/// Whether `a` is the displayable form of `s` under `dir`.
pub open spec fn dossier_human_rel(
    s: StoredNftDossierForListing,
    a: NftDossierForListing,
    dir: KeyDirectory,
) -> bool {
    &&& opt_metadata_eqv(s.public_metadata, a.public_metadata)
    &&& match (s.royalty_info, a.royalty_info) {
        (Option::None, Option::None) => true,
        (Option::Some(x), Option::Some(y)) => royalty_info_human_rel(x, y, dir),
        _ => false,
    }
    &&& match (s.mint_run_info, a.mint_run_info) {
        (Option::None, Option::None) => true,
        (Option::Some(x), Option::Some(y)) => mint_run_human_rel(x, y, dir),
        _ => false,
    }
}

impl NftDossierForListing {
    /// A dossier with no information, used when the collection's answer is
    /// missing or malformed.
    pub fn default_empty() -> (r: NftDossierForListing)
        ensures
            r.public_metadata is None,
            r.royalty_info is None,
            r.mint_run_info is None,
    {
        NftDossierForListing {
            public_metadata: Option::None,
            royalty_info: Option::None,
            mint_run_info: Option::None,
        }
    }

    /// The stored form of this dossier under `dir`.  The metadata is copied;
    /// the address-bearing records are resolved.
    pub fn into_stored(&self, dir: &KeyDirectory) -> (r: Result<
        StoredNftDossierForListing,
        GumballError,
    >)
        ensures
            r is Ok <==> dossier_resolvable(*self, *dir),
            match r {
                Ok(s) => dossier_stored_rel(*self, s, *dir),
                Err(e) => e == GumballError::AddrUnresolved,
            },
    {
        let royalty_info = match &self.royalty_info {
            Option::Some(ri) => match ri.into_stored(dir) {
                Ok(s) => Option::Some(s),
                Err(e) => {
                    return Err(e);
                },
            },
            Option::None => Option::None,
        };
        let mint_run_info = match &self.mint_run_info {
            Option::Some(mi) => match mi.into_stored(dir) {
                Ok(s) => Option::Some(s),
                Err(e) => {
                    return Err(e);
                },
            },
            Option::None => Option::None,
        };
        Ok(
            StoredNftDossierForListing {
                public_metadata: match &self.public_metadata {
                    Option::Some(m) => Option::Some(m.dup()),
                    Option::None => Option::None,
                },
                royalty_info,
                mint_run_info,
            },
        )
    }
}

impl StoredNftDossierForListing {
    /// A stored dossier with no information.
    pub fn default_empty() -> (r: StoredNftDossierForListing)
        ensures
            r.public_metadata is None,
            r.royalty_info is None,
            r.mint_run_info is None,
    {
        StoredNftDossierForListing {
            public_metadata: Option::None,
            royalty_info: Option::None,
            mint_run_info: Option::None,
        }
    }

    /// The displayable form of this dossier under `dir`.  The metadata is
    /// copied; the address-bearing records are resolved.
    pub fn into_humanized(&self, dir: &KeyDirectory) -> (r: Result<
        NftDossierForListing,
        GumballError,
    >)
        ensures
            r is Ok <==> dossier_humanizable(*self, *dir),
            match r {
                Ok(a) => dossier_human_rel(*self, a, *dir),
                Err(e) => e == GumballError::AddrUnresolved,
            },
    {
        let royalty_info = match &self.royalty_info {
            Option::Some(ri) => match ri.into_humanized(dir) {
                Ok(a) => Option::Some(a),
                Err(e) => {
                    return Err(e);
                },
            },
            Option::None => Option::None,
        };
        let mint_run_info = match &self.mint_run_info {
            Option::Some(mi) => match mi.into_humanized(dir) {
                Ok(a) => Option::Some(a),
                Err(e) => {
                    return Err(e);
                },
            },
            Option::None => Option::None,
        };
        Ok(
            NftDossierForListing {
                public_metadata: match &self.public_metadata {
                    Option::Some(m) => Option::Some(m.dup()),
                    Option::None => Option::None,
                },
                royalty_info,
                mint_run_info,
            },
        )
    }
}

/// The collection's answer to a dossier query.
#[derive(Debug)]
pub struct NftDossierResponse {
    pub nft_dossier: NftDossierForListing,
}

/// One transfer record of a batch transfer: a recipient, the token ids it
/// receives, and a memo for the transaction.
#[derive(Debug)]
pub struct Transfer {
    pub recipient: HumanAddr,
    pub token_ids: Vec<String>,
    pub memo: String,
}

/// The view of a transfer record: recipient, token-id views, memo.
pub struct TransferV {
    pub recipient: Seq<char>,
    pub ids: Seq<Seq<char>>,
    pub memo: Seq<char>,
}

/// The view of one transfer.
pub open spec fn transfer_view(t: Transfer) -> TransferV {
    TransferV { recipient: t.recipient@, ids: crate::state::ids_view(t.token_ids@), memo: t.memo@ }
}

/// The views of a list of transfers.
pub open spec fn transfers_view(ts: Seq<Transfer>) -> Seq<TransferV> {
    ts.map_values(|t: Transfer| transfer_view(t))
}

/// Adds one drawn token to a transfer list: the id joins the first transfer
/// already addressed to `buyer`, or a fresh transfer with the given memo is
/// appended.
pub open spec fn coalesce(ts: Seq<TransferV>, buyer: Seq<char>, id: Seq<char>, memo: Seq<char>) -> Seq<TransferV>
    decreases ts.len(),
{
    if ts.len() == 0 {
        seq![TransferV { recipient: buyer, ids: seq![id], memo }]
    } else if ts[0].recipient == buyer {
        seq![
            TransferV { recipient: ts[0].recipient, ids: ts[0].ids.push(id), memo: ts[0].memo },
        ] + ts.drop_first()
    } else {
        seq![ts[0]] + coalesce(ts.drop_first(), buyer, id, memo)
    }
}

/// The transfer list a mint run builds: buyers in order, each with the token
/// drawn for them, coalesced by recipient, all under one memo.
pub open spec fn coalesced_transfers(
    buyers: Seq<Seq<char>>,
    ids: Seq<Seq<char>>,
    memo: Seq<char>,
) -> Seq<TransferV>
    recommends
        ids.len() == buyers.len(),
    decreases buyers.len(),
{
    if buyers.len() == 0 {
        Seq::empty()
    } else {
        coalesce(
            coalesced_transfers(buyers.drop_last(), ids.drop_last(), memo),
            buyers.last(),
            ids.last(),
            memo,
        )
    }
}

/// Coalescing with a match at the first occurrence `i` of the buyer updates
/// exactly that transfer.
proof fn lemma_coalesce_found(
    ts: Seq<TransferV>,
    buyer: Seq<char>,
    id: Seq<char>,
    memo: Seq<char>,
    i: int,
)
    requires
        0 <= i < ts.len(),
        ts[i].recipient == buyer,
        forall|j: int| 0 <= j < i ==> ts[j].recipient != buyer,
    ensures
        coalesce(ts, buyer, id, memo) =~= ts.update(
            i,
            TransferV { recipient: ts[i].recipient, ids: ts[i].ids.push(id), memo: ts[i].memo },
        ),
    decreases i,
{
    if i == 0 {
    } else {
        lemma_coalesce_found(ts.drop_first(), buyer, id, memo, i - 1);
        assert(ts.drop_first().update(
            i - 1,
            TransferV { recipient: ts[i].recipient, ids: ts[i].ids.push(id), memo: ts[i].memo },
        ) =~= ts.update(
            i,
            TransferV { recipient: ts[i].recipient, ids: ts[i].ids.push(id), memo: ts[i].memo },
        ).drop_first());
    }
}

/// Coalescing with no matching buyer appends a fresh transfer.
proof fn lemma_coalesce_absent(ts: Seq<TransferV>, buyer: Seq<char>, id: Seq<char>, memo: Seq<char>)
    requires
        forall|j: int| 0 <= j < ts.len() ==> ts[j].recipient != buyer,
    ensures
        coalesce(ts, buyer, id, memo) =~= ts.push(
            TransferV { recipient: buyer, ids: seq![id], memo },
        ),
    decreases ts.len(),
{
    if ts.len() > 0 {
        lemma_coalesce_absent(ts.drop_first(), buyer, id, memo);
    }
}

/// Adds one drawn token to the transfer list being built: appends the id to
/// the first transfer addressed to `buyer`, or appends a fresh transfer
/// with the given memo.
pub fn add_transfer(ts: &mut Vec<Transfer>, buyer: HumanAddr, id: String, memo: &String)
    ensures
        transfers_view(final(ts)@) == coalesce(transfers_view(old(ts)@), buyer@, id@, memo@),
{
    let ghost orig = transfers_view(old(ts)@);
    let mut i: usize = 0;
    while i < ts.len()
        invariant
            i <= ts@.len(),
            ts@ == old(ts)@,
            orig == transfers_view(ts@),
            forall|j: int| 0 <= j < i ==> transfers_view(ts@)[j].recipient != buyer@,
        decreases ts@.len() - i,
    {
        if ts[i].recipient.addr_eq(&buyer) {
            proof {
                assert(0 <= i < orig.len());
            }
            let mut t = ts.remove(i);
            t.token_ids.push(id);
            ts.insert(i, t);
            proof {
                let ii = i as int;
                let updated = TransferV {
                    recipient: orig[ii].recipient,
                    ids: orig[ii].ids.push(id@),
                    memo: orig[ii].memo,
                };
                lemma_coalesce_found(orig, buyer@, id@, memo@, ii);
                assert(ts@ =~= old(ts)@.update(ii, ts@[ii]));
                assert(crate::state::ids_view(ts@[ii].token_ids@) =~= crate::state::ids_view(
                    old(ts)@[ii].token_ids@,
                ).push(id@));
                assert(transfer_view(ts@[ii]) == updated);
                assert(transfers_view(ts@) =~= orig.update(ii, updated));
            }
            return ;
        }
        i = i + 1;
    }
    let mut token_ids: Vec<String> = Vec::new();
    token_ids.push(id);
    ts.push(Transfer { recipient: buyer, token_ids, memo: memo.clone() });
    proof {
        lemma_coalesce_absent(orig, buyer@, id@, memo@);
        assert(crate::state::ids_view(ts@.last().token_ids@) =~= seq![id@]);
        assert(transfers_view(ts@) =~= coalesce(orig, buyer@, id@, memo@));
    }
}

/// Messages this contract sends the collection contract.
#[derive(Debug)]
pub enum Snip721HandleMsg {
    BatchTransferNft { transfers: Vec<Transfer> },
}

/// Queries this contract asks the collection contract.
#[derive(Debug)]
pub enum Snip721QueryMsg {
    NftDossier { token_id: String },
}

} // verus!
