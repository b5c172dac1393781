//! The asset registry: assets, fractions, and the platform state.

use vstd::prelude::*;

use crate::PlatformError;
use crate::identity::Identity;
use crate::model::FractionModel;
use crate::model::NftModel;
use crate::model::PlatformModel;
use crate::model::has_nft;
use crate::rewards::PendingSettlement;

verus! {

/// One minted ownership fraction of an asset; immutable once minted.
#[derive(Debug)]
pub struct Fraction {
    pub fraction_id: String,
    pub owner_id: Identity,
    pub percentage: u8,
}

impl View for Fraction {
    type V = FractionModel;

    open spec fn view(&self) -> FractionModel {
        FractionModel {
            fraction_id: self.fraction_id@,
            owner_id: self.owner_id@,
            percentage: self.percentage,
        }
    }
}

impl Fraction {
    /// The caller-supplied fraction identifier.
    pub fn fraction_id(&self) -> (r: &String)
        ensures
            r@ == self@.fraction_id,
    {
        &self.fraction_id
    }

    /// The identity the fraction was minted to.
    pub fn owner_id(&self) -> (r: &Identity)
        ensures
            r@ == self@.owner_id,
    {
        &self.owner_id
    }

    /// The percentage share the fraction carries.
    pub fn percentage(&self) -> (r: u8)
        ensures
            r == self@.percentage,
    {
        self.percentage
    }
}

impl Clone for Fraction {
    fn clone(&self) -> (r: Self)
        ensures
            r@ == self@,
    {
        Fraction {
            fraction_id: self.fraction_id.clone(),
            owner_id: self.owner_id.clone(),
            percentage: self.percentage,
        }
    }
}

/// One registered music asset.
#[derive(Debug)]
pub struct MusicNFT {
    pub token_id: String,
    pub owner_id: Identity,
    pub metadata: String,
    pub plays: u64,
    pub fractions: Vec<Fraction>,
    pub total_fractions: u64,
    pub fractions_remaining: u64,
    pub withdrawn_plays: u64,
}

impl View for MusicNFT {
    type V = NftModel;

    open spec fn view(&self) -> NftModel {
        NftModel {
            token_id: self.token_id@,
            owner_id: self.owner_id@,
            metadata: self.metadata@,
            plays: self.plays,
            fractions: self.fractions@.map_values(|f: Fraction| f@),
            total_fractions: self.total_fractions,
            fractions_remaining: self.fractions_remaining,
            withdrawn_plays: self.withdrawn_plays,
        }
    }
}

impl MusicNFT {
    /// The asset's identifier.
    pub fn token_id(&self) -> (r: &String)
        ensures
            r@ == self@.token_id,
    {
        &self.token_id
    }

    /// The asset's owner.
    pub fn owner_id(&self) -> (r: &Identity)
        ensures
            r@ == self@.owner_id,
    {
        &self.owner_id
    }

    /// The asset's descriptive metadata.
    pub fn metadata(&self) -> (r: &String)
        ensures
            r@ == self@.metadata,
    {
        &self.metadata
    }

    /// Accrued plays.
    pub fn plays(&self) -> (r: u64)
        ensures
            r == self@.plays,
    {
        self.plays
    }

    /// The minted fractions, in minting order.
    pub fn fractions(&self) -> (r: &Vec<Fraction>)
        ensures
            r@.map_values(|f: Fraction| f@) == self@.fractions,
    {
        &self.fractions
    }

    /// The asset's fixed fraction-slot capacity.
    pub fn total_fractions(&self) -> (r: u64)
        ensures
            r == self@.total_fractions,
    {
        self.total_fractions
    }

    /// Fraction slots still available for minting.
    pub fn fractions_remaining(&self) -> (r: u64)
        ensures
            r == self@.fractions_remaining,
    {
        self.fractions_remaining
    }

    /// Plays already consumed by finalized settlements.
    pub fn withdrawn_plays(&self) -> (r: u64)
        ensures
            r == self@.withdrawn_plays,
    {
        self.withdrawn_plays
    }
}

impl Clone for MusicNFT {
    fn clone(&self) -> (r: Self)
        ensures
            r@ == self@,
    {
        let mut fractions: Vec<Fraction> = Vec::new();
        let mut i: usize = 0;
        while i < self.fractions.len()
            invariant
                i <= self.fractions.len(),
                fractions@.len() == i as int,
                forall|j: int| 0 <= j < i ==> fractions@[j]@ == self.fractions@[j]@,
            decreases self.fractions.len() - i,
        {
            fractions.push(self.fractions[i].clone());
            i += 1;
        }
        let r = MusicNFT {
            token_id: self.token_id.clone(),
            owner_id: self.owner_id.clone(),
            metadata: self.metadata.clone(),
            plays: self.plays,
            fractions,
            total_fractions: self.total_fractions,
            fractions_remaining: self.fractions_remaining,
            withdrawn_plays: self.withdrawn_plays,
        };
        proof {
            assert(r@.fractions =~= self@.fractions);
            assert(r@ =~= self@);
        }
        r
    }
}

/// The whole platform: the asset registry, the reward pool, the in-flight
/// settlements, and the platform's own identity (which gates privileged
/// operations such as play accrual and settlement callbacks).
pub struct MusicPlatform {
    pub platform_id: Identity,
    pub mwj_balance: u128,
    pub nfts: Vec<MusicNFT>,
    pub pendings: Vec<PendingSettlement>,
}

impl View for MusicPlatform {
    type V = PlatformModel;

    open spec fn view(&self) -> PlatformModel {
        PlatformModel {
            platform_id: self.platform_id@,
            mwj_balance: self.mwj_balance,
            nfts: self.nfts@.map_values(|n: MusicNFT| n@),
            pendings: self.pendings@.map_values(|p: PendingSettlement| p@),
        }
    }
}

impl MusicPlatform {
    /// Well-formedness of the platform: established by [`MusicPlatform::new`]
    /// and preserved by every operation.
    pub open spec fn wf(&self) -> bool {
        crate::model::platform_ok(self@)
    }

    /// Creates an empty platform owned by `platform_id`, holding
    /// `initial_balance` settlement units in its reward pool.
    pub fn new(platform_id: Identity, initial_balance: u128) -> (r: Self)
        ensures
            r.wf(),
            r@ == (PlatformModel {
                platform_id: platform_id@,
                mwj_balance: initial_balance,
                nfts: Seq::<NftModel>::empty(),
                pendings: Seq::<crate::model::PendingModel>::empty(),
            }),
    {
        let r = MusicPlatform {
            platform_id,
            mwj_balance: initial_balance,
            nfts: Vec::new(),
            pendings: Vec::new(),
        };
        proof {
            assert(r@.nfts =~= Seq::<NftModel>::empty());
            assert(r@.pendings =~= Seq::<crate::model::PendingModel>::empty());
        }
        r
    }

    /// Finds the registry index of an asset by id.
    pub fn find_nft(&self, music_nft_id: &String) -> (r: Option<usize>)
        ensures
            match r {
                Some(i) => i < self@.nfts.len() && self@.nfts[i as int].token_id == music_nft_id@,
                None => !has_nft(self@.nfts, music_nft_id@),
            },
    {
        let mut i: usize = 0;
        while i < self.nfts.len()
            invariant
                i <= self.nfts.len(),
                self@.nfts.len() == self.nfts@.len(),
                forall|j: int| 0 <= j < i ==> (#[trigger] self@.nfts[j].token_id) != music_nft_id@,
            decreases self.nfts.len() - i,
        {
            if self.nfts[i].token_id == *music_nft_id {
                return Some(i);
            }
            i += 1;
        }
        None
    }

    /// Finds the index of the in-flight settlement for an asset.
    pub fn find_pending(&self, music_nft_id: &String) -> (r: Option<usize>)
        ensures
            match r {
                Some(k) => k < self@.pendings.len() && self@.pendings[k as int].music_nft_id
                    == music_nft_id@,
                None => !crate::model::has_pending(self@.pendings, music_nft_id@),
            },
    {
        let mut k: usize = 0;
        while k < self.pendings.len()
            invariant
                k <= self.pendings.len(),
                self@.pendings.len() == self.pendings@.len(),
                forall|j: int|
                    0 <= j < k ==> (#[trigger] self@.pendings[j].music_nft_id) != music_nft_id@,
            decreases self.pendings.len() - k,
        {
            if self.pendings[k].music_nft_id == *music_nft_id {
                return Some(k);
            }
            k += 1;
        }
        None
    }

    /// Registers a new music asset; the caller becomes its owner.
    ///
    /// Rejects a duplicate asset id with `AlreadyExists` and leaves the
    /// platform unchanged on any failure.
    pub fn mint_music_nft(
        &mut self,
        caller: &Identity,
        token_id: String,
        metadata: String,
        total_fractions: u64,
    ) -> (r: Result<(), PlatformError>)
        requires
            old(self).wf(),
        ensures
            final(self).wf(),
            r == crate::model::create_asset(
                old(self)@,
                caller@,
                token_id@,
                metadata@,
                total_fractions,
            ).0,
            final(self)@ == crate::model::create_asset(
                old(self)@,
                caller@,
                token_id@,
                metadata@,
                total_fractions,
            ).1,
    {
        let ghost m0 = self@;
        proof {
            crate::model::lemma_create_asset_ok(m0, caller@, token_id@, metadata@, total_fractions);
        }
        match self.find_nft(&token_id) {
            Some(_) => Err(PlatformError::AlreadyExists),
            None => {
                let nft = MusicNFT {
                    token_id,
                    owner_id: caller.clone(),
                    metadata,
                    plays: 0,
                    fractions: Vec::new(),
                    total_fractions,
                    fractions_remaining: total_fractions,
                    withdrawn_plays: 0,
                };
                let ghost nm = nft@;
                self.nfts.push(nft);
                proof {
                    assert(nm.fractions =~= Seq::<FractionModel>::empty());
                    assert(self@.nfts =~= m0.nfts.push(nm));
                    assert(self@ =~~= crate::model::create_asset(
                        m0,
                        caller@,
                        nm.token_id,
                        nm.metadata,
                        total_fractions,
                    ).1);
                }
                Ok(())
            },
        }
    }

    /// Mints one ownership fraction of an asset to its owner's choosing.
    ///
    /// Fails `NotFound` for an unknown asset, `PermissionDenied` for a caller
    /// other than the asset's owner, `InvalidInput` for a percentage over
    /// 100, and `Exhausted` when no slot remains; every failure leaves the
    /// platform unchanged.
    pub fn mint_fraction(
        &mut self,
        caller: &Identity,
        music_nft_id: &String,
        fraction_id: String,
        percentage: u8,
    ) -> (r: Result<(), PlatformError>)
        requires
            old(self).wf(),
        ensures
            final(self).wf(),
            r == crate::model::mint_fraction(
                old(self)@,
                caller@,
                music_nft_id@,
                fraction_id@,
                percentage,
            ).0,
            final(self)@ == crate::model::mint_fraction(
                old(self)@,
                caller@,
                music_nft_id@,
                fraction_id@,
                percentage,
            ).1,
    {
        let ghost m0 = self@;
        proof {
            crate::model::lemma_mint_fraction_ok(
                m0,
                caller@,
                music_nft_id@,
                fraction_id@,
                percentage,
            );
        }
        match self.find_nft(music_nft_id) {
            None => Err(PlatformError::NotFound),
            Some(i) => {
                proof {
                    crate::model::lemma_nft_idx_is(m0.nfts, music_nft_id@, i as int);
                }
                if !(self.nfts[i].owner_id == *caller) {
                    Err(PlatformError::PermissionDenied)
                } else if percentage > 100 {
                    Err(PlatformError::InvalidInput)
                } else if self.nfts[i].fractions_remaining == 0 {
                    Err(PlatformError::Exhausted)
                } else {
                    let fraction = Fraction {
                        fraction_id,
                        owner_id: caller.clone(),
                        percentage,
                    };
                    let ghost fm = fraction@;
                    let nft = &mut self.nfts[i];
                    nft.fractions.push(fraction);
                    nft.fractions_remaining = nft.fractions_remaining - 1;
                    proof {
                        assert(self@.nfts[i as int].fractions =~= m0.nfts[i as int].fractions.push(
                            fm,
                        ));
                        assert(self@.nfts =~= m0.nfts.update(
                            i as int,
                            crate::model::mint_fraction(
                                m0,
                                caller@,
                                music_nft_id@,
                                fm.fraction_id,
                                percentage,
                            ).1.nfts[i as int],
                        ));
                        assert(self@ =~~= crate::model::mint_fraction(
                            m0,
                            caller@,
                            music_nft_id@,
                            fm.fraction_id,
                            percentage,
                        ).1);
                    }
                    Ok(())
                }
            },
        }
    }

    /// Accrues plays on an asset, saturating at the counter's maximum.
    ///
    /// Only the platform's own identity may report plays; any other caller
    /// fails `PermissionDenied`, and an unknown asset fails `NotFound`, both
    /// without mutation.
    pub fn increment_plays(&mut self, caller: &Identity, music_nft_id: &String, increment: u64) -> (r:
        Result<(), PlatformError>)
        requires
            old(self).wf(),
        ensures
            final(self).wf(),
            r == crate::model::increment_plays(old(self)@, caller@, music_nft_id@, increment).0,
            final(self)@ == crate::model::increment_plays(
                old(self)@,
                caller@,
                music_nft_id@,
                increment,
            ).1,
    {
        let ghost m0 = self@;
        proof {
            crate::model::lemma_increment_plays_ok(m0, caller@, music_nft_id@, increment);
        }
        if !(*caller == self.platform_id) {
            return Err(PlatformError::PermissionDenied);
        }
        match self.find_nft(music_nft_id) {
            None => Err(PlatformError::NotFound),
            Some(i) => {
                proof {
                    crate::model::lemma_nft_idx_is(m0.nfts, music_nft_id@, i as int);
                }
                let nft = &mut self.nfts[i];
                nft.plays = nft.plays.saturating_add(increment);
                proof {
                    assert(self@.nfts =~= m0.nfts.update(
                        i as int,
                        crate::model::increment_plays(m0, caller@, music_nft_id@, increment).1.nfts[i as int],
                    ));
                    assert(self@ =~~= crate::model::increment_plays(
                        m0,
                        caller@,
                        music_nft_id@,
                        increment,
                    ).1);
                }
                Ok(())
            },
        }
    }

    /// All registered assets, in creation order.
    pub fn get_all_music_nft(&self) -> (r: Vec<MusicNFT>)
        ensures
            r@.map_values(|n: MusicNFT| n@) == self@.nfts,
    {
        let mut r: Vec<MusicNFT> = Vec::new();
        let mut i: usize = 0;
        while i < self.nfts.len()
            invariant
                i <= self.nfts.len(),
                self@.nfts.len() == self.nfts@.len(),
                r@.len() == i as int,
                forall|j: int| 0 <= j < i ==> (#[trigger] r@[j]@) == self@.nfts[j],
            decreases self.nfts.len() - i,
        {
            r.push(self.nfts[i].clone());
            i += 1;
        }
        proof {
            assert(r@.map_values(|n: MusicNFT| n@) =~= self@.nfts);
        }
        r
    }

    /// The registered asset with this id, if any.
    pub fn get_music_nft(&self, token_id: &String) -> (r: Option<MusicNFT>)
        requires
            self.wf(),
        ensures
            match r {
                Some(nft) => crate::model::spec_get_nft(self@, token_id@) == Some(nft@),
                None => crate::model::spec_get_nft(self@, token_id@) is None,
            },
    {
        match self.find_nft(token_id) {
            None => None,
            Some(i) => {
                proof {
                    crate::model::lemma_nft_idx_is(self@.nfts, token_id@, i as int);
                }
                Some(self.nfts[i].clone())
            },
        }
    }

    /// The assets owned by `owner_id`, in creation order.
    pub fn get_user_music_nft(&self, owner_id: &Identity) -> (r: Vec<MusicNFT>)
        ensures
            r@.map_values(|n: MusicNFT| n@) == crate::model::owned_by(self@.nfts, owner_id@),
    {
        let mut r: Vec<MusicNFT> = Vec::new();
        let mut i: usize = 0;
        while i < self.nfts.len()
            invariant
                i <= self.nfts.len(),
                self@.nfts.len() == self.nfts@.len(),
                r@.map_values(|n: MusicNFT| n@) == crate::model::owned_by(
                    self@.nfts.take(i as int),
                    owner_id@,
                ),
            decreases self.nfts.len() - i,
        {
            proof {
                assert(self@.nfts.take(i + 1).drop_last() =~= self@.nfts.take(i as int));
                assert(self@.nfts.take(i + 1).last() == self@.nfts[i as int]);
            }
            if self.nfts[i].owner_id == *owner_id {
                r.push(self.nfts[i].clone());
            }
            proof {
                assert(r@.map_values(|n: MusicNFT| n@) =~= crate::model::owned_by(
                    self@.nfts.take(i + 1),
                    owner_id@,
                ));
            }
            i += 1;
        }
        proof {
            assert(self@.nfts.take(self.nfts@.len() as int) =~= self@.nfts);
        }
        r
    }

    /// The fractions minted on an asset, in minting order; empty for an
    /// unknown asset.
    pub fn get_fraction(&self, music_nft_id: &String) -> (r: Vec<Fraction>)
        requires
            self.wf(),
        ensures
            has_nft(self@.nfts, music_nft_id@) ==> r@.map_values(|f: Fraction| f@)
                == crate::model::nft_at(self@.nfts, music_nft_id@).fractions,
            !has_nft(self@.nfts, music_nft_id@) ==> r@.len() == 0,
    {
        match self.find_nft(music_nft_id) {
            None => Vec::new(),
            Some(i) => {
                proof {
                    crate::model::lemma_nft_idx_is(self@.nfts, music_nft_id@, i as int);
                }
                let nft = self.nfts[i].clone();
                nft.fractions
            },
        }
    }

    /// The asset's slot capacity; zero for an unknown asset.
    pub fn get_total_fractions(&self, music_nft_id: &String) -> (r: u64)
        requires
            self.wf(),
        ensures
            r == crate::model::spec_total_fractions(self@, music_nft_id@),
    {
        match self.find_nft(music_nft_id) {
            None => 0,
            Some(i) => {
                proof {
                    crate::model::lemma_nft_idx_is(self@.nfts, music_nft_id@, i as int);
                }
                self.nfts[i].total_fractions
            },
        }
    }

    /// The asset's free slots; zero for an unknown asset.
    pub fn get_fractions_remaining(&self, music_nft_id: &String) -> (r: u64)
        requires
            self.wf(),
        ensures
            r == crate::model::spec_fractions_remaining(self@, music_nft_id@),
    {
        match self.find_nft(music_nft_id) {
            None => 0,
            Some(i) => {
                proof {
                    crate::model::lemma_nft_idx_is(self@.nfts, music_nft_id@, i as int);
                }
                self.nfts[i].fractions_remaining
            },
        }
    }

    /// The asset's accrued plays; zero for an unknown asset.
    pub fn get_plays(&self, music_nft_id: &String) -> (r: u64)
        requires
            self.wf(),
        ensures
            r == crate::model::spec_plays(self@, music_nft_id@),
    {
        match self.find_nft(music_nft_id) {
            None => 0,
            Some(i) => {
                proof {
                    crate::model::lemma_nft_idx_is(self@.nfts, music_nft_id@, i as int);
                }
                self.nfts[i].plays
            },
        }
    }

    /// The asset's already-settled plays; zero for an unknown asset.
    pub fn get_withdrawn_plays(&self, music_nft_id: &String) -> (r: u64)
        requires
            self.wf(),
        ensures
            r == crate::model::spec_withdrawn_plays(self@, music_nft_id@),
    {
        match self.find_nft(music_nft_id) {
            None => 0,
            Some(i) => {
                proof {
                    crate::model::lemma_nft_idx_is(self@.nfts, music_nft_id@, i as int);
                }
                self.nfts[i].withdrawn_plays
            },
        }
    }

    /// The asset's owner, if the asset is registered.
    pub fn get_owner(&self, music_nft_id: &String) -> (r: Option<Identity>)
        requires
            self.wf(),
        ensures
            match r {
                Some(owner) => has_nft(self@.nfts, music_nft_id@) && owner@ == crate::model::nft_at(
                    self@.nfts,
                    music_nft_id@,
                ).owner_id,
                None => !has_nft(self@.nfts, music_nft_id@),
            },
    {
        match self.find_nft(music_nft_id) {
            None => None,
            Some(i) => {
                proof {
                    crate::model::lemma_nft_idx_is(self@.nfts, music_nft_id@, i as int);
                }
                Some(self.nfts[i].owner_id.clone())
            },
        }
    }
}

} // verus!
