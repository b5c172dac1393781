//! Reward settlement: pending settlements and the external requests.

use vstd::prelude::*;

use crate::PLAYS_PER_REWARD;
use crate::PlatformError;
use crate::REWARD_AMOUNT;
use crate::identity::Identity;
use crate::model::PendingModel;
use crate::model::SettlementStage;
use crate::platform::MusicPlatform;

verus! {

/// Interface of the external value-transfer collaborator (the token
/// contract). The platform never calls it: the host performs these requests
/// and reports each outcome through the settlement callbacks.
pub trait MawjatToken {
    /// Mints `amount` settlement units to `account_id`; reports success.
    fn mint_token(&mut self, account_id: &Identity, amount: u128) -> bool;

    /// Provisions token-side storage for `account_id`; reports success.
    fn storage_deposit(&mut self, account_id: &Identity) -> bool;
}

/// A reservation for an in-flight settlement, correlated by asset id.
#[derive(Debug)]
pub struct PendingSettlement {
    pub music_nft_id: String,
    pub plays_consumed: u64,
    pub pool_debit: u128,
    pub stage: SettlementStage,
}

impl View for PendingSettlement {
    type V = PendingModel;

    open spec fn view(&self) -> PendingModel {
        PendingModel {
            music_nft_id: self.music_nft_id@,
            plays_consumed: self.plays_consumed,
            pool_debit: self.pool_debit,
            stage: self.stage,
        }
    }
}

impl PendingSettlement {
    /// The asset the settlement is reserved against.
    pub fn music_nft_id(&self) -> (r: &String)
        ensures
            r@ == self@.music_nft_id,
    {
        &self.music_nft_id
    }

    /// The play span the settlement consumes on success.
    pub fn plays_consumed(&self) -> (r: u64)
        ensures
            r == self@.plays_consumed,
    {
        self.plays_consumed
    }

    /// The pool debit reserved for the settlement.
    pub fn pool_debit(&self) -> (r: u128)
        ensures
            r == self@.pool_debit,
    {
        self.pool_debit
    }

    /// The settlement's protocol stage.
    pub fn stage(&self) -> (r: SettlementStage)
        ensures
            r == self@.stage,
    {
        self.stage
    }
}

impl Clone for PendingSettlement {
    fn clone(&self) -> (r: Self)
        ensures
            r@ == self@,
    {
        PendingSettlement {
            music_nft_id: self.music_nft_id.clone(),
            plays_consumed: self.plays_consumed,
            pool_debit: self.pool_debit,
            stage: self.stage,
        }
    }
}

/// A storage-provision request the host must perform against the token
/// contract, correlated to a pending settlement by asset id.
#[derive(Debug)]
pub struct StorageRequest {
    pub account_id: Identity,
    pub music_nft_id: String,
}

impl StorageRequest {
    /// The account to provision storage for (the asset's owner).
    pub fn account_id(&self) -> (r: &Identity)
        ensures
            r@ == self.account_id@,
    {
        &self.account_id
    }

    /// The correlation key: the asset the settlement is reserved against.
    pub fn music_nft_id(&self) -> (r: &String)
        ensures
            r@ == self.music_nft_id@,
    {
        &self.music_nft_id
    }
}

/// A mint request the host must perform against the token contract,
/// correlated to a pending settlement by asset id.
#[derive(Debug)]
pub struct MintRequest {
    pub account_id: Identity,
    pub amount: u128,
    pub music_nft_id: String,
}

impl MintRequest {
    /// The account to mint to (the asset's owner).
    pub fn account_id(&self) -> (r: &Identity)
        ensures
            r@ == self.account_id@,
    {
        &self.account_id
    }

    /// The settlement units to mint.
    pub fn amount(&self) -> (r: u128)
        ensures
            r == self.amount,
    {
        self.amount
    }

    /// The correlation key: the asset the settlement is reserved against.
    pub fn music_nft_id(&self) -> (r: &String)
        ensures
            r@ == self.music_nft_id@,
    {
        &self.music_nft_id
    }
}

impl MusicPlatform {
    /// Reserves a redemption of the asset's accrued rewards for its owner.
    ///
    /// Returns the reward units due. When at least one quantum of unredeemed
    /// plays exists, the reward value is debited from the pool and a pending
    /// settlement is recorded; the host must then perform the
    /// storage-provision and mint requests and report their outcomes through
    /// the callbacks. With less than one quantum due, the call returns
    /// `Ok(0)` and changes nothing. Fails `NotFound` for an unknown asset,
    /// `PermissionDenied` for a non-owner, `Indeterminate` while a settlement
    /// for the asset is already in flight, and `InsufficientPool` when the
    /// pool cannot cover the reward value — each without mutation.
    pub fn redeem_rewards(&mut self, caller: &Identity, music_nft_id: &String) -> (r: Result<
        u64,
        PlatformError,
    >)
        requires
            old(self).wf(),
        ensures
            final(self).wf(),
            r == crate::model::redeem_rewards(old(self)@, caller@, music_nft_id@).0,
            final(self)@ == crate::model::redeem_rewards(old(self)@, caller@, music_nft_id@).1,
    {
        let ghost m0 = self@;
        proof {
            crate::model::lemma_redeem_rewards_ok(m0, caller@, music_nft_id@);
        }
        match self.find_nft(music_nft_id) {
            None => Err(PlatformError::NotFound),
            Some(i) => {
                proof {
                    crate::model::lemma_nft_idx_is(m0.nfts, music_nft_id@, i as int);
                }
                if !(self.nfts[i].owner_id == *caller) {
                    return Err(PlatformError::PermissionDenied);
                }
                if self.find_pending(music_nft_id).is_some() {
                    return Err(PlatformError::Indeterminate);
                }
                let plays = self.nfts[i].plays;
                let withdrawn = self.nfts[i].withdrawn_plays;
                let new_plays = plays - withdrawn;
                let due = new_plays / PLAYS_PER_REWARD;
                proof {
                    crate::model::lemma_due_arith(new_plays as int);
                }
                if due == 0 {
                    return Ok(0);
                }
                let debit = (due as u128) * REWARD_AMOUNT;
                if self.mwj_balance < debit {
                    return Err(PlatformError::InsufficientPool);
                }
                let consumed = due * PLAYS_PER_REWARD;
                let pending = PendingSettlement {
                    music_nft_id: music_nft_id.clone(),
                    plays_consumed: consumed,
                    pool_debit: debit,
                    stage: SettlementStage::AwaitingStorage,
                };
                let ghost pm = pending@;
                self.mwj_balance = self.mwj_balance - debit;
                self.pendings.push(pending);
                proof {
                    assert(self@.pendings =~= m0.pendings.push(pm));
                    assert(self@ =~~= crate::model::redeem_rewards(m0, caller@, music_nft_id@).1);
                }
                Ok(due)
            },
        }
    }

    /// The storage-provision request the host must perform for the asset's
    /// in-flight settlement; available exactly while the settlement awaits
    /// its storage outcome.
    pub fn add_storage_deposit(&self, music_nft_id: &String) -> (r: Result<
        StorageRequest,
        PlatformError,
    >)
        requires
            self.wf(),
        ensures
            match r {
                Ok(req) => {
                    &&& crate::model::has_pending(self@.pendings, music_nft_id@)
                    &&& crate::model::pending_at(self@.pendings, music_nft_id@).stage
                        == SettlementStage::AwaitingStorage
                    &&& req.account_id@ == crate::model::nft_at(self@.nfts, music_nft_id@).owner_id
                    &&& req.music_nft_id@ == music_nft_id@
                },
                Err(e) => {
                    &&& e == PlatformError::NotFound
                    &&& !(crate::model::has_pending(self@.pendings, music_nft_id@)
                        && crate::model::pending_at(self@.pendings, music_nft_id@).stage
                        == SettlementStage::AwaitingStorage)
                },
            },
    {
        match self.find_pending(music_nft_id) {
            None => Err(PlatformError::NotFound),
            Some(k) => {
                proof {
                    crate::model::lemma_pending_idx_is(self@.pendings, music_nft_id@, k as int);
                }
                match self.pendings[k].stage {
                    SettlementStage::AwaitingMint => Err(PlatformError::NotFound),
                    SettlementStage::AwaitingStorage => {
                        let owner = self.owner_for_pending(music_nft_id, k);
                        Ok(StorageRequest { account_id: owner, music_nft_id: music_nft_id.clone() })
                    },
                }
            },
        }
    }

    /// The mint request the host must perform for the asset's in-flight
    /// settlement; available exactly while the settlement awaits its mint
    /// outcome. The amount is the settlement's reserved pool debit.
    pub fn mint_lts(&self, music_nft_id: &String) -> (r: Result<MintRequest, PlatformError>)
        requires
            self.wf(),
        ensures
            match r {
                Ok(req) => {
                    &&& crate::model::has_pending(self@.pendings, music_nft_id@)
                    &&& crate::model::pending_at(self@.pendings, music_nft_id@).stage
                        == SettlementStage::AwaitingMint
                    &&& req.account_id@ == crate::model::nft_at(self@.nfts, music_nft_id@).owner_id
                    &&& req.amount == crate::model::pending_at(self@.pendings, music_nft_id@).pool_debit
                    &&& req.music_nft_id@ == music_nft_id@
                },
                Err(e) => {
                    &&& e == PlatformError::NotFound
                    &&& !(crate::model::has_pending(self@.pendings, music_nft_id@)
                        && crate::model::pending_at(self@.pendings, music_nft_id@).stage
                        == SettlementStage::AwaitingMint)
                },
            },
    {
        match self.find_pending(music_nft_id) {
            None => Err(PlatformError::NotFound),
            Some(k) => {
                proof {
                    crate::model::lemma_pending_idx_is(self@.pendings, music_nft_id@, k as int);
                }
                match self.pendings[k].stage {
                    SettlementStage::AwaitingStorage => Err(PlatformError::NotFound),
                    SettlementStage::AwaitingMint => {
                        let owner = self.owner_for_pending(music_nft_id, k);
                        Ok(
                            MintRequest {
                                account_id: owner,
                                amount: self.pendings[k].pool_debit,
                                music_nft_id: music_nft_id.clone(),
                            },
                        )
                    },
                }
            },
        }
    }

    /// Looks up the owner of the asset a well-formed pending settlement
    /// names; the settlement invariant guarantees the asset exists.
    fn owner_for_pending(&self, music_nft_id: &String, k: usize) -> (r: Identity)
        requires
            self.wf(),
            k < self@.pendings.len(),
            self@.pendings[k as int].music_nft_id == music_nft_id@,
        ensures
            r@ == crate::model::nft_at(self@.nfts, music_nft_id@).owner_id,
    {
        match self.find_nft(music_nft_id) {
            Some(i) => {
                proof {
                    crate::model::lemma_nft_idx_is(self@.nfts, music_nft_id@, i as int);
                }
                self.nfts[i].owner_id.clone()
            },
            None => {
                proof {
                    assert(crate::model::pending_ok(self@.nfts, self@.pendings[k as int]));
                    assert(false);
                }
                self.platform_id.clone()
            },
        }
    }

    /// Reports the outcome of the storage-provision request for the asset's
    /// in-flight settlement.
    ///
    /// Only the platform's own identity may report outcomes. Success
    /// advances the settlement to the mint stage; failure rolls the
    /// reservation back, restoring the pool, and surfaces
    /// `ExternalCallFailed`. An unknown asset or a settlement not awaiting
    /// its storage outcome fails `NotFound` without mutation.
    pub fn add_storage_callback(
        &mut self,
        caller: &Identity,
        music_nft_id: &String,
        success: bool,
    ) -> (r: Result<(), PlatformError>)
        requires
            old(self).wf(),
        ensures
            final(self).wf(),
            r == crate::model::add_storage_callback(old(self)@, caller@, music_nft_id@, success).0,
            final(self)@ == crate::model::add_storage_callback(
                old(self)@,
                caller@,
                music_nft_id@,
                success,
            ).1,
    {
        let ghost m0 = self@;
        proof {
            crate::model::lemma_storage_callback_ok(m0, caller@, music_nft_id@, success);
        }
        if !(*caller == self.platform_id) {
            return Err(PlatformError::PermissionDenied);
        }
        match self.find_pending(music_nft_id) {
            None => Err(PlatformError::NotFound),
            Some(k) => {
                proof {
                    crate::model::lemma_pending_idx_is(m0.pendings, music_nft_id@, k as int);
                }
                match self.pendings[k].stage {
                    SettlementStage::AwaitingMint => Err(PlatformError::NotFound),
                    SettlementStage::AwaitingStorage => {
                        if success {
                            let pending = &mut self.pendings[k];
                            pending.stage = SettlementStage::AwaitingMint;
                            proof {
                                assert(self@.pendings =~= m0.pendings.update(
                                    k as int,
                                    crate::model::add_storage_callback(
                                        m0,
                                        caller@,
                                        music_nft_id@,
                                        success,
                                    ).1.pendings[k as int],
                                ));
                                assert(self@ =~~= crate::model::add_storage_callback(
                                    m0,
                                    caller@,
                                    music_nft_id@,
                                    success,
                                ).1);
                            }
                            Ok(())
                        } else {
                            proof {
                                crate::model::lemma_remove_pending_ok(m0, k as int);
                            }
                            let debit = self.pendings[k].pool_debit;
                            self.mwj_balance = self.mwj_balance + debit;
                            self.pendings.remove(k);
                            proof {
                                assert(self@.pendings =~= m0.pendings.remove(k as int));
                                assert(self@ =~~= crate::model::add_storage_callback(
                                    m0,
                                    caller@,
                                    music_nft_id@,
                                    success,
                                ).1);
                            }
                            Err(PlatformError::ExternalCallFailed)
                        }
                    },
                }
            },
        }
    }

    /// Reports the outcome of the mint request for the asset's in-flight
    /// settlement.
    ///
    /// Only the platform's own identity may report outcomes. Success
    /// finalizes the settlement: exactly the reserved play span is added to
    /// the asset's withdrawn plays, leaving any sub-quantum remainder for a
    /// future redemption. Failure rolls the reservation back, restoring the
    /// pool and leaving withdrawn plays untouched, and surfaces
    /// `ExternalCallFailed`. An unknown asset or a settlement not awaiting
    /// its mint outcome fails `NotFound` without mutation.
    pub fn mint_lts_callback(
        &mut self,
        caller: &Identity,
        music_nft_id: &String,
        success: bool,
    ) -> (r: Result<(), PlatformError>)
        requires
            old(self).wf(),
        ensures
            final(self).wf(),
            r == crate::model::mint_lts_callback(old(self)@, caller@, music_nft_id@, success).0,
            final(self)@ == crate::model::mint_lts_callback(
                old(self)@,
                caller@,
                music_nft_id@,
                success,
            ).1,
    {
        let ghost m0 = self@;
        proof {
            crate::model::lemma_mint_callback_ok(m0, caller@, music_nft_id@, success);
        }
        if !(*caller == self.platform_id) {
            return Err(PlatformError::PermissionDenied);
        }
        match self.find_pending(music_nft_id) {
            None => Err(PlatformError::NotFound),
            Some(k) => {
                proof {
                    crate::model::lemma_pending_idx_is(m0.pendings, music_nft_id@, k as int);
                }
                match self.pendings[k].stage {
                    SettlementStage::AwaitingStorage => Err(PlatformError::NotFound),
                    SettlementStage::AwaitingMint => {
                        proof {
                            crate::model::lemma_remove_pending_ok(m0, k as int);
                            assert(crate::model::pending_ok(m0.nfts, m0.pendings[k as int]));
                        }
                        if success {
                            let consumed = self.pendings[k].plays_consumed;
                            match self.find_nft(music_nft_id) {
                                None => {
                                    proof {
                                        assert(false);
                                    }
                                    Err(PlatformError::NotFound)
                                },
                                Some(i) => {
                                    proof {
                                        crate::model::lemma_nft_idx_is(
                                            m0.nfts,
                                            music_nft_id@,
                                            i as int,
                                        );
                                    }
                                    let nft = &mut self.nfts[i];
                                    nft.withdrawn_plays = nft.withdrawn_plays + consumed;
                                    self.pendings.remove(k);
                                    proof {
                                        assert(self@.nfts =~= m0.nfts.update(
                                            i as int,
                                            crate::model::mint_lts_callback(
                                                m0,
                                                caller@,
                                                music_nft_id@,
                                                success,
                                            ).1.nfts[i as int],
                                        ));
                                        assert(self@.pendings =~= m0.pendings.remove(k as int));
                                        assert(self@ =~~= crate::model::mint_lts_callback(
                                            m0,
                                            caller@,
                                            music_nft_id@,
                                            success,
                                        ).1);
                                    }
                                    Ok(())
                                },
                            }
                        } else {
                            let debit = self.pendings[k].pool_debit;
                            self.mwj_balance = self.mwj_balance + debit;
                            self.pendings.remove(k);
                            proof {
                                assert(self@.pendings =~= m0.pendings.remove(k as int));
                                assert(self@ =~~= crate::model::mint_lts_callback(
                                    m0,
                                    caller@,
                                    music_nft_id@,
                                    success,
                                ).1);
                            }
                            Err(PlatformError::ExternalCallFailed)
                        }
                    },
                }
            },
        }
    }

    /// The in-flight settlement for an asset, if any.
    pub fn get_pending_settlement(&self, music_nft_id: &String) -> (r: Option<PendingSettlement>)
        requires
            self.wf(),
        ensures
            match r {
                Some(p) => crate::model::has_pending(self@.pendings, music_nft_id@) && p@
                    == crate::model::pending_at(self@.pendings, music_nft_id@),
                None => !crate::model::has_pending(self@.pendings, music_nft_id@),
            },
    {
        match self.find_pending(music_nft_id) {
            None => None,
            Some(k) => {
                proof {
                    crate::model::lemma_pending_idx_is(self@.pendings, music_nft_id@, k as int);
                }
                Some(self.pendings[k].clone())
            },
        }
    }

    /// The reward pool's current balance.
    pub fn get_mwj_balance(&self) -> (r: u128)
        ensures
            r == self@.mwj_balance,
    {
        self.mwj_balance
    }
}

} // verus!
