//! The mathematical model of the platform and its state transitions.
//!
//! Every executable operation is specified against a ghost [`PlatformModel`]
//! and a spec-level transition function here: the operation's `ensures` says
//! that its result and its final state are exactly what the transition
//! computes. The well-formedness predicate [`platform_ok`] carries the
//! ledger's invariants: fraction-slot conservation, the withdrawn-plays
//! bound, uniqueness of asset and settlement keys, and solvency of the
//! reward pool against every in-flight reservation.

use vstd::prelude::*;

use crate::PLAYS_PER_REWARD;
use crate::PlatformError;
use crate::REWARD_AMOUNT;

verus! {

/// Stage of an in-flight settlement: the storage-provision request is issued
/// first, the mint request only after the provision succeeded.
#[derive(Clone, Copy, PartialEq, Eq, Structural, Debug)]
pub enum SettlementStage {
    /// The storage-provision request is out; its outcome has not arrived.
    AwaitingStorage,
    /// Storage provision succeeded; the mint request's outcome is pending.
    AwaitingMint,
}

/// Model of one minted ownership fraction.
#[verifier::ext_equal]
pub ghost struct FractionModel {
    pub fraction_id: Seq<char>,
    pub owner_id: Seq<char>,
    pub percentage: u8,
}

/// Model of one registered music asset.
#[verifier::ext_equal]
pub ghost struct NftModel {
    pub token_id: Seq<char>,
    pub owner_id: Seq<char>,
    pub metadata: Seq<char>,
    pub plays: u64,
    pub fractions: Seq<FractionModel>,
    pub total_fractions: u64,
    pub fractions_remaining: u64,
    pub withdrawn_plays: u64,
}

/// Model of one pending settlement: the correlation key is the asset id,
/// `plays_consumed` is the play span the settlement will consume on success,
/// and `pool_debit` is the amount tentatively taken from the pool.
#[verifier::ext_equal]
pub ghost struct PendingModel {
    pub music_nft_id: Seq<char>,
    pub plays_consumed: u64,
    pub pool_debit: u128,
    pub stage: SettlementStage,
}

/// Model of the whole platform state.
#[verifier::ext_equal]
pub ghost struct PlatformModel {
    pub platform_id: Seq<char>,
    pub mwj_balance: u128,
    pub nfts: Seq<NftModel>,
    pub pendings: Seq<PendingModel>,
}

/// Whether an asset with this id is registered.
pub open spec fn has_nft(nfts: Seq<NftModel>, id: Seq<char>) -> bool {
    exists|i: int| 0 <= i < nfts.len() && (#[trigger] nfts[i].token_id) == id
}

/// The index of the asset with this id (meaningful only under `has_nft`).
pub open spec fn nft_idx(nfts: Seq<NftModel>, id: Seq<char>) -> int {
    choose|i: int| 0 <= i < nfts.len() && (#[trigger] nfts[i].token_id) == id
}

/// The asset with this id (meaningful only under `has_nft`).
pub open spec fn nft_at(nfts: Seq<NftModel>, id: Seq<char>) -> NftModel {
    nfts[nft_idx(nfts, id)]
}

/// Whether a settlement for this asset is in flight.
pub open spec fn has_pending(ps: Seq<PendingModel>, id: Seq<char>) -> bool {
    exists|k: int| 0 <= k < ps.len() && (#[trigger] ps[k].music_nft_id) == id
}

/// The index of the in-flight settlement for this asset.
pub open spec fn pending_idx(ps: Seq<PendingModel>, id: Seq<char>) -> int {
    choose|k: int| 0 <= k < ps.len() && (#[trigger] ps[k].music_nft_id) == id
}

/// The in-flight settlement for this asset (meaningful under `has_pending`).
pub open spec fn pending_at(ps: Seq<PendingModel>, id: Seq<char>) -> PendingModel {
    ps[pending_idx(ps, id)]
}

/// Asset ids are pairwise distinct.
pub open spec fn nft_ids_unique(nfts: Seq<NftModel>) -> bool {
    forall|i: int, j: int|
        0 <= i < j < nfts.len() ==> (#[trigger] nfts[i].token_id) != (#[trigger] nfts[j].token_id)
}

/// At most one settlement per asset is in flight.
pub open spec fn pending_ids_unique(ps: Seq<PendingModel>) -> bool {
    forall|i: int, j: int|
        0 <= i < j < ps.len() ==> (#[trigger] ps[i].music_nft_id) != (#[trigger] ps[j].music_nft_id)
}

/// Per-asset invariants: slot conservation and the withdrawn-plays bound.
pub open spec fn nft_ok(n: NftModel) -> bool {
    &&& n.fractions_remaining + n.fractions.len() == n.total_fractions
    &&& n.withdrawn_plays <= n.plays
}

/// Per-settlement invariants: the settlement names a registered asset, the
/// play span it will consume still fits under the asset's accrued plays, the
/// span is a positive whole number of reward quanta, and the recorded pool
/// debit is the reward value of exactly that span.
pub open spec fn pending_ok(nfts: Seq<NftModel>, p: PendingModel) -> bool {
    &&& has_nft(nfts, p.music_nft_id)
    &&& forall|i: int|
        0 <= i < nfts.len() && (#[trigger] nfts[i].token_id) == p.music_nft_id
            ==> nfts[i].withdrawn_plays + p.plays_consumed <= nfts[i].plays
    &&& 0 < p.plays_consumed
    &&& p.plays_consumed % PLAYS_PER_REWARD == 0
    &&& p.pool_debit == p.plays_consumed / PLAYS_PER_REWARD * REWARD_AMOUNT
}

/// Total of the pool debits reserved by in-flight settlements.
pub open spec fn debit_sum(ps: Seq<PendingModel>) -> int
    decreases ps.len(),
{
    if ps.len() == 0 {
        0
    } else {
        ps[0].pool_debit + debit_sum(ps.drop_first())
    }
}

/// Well-formedness of the whole platform state.
pub open spec fn platform_ok(m: PlatformModel) -> bool {
    &&& nft_ids_unique(m.nfts)
    &&& forall|i: int| 0 <= i < m.nfts.len() ==> nft_ok(#[trigger] m.nfts[i])
    &&& pending_ids_unique(m.pendings)
    &&& forall|k: int| 0 <= k < m.pendings.len() ==> pending_ok(m.nfts, #[trigger] m.pendings[k])
    &&& m.mwj_balance + debit_sum(m.pendings) <= u128::MAX
}

/// Reward units owed by an asset's plays not yet consumed by a settlement.
pub open spec fn rewards_due_of(n: NftModel) -> int {
    (n.plays - n.withdrawn_plays) / (PLAYS_PER_REWARD as int)
}

/// The model of a freshly created asset.
pub open spec fn new_nft(
    token_id: Seq<char>,
    owner_id: Seq<char>,
    metadata: Seq<char>,
    total_fractions: u64,
) -> NftModel {
    NftModel {
        token_id,
        owner_id,
        metadata,
        plays: 0,
        fractions: Seq::<FractionModel>::empty(),
        total_fractions,
        fractions_remaining: total_fractions,
        withdrawn_plays: 0,
    }
}

/// Transition: register a new asset owned by the caller. Rejects a duplicate
/// id; otherwise appends the asset with zero plays and all slots free.
pub open spec fn create_asset(
    m: PlatformModel,
    caller: Seq<char>,
    token_id: Seq<char>,
    metadata: Seq<char>,
    total_fractions: u64,
) -> (Result<(), PlatformError>, PlatformModel) {
    if has_nft(m.nfts, token_id) {
        (Err(PlatformError::AlreadyExists), m)
    } else {
        (
            Ok(()),
            PlatformModel {
                nfts: m.nfts.push(new_nft(token_id, caller, metadata, total_fractions)),
                ..m
            },
        )
    }
}

/// Transition: mint one ownership fraction. Only the asset's owner may mint;
/// the percentage must lie in 0..=100 and a slot must remain. On success the
/// fraction is appended and one slot is consumed.
///
/// Deliberate policy: fraction ids are caller-chosen labels and need not be
/// distinct within an asset, and the percentages of an asset's fractions are
/// not required to sum to at most 100; a fraction is a free-standing share
/// claim, not a partition of the asset.
pub open spec fn mint_fraction(
    m: PlatformModel,
    caller: Seq<char>,
    music_nft_id: Seq<char>,
    fraction_id: Seq<char>,
    percentage: u8,
) -> (Result<(), PlatformError>, PlatformModel) {
    if !has_nft(m.nfts, music_nft_id) {
        (Err(PlatformError::NotFound), m)
    } else {
        let i = nft_idx(m.nfts, music_nft_id);
        let n = m.nfts[i];
        if n.owner_id != caller {
            (Err(PlatformError::PermissionDenied), m)
        } else if percentage > 100 {
            (Err(PlatformError::InvalidInput), m)
        } else if n.fractions_remaining == 0 {
            (Err(PlatformError::Exhausted), m)
        } else {
            (
                Ok(()),
                PlatformModel {
                    nfts: m.nfts.update(
                        i,
                        NftModel {
                            fractions: n.fractions.push(
                                FractionModel { fraction_id, owner_id: caller, percentage },
                            ),
                            fractions_remaining: (n.fractions_remaining - 1) as u64,
                            ..n
                        },
                    ),
                    ..m
                },
            )
        }
    }
}

/// Transition: accrue plays. Only the platform's own identity may report
/// plays; the counter saturates at its maximum instead of wrapping.
pub open spec fn increment_plays(
    m: PlatformModel,
    caller: Seq<char>,
    music_nft_id: Seq<char>,
    increment: u64,
) -> (Result<(), PlatformError>, PlatformModel) {
    if caller != m.platform_id {
        (Err(PlatformError::PermissionDenied), m)
    } else if !has_nft(m.nfts, music_nft_id) {
        (Err(PlatformError::NotFound), m)
    } else {
        let i = nft_idx(m.nfts, music_nft_id);
        let n = m.nfts[i];
        (
            Ok(()),
            PlatformModel {
                nfts: m.nfts.update(i, NftModel { plays: n.plays.saturating_add(increment), ..n }),
                ..m
            },
        )
    }
}

/// Transition: reserve a redemption. Only the asset's owner may redeem, and
/// only while no settlement for the asset is in flight. With fewer unredeemed
/// plays than one reward quantum the call is a no-op returning zero;
/// otherwise the pool must cover the reward value, which is tentatively
/// debited while a pending settlement records the reserved play span.
pub open spec fn redeem_rewards(
    m: PlatformModel,
    caller: Seq<char>,
    music_nft_id: Seq<char>,
) -> (Result<u64, PlatformError>, PlatformModel) {
    if !has_nft(m.nfts, music_nft_id) {
        (Err(PlatformError::NotFound), m)
    } else {
        let n = nft_at(m.nfts, music_nft_id);
        if n.owner_id != caller {
            (Err(PlatformError::PermissionDenied), m)
        } else if has_pending(m.pendings, music_nft_id) {
            (Err(PlatformError::Indeterminate), m)
        } else {
            let due = rewards_due_of(n);
            if due == 0 {
                (Ok(0u64), m)
            } else if m.mwj_balance < due * REWARD_AMOUNT {
                (Err(PlatformError::InsufficientPool), m)
            } else {
                (
                    Ok(due as u64),
                    PlatformModel {
                        mwj_balance: (m.mwj_balance - due * REWARD_AMOUNT) as u128,
                        pendings: m.pendings.push(
                            PendingModel {
                                music_nft_id,
                                plays_consumed: (due * PLAYS_PER_REWARD) as u64,
                                pool_debit: (due * REWARD_AMOUNT) as u128,
                                stage: SettlementStage::AwaitingStorage,
                            },
                        ),
                        ..m
                    },
                )
            }
        }
    }
}

/// Transition: outcome of the storage-provision request. Only the platform
/// identity may report outcomes. Success advances the settlement to the mint
/// stage; failure rolls the reservation back, restoring the pool.
pub open spec fn add_storage_callback(
    m: PlatformModel,
    caller: Seq<char>,
    music_nft_id: Seq<char>,
    success: bool,
) -> (Result<(), PlatformError>, PlatformModel) {
    if caller != m.platform_id {
        (Err(PlatformError::PermissionDenied), m)
    } else if !has_pending(m.pendings, music_nft_id) {
        (Err(PlatformError::NotFound), m)
    } else {
        let k = pending_idx(m.pendings, music_nft_id);
        let p = m.pendings[k];
        if p.stage != SettlementStage::AwaitingStorage {
            (Err(PlatformError::NotFound), m)
        } else if success {
            (
                Ok(()),
                PlatformModel {
                    pendings: m.pendings.update(
                        k,
                        PendingModel { stage: SettlementStage::AwaitingMint, ..p },
                    ),
                    ..m
                },
            )
        } else {
            (
                Err(PlatformError::ExternalCallFailed),
                PlatformModel {
                    mwj_balance: (m.mwj_balance + p.pool_debit) as u128,
                    pendings: m.pendings.remove(k),
                    ..m
                },
            )
        }
    }
}

/// Transition: outcome of the mint request. Only the platform identity may
/// report outcomes. Success finalizes the settlement, consuming exactly the
/// reserved play span; failure rolls the reservation back, restoring the
/// pool and leaving withdrawn plays untouched.
pub open spec fn mint_lts_callback(
    m: PlatformModel,
    caller: Seq<char>,
    music_nft_id: Seq<char>,
    success: bool,
) -> (Result<(), PlatformError>, PlatformModel) {
    if caller != m.platform_id {
        (Err(PlatformError::PermissionDenied), m)
    } else if !has_pending(m.pendings, music_nft_id) {
        (Err(PlatformError::NotFound), m)
    } else {
        let k = pending_idx(m.pendings, music_nft_id);
        let p = m.pendings[k];
        if p.stage != SettlementStage::AwaitingMint {
            (Err(PlatformError::NotFound), m)
        } else if success {
            let i = nft_idx(m.nfts, music_nft_id);
            let n = m.nfts[i];
            (
                Ok(()),
                PlatformModel {
                    nfts: m.nfts.update(
                        i,
                        NftModel {
                            withdrawn_plays: (n.withdrawn_plays + p.plays_consumed) as u64,
                            ..n
                        },
                    ),
                    pendings: m.pendings.remove(k),
                    ..m
                },
            )
        } else {
            (
                Err(PlatformError::ExternalCallFailed),
                PlatformModel {
                    mwj_balance: (m.mwj_balance + p.pool_debit) as u128,
                    pendings: m.pendings.remove(k),
                    ..m
                },
            )
        }
    }
}

/// Under unique asset ids, any matching index is the looked-up index.
pub proof fn lemma_nft_idx_is(nfts: Seq<NftModel>, id: Seq<char>, i: int)
    requires
        nft_ids_unique(nfts),
        0 <= i < nfts.len(),
        nfts[i].token_id == id,
    ensures
        has_nft(nfts, id),
        nft_idx(nfts, id) == i,
        nft_at(nfts, id) == nfts[i],
{
    assert(has_nft(nfts, id));
    let c = nft_idx(nfts, id);
    assert(0 <= c < nfts.len() && nfts[c].token_id == id);
    if c != i {
        if c < i {
            assert(nfts[c].token_id != nfts[i].token_id);
        } else {
            assert(nfts[i].token_id != nfts[c].token_id);
        }
    }
}

/// Under unique settlement keys, any matching index is the looked-up index.
pub proof fn lemma_pending_idx_is(ps: Seq<PendingModel>, id: Seq<char>, k: int)
    requires
        pending_ids_unique(ps),
        0 <= k < ps.len(),
        ps[k].music_nft_id == id,
    ensures
        has_pending(ps, id),
        pending_idx(ps, id) == k,
        pending_at(ps, id) == ps[k],
{
    assert(has_pending(ps, id));
    let c = pending_idx(ps, id);
    assert(0 <= c < ps.len() && ps[c].music_nft_id == id);
    if c != k {
        if c < k {
            assert(ps[c].music_nft_id != ps[k].music_nft_id);
        } else {
            assert(ps[k].music_nft_id != ps[c].music_nft_id);
        }
    }
}

proof fn lemma_debit_sum_nonneg(ps: Seq<PendingModel>)
    ensures
        debit_sum(ps) >= 0,
    decreases ps.len(),
{
    if ps.len() > 0 {
        lemma_debit_sum_nonneg(ps.drop_first());
    }
}

proof fn lemma_debit_sum_push(ps: Seq<PendingModel>, p: PendingModel)
    ensures
        debit_sum(ps.push(p)) == debit_sum(ps) + p.pool_debit,
    decreases ps.len(),
{
    assert(ps.push(p).len() == ps.len() + 1);
    assert(debit_sum(ps.push(p)) == ps.push(p)[0].pool_debit + debit_sum(ps.push(p).drop_first()));
    if ps.len() == 0 {
        assert(ps.push(p)[0] == p);
        assert(ps.push(p).drop_first() =~= Seq::<PendingModel>::empty());
        assert(debit_sum(ps.push(p).drop_first()) == 0);
    } else {
        assert(ps.push(p)[0] == ps[0]);
        assert(ps.push(p).drop_first() =~= ps.drop_first().push(p));
        lemma_debit_sum_push(ps.drop_first(), p);
    }
}

proof fn lemma_debit_sum_update(ps: Seq<PendingModel>, k: int, p: PendingModel)
    requires
        0 <= k < ps.len(),
        p.pool_debit == ps[k].pool_debit,
    ensures
        debit_sum(ps.update(k, p)) == debit_sum(ps),
    decreases ps.len(),
{
    if k == 0 {
        assert(ps.update(0, p).drop_first() =~= ps.drop_first());
    } else {
        assert(ps.update(k, p).drop_first() =~= ps.drop_first().update(k - 1, p));
        lemma_debit_sum_update(ps.drop_first(), k - 1, p);
    }
}

proof fn lemma_debit_sum_remove(ps: Seq<PendingModel>, k: int)
    requires
        0 <= k < ps.len(),
    ensures
        debit_sum(ps.remove(k)) == debit_sum(ps) - ps[k].pool_debit,
    decreases ps.len(),
{
    if k == 0 {
        assert(ps.remove(0) =~= ps.drop_first());
    } else {
        assert(ps.remove(k).drop_first() =~= ps.drop_first().remove(k - 1));
        lemma_debit_sum_remove(ps.drop_first(), k - 1);
    }
}

/// Registering an asset preserves well-formedness.
pub proof fn lemma_create_asset_ok(
    m: PlatformModel,
    caller: Seq<char>,
    token_id: Seq<char>,
    metadata: Seq<char>,
    total_fractions: u64,
)
    requires
        platform_ok(m),
    ensures
        platform_ok(create_asset(m, caller, token_id, metadata, total_fractions).1),
{
    if !has_nft(m.nfts, token_id) {
        let n = new_nft(token_id, caller, metadata, total_fractions);
        let nfts2 = m.nfts.push(n);
        assert forall|i: int, j: int| 0 <= i < j < nfts2.len() implies (#[trigger] nfts2[i]
            .token_id) != (#[trigger] nfts2[j].token_id) by {
            if j == m.nfts.len() {
                if nfts2[i].token_id == token_id {
                    assert(m.nfts[i].token_id == token_id);
                    assert(has_nft(m.nfts, token_id));
                }
            }
        }
        assert forall|k: int| 0 <= k < m.pendings.len() implies pending_ok(
            nfts2,
            #[trigger] m.pendings[k],
        ) by {
            let p = m.pendings[k];
            assert(pending_ok(m.nfts, p));
            let iw = choose|i: int|
                0 <= i < m.nfts.len() && (#[trigger] m.nfts[i].token_id) == p.music_nft_id;
            assert(nfts2[iw].token_id == p.music_nft_id);
            assert(has_nft(nfts2, p.music_nft_id));
            assert forall|i2: int|
                0 <= i2 < nfts2.len() && (#[trigger] nfts2[i2].token_id)
                    == p.music_nft_id implies nfts2[i2].withdrawn_plays + p.plays_consumed
                <= nfts2[i2].plays by {
                if i2 == m.nfts.len() {
                    assert(m.nfts[iw].token_id == token_id);
                    assert(has_nft(m.nfts, token_id));
                } else {
                    assert(nfts2[i2] == m.nfts[i2]);
                }
            }
        }
    }
}

/// Minting a fraction preserves well-formedness.
pub proof fn lemma_mint_fraction_ok(
    m: PlatformModel,
    caller: Seq<char>,
    music_nft_id: Seq<char>,
    fraction_id: Seq<char>,
    percentage: u8,
)
    requires
        platform_ok(m),
    ensures
        platform_ok(mint_fraction(m, caller, music_nft_id, fraction_id, percentage).1),
{
    let m2 = mint_fraction(m, caller, music_nft_id, fraction_id, percentage).1;
    if m2 != m {
        let i = nft_idx(m.nfts, music_nft_id);
        assert(0 <= i < m.nfts.len() && m.nfts[i].token_id == music_nft_id);
        lemma_nfts_field_update_ok(m, m2, i);
    }
}

/// Accruing plays preserves well-formedness.
pub proof fn lemma_increment_plays_ok(
    m: PlatformModel,
    caller: Seq<char>,
    music_nft_id: Seq<char>,
    increment: u64,
)
    requires
        platform_ok(m),
    ensures
        platform_ok(increment_plays(m, caller, music_nft_id, increment).1),
{
    let m2 = increment_plays(m, caller, music_nft_id, increment).1;
    if m2 != m {
        let i = nft_idx(m.nfts, music_nft_id);
        assert(0 <= i < m.nfts.len() && m.nfts[i].token_id == music_nft_id);
        lemma_nfts_field_update_ok(m, m2, i);
    }
}

/// An update of one asset that keeps its id, keeps `nft_ok`, does not lower
/// `plays`, and does not raise `withdrawn_plays` preserves well-formedness.
proof fn lemma_nfts_field_update_ok(m: PlatformModel, m2: PlatformModel, i: int)
    requires
        platform_ok(m),
        0 <= i < m.nfts.len(),
        m2.nfts.len() == m.nfts.len(),
        forall|j: int| 0 <= j < m.nfts.len() && j != i ==> m2.nfts[j] == (#[trigger] m.nfts[j]),
        m2.nfts[i].token_id == m.nfts[i].token_id,
        m2.nfts[i].plays >= m.nfts[i].plays,
        m2.nfts[i].withdrawn_plays <= m.nfts[i].withdrawn_plays,
        nft_ok(m2.nfts[i]),
        m2.pendings == m.pendings,
        m2.mwj_balance == m.mwj_balance,
    ensures
        platform_ok(m2),
{
    assert(forall|j: int|
        0 <= j < m2.nfts.len() ==> (#[trigger] m2.nfts[j].token_id) == m.nfts[j].token_id);
    assert forall|a: int, b: int| 0 <= a < b < m2.nfts.len() implies (#[trigger] m2.nfts[a]
        .token_id) != (#[trigger] m2.nfts[b].token_id) by {
        assert(m.nfts[a].token_id != m.nfts[b].token_id);
    }
    assert forall|j: int| 0 <= j < m2.nfts.len() implies nft_ok(#[trigger] m2.nfts[j]) by {
        if j != i {
            assert(m2.nfts[j] == m.nfts[j]);
            assert(nft_ok(m.nfts[j]));
        }
    }
    assert forall|k: int| 0 <= k < m2.pendings.len() implies pending_ok(
        m2.nfts,
        #[trigger] m2.pendings[k],
    ) by {
        let p = m.pendings[k];
        assert(pending_ok(m.nfts, p));
        let iw = choose|j: int|
            0 <= j < m.nfts.len() && (#[trigger] m.nfts[j].token_id) == p.music_nft_id;
        assert(m2.nfts[iw].token_id == p.music_nft_id);
        assert(has_nft(m2.nfts, p.music_nft_id));
        assert forall|i2: int|
            0 <= i2 < m2.nfts.len() && (#[trigger] m2.nfts[i2].token_id)
                == p.music_nft_id implies m2.nfts[i2].withdrawn_plays + p.plays_consumed
            <= m2.nfts[i2].plays by {
            assert(m.nfts[i2].token_id == p.music_nft_id);
            assert(m.nfts[i2].withdrawn_plays + p.plays_consumed <= m.nfts[i2].plays);
        }
    }
}

/// The registered asset with this id, if any.
pub open spec fn spec_get_nft(m: PlatformModel, id: Seq<char>) -> Option<NftModel> {
    if has_nft(m.nfts, id) {
        Some(nft_at(m.nfts, id))
    } else {
        None
    }
}

/// The asset's slot capacity; zero for an unknown asset.
pub open spec fn spec_total_fractions(m: PlatformModel, id: Seq<char>) -> u64 {
    if has_nft(m.nfts, id) {
        nft_at(m.nfts, id).total_fractions
    } else {
        0
    }
}

/// The asset's free slots; zero for an unknown asset.
pub open spec fn spec_fractions_remaining(m: PlatformModel, id: Seq<char>) -> u64 {
    if has_nft(m.nfts, id) {
        nft_at(m.nfts, id).fractions_remaining
    } else {
        0
    }
}

/// The asset's accrued plays; zero for an unknown asset.
pub open spec fn spec_plays(m: PlatformModel, id: Seq<char>) -> u64 {
    if has_nft(m.nfts, id) {
        nft_at(m.nfts, id).plays
    } else {
        0
    }
}

/// The asset's already-settled plays; zero for an unknown asset.
pub open spec fn spec_withdrawn_plays(m: PlatformModel, id: Seq<char>) -> u64 {
    if has_nft(m.nfts, id) {
        nft_at(m.nfts, id).withdrawn_plays
    } else {
        0
    }
}

/// The assets owned by `owner`, in creation order.
pub open spec fn owned_by(nfts: Seq<NftModel>, owner: Seq<char>) -> Seq<NftModel>
    decreases nfts.len(),
{
    if nfts.len() == 0 {
        Seq::<NftModel>::empty()
    } else {
        let rest = owned_by(nfts.drop_last(), owner);
        if nfts.last().owner_id == owner {
            rest.push(nfts.last())
        } else {
            rest
        }
    }
}

/// Arithmetic facts about the reward quantum: the due reward units, scaled
/// back to plays, fit under the unredeemed play span and form a whole,
/// recoverable number of quanta.
pub proof fn lemma_due_arith(np: int)
    requires
        0 <= np,
    ensures
        0 <= np / (PLAYS_PER_REWARD as int),
        np / (PLAYS_PER_REWARD as int) * PLAYS_PER_REWARD <= np,
        (np / (PLAYS_PER_REWARD as int) * PLAYS_PER_REWARD) % (PLAYS_PER_REWARD as int) == 0,
        (np / (PLAYS_PER_REWARD as int) * PLAYS_PER_REWARD) / (PLAYS_PER_REWARD as int) == np / (
        PLAYS_PER_REWARD as int),
        np < PLAYS_PER_REWARD ==> np / (PLAYS_PER_REWARD as int) == 0,
{
    let q = PLAYS_PER_REWARD as int;
    let due = np / q;
    vstd::arithmetic::div_mod::lemma_fundamental_div_mod(np, q);
    vstd::arithmetic::div_mod::lemma_mod_bound(np, q);
    vstd::arithmetic::div_mod::lemma_fundamental_div_mod_converse(due * q, q, due, 0);
}

/// Reserving a redemption preserves well-formedness.
pub proof fn lemma_redeem_rewards_ok(m: PlatformModel, caller: Seq<char>, music_nft_id: Seq<char>)
    requires
        platform_ok(m),
    ensures
        platform_ok(redeem_rewards(m, caller, music_nft_id).1),
{
    if has_nft(m.nfts, music_nft_id) {
        let i = nft_idx(m.nfts, music_nft_id);
        assert(0 <= i < m.nfts.len() && m.nfts[i].token_id == music_nft_id);
        let n = m.nfts[i];
        assert(nft_ok(n));
        if n.owner_id == caller && !has_pending(m.pendings, music_nft_id) {
            let np = n.plays - n.withdrawn_plays;
            let due = rewards_due_of(n);
            lemma_due_arith(np);
            if due != 0 && m.mwj_balance >= due * REWARD_AMOUNT {
                let p = PendingModel {
                    music_nft_id,
                    plays_consumed: (due * PLAYS_PER_REWARD) as u64,
                    pool_debit: (due * REWARD_AMOUNT) as u128,
                    stage: SettlementStage::AwaitingStorage,
                };
                let m2 = redeem_rewards(m, caller, music_nft_id).1;
                assert(p.plays_consumed == due * PLAYS_PER_REWARD);
                assert(p.pool_debit == due * REWARD_AMOUNT);
                assert(m2.pendings == m.pendings.push(p));
                assert forall|a: int, b: int| 0 <= a < b < m2.pendings.len() implies (
                #[trigger] m2.pendings[a].music_nft_id) != (#[trigger] m2.pendings[b]
                    .music_nft_id) by {
                    if b == m.pendings.len() {
                        if m2.pendings[a].music_nft_id == music_nft_id {
                            assert(m.pendings[a].music_nft_id == music_nft_id);
                            assert(has_pending(m.pendings, music_nft_id));
                        }
                    } else {
                        assert(m.pendings[a].music_nft_id != m.pendings[b].music_nft_id);
                    }
                }
                assert forall|k: int| 0 <= k < m2.pendings.len() implies pending_ok(
                    m2.nfts,
                    #[trigger] m2.pendings[k],
                ) by {
                    if k < m.pendings.len() {
                        assert(m2.pendings[k] == m.pendings[k]);
                        assert(pending_ok(m.nfts, m.pendings[k]));
                    } else {
                        assert(m2.pendings[k] == p);
                        assert(has_nft(m.nfts, p.music_nft_id));
                        assert forall|i2: int|
                            0 <= i2 < m.nfts.len() && (#[trigger] m.nfts[i2].token_id)
                                == p.music_nft_id implies m.nfts[i2].withdrawn_plays
                            + p.plays_consumed <= m.nfts[i2].plays by {
                            lemma_nft_idx_is(m.nfts, music_nft_id, i2);
                            assert(i2 == i);
                        }
                    }
                }
                lemma_debit_sum_push(m.pendings, p);
                lemma_debit_sum_nonneg(m.pendings);
            }
        }
    }
}

/// Removing one pending settlement keeps the remaining settlements well
/// formed and shows the pool can absorb the removed settlement's credit.
pub proof fn lemma_remove_pending_ok(m: PlatformModel, k: int)
    requires
        platform_ok(m),
        0 <= k < m.pendings.len(),
    ensures
        m.mwj_balance + m.pendings[k].pool_debit <= u128::MAX,
        debit_sum(m.pendings.remove(k)) == debit_sum(m.pendings) - m.pendings[k].pool_debit,
        pending_ids_unique(m.pendings.remove(k)),
        forall|j: int|
            0 <= j < m.pendings.remove(k).len() ==> pending_ok(
                m.nfts,
                #[trigger] m.pendings.remove(k)[j],
            ),
{
    lemma_debit_sum_remove(m.pendings, k);
    lemma_debit_sum_nonneg(m.pendings.remove(k));
    let ps2 = m.pendings.remove(k);
    assert forall|a: int, b: int| 0 <= a < b < ps2.len() implies (#[trigger] ps2[a].music_nft_id)
        != (#[trigger] ps2[b].music_nft_id) by {
        let a0: int = if a < k {
            a
        } else {
            a + 1
        };
        let b0: int = if b < k {
            b
        } else {
            b + 1
        };
        assert(ps2[a] == m.pendings[a0] && ps2[b] == m.pendings[b0]);
        assert(m.pendings[a0].music_nft_id != m.pendings[b0].music_nft_id);
    }
    assert forall|j: int| 0 <= j < ps2.len() implies pending_ok(m.nfts, #[trigger] ps2[j]) by {
        let j0: int = if j < k {
            j
        } else {
            j + 1
        };
        assert(ps2[j] == m.pendings[j0]);
        assert(pending_ok(m.nfts, m.pendings[j0]));
    }
}

/// Reporting the storage-provision outcome preserves well-formedness.
pub proof fn lemma_storage_callback_ok(
    m: PlatformModel,
    caller: Seq<char>,
    music_nft_id: Seq<char>,
    success: bool,
)
    requires
        platform_ok(m),
    ensures
        platform_ok(add_storage_callback(m, caller, music_nft_id, success).1),
{
    if caller == m.platform_id && has_pending(m.pendings, music_nft_id) {
        let k = pending_idx(m.pendings, music_nft_id);
        assert(0 <= k < m.pendings.len() && m.pendings[k].music_nft_id == music_nft_id);
        let p = m.pendings[k];
        if p.stage == SettlementStage::AwaitingStorage {
            let m2 = add_storage_callback(m, caller, music_nft_id, success).1;
            if success {
                let p2 = PendingModel { stage: SettlementStage::AwaitingMint, ..p };
                assert(m2.pendings == m.pendings.update(k, p2));
                lemma_debit_sum_update(m.pendings, k, p2);
                assert forall|a: int, b: int| 0 <= a < b < m2.pendings.len() implies (
                #[trigger] m2.pendings[a].music_nft_id) != (#[trigger] m2.pendings[b]
                    .music_nft_id) by {
                    assert(m.pendings[a].music_nft_id != m.pendings[b].music_nft_id);
                }
                assert forall|j: int| 0 <= j < m2.pendings.len() implies pending_ok(
                    m2.nfts,
                    #[trigger] m2.pendings[j],
                ) by {
                    if j == k {
                        assert(pending_ok(m.nfts, p));
                        assert(m2.pendings[j] == p2);
                    } else {
                        assert(m2.pendings[j] == m.pendings[j]);
                        assert(pending_ok(m.nfts, m.pendings[j]));
                    }
                }
            } else {
                lemma_remove_pending_ok(m, k);
            }
        }
    }
}

/// Reporting the mint outcome preserves well-formedness.
pub proof fn lemma_mint_callback_ok(
    m: PlatformModel,
    caller: Seq<char>,
    music_nft_id: Seq<char>,
    success: bool,
)
    requires
        platform_ok(m),
    ensures
        platform_ok(mint_lts_callback(m, caller, music_nft_id, success).1),
{
    if caller == m.platform_id && has_pending(m.pendings, music_nft_id) {
        let k = pending_idx(m.pendings, music_nft_id);
        assert(0 <= k < m.pendings.len() && m.pendings[k].music_nft_id == music_nft_id);
        let p = m.pendings[k];
        if p.stage == SettlementStage::AwaitingMint {
            assert(pending_ok(m.nfts, p));
            lemma_remove_pending_ok(m, k);
            let m2 = mint_lts_callback(m, caller, music_nft_id, success).1;
            if success {
                let i = nft_idx(m.nfts, music_nft_id);
                assert(0 <= i < m.nfts.len() && m.nfts[i].token_id == music_nft_id);
                let n = m.nfts[i];
                assert(n.withdrawn_plays + p.plays_consumed <= n.plays);
                let n2 = NftModel {
                    withdrawn_plays: (n.withdrawn_plays + p.plays_consumed) as u64,
                    ..n
                };
                assert(m2.nfts == m.nfts.update(i, n2));
                assert(m2.pendings == m.pendings.remove(k));
                assert(forall|j: int|
                    0 <= j < m2.nfts.len() ==> (#[trigger] m2.nfts[j].token_id) == m.nfts[j]
                        .token_id);
                assert forall|a: int, b: int| 0 <= a < b < m2.nfts.len() implies (
                #[trigger] m2.nfts[a].token_id) != (#[trigger] m2.nfts[b].token_id) by {
                    assert(m.nfts[a].token_id != m.nfts[b].token_id);
                }
                assert forall|j: int| 0 <= j < m2.nfts.len() implies nft_ok(
                    #[trigger] m2.nfts[j],
                ) by {
                    if j != i {
                        assert(m2.nfts[j] == m.nfts[j]);
                        assert(nft_ok(m.nfts[j]));
                    }
                }
                assert forall|j: int| 0 <= j < m2.pendings.len() implies pending_ok(
                    m2.nfts,
                    #[trigger] m2.pendings[j],
                ) by {
                    let j0: int = if j < k {
                        j
                    } else {
                        j + 1
                    };
                    let p2 = m.pendings[j0];
                    assert(m2.pendings[j] == p2);
                    assert(pending_ok(m.nfts, p2));
                    assert(p2.music_nft_id != p.music_nft_id);
                    let iw = choose|w: int|
                        0 <= w < m.nfts.len() && (#[trigger] m.nfts[w].token_id)
                            == p2.music_nft_id;
                    assert(m2.nfts[iw].token_id == p2.music_nft_id);
                    assert(has_nft(m2.nfts, p2.music_nft_id));
                    assert forall|i2: int|
                        0 <= i2 < m2.nfts.len() && (#[trigger] m2.nfts[i2].token_id)
                            == p2.music_nft_id implies m2.nfts[i2].withdrawn_plays
                        + p2.plays_consumed <= m2.nfts[i2].plays by {
                        assert(i2 != i);
                        assert(m2.nfts[i2] == m.nfts[i2]);
                        assert(m.nfts[i2].withdrawn_plays + p2.plays_consumed <= m.nfts[i2].plays);
                    }
                }
            }
        }
    }
}

} // verus!
