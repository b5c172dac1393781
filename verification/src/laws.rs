//! The ledger's stated laws, proved over the model transitions.

use vstd::prelude::*;

use crate::PLAYS_PER_REWARD;
use crate::PlatformError;
use crate::model::NftModel;
use crate::model::PlatformModel;
use crate::model::SettlementStage;
use crate::model::add_storage_callback;
use crate::model::has_nft;
use crate::model::has_pending;
use crate::model::lemma_due_arith;
use crate::model::mint_fraction;
use crate::model::mint_lts_callback;
use crate::model::nft_at;
use crate::model::pending_at;
use crate::model::pending_idx;
use crate::model::platform_ok;
use crate::model::redeem_rewards;
use crate::model::spec_fractions_remaining;
use crate::model::spec_get_nft;

verus! {

/// Law: at every observable point, each asset's free fraction slots and its
/// minted fractions together account exactly for its total fraction slots.
pub proof fn lemma_fraction_slots_conserved(m: PlatformModel, i: int)
    requires
        platform_ok(m),
        0 <= i < m.nfts.len(),
    ensures
        m.nfts[i].fractions_remaining + m.nfts[i].fractions.len() == m.nfts[i].total_fractions,
{
}

/// Law: for every asset, the plays already consumed by settlements never
/// exceed the plays accrued.
pub proof fn lemma_withdrawn_plays_bounded(m: PlatformModel, i: int)
    requires
        platform_ok(m),
        0 <= i < m.nfts.len(),
    ensures
        m.nfts[i].withdrawn_plays <= m.nfts[i].plays,
{
}

/// Law: minting a fraction beyond capacity fails `Exhausted` and leaves the
/// platform unchanged.
pub proof fn lemma_mint_fraction_exhausted(
    m: PlatformModel,
    caller: Seq<char>,
    music_nft_id: Seq<char>,
    fraction_id: Seq<char>,
    percentage: u8,
)
    requires
        platform_ok(m),
        has_nft(m.nfts, music_nft_id),
        nft_at(m.nfts, music_nft_id).owner_id == caller,
        percentage <= 100,
        nft_at(m.nfts, music_nft_id).fractions_remaining == 0,
    ensures
        mint_fraction(m, caller, music_nft_id, fraction_id, percentage).0 == Err::<
            (),
            PlatformError,
        >(PlatformError::Exhausted),
        mint_fraction(m, caller, music_nft_id, fraction_id, percentage).1 == m,
{
}

/// Law: a redemption attempted by anyone but the asset's owner fails
/// `PermissionDenied` with no pool or ledger mutation.
pub proof fn lemma_redeem_denied_for_non_owner(
    m: PlatformModel,
    caller: Seq<char>,
    music_nft_id: Seq<char>,
)
    requires
        platform_ok(m),
        has_nft(m.nfts, music_nft_id),
        nft_at(m.nfts, music_nft_id).owner_id != caller,
    ensures
        redeem_rewards(m, caller, music_nft_id).0 == Err::<u64, PlatformError>(
            PlatformError::PermissionDenied,
        ),
        redeem_rewards(m, caller, music_nft_id).1 == m,
{
}

/// Law: a redemption with fewer unredeemed plays than one reward quantum
/// owes zero reward units and is a no-op: no pool debit, no pending
/// settlement, no counter change.
pub proof fn lemma_redeem_below_quantum_is_noop(
    m: PlatformModel,
    caller: Seq<char>,
    music_nft_id: Seq<char>,
)
    requires
        platform_ok(m),
        has_nft(m.nfts, music_nft_id),
        nft_at(m.nfts, music_nft_id).owner_id == caller,
        !has_pending(m.pendings, music_nft_id),
        nft_at(m.nfts, music_nft_id).plays - nft_at(m.nfts, music_nft_id).withdrawn_plays
            < PLAYS_PER_REWARD,
    ensures
        redeem_rewards(m, caller, music_nft_id).0 == Ok::<u64, PlatformError>(0),
        redeem_rewards(m, caller, music_nft_id).1 == m,
{
    let n = nft_at(m.nfts, music_nft_id);
    let i = crate::model::nft_idx(m.nfts, music_nft_id);
    assert(0 <= i < m.nfts.len() && m.nfts[i].token_id == music_nft_id);
    assert(crate::model::nft_ok(n));
    lemma_due_arith(n.plays - n.withdrawn_plays);
}

/// After removing the settlement for `id`, no settlement for `id` remains.
proof fn lemma_remove_clears_pending(m: PlatformModel, id: Seq<char>)
    requires
        platform_ok(m),
        has_pending(m.pendings, id),
    ensures
        !has_pending(m.pendings.remove(pending_idx(m.pendings, id)), id),
{
    let k = pending_idx(m.pendings, id);
    assert(0 <= k < m.pendings.len() && m.pendings[k].music_nft_id == id);
    let ps2 = m.pendings.remove(k);
    assert forall|j: int| 0 <= j < ps2.len() implies (#[trigger] ps2[j].music_nft_id) != id by {
        let j0: int = if j < k {
            j
        } else {
            j + 1
        };
        assert(ps2[j] == m.pendings[j0]);
        crate::model::lemma_pending_idx_is(m.pendings, id, k);
        if m.pendings[j0].music_nft_id == id {
            crate::model::lemma_pending_idx_is(m.pendings, id, j0);
        }
    }
}

/// Law: when the storage-provision request for a settlement fails, the pool
/// balance is restored to its pre-reservation value, the asset ledger
/// (including withdrawn plays) is untouched, and the settlement is gone.
pub proof fn lemma_storage_failure_rolls_back(m: PlatformModel, music_nft_id: Seq<char>)
    requires
        platform_ok(m),
        has_pending(m.pendings, music_nft_id),
        pending_at(m.pendings, music_nft_id).stage == SettlementStage::AwaitingStorage,
    ensures
        add_storage_callback(m, m.platform_id, music_nft_id, false).0 == Err::<(), PlatformError>(
            PlatformError::ExternalCallFailed,
        ),
        add_storage_callback(m, m.platform_id, music_nft_id, false).1.mwj_balance
            == m.mwj_balance + pending_at(m.pendings, music_nft_id).pool_debit,
        add_storage_callback(m, m.platform_id, music_nft_id, false).1.nfts == m.nfts,
        !has_pending(add_storage_callback(m, m.platform_id, music_nft_id, false).1.pendings,
            music_nft_id),
{
    let k = pending_idx(m.pendings, music_nft_id);
    assert(0 <= k < m.pendings.len() && m.pendings[k].music_nft_id == music_nft_id);
    crate::model::lemma_remove_pending_ok(m, k);
    lemma_remove_clears_pending(m, music_nft_id);
}

/// Law: when the mint request for a settlement fails, the pool balance is
/// restored to its pre-reservation value, the asset ledger (including
/// withdrawn plays) is untouched, and the settlement is gone.
pub proof fn lemma_mint_failure_rolls_back(m: PlatformModel, music_nft_id: Seq<char>)
    requires
        platform_ok(m),
        has_pending(m.pendings, music_nft_id),
        pending_at(m.pendings, music_nft_id).stage == SettlementStage::AwaitingMint,
    ensures
        mint_lts_callback(m, m.platform_id, music_nft_id, false).0 == Err::<(), PlatformError>(
            PlatformError::ExternalCallFailed,
        ),
        mint_lts_callback(m, m.platform_id, music_nft_id, false).1.mwj_balance == m.mwj_balance
            + pending_at(m.pendings, music_nft_id).pool_debit,
        mint_lts_callback(m, m.platform_id, music_nft_id, false).1.nfts == m.nfts,
        !has_pending(mint_lts_callback(m, m.platform_id, music_nft_id, false).1.pendings,
            music_nft_id),
{
    let k = pending_idx(m.pendings, music_nft_id);
    assert(0 <= k < m.pendings.len() && m.pendings[k].music_nft_id == music_nft_id);
    crate::model::lemma_remove_pending_ok(m, k);
    lemma_remove_clears_pending(m, music_nft_id);
}

/// Law: when the mint request for a settlement succeeds, exactly the
/// reserved play span is added to the asset's withdrawn plays (any
/// sub-quantum remainder stays redeemable), the pool keeps its debited
/// balance, every other asset is untouched, and the settlement is gone.
pub proof fn lemma_mint_success_finalizes(m: PlatformModel, music_nft_id: Seq<char>)
    requires
        platform_ok(m),
        has_pending(m.pendings, music_nft_id),
        pending_at(m.pendings, music_nft_id).stage == SettlementStage::AwaitingMint,
    ensures
        mint_lts_callback(m, m.platform_id, music_nft_id, true).0 == Ok::<(), PlatformError>(()),
        mint_lts_callback(m, m.platform_id, music_nft_id, true).1.mwj_balance == m.mwj_balance,
        has_nft(m.nfts, music_nft_id),
        nft_at(mint_lts_callback(m, m.platform_id, music_nft_id, true).1.nfts, music_nft_id)
            .withdrawn_plays == nft_at(m.nfts, music_nft_id).withdrawn_plays + pending_at(
            m.pendings,
            music_nft_id,
        ).plays_consumed,
        nft_at(mint_lts_callback(m, m.platform_id, music_nft_id, true).1.nfts, music_nft_id).plays
            == nft_at(m.nfts, music_nft_id).plays,
        forall|j: int|
            0 <= j < m.nfts.len() && j != crate::model::nft_idx(m.nfts, music_nft_id)
                ==> mint_lts_callback(m, m.platform_id, music_nft_id, true).1.nfts[j] == (
            #[trigger] m.nfts[j]),
        !has_pending(mint_lts_callback(m, m.platform_id, music_nft_id, true).1.pendings,
            music_nft_id),
{
    let k = pending_idx(m.pendings, music_nft_id);
    assert(0 <= k < m.pendings.len() && m.pendings[k].music_nft_id == music_nft_id);
    let p = m.pendings[k];
    assert(crate::model::pending_ok(m.nfts, p));
    let i = crate::model::nft_idx(m.nfts, music_nft_id);
    assert(0 <= i < m.nfts.len() && m.nfts[i].token_id == music_nft_id);
    assert(m.nfts[i].withdrawn_plays + p.plays_consumed <= m.nfts[i].plays);
    lemma_remove_clears_pending(m, music_nft_id);
    let m2 = mint_lts_callback(m, m.platform_id, music_nft_id, true).1;
    assert(m2.nfts[i].token_id == music_nft_id);
    crate::model::lemma_mint_callback_ok(m, m.platform_id, music_nft_id, true);
    crate::model::lemma_nft_idx_is(m2.nfts, music_nft_id, i);
}

/// Law: reads are idempotent. Two reads of an asset's remaining fraction
/// slots against the same platform state return the same value, because the
/// read's contract pins its result to a function of the state alone.
pub proof fn lemma_get_fractions_remaining_idempotent(
    m: PlatformModel,
    music_nft_id: Seq<char>,
    r1: u64,
    r2: u64,
)
    requires
        r1 == spec_fractions_remaining(m, music_nft_id),
        r2 == spec_fractions_remaining(m, music_nft_id),
    ensures
        r1 == r2,
{
}

/// Law: reads are idempotent. Two reads of an asset record against the same
/// platform state return the same record.
pub proof fn lemma_get_nft_idempotent(
    m: PlatformModel,
    music_nft_id: Seq<char>,
    r1: Option<NftModel>,
    r2: Option<NftModel>,
)
    requires
        r1 == spec_get_nft(m, music_nft_id),
        r2 == spec_get_nft(m, music_nft_id),
    ensures
        r1 == r2,
{
}

} // verus!
