use vstd::prelude::*;
use crate::error::{ClearingResult, ErrorCode};
use crate::math::{abs_i128, fits_i128, unsigned_abs};

verus! {

/// A 32-byte account key.
#[derive(Clone, Copy, Debug)]
pub struct Pubkey {
    pub bytes: [u8; 32],
}

impl Pubkey {
    pub fn new_from_array(bytes: [u8; 32]) -> (r: Self)
        ensures
            r.bytes@ == bytes@,
    {
        Pubkey { bytes }
    }

    /// Whether two keys hold the same bytes.
    pub fn same_as(&self, other: &Pubkey) -> (r: bool)
        ensures
            r == (self.bytes@ == other.bytes@),
    {
        let mut i: usize = 0;
        while i < 32
            invariant
                i <= 32,
                self.bytes@.len() == 32,
                other.bytes@.len() == 32,
                forall|j: int| 0 <= j < i ==> self.bytes@[j] == other.bytes@[j],
            decreases 32 - i,
        {
            if self.bytes[i] != other.bytes[i] {
                return false;
            }
            i = i + 1;
        }
        proof {
            assert(self.bytes@ =~= other.bytes@);
        }
        true
    }
}

/// An account's position in one market.
#[derive(Clone, Copy, Debug, PartialEq, Eq, Structural)]
pub struct MarketPosition {
    pub market_index: u64,
    pub base_asset_amount: i128,
    pub quote_asset_amount: i128,
    pub quote_entry_amount: i128,
}

/// An account: who may act for it, and its positions.
#[derive(Clone, Debug)]
pub struct User {
    pub authority: Pubkey,
    pub positions: Vec<MarketPosition>,
}

/// Life-cycle status of a market.
#[derive(Clone, Copy, Debug, PartialEq, Eq, Structural)]
pub enum MarketStatus {
    Initialized,
    Active,
    ReduceOnly,
    Settlement,
    Delisted,
}

/// The fee taken when an expired position is settled: numerator over denominator.
#[derive(Clone, Copy, Debug, PartialEq, Eq, Structural)]
pub struct FeeStructure {
    pub fee_numerator: u128,
    pub fee_denominator: u128,
}

/// How a transfer lands on the shared quote-asset ledger.
#[derive(Clone, Copy, Debug, PartialEq, Eq, Structural)]
pub enum BankBalanceType {
    Deposit,
    Borrow,
}

/// An amount to apply to the quote-asset ledger and the account's balance on it.
#[derive(Clone, Copy, Debug, PartialEq, Eq, Structural)]
pub struct BankTransfer {
    pub amount: u128,
    pub balance_type: BankBalanceType,
}

/// The audit record of a nonzero settlement.
#[derive(Clone, Copy, Debug, PartialEq, Eq, Structural)]
pub struct SettlePnlRecord {
    pub ts: i64,
    pub market_index: u64,
    pub pnl: i128,
    pub base_asset_amount: i128,
    pub quote_asset_amount_after: i128,
    pub quote_entry_amount: i128,
    pub oracle_price: i128,
}

/// What a settlement that did not fail came to.
#[derive(Clone, Copy, Debug, PartialEq, Eq, Structural)]
pub enum SettlePnlOutcome {
    /// The position had no unsettled PnL; nothing changed.
    NoUnsettledPnl,
    /// The pool could not settle anything now; nothing changed.
    PoolCannotSettle,
    /// The position was updated; the transfer is still to be applied to the ledger.
    Settled { transfer: BankTransfer, record: SettlePnlRecord },
}

/// `i` is the first position held in the market.
pub open spec fn is_position_index(positions: Seq<MarketPosition>, market_index: u64, i: int) -> bool {
    &&& 0 <= i < positions.len()
    &&& positions[i].market_index == market_index
    &&& forall|j: int| 0 <= j < i ==> positions[j].market_index != market_index
}

/// The first position held in the market, if any.
pub open spec fn position_index(positions: Seq<MarketPosition>, market_index: u64) -> Option<int> {
    if exists|i: int| is_position_index(positions, market_index, i) {
        Some(choose|i: int| is_position_index(positions, market_index, i))
    } else {
        None
    }
}

/// At most one position is the first in a market.
proof fn lemma_position_index_unique(positions: Seq<MarketPosition>, market_index: u64, i: int, k: int)
    requires
        is_position_index(positions, market_index, i),
        is_position_index(positions, market_index, k),
    ensures
        i == k,
{
}

/// Finds the account's position in a market.
pub fn get_position_index(positions: &Vec<MarketPosition>, market_index: u64) -> (r: ClearingResult<usize>)
    ensures
        match position_index(positions@, market_index) {
            Some(i) => r matches Ok(j) && j as int == i,
            None => r == Err::<usize, ErrorCode>(ErrorCode::UserHasNoPositionInMarket),
        },
{
    let mut i: usize = 0;
    while i < positions.len()
        invariant
            i <= positions@.len(),
            forall|j: int| 0 <= j < i ==> positions@[j].market_index != market_index,
        decreases positions@.len() - i,
    {
        if positions[i].market_index == market_index {
            proof {
                assert(is_position_index(positions@, market_index, i as int));
                let k = choose|k: int| is_position_index(positions@, market_index, k);
                lemma_position_index_unique(positions@, market_index, i as int, k);
            }
            return Ok(i);
        }
        i = i + 1;
    }
    Err(ErrorCode::UserHasNoPositionInMarket)
}

/// The ledger transfer for a settled amount: a deposit when the pool pays the
/// account, a borrow when the account pays the pool.
pub open spec fn transfer_for(pnl: i128) -> BankTransfer {
    BankTransfer {
        amount: unsigned_abs(pnl as int) as u128,
        balance_type: if pnl > 0 {
            BankBalanceType::Deposit
        } else {
            BankBalanceType::Borrow
        },
    }
}

/// Outcome of a live settlement, and the positions after it.
pub open spec fn settle_pnl_result(
    market_index: u64,
    user_authority: Pubkey,
    positions: Seq<MarketPosition>,
    authority: Pubkey,
    meets_maintenance_margin: bool,
    unsettled_pnl: i128,
    pnl_to_settle_with_user: i128,
    oracle_price: i128,
    now: i64,
) -> (ClearingResult<SettlePnlOutcome>, Seq<MarketPosition>) {
    if !meets_maintenance_margin {
        (Err(ErrorCode::InsufficientCollateralForSettlingPnl), positions)
    } else {
        match position_index(positions, market_index) {
            None => (Err(ErrorCode::UserHasNoPositionInMarket), positions),
            Some(i) => {
                let pos = positions[i];
                let quote_after = pos.quote_asset_amount - pnl_to_settle_with_user;
                if unsettled_pnl == 0 {
                    (Ok(SettlePnlOutcome::NoUnsettledPnl), positions)
                } else if pnl_to_settle_with_user == 0 {
                    (Ok(SettlePnlOutcome::PoolCannotSettle), positions)
                } else if pnl_to_settle_with_user > 0 && user_authority.bytes@ != authority.bytes@ {
                    (Err(ErrorCode::UserMustSettleTheirOwnPositiveUnsettledPnl), positions)
                } else if !fits_i128(quote_after) {
                    (Err(ErrorCode::MathError), positions)
                } else {
                    (
                        Ok(
                            SettlePnlOutcome::Settled {
                                transfer: transfer_for(pnl_to_settle_with_user),
                                record: SettlePnlRecord {
                                    ts: now,
                                    market_index,
                                    pnl: pnl_to_settle_with_user,
                                    base_asset_amount: pos.base_asset_amount,
                                    quote_asset_amount_after: quote_after as i128,
                                    quote_entry_amount: pos.quote_entry_amount,
                                    oracle_price,
                                },
                            },
                        ),
                        positions.update(
                            i,
                            MarketPosition { quote_asset_amount: quote_after as i128, ..pos },
                        ),
                    )
                }
            },
        }
    }
}

/// The ledger transfer for a settled amount.
fn transfer_of(pnl: i128) -> (r: BankTransfer)
    ensures
        r == transfer_for(pnl),
{
    let amount = abs_i128(pnl);
    let balance_type = if pnl > 0 {
        BankBalanceType::Deposit
    } else {
        BankBalanceType::Borrow
    };
    BankTransfer { amount, balance_type }
}

/// Settles a live position's unsettled PnL with the market's pool.
///
/// The caller has already accrued interest and settled funding, and hands in
/// what the collaborators answered: whether the account meets its maintenance
/// margin, the position's unsettled PnL at the oracle price, and the amount
/// the pool agreed to settle (positive when the pool pays the account). On
/// success the position's quote amount moves by that amount, and the returned
/// transfer is what remains to be applied to the quote-asset ledger.
pub fn settle_pnl(
    market_index: u64,
    user: &mut User,
    authority: &Pubkey,
    meets_maintenance_margin: bool,
    unsettled_pnl: i128,
    pnl_to_settle_with_user: i128,
    oracle_price: i128,
    now: i64,
) -> (r: ClearingResult<SettlePnlOutcome>)
    ensures
        final(user).authority == old(user).authority,
        (r, final(user).positions@) == settle_pnl_result(
            market_index,
            old(user).authority,
            old(user).positions@,
            *authority,
            meets_maintenance_margin,
            unsettled_pnl,
            pnl_to_settle_with_user,
            oracle_price,
            now,
        ),
{
    if !meets_maintenance_margin {
        return Err(ErrorCode::InsufficientCollateralForSettlingPnl);
    }
    let found = get_position_index(&user.positions, market_index);
    let ghost k = choose|k: int| is_position_index(old(user).positions@, market_index, k);
    let idx = match found {
        Ok(i) => i,
        Err(e) => {
            return Err(e);
        },
    };
    proof {
        assert(is_position_index(old(user).positions@, market_index, k));
    }
    if unsettled_pnl == 0 {
        return Ok(SettlePnlOutcome::NoUnsettledPnl);
    } else if pnl_to_settle_with_user == 0 {
        return Ok(SettlePnlOutcome::PoolCannotSettle);
    }
    if pnl_to_settle_with_user > 0 && !user.authority.same_as(authority) {
        return Err(ErrorCode::UserMustSettleTheirOwnPositiveUnsettledPnl);
    }
    let pos = user.positions[idx];
    let quote_asset_amount_after = match pos.quote_asset_amount.checked_sub(
        pnl_to_settle_with_user,
    ) {
        Some(q) => q,
        None => {
            return Err(ErrorCode::MathError);
        },
    };
    user.positions.set(
        idx,
        MarketPosition { quote_asset_amount: quote_asset_amount_after, ..pos },
    );
    let transfer = transfer_of(pnl_to_settle_with_user);
    Ok(
        SettlePnlOutcome::Settled {
            transfer,
            record: SettlePnlRecord {
                ts: now,
                market_index,
                pnl: pnl_to_settle_with_user,
                base_asset_amount: pos.base_asset_amount,
                quote_asset_amount_after,
                quote_entry_amount: pos.quote_entry_amount,
                oracle_price,
            },
        },
    )
}

/// The settlement fee on a position's base asset value, if it can be computed.
pub open spec fn settlement_fee(base_asset_value: u128, fee_structure: FeeStructure) -> Option<u128> {
    let weighted = base_asset_value * fee_structure.fee_numerator;
    if weighted > u128::MAX || fee_structure.fee_denominator == 0 {
        None
    } else {
        Some((weighted / (fee_structure.fee_denominator as int)) as u128)
    }
}

/// What an expired position offers the pool: its PnL at the settlement price
/// less the settlement fee.
pub open spec fn expired_pnl_offer(
    unrealized_pnl: i128,
    base_asset_value: u128,
    fee_structure: FeeStructure,
) -> ClearingResult<i128> {
    match settlement_fee(base_asset_value, fee_structure) {
        None => Err(ErrorCode::MathError),
        Some(fee) => if fee <= i128::MAX && fits_i128(unrealized_pnl - fee) {
            Ok((unrealized_pnl - fee) as i128)
        } else {
            Err(ErrorCode::MathError)
        },
    }
}

/// The PnL that an expired position offers the pool: its unrealized PnL at
/// the settlement price less `base_asset_value * fee_numerator / fee_denominator`.
pub fn calculate_expired_pnl_to_settle(
    unrealized_pnl: i128,
    base_asset_value: u128,
    fee_structure: &FeeStructure,
) -> (r: ClearingResult<i128>)
    ensures
        r == expired_pnl_offer(unrealized_pnl, base_asset_value, *fee_structure),
{
    let weighted = match base_asset_value.checked_mul(fee_structure.fee_numerator) {
        Some(w) => w,
        None => {
            return Err(ErrorCode::MathError);
        },
    };
    let fee = match weighted.checked_div(fee_structure.fee_denominator) {
        Some(f) => f,
        None => {
            return Err(ErrorCode::MathError);
        },
    };
    if fee > i128::MAX as u128 {
        return Err(ErrorCode::MathError);
    }
    match unrealized_pnl.checked_sub(fee as i128) {
        Some(p) => Ok(p),
        None => Err(ErrorCode::MathError),
    }
}

/// Outcome of settling an expired position, and the positions after it.
pub open spec fn settle_expired_position_result(
    market_index: u64,
    positions: Seq<MarketPosition>,
    market_status: MarketStatus,
    meets_maintenance_margin: bool,
    base_asset_value: u128,
    unrealized_pnl: i128,
    fee_structure: FeeStructure,
    pnl_to_settle_with_user: i128,
    oracle_price: i128,
    now: i64,
) -> (ClearingResult<SettlePnlOutcome>, Seq<MarketPosition>) {
    if !meets_maintenance_margin {
        (Err(ErrorCode::InsufficientCollateralForSettlingPnl), positions)
    } else {
        match position_index(positions, market_index) {
            None => (Err(ErrorCode::UserHasNoPositionInMarket), positions),
            Some(i) => {
                let pos = positions[i];
                if market_status != MarketStatus::Settlement {
                    (Err(ErrorCode::MarketNotInSettlement), positions)
                } else if let Err(e) = expired_pnl_offer(unrealized_pnl, base_asset_value, fee_structure) {
                    (Err(e), positions)
                } else if unrealized_pnl == 0 {
                    (Ok(SettlePnlOutcome::NoUnsettledPnl), positions)
                } else if pnl_to_settle_with_user == 0 {
                    (Ok(SettlePnlOutcome::PoolCannotSettle), positions)
                } else {
                    (
                        Ok(
                            SettlePnlOutcome::Settled {
                                transfer: transfer_for(pnl_to_settle_with_user),
                                record: SettlePnlRecord {
                                    ts: now,
                                    market_index,
                                    pnl: pnl_to_settle_with_user,
                                    base_asset_amount: pos.base_asset_amount,
                                    quote_asset_amount_after: 0,
                                    quote_entry_amount: pos.quote_entry_amount,
                                    oracle_price,
                                },
                            },
                        ),
                        positions.update(
                            i,
                            MarketPosition {
                                base_asset_amount: 0,
                                quote_asset_amount: 0,
                                quote_entry_amount: 0,
                                ..pos
                            },
                        ),
                    )
                }
            },
        }
    }
}

/// When the pool has nothing to pay out, settling leaves the positions as
/// they were, and settling again right after leaves them as they were too.
pub proof fn lemma_settle_without_pool_liquidity_is_noop(
    market_index: u64,
    user_authority: Pubkey,
    positions: Seq<MarketPosition>,
    authority: Pubkey,
    meets_maintenance_margin: bool,
    unsettled_pnl: i128,
    oracle_price: i128,
    now: i64,
)
    ensures
        ({
            let first = settle_pnl_result(
                market_index,
                user_authority,
                positions,
                authority,
                meets_maintenance_margin,
                unsettled_pnl,
                0,
                oracle_price,
                now,
            );
            let second = settle_pnl_result(
                market_index,
                user_authority,
                first.1,
                authority,
                meets_maintenance_margin,
                unsettled_pnl,
                0,
                oracle_price,
                now,
            );
            &&& first.1 == positions
            &&& second.1 == first.1
            &&& !(first.0 matches Ok(SettlePnlOutcome::Settled { .. }))
            &&& !(second.0 matches Ok(SettlePnlOutcome::Settled { .. }))
        }),
{
}

/// The signed value a transfer adds to the account's ledger balance.
pub open spec fn signed_amount(transfer: BankTransfer) -> int {
    match transfer.balance_type {
        BankBalanceType::Deposit => transfer.amount as int,
        BankBalanceType::Borrow => -(transfer.amount as int),
    }
}

/// A live settlement only moves value: what the ledger transfer adds to the
/// account's balance is exactly what leaves the position's quote amount, and
/// no other position changes.
pub proof fn lemma_settle_pnl_moves_value(
    market_index: u64,
    user_authority: Pubkey,
    positions: Seq<MarketPosition>,
    authority: Pubkey,
    meets_maintenance_margin: bool,
    unsettled_pnl: i128,
    pnl_to_settle_with_user: i128,
    oracle_price: i128,
    now: i64,
)
    ensures
        ({
            let (r, after) = settle_pnl_result(
                market_index,
                user_authority,
                positions,
                authority,
                meets_maintenance_margin,
                unsettled_pnl,
                pnl_to_settle_with_user,
                oracle_price,
                now,
            );
            match r {
                Ok(SettlePnlOutcome::Settled { transfer, .. }) => {
                    let i = position_index(positions, market_index)->Some_0;
                    &&& after.len() == positions.len()
                    &&& signed_amount(transfer) == positions[i].quote_asset_amount
                        - after[i].quote_asset_amount
                    &&& forall|j: int| 0 <= j < positions.len() && j != i ==> after[j] == positions[j]
                },
                _ => after == positions,
            }
        }),
{
}

/// Negative PnL may be settled by anybody, positive PnL only by the account's
/// own authority: for an account that meets its maintenance margin and holds
/// a position in the market, a third party settling an amount the account
/// owes succeeds, moves that amount into the position's quote amount and
/// books it as a borrow; a third party taking an amount the pool owes fails.
pub proof fn lemma_only_the_owner_takes_positive_pnl(
    market_index: u64,
    user_authority: Pubkey,
    positions: Seq<MarketPosition>,
    authority: Pubkey,
    unsettled_pnl: i128,
    pnl_to_settle_with_user: i128,
    oracle_price: i128,
    now: i64,
)
    requires
        user_authority.bytes@ != authority.bytes@,
        position_index(positions, market_index) is Some,
        unsettled_pnl != 0,
        pnl_to_settle_with_user != 0,
    ensures
        ({
            let i = position_index(positions, market_index)->Some_0;
            let (r, after) = settle_pnl_result(
                market_index,
                user_authority,
                positions,
                authority,
                true,
                unsettled_pnl,
                pnl_to_settle_with_user,
                oracle_price,
                now,
            );
            &&& pnl_to_settle_with_user > 0 ==> r == Err::<SettlePnlOutcome, ErrorCode>(
                ErrorCode::UserMustSettleTheirOwnPositiveUnsettledPnl,
            ) && after == positions
            &&& pnl_to_settle_with_user < 0 && fits_i128(
                positions[i].quote_asset_amount - pnl_to_settle_with_user,
            ) ==> {
                &&& r matches Ok(SettlePnlOutcome::Settled { transfer, .. })
                &&& transfer == (BankTransfer {
                    amount: (-pnl_to_settle_with_user) as u128,
                    balance_type: BankBalanceType::Borrow,
                })
                &&& after[i].quote_asset_amount == positions[i].quote_asset_amount
                    - pnl_to_settle_with_user
            }
        }),
{
}

/// Settling an expired position fails whenever the market is not in
/// settlement, whatever the account's health or the sign of its PnL.
pub proof fn lemma_expired_settlement_needs_settlement_status(
    market_index: u64,
    positions: Seq<MarketPosition>,
    market_status: MarketStatus,
    meets_maintenance_margin: bool,
    base_asset_value: u128,
    unrealized_pnl: i128,
    fee_structure: FeeStructure,
    pnl_to_settle_with_user: i128,
    oracle_price: i128,
    now: i64,
)
    requires
        market_status != MarketStatus::Settlement,
    ensures
        ({
            let (r, after) = settle_expired_position_result(
                market_index,
                positions,
                market_status,
                meets_maintenance_margin,
                base_asset_value,
                unrealized_pnl,
                fee_structure,
                pnl_to_settle_with_user,
                oracle_price,
                now,
            );
            r is Err && after == positions
        }),
{
}

/// Settles a position in a market that has expired, at its settlement price,
/// and closes the position in full.
///
/// The caller has already accrued interest and settled funding, and hands in
/// the market's status, whether the account meets its maintenance margin, the
/// position's base asset value and PnL at the settlement price, and what the
/// pool agreed to settle of the PnL offered to it (see
/// `calculate_expired_pnl_to_settle`). Anybody may trigger it.
pub fn settle_expired_position(
    market_index: u64,
    user: &mut User,
    market_status: MarketStatus,
    meets_maintenance_margin: bool,
    base_asset_value: u128,
    unrealized_pnl: i128,
    fee_structure: &FeeStructure,
    pnl_to_settle_with_user: i128,
    oracle_price: i128,
    now: i64,
) -> (r: ClearingResult<SettlePnlOutcome>)
    ensures
        final(user).authority == old(user).authority,
        (r, final(user).positions@) == settle_expired_position_result(
            market_index,
            old(user).positions@,
            market_status,
            meets_maintenance_margin,
            base_asset_value,
            unrealized_pnl,
            *fee_structure,
            pnl_to_settle_with_user,
            oracle_price,
            now,
        ),
        market_status != MarketStatus::Settlement ==> r is Err && final(user).positions@ == old(
            user,
        ).positions@,
{
    if !meets_maintenance_margin {
        return Err(ErrorCode::InsufficientCollateralForSettlingPnl);
    }
    let found = get_position_index(&user.positions, market_index);
    let ghost k = choose|k: int| is_position_index(old(user).positions@, market_index, k);
    let idx = match found {
        Ok(i) => i,
        Err(e) => {
            return Err(e);
        },
    };
    proof {
        assert(is_position_index(old(user).positions@, market_index, k));
    }
    if market_status != MarketStatus::Settlement {
        return Err(ErrorCode::MarketNotInSettlement);
    }
    match calculate_expired_pnl_to_settle(unrealized_pnl, base_asset_value, fee_structure) {
        Ok(_) => {},
        Err(e) => {
            return Err(e);
        },
    }
    if unrealized_pnl == 0 {
        return Ok(SettlePnlOutcome::NoUnsettledPnl);
    } else if pnl_to_settle_with_user == 0 {
        return Ok(SettlePnlOutcome::PoolCannotSettle);
    }
    let pos = user.positions[idx];
    user.positions.set(
        idx,
        MarketPosition {
            base_asset_amount: 0,
            quote_asset_amount: 0,
            quote_entry_amount: 0,
            ..pos
        },
    );
    Ok(
        SettlePnlOutcome::Settled {
            transfer: transfer_of(pnl_to_settle_with_user),
            record: SettlePnlRecord {
                ts: now,
                market_index,
                pnl: pnl_to_settle_with_user,
                base_asset_amount: pos.base_asset_amount,
                quote_asset_amount_after: 0,
                quote_entry_amount: pos.quote_entry_amount,
                oracle_price,
            },
        },
    )
}

} // verus!
