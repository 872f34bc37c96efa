//! Settling bets: each settlement operation runs once, each bet is settled once, and
//! the balance changes that a settlement calls for are handed to the caller to apply.

use vstd::prelude::*;

use crate::address::{check_party, is_party, Address};
use crate::error::ContractError;
use crate::events::SettlementExecutedEvent;
use crate::guard::ReplayGuard;
use crate::model::{after_claim, after_cleanup, claim_outcome, claimed, cleanup_outcome, Records};
use crate::record::{OperationKey, Slot};
use crate::store::RecordStore;
use crate::table::Table;
use crate::text::same_text;
use crate::u256::U256;

verus! {

/// The scope of settlement operations.
pub const SETTLEMENT_SCOPE: &'static str = "settlement";

/// The slot of the settlement operation `operation_hash`.
pub open spec fn settlement_slot(operation_hash: &OperationKey) -> Slot {
    ("settlement"@, operation_hash@)
}

/// How a bet ended.
#[derive(Clone, Copy, Debug, PartialEq, Eq, Structural)]
pub enum SettlementType {
    /// The bettor's stake goes, and a winner is paid.
    Win,
    /// The bettor's stake goes.
    Loss,
    /// The bettor's stake is given back.
    Draw,
}

/// The settlement type that a tag names: `WIN`, `LOSS` or `DRAW`.
pub open spec fn settlement_type_of(tag: Seq<char>) -> Option<SettlementType> {
    if tag == "WIN"@ {
        Some(SettlementType::Win)
    } else if tag == "LOSS"@ {
        Some(SettlementType::Loss)
    } else if tag == "DRAW"@ {
        Some(SettlementType::Draw)
    } else {
        None
    }
}

/// Reads a settlement type from its tag.
pub fn parse_settlement_type(tag: &str) -> (parsed: Option<SettlementType>)
    ensures
        parsed == settlement_type_of(tag@),
{
    if same_text(tag, "WIN") {
        Some(SettlementType::Win)
    } else if same_text(tag, "LOSS") {
        Some(SettlementType::Loss)
    } else if same_text(tag, "DRAW") {
        Some(SettlementType::Draw)
    } else {
        None
    }
}

/// The settlement of one bet, as kept on file.
#[derive(Clone, Copy, Debug, PartialEq, Eq)]
pub struct SettlementRecord {
    pub bet_id: U256,
    pub outcome: SettlementType,
    pub bettor: Address,
    pub winner: Option<Address>,
    pub payout: i128,
    pub timestamp: u64,
}

/// A change to one account on the balance ledger: so much more withdrawable, so much
/// more locked.
#[derive(Clone, Copy, Debug, PartialEq, Eq)]
pub struct BalanceDelta {
    pub account: Address,
    pub withdrawable: i128,
    pub locked: i128,
}

/// What a successful settlement asks of its caller: the changes to apply on the
/// balance ledger, in order, and the event to publish.
#[derive(Debug, PartialEq, Eq)]
pub struct Settlement {
    pub ledger: Address,
    pub deltas: Vec<BalanceDelta>,
    pub event: SettlementExecutedEvent,
}

/// The balance changes of a settlement. A win unlocks the stake from the bettor and
/// credits the payout to the winner; a loss unlocks the stake from the bettor; a draw
/// moves the stake from locked back to withdrawable.
pub open spec fn deltas_of(
    kind: SettlementType,
    bettor: Address,
    winner: Option<Address>,
    bet_amount: i128,
    payout: i128,
) -> Seq<BalanceDelta> {
    match kind {
        SettlementType::Win => seq![
            BalanceDelta { account: bettor, withdrawable: 0, locked: (-bet_amount) as i128 },
            BalanceDelta { account: winner->Some_0, withdrawable: payout, locked: 0 },
        ],
        SettlementType::Loss => seq![
            BalanceDelta { account: bettor, withdrawable: 0, locked: (-bet_amount) as i128 },
        ],
        SettlementType::Draw => seq![
            BalanceDelta {
                account: bettor,
                withdrawable: bet_amount,
                locked: (-bet_amount) as i128,
            },
        ],
    }
}

/// Whether the terms of a settlement hold together, and if not, why not: the type must
/// be a known one, a win must name a winner, and the stake must have a negative.
pub open spec fn terms_check(settlement_type: Seq<char>, winner: Option<Address>, bet_amount: i128) -> Result<
    SettlementType,
    ContractError,
> {
    if settlement_type_of(settlement_type) is None {
        Err(ContractError::InvalidStatus)
    } else if settlement_type_of(settlement_type) == Some(SettlementType::Win) && winner is None {
        Err(ContractError::InvalidBet)
    } else if bet_amount == i128::MIN {
        Err(ContractError::ArithmeticOverflow)
    } else {
        Ok(settlement_type_of(settlement_type)->Some_0)
    }
}

/// Works out what a settlement changes on the balance ledger, or why its terms do not
/// hold together.
pub fn plan_settlement(
    settlement_type: &str,
    bettor: Address,
    winner: Option<Address>,
    bet_amount: i128,
    payout: i128,
) -> (plan: Result<(SettlementType, Vec<BalanceDelta>), ContractError>)
    ensures
        plan is Ok <==> terms_check(settlement_type@, winner, bet_amount) is Ok,
        plan matches Err(refusal) ==> terms_check(settlement_type@, winner, bet_amount) == Err::<
            SettlementType,
            ContractError,
        >(refusal),
        plan matches Ok((kind, deltas)) ==> Some(kind) == settlement_type_of(settlement_type@)
            && deltas@ == deltas_of(kind, bettor, winner, bet_amount, payout),
{
    let kind = match parse_settlement_type(settlement_type) {
        Some(kind) => kind,
        None => {
            return Err(ContractError::InvalidStatus);
        },
    };
    let winner_missing = match (kind, winner) {
        (SettlementType::Win, None) => true,
        _ => false,
    };
    if winner_missing {
        return Err(ContractError::InvalidBet);
    }
    let zero: i128 = 0;
    let unlocked = match zero.checked_sub(bet_amount) {
        Some(unlocked) => unlocked,
        None => {
            return Err(ContractError::ArithmeticOverflow);
        },
    };
    let mut deltas: Vec<BalanceDelta> = Vec::new();
    match kind {
        SettlementType::Win => {
            deltas.push(BalanceDelta { account: bettor, withdrawable: 0, locked: unlocked });
            match winner {
                Some(paid) => {
                    deltas.push(BalanceDelta { account: paid, withdrawable: payout, locked: 0 });
                },
                None => {},
            }
        },
        SettlementType::Loss => {
            deltas.push(BalanceDelta { account: bettor, withdrawable: 0, locked: unlocked });
        },
        SettlementType::Draw => {
            deltas.push(
                BalanceDelta { account: bettor, withdrawable: bet_amount, locked: unlocked },
            );
        },
    }
    assert(deltas@ =~= deltas_of(kind, bettor, winner, bet_amount, payout));
    Ok((kind, deltas))
}

/// What can be read of a settlement contract.
pub struct SettlementState {
    /// The party that may settle bets, once set.
    pub backend_signer: Option<Address>,
    /// The contract that keeps the balances, once set.
    pub balance_ledger: Option<Address>,
    /// The settlements on file, by bet.
    pub settled: Map<U256, SettlementRecord>,
    /// The ledger of settlement operations.
    pub records: Records,
}

impl SettlementState {
    /// Whether `caller` may settle bets.
    pub open spec fn backend_auth(self, caller: Address) -> Result<(), ContractError> {
        if is_party(self.backend_signer, caller) {
            Ok(())
        } else {
            Err(ContractError::Unauthorized)
        }
    }

    /// Whether a settlement goes through, and if not, why not. The caller is judged
    /// first, then the operation against the ledger, then the bet.
    pub open spec fn settle_check(
        self,
        caller: Address,
        operation_hash: &OperationKey,
        bet_id: U256,
        winner: Option<Address>,
        bet_amount: i128,
        settlement_type: Seq<char>,
        ttl_seconds: Option<u64>,
        now: u64,
    ) -> Result<(), ContractError> {
        if self.backend_auth(caller) is Err {
            Err(ContractError::Unauthorized)
        } else if claim_outcome(self.records, settlement_slot(operation_hash), ttl_seconds, now)
            is Err {
            claim_outcome(self.records, settlement_slot(operation_hash), ttl_seconds, now)
        } else if self.settled.contains_key(bet_id) {
            Err(ContractError::BetAlreadySettled)
        } else if self.balance_ledger is None {
            Err(ContractError::Unauthorized)
        } else {
            match terms_check(settlement_type, winner, bet_amount) {
                Ok(_) => Ok(()),
                Err(refusal) => Err(refusal),
            }
        }
    }
}

/// The settlement contract, keeping its ledger of operations in a store of the
/// caller's choice.
pub struct SettlementContract<S: RecordStore> {
    backend_signer: Option<Address>,
    balance_ledger: Option<Address>,
    settled: Table<U256, SettlementRecord>,
    operations: ReplayGuard<S>,
}

impl<S: RecordStore> View for SettlementContract<S> {
    type V = SettlementState;

    closed spec fn view(&self) -> SettlementState {
        SettlementState {
            backend_signer: self.backend_signer,
            balance_ledger: self.balance_ledger,
            settled: self.settled@,
            records: self.operations@,
        }
    }
}

impl<S: RecordStore> SettlementContract<S> {
    /// A contract with no signer, no balance ledger and nothing settled, over the
    /// operations on record in `store`.
    pub fn new(store: S) -> (contract: Self)
        ensures
            contract@ == (SettlementState {
                backend_signer: None,
                balance_ledger: None,
                settled: Map::empty(),
                records: store.records(),
            }),
    {
        SettlementContract {
            backend_signer: None,
            balance_ledger: None,
            settled: Table::new(),
            operations: ReplayGuard::new(store),
        }
    }

    /// Names the party that may settle bets and the contract that keeps the balances.
    pub fn initialize(&mut self, backend_signer: Address, balance_ledger: Address)
        ensures
            final(self)@ == (SettlementState {
                backend_signer: Some(backend_signer),
                balance_ledger: Some(balance_ledger),
                ..old(self)@
            }),
    {
        self.backend_signer = Some(backend_signer);
        self.balance_ledger = Some(balance_ledger);
    }

    /// Whether `caller` may settle bets: a signer must be set and be the caller.
    pub fn require_backend_auth(&self, caller: &Address) -> (outcome: Result<(), ContractError>)
        ensures
            outcome == self@.backend_auth(*caller),
    {
        if check_party(&self.backend_signer, caller) {
            Ok(())
        } else {
            Err(ContractError::Unauthorized)
        }
    }

    /// Whether a settlement is on file for `bet_id`.
    pub fn is_settled(&self, bet_id: &U256) -> (settled: bool)
        ensures
            settled == self@.settled.contains_key(*bet_id),
    {
        self.settled.contains(bet_id)
    }

    /// The settlement on file for `bet_id`.
    pub fn settlement(&self, bet_id: &U256) -> (found: Option<SettlementRecord>)
        ensures
            found == (if self@.settled.contains_key(*bet_id) {
                Some(self@.settled[*bet_id])
            } else {
                None
            }),
    {
        match self.settled.get(bet_id) {
            Some(record) => Some(*record),
            None => None,
        }
    }

    /// Settles a bet at time `now`.
    ///
    /// The caller must be the backend signer. The operation must be claimable on the
    /// ledger. The bet must not be settled, a balance ledger must be set, and the
    /// terms must hold together: the type `WIN`, `LOSS` or `DRAW`, a winner for a win,
    /// a stake that has a negative. Only then is anything written: the operation is claimed, the
    /// settlement is filed, and the balance changes and the event are returned. A
    /// refused settlement changes nothing.
    pub fn settle_bet(
        &mut self,
        caller: &Address,
        operation_hash: &OperationKey,
        bet_id: U256,
        bettor: Address,
        winner: Option<Address>,
        bet_amount: i128,
        payout: i128,
        settlement_type: &str,
        ttl_seconds: Option<u64>,
        now: u64,
    ) -> (outcome: Result<Settlement, ContractError>)
        ensures
            outcome is Ok <==> old(self)@.settle_check(
                *caller,
                operation_hash,
                bet_id,
                winner,
                bet_amount,
                settlement_type@,
                ttl_seconds,
                now,
            ) is Ok,
            outcome matches Err(refusal) ==> old(self)@.settle_check(
                *caller,
                operation_hash,
                bet_id,
                winner,
                bet_amount,
                settlement_type@,
                ttl_seconds,
                now,
            ) == Err::<(), ContractError>(refusal) && final(self)@ == old(self)@,
            outcome matches Ok(done) ==> {
                let kind = settlement_type_of(settlement_type@)->Some_0;
                &&& done.ledger == old(self)@.balance_ledger->Some_0
                &&& done.deltas@ == deltas_of(kind, bettor, winner, bet_amount, payout)
                &&& done.event == (SettlementExecutedEvent {
                    operation_hash: *operation_hash,
                    bet_id,
                    winner,
                    payout,
                    timestamp: now,
                })
                &&& final(self)@ == (SettlementState {
                    settled: old(self)@.settled.insert(
                        bet_id,
                        SettlementRecord {
                            bet_id,
                            outcome: kind,
                            bettor,
                            winner,
                            payout,
                            timestamp: now,
                        },
                    ),
                    records: after_claim(
                        old(self)@.records,
                        settlement_slot(operation_hash),
                        ttl_seconds,
                        now,
                    ),
                    ..old(self)@
                })
            },
    {
        if !check_party(&self.backend_signer, caller) {
            return Err(ContractError::Unauthorized);
        }
        match self.operations.check_claim(SETTLEMENT_SCOPE, operation_hash, ttl_seconds, now) {
            Ok(_) => {},
            Err(refusal) => {
                return Err(refusal);
            },
        }
        if self.settled.contains(&bet_id) {
            return Err(ContractError::BetAlreadySettled);
        }
        let ledger = match self.balance_ledger {
            Some(ledger) => ledger,
            None => {
                return Err(ContractError::Unauthorized);
            },
        };
        let (kind, deltas) = match plan_settlement(
            settlement_type,
            bettor,
            winner,
            bet_amount,
            payout,
        ) {
            Ok(plan) => plan,
            Err(refusal) => {
                return Err(refusal);
            },
        };
        match self.operations.claim(SETTLEMENT_SCOPE, operation_hash, ttl_seconds, now) {
            Ok(_) => {},
            Err(refusal) => {
                return Err(refusal);
            },
        }
        self.settled.insert(
            bet_id,
            SettlementRecord { bet_id, outcome: kind, bettor, winner, payout, timestamp: now },
        );
        Ok(
            Settlement {
                ledger,
                deltas,
                event: SettlementExecutedEvent {
                    operation_hash: *operation_hash,
                    bet_id,
                    winner,
                    payout,
                    timestamp: now,
                },
            },
        )
    }

    /// Whether the settlement operation `operation_hash` is on record, expired or not.
    pub fn is_operation_executed(&self, operation_hash: &OperationKey) -> (executed: bool)
        ensures
            executed == claimed(self@.records, settlement_slot(operation_hash)),
    {
        self.operations.is_claimed(SETTLEMENT_SCOPE, operation_hash)
    }

    /// Removes the record of the settlement operation `operation_hash` if it has
    /// expired at time `now`, and says whether it did. Settlements stay on file.
    pub fn cleanup_operation(&mut self, operation_hash: &OperationKey, now: u64) -> (removed: bool)
        ensures
            removed == cleanup_outcome(old(self)@.records, settlement_slot(operation_hash), now),
            final(self)@ == (SettlementState {
                records: after_cleanup(old(self)@.records, settlement_slot(operation_hash), now),
                ..old(self)@
            }),
    {
        self.operations.cleanup(SETTLEMENT_SCOPE, operation_hash, now)
    }
}

} // verus!
