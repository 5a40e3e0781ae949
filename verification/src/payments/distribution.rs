//! Payment distribution: payouts to users, batches of payouts, transfers
//! between accounts, balances and statements. Times are UNIX seconds.
use vstd::prelude::*;
use crate::clock::{now_timestamp, new_uuid};
use crate::payments::types::{Amount, PaymentProvider};

verus! {

/// Payout status
#[derive(Debug, Clone, Copy, PartialEq, Eq, Structural)]
pub enum PayoutStatus {
    Pending,
    InTransit,
    Completed,
    Failed,
    Cancelled,
}

/// Payout request
#[derive(Debug, Clone)]
pub struct Payout {
    pub id: String,
    pub amount: Amount,
    pub recipient_id: String,
    pub recipient_type: RecipientType,
    pub status: PayoutStatus,
    pub provider: PaymentProvider,
    pub destination: PayoutDestination,
    pub description: Option<String>,
    pub metadata: Option<serde_json::Value>,
    pub failure_reason: Option<String>,
    pub created_at: i64,
    pub updated_at: i64,
    pub completed_at: Option<i64>,
}

impl Payout {
    /// A pending payout created at `now`, with the id "po_" followed by `uuid`.
    pub fn new_at(
        amount: Amount,
        recipient_id: &str,
        recipient_type: RecipientType,
        provider: PaymentProvider,
        destination: PayoutDestination,
        uuid: &str,
        now: i64,
    ) -> (r: Self)
        ensures
            r.id@ == "po_"@ + uuid@,
            r.amount == amount,
            r.recipient_id@ == recipient_id@,
            r.recipient_type == recipient_type,
            r.status == PayoutStatus::Pending,
            r.provider == provider,
            r.destination == destination,
            r.description is None,
            r.metadata is None,
            r.failure_reason is None,
            r.created_at == now,
            r.updated_at == now,
            r.completed_at is None,
    {
        let mut id = String::from_str("po_");
        id.append(uuid);
        Payout {
            id,
            amount,
            recipient_id: recipient_id.to_owned(),
            recipient_type,
            status: PayoutStatus::Pending,
            provider,
            destination,
            description: None,
            metadata: None,
            failure_reason: None,
            created_at: now,
            updated_at: now,
            completed_at: None,
        }
    }

    /// A pending payout created now, with a fresh "po_" id.
    pub fn new(
        amount: Amount,
        recipient_id: &str,
        recipient_type: RecipientType,
        provider: PaymentProvider,
        destination: PayoutDestination,
    ) -> (r: Self)
        ensures
            "po_"@.is_prefix_of(r.id@),
            r.id@.len() == 39,
            r.amount == amount,
            r.recipient_id@ == recipient_id@,
            r.recipient_type == recipient_type,
            r.status == PayoutStatus::Pending,
            r.provider == provider,
            r.destination == destination,
            r.description is None,
            r.metadata is None,
            r.failure_reason is None,
            r.created_at == r.updated_at,
            r.completed_at is None,
    {
        let uuid = new_uuid();
        let now = now_timestamp();
        let r = Payout::new_at(amount, recipient_id, recipient_type, provider, destination, uuid.as_str(), now);
        proof { reveal_strlit("po_"); }
        r
    }
}

/// Recipient types
#[derive(Debug, Clone, Copy, PartialEq, Eq, Structural)]
pub enum RecipientType {
    Individual,
    Business,
}

/// Payout destination
#[derive(Debug, Clone)]
pub enum PayoutDestination {
    /// Bank account (US)
    Bank {
        account_number: String,
        routing_number: String,
        account_holder_name: String,
        bank_name: Option<String>,
    },
    /// Mobile money
    MobileMoney {
        phone: String,
        operator: String,
    },
    /// PayPal
    PayPal {
        email: String,
    },
    /// Card
    Card {
        card_id: String,
    },
}

/// Batch payout for multiple recipients
#[derive(Debug, Clone)]
pub struct BatchPayout {
    pub id: String,
    pub payouts: Vec<Payout>,
    pub total_amount: Amount,
    pub status: BatchPayoutStatus,
    pub provider: PaymentProvider,
    pub created_at: i64,
    pub completed_at: Option<i64>,
}

/// The sum of the amounts of the first `n` payouts.
pub open spec fn payout_sum(payouts: Seq<Payout>, n: int) -> int
    decreases n,
{
    if n <= 0 {
        0
    } else {
        payout_sum(payouts, n - 1) + payouts[n - 1].amount.value
    }
}

/// Every running total of the payouts' amounts fits in an `i64`.
pub open spec fn sums_fit(payouts: Seq<Payout>) -> bool {
    forall|k: int| 0 <= k <= payouts.len() ==> i64::MIN <= #[trigger] payout_sum(payouts, k) <= i64::MAX
}

/// The sum of the payouts' amounts; every running total fits in an `i64`.
pub fn total_of(payouts: &Vec<Payout>) -> (r: i64)
    requires
        sums_fit(payouts@),
    ensures
        r == payout_sum(payouts@, payouts@.len() as int),
{
    let mut total: i64 = 0;
    let mut i: usize = 0;
    while i < payouts.len()
        invariant
            i <= payouts@.len(),
            sums_fit(payouts@),
            total == payout_sum(payouts@, i as int),
        decreases payouts@.len() - i,
    {
        assert(i64::MIN <= payout_sum(payouts@, i + 1) <= i64::MAX);
        total = total + payouts[i].amount.value;
        i = i + 1;
    }
    total
}

impl BatchPayout {
    /// A pending batch created at `now`, with the id "bp_" followed by `uuid`;
    /// its total is the sum of the payouts' amounts, in USD.
    pub fn new_at(provider: PaymentProvider, payouts: Vec<Payout>, uuid: &str, now: i64) -> (r: Self)
        requires
            sums_fit(payouts@),
        ensures
            r.id@ == "bp_"@ + uuid@,
            r.payouts == payouts,
            r.total_amount.value == payout_sum(payouts@, payouts@.len() as int),
            r.total_amount.currency@ == "USD"@,
            r.status == BatchPayoutStatus::Pending,
            r.provider == provider,
            r.created_at == now,
            r.completed_at is None,
    {
        let total = total_of(&payouts);
        let mut id = String::from_str("bp_");
        id.append(uuid);
        BatchPayout {
            id,
            payouts,
            total_amount: Amount::new(total, "USD"),
            status: BatchPayoutStatus::Pending,
            provider,
            created_at: now,
            completed_at: None,
        }
    }

    /// A pending batch created now, with a fresh "bp_" id; its total is the
    /// sum of the payouts' amounts, in USD.
    pub fn new(provider: PaymentProvider, payouts: Vec<Payout>) -> (r: Self)
        requires
            sums_fit(payouts@),
        ensures
            "bp_"@.is_prefix_of(r.id@),
            r.id@.len() == 39,
            r.payouts == payouts,
            r.total_amount.value == payout_sum(payouts@, payouts@.len() as int),
            r.total_amount.currency@ == "USD"@,
            r.status == BatchPayoutStatus::Pending,
            r.provider == provider,
            r.completed_at is None,
    {
        let uuid = new_uuid();
        let now = now_timestamp();
        let r = BatchPayout::new_at(provider, payouts, uuid.as_str(), now);
        proof { reveal_strlit("bp_"); }
        r
    }
}

/// Batch payout status
#[derive(Debug, Clone, Copy, PartialEq, Eq, Structural)]
pub enum BatchPayoutStatus {
    Pending,
    Processing,
    Completed,
    PartiallyCompleted,
    Failed,
}

/// Transfer between accounts
#[derive(Debug, Clone)]
pub struct Transfer {
    pub id: String,
    pub amount: Amount,
    pub source_account_id: String,
    pub destination_account_id: String,
    pub status: TransferStatus,
    pub description: Option<String>,
    pub metadata: Option<serde_json::Value>,
    pub created_at: i64,
}

impl Transfer {
    /// A pending transfer created at `now`, with the id "tr_" followed by `uuid`.
    pub fn new_at(amount: Amount, source_account_id: &str, destination_account_id: &str, uuid: &str, now: i64) -> (r: Self)
        ensures
            r.id@ == "tr_"@ + uuid@,
            r.amount == amount,
            r.source_account_id@ == source_account_id@,
            r.destination_account_id@ == destination_account_id@,
            r.status == TransferStatus::Pending,
            r.description is None,
            r.metadata is None,
            r.created_at == now,
    {
        let mut id = String::from_str("tr_");
        id.append(uuid);
        Transfer {
            id,
            amount,
            source_account_id: source_account_id.to_owned(),
            destination_account_id: destination_account_id.to_owned(),
            status: TransferStatus::Pending,
            description: None,
            metadata: None,
            created_at: now,
        }
    }

    /// A pending transfer created now, with a fresh "tr_" id.
    pub fn new(amount: Amount, source_account_id: &str, destination_account_id: &str) -> (r: Self)
        ensures
            "tr_"@.is_prefix_of(r.id@),
            r.id@.len() == 39,
            r.amount == amount,
            r.source_account_id@ == source_account_id@,
            r.destination_account_id@ == destination_account_id@,
            r.status == TransferStatus::Pending,
            r.description is None,
            r.metadata is None,
    {
        let uuid = new_uuid();
        let now = now_timestamp();
        let r = Transfer::new_at(amount, source_account_id, destination_account_id, uuid.as_str(), now);
        proof { reveal_strlit("tr_"); }
        r
    }
}

/// Transfer status
#[derive(Debug, Clone, Copy, PartialEq, Eq, Structural)]
pub enum TransferStatus {
    Pending,
    Completed,
    Failed,
}

/// Wallet balance
#[derive(Debug, Clone)]
pub struct WalletBalance {
    pub account_id: String,
    pub available: Amount,
    pub pending: Amount,
    pub currency: String,
}

/// Account statement
#[derive(Debug, Clone)]
pub struct AccountStatement {
    pub account_id: String,
    pub transactions: Vec<Transaction>,
    pub balance: WalletBalance,
    pub start_date: i64,
    pub end_date: i64,
}

/// Transaction in account statement
#[derive(Debug, Clone)]
pub struct Transaction {
    pub id: String,
    pub transaction_type: TransactionType,
    pub amount: Amount,
    pub balance_after: i64,
    pub description: Option<String>,
    pub reference: Option<String>,
    pub timestamp: i64,
}

/// Transaction types
#[derive(Debug, Clone, Copy, PartialEq, Eq, Structural)]
pub enum TransactionType {
    Credit,
    Debit,
    Payout,
    Refund,
    Fee,
    Transfer,
}

} // verus!
