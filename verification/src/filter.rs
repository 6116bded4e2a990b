//! Subscription filters: what a worker asks the remote service to push.
//!
//! A filter is built once, before the stream opens, and is sent with the
//! request that opens it. It holds named sub-filters; the service matches
//! an update against each of them.

use crate::text::{decimal, lemma_decimal_injective, to_decimal};
use crate::update::Category;
use vstd::prelude::*;

verus! {

/// The first tracked program.
pub const PROGRAM_ID_1: &'static str = "";

/// The second tracked program.
pub const PROGRAM_ID_2: &'static str = "";

/// Selects slot updates.
#[derive(Clone, Copy, Debug, PartialEq, Eq)]
pub struct SlotFilter {
    /// Whether slots are filtered by commitment level.
    pub filter_by_commitment: Option<bool>,
    /// Whether updates between slots are sent too.
    pub interslot_updates: Option<bool>,
}

/// Selects transaction updates.
#[derive(Debug, PartialEq, Eq)]
pub struct TransactionFilter {
    pub vote: Option<bool>,
    pub failed: Option<bool>,
    pub signature: Option<String>,
    pub account_include: Vec<String>,
    pub account_exclude: Vec<String>,
    pub account_required: Vec<String>,
}

/// A transaction filter as a mathematical value.
pub struct TransactionFilterModel {
    pub vote: Option<bool>,
    pub failed: Option<bool>,
    pub signature: Option<Seq<char>>,
    pub account_include: Seq<Seq<char>>,
    pub account_exclude: Seq<Seq<char>>,
    pub account_required: Seq<Seq<char>>,
}

impl View for TransactionFilter {
    type V = TransactionFilterModel;

    open spec fn view(&self) -> TransactionFilterModel {
        TransactionFilterModel {
            vote: self.vote,
            failed: self.failed,
            signature: match self.signature {
                Some(text) => Some(text@),
                None => None,
            },
            account_include: self.account_include.deep_view(),
            account_exclude: self.account_exclude.deep_view(),
            account_required: self.account_required.deep_view(),
        }
    }
}

/// A slot filter under its name.
#[derive(Debug, PartialEq, Eq)]
pub struct NamedSlotFilter {
    pub name: String,
    pub filter: SlotFilter,
}

/// A transaction filter under its name.
#[derive(Debug, PartialEq, Eq)]
pub struct NamedTransactionFilter {
    pub name: String,
    pub filter: TransactionFilter,
}

/// The filter of one subscription.
#[derive(Debug, PartialEq, Eq)]
pub struct SubscriptionFilter {
    pub slots: Vec<NamedSlotFilter>,
    pub transactions: Vec<NamedTransactionFilter>,
}

/// A subscription filter as a mathematical value: the named sub-filters of
/// each kind, in the order in which they were added.
pub struct SubscriptionModel {
    pub slots: Seq<(Seq<char>, SlotFilter)>,
    pub transactions: Seq<(Seq<char>, TransactionFilterModel)>,
}

impl View for SubscriptionFilter {
    type V = SubscriptionModel;

    open spec fn view(&self) -> SubscriptionModel {
        SubscriptionModel {
            slots: Seq::new(
                self.slots@.len(),
                |i: int| (self.slots@[i].name@, self.slots@[i].filter),
            ),
            transactions: Seq::new(
                self.transactions@.len(),
                |i: int| (self.transactions@[i].name@, self.transactions@[i].filter@),
            ),
        }
    }
}

/// The name of the only slot sub-filter.
pub open spec fn slot_filter_name() -> Seq<char> {
    "subscribe_slots"@
}

/// The name of the sub-filter for the tracked program at `position`,
/// counted from one.
pub open spec fn program_filter_name(position: nat) -> Seq<char> {
    "subscribe_program_"@ + decimal(position)
}

/// The filter that selects the transactions that touch `account`.
pub open spec fn requiring(account: Seq<char>) -> TransactionFilterModel {
    TransactionFilterModel {
        vote: None,
        failed: None,
        signature: None,
        account_include: Seq::empty(),
        account_exclude: Seq::empty(),
        account_required: seq![account],
    }
}

/// The slot filter that asks for neither filtering by commitment nor
/// updates between slots.
pub open spec fn unfiltered_slots() -> SlotFilter {
    SlotFilter { filter_by_commitment: None, interslot_updates: None }
}

/// The subscription to all slot updates, with no filtering by commitment.
pub open spec fn slot_subscription() -> SubscriptionModel {
    SubscriptionModel {
        slots: seq![(slot_filter_name(), unfiltered_slots())],
        transactions: Seq::empty(),
    }
}

/// The subscription to the transactions of `accounts`: one named sub-filter
/// per account, each requiring that account.
pub open spec fn transaction_subscription(accounts: Seq<Seq<char>>) -> SubscriptionModel {
    SubscriptionModel {
        slots: Seq::empty(),
        transactions: Seq::new(
            accounts.len(),
            |i: int| (program_filter_name((i + 1) as nat), requiring(accounts[i])),
        ),
    }
}

/// The programs a transaction worker tracks.
pub open spec fn tracked_programs() -> Seq<Seq<char>> {
    seq![PROGRAM_ID_1@, PROGRAM_ID_2@]
}

/// The subscription of a worker of `category`.
pub open spec fn subscription_for(category: Category) -> SubscriptionModel {
    match category {
        Category::Slot => slot_subscription(),
        Category::Transaction => transaction_subscription(tracked_programs()),
    }
}

/// Sub-filters of different positions have different names, so none
/// replaces another where the request keeps them by name.
pub proof fn lemma_program_filter_names_differ(a: nat, b: nat)
    requires
        program_filter_name(a) == program_filter_name(b),
    ensures
        a == b,
{
    let prefix = "subscribe_program_"@;
    assert(program_filter_name(a).skip(prefix.len() as int) =~= decimal(a));
    assert(program_filter_name(b).skip(prefix.len() as int) =~= decimal(b));
    lemma_decimal_injective(a, b);
}

/// In a transaction subscription no name occurs twice.
pub proof fn lemma_transaction_subscription_names_differ(
    accounts: Seq<Seq<char>>,
    i: int,
    j: int,
)
    requires
        0 <= i < accounts.len(),
        0 <= j < accounts.len(),
        transaction_subscription(accounts).transactions[i].0 == transaction_subscription(
            accounts,
        ).transactions[j].0,
    ensures
        i == j,
{
    lemma_program_filter_names_differ((i + 1) as nat, (j + 1) as nat);
}

impl TransactionFilter {
    /// The filter that selects the transactions that touch `account`.
    pub fn requiring(account: &str) -> (filter: TransactionFilter)
        ensures
            filter@ == requiring(account@),
    {
        let mut account_required: Vec<String> = Vec::new();
        account_required.push(String::from_str(account));
        let filter = TransactionFilter {
            vote: None,
            failed: None,
            signature: None,
            account_include: Vec::new(),
            account_exclude: Vec::new(),
            account_required,
        };
        assert(filter@.account_exclude =~= Seq::<Seq<char>>::empty());
        assert(filter@.account_required =~= seq![account@]);
        filter
    }
}

impl SubscriptionFilter {
    /// The subscription to all slot updates.
    pub fn for_slots() -> (filter: SubscriptionFilter)
        ensures
            filter@ == slot_subscription(),
    {
        let mut slots: Vec<NamedSlotFilter> = Vec::new();
        slots.push(
            NamedSlotFilter {
                name: String::from_str("subscribe_slots"),
                filter: SlotFilter { filter_by_commitment: None, interslot_updates: None },
            },
        );
        let filter = SubscriptionFilter { slots, transactions: Vec::new() };
        assert(filter@.slots =~= slot_subscription().slots);
        assert(filter@.transactions =~= slot_subscription().transactions);
        filter
    }

    /// The subscription to the transactions of `accounts`, one named
    /// sub-filter per account.
    pub fn for_transactions(accounts: &Vec<String>) -> (filter: SubscriptionFilter)
        ensures
            filter@ == transaction_subscription(accounts.deep_view()),
    {
        let mut transactions: Vec<NamedTransactionFilter> = Vec::new();
        let mut i: usize = 0;
        while i < accounts.len()
            invariant
                i <= accounts.len(),
                transactions@.len() == i,
                forall|j: int|
                    0 <= j < i ==> (#[trigger] transactions@[j]).name@ == program_filter_name(
                        (j + 1) as nat,
                    ) && transactions@[j].filter@ == requiring(accounts@[j]@),
            decreases accounts.len() - i,
        {
            let mut name = String::from_str("subscribe_program_");
            let position = to_decimal((i + 1) as u64);
            name.append(position.as_str());
            let filter = TransactionFilter::requiring(accounts[i].as_str());
            transactions.push(NamedTransactionFilter { name, filter });
            i = i + 1;
        }
        let filter = SubscriptionFilter { slots: Vec::new(), transactions };
        proof {
            let expected = transaction_subscription(accounts.deep_view());
            assert(filter@.slots =~= expected.slots);
            assert(filter@.transactions =~= expected.transactions);
        }
        filter
    }

    /// The subscription of a worker of `category`: all slots, or the
    /// transactions of the tracked programs.
    pub fn for_category(category: Category) -> (filter: SubscriptionFilter)
        ensures
            filter@ == subscription_for(category),
    {
        match category {
            Category::Slot => SubscriptionFilter::for_slots(),
            Category::Transaction => {
                let mut accounts: Vec<String> = Vec::new();
                accounts.push(String::from_str(PROGRAM_ID_1));
                accounts.push(String::from_str(PROGRAM_ID_2));
                assert(accounts.deep_view() =~= tracked_programs());
                SubscriptionFilter::for_transactions(&accounts)
            },
        }
    }
}

} // verus!
