use geyser_fanin::filter::{
    NamedSlotFilter, NamedTransactionFilter, SlotFilter, SubscriptionFilter, TransactionFilter,
    PROGRAM_ID_1, PROGRAM_ID_2,
};
use geyser_fanin::update::Category;

fn requiring(account: &str) -> TransactionFilter {
    TransactionFilter {
        vote: None,
        failed: None,
        signature: None,
        account_include: vec![],
        account_exclude: vec![],
        account_required: vec![account.to_string()],
    }
}

#[test]
fn transaction_worker_subscribes_to_both_tracked_programs() {
    let filter = SubscriptionFilter::for_category(Category::Transaction);
    assert!(filter.slots.is_empty());
    assert_eq!(
        filter.transactions,
        vec![
            NamedTransactionFilter {
                name: "subscribe_program_1".to_string(),
                filter: requiring(PROGRAM_ID_1),
            },
            NamedTransactionFilter {
                name: "subscribe_program_2".to_string(),
                filter: requiring(PROGRAM_ID_2),
            },
        ]
    );
}

#[test]
fn slot_worker_subscribes_to_slots_only() {
    let filter = SubscriptionFilter::for_category(Category::Slot);
    assert!(filter.transactions.is_empty());
    assert_eq!(
        filter.slots,
        vec![NamedSlotFilter {
            name: "subscribe_slots".to_string(),
            filter: SlotFilter { filter_by_commitment: None, interslot_updates: None },
        }]
    );
    assert_eq!(filter, SubscriptionFilter::for_slots());
}

#[test]
fn one_named_filter_per_account() {
    let accounts: Vec<String> = (0..12).map(|k| format!("account{}", k)).collect();
    let filter = SubscriptionFilter::for_transactions(&accounts);
    assert_eq!(filter.transactions.len(), 12);
    for (i, named) in filter.transactions.iter().enumerate() {
        assert_eq!(named.name, format!("subscribe_program_{}", i + 1));
        assert_eq!(named.filter, requiring(&accounts[i]));
    }
    let mut names: Vec<&String> = filter.transactions.iter().map(|named| &named.name).collect();
    names.sort();
    names.dedup();
    assert_eq!(names.len(), 12);
}

#[test]
fn no_accounts_no_filters() {
    let filter = SubscriptionFilter::for_transactions(&Vec::new());
    assert!(filter.transactions.is_empty());
    assert!(filter.slots.is_empty());
}

#[test]
fn required_account_filter_has_nothing_else_set() {
    assert_eq!(TransactionFilter::requiring("abc"), requiring("abc"));
}
