//! Updates received from a subscription, and the one number taken from each.

use vstd::prelude::*;

verus! {

/// The kind of update a worker forwards to the shared channel.
#[derive(Clone, Copy, Debug, PartialEq, Eq)]
pub enum Category {
    /// Slot updates; the slot number is forwarded.
    Slot,
    /// Transaction updates; the index in the envelope is forwarded.
    Transaction,
}

/// The envelope of a transaction update.
#[derive(Clone, Copy, Debug, PartialEq, Eq)]
pub struct TransactionEnvelope {
    pub index: u64,
}

/// One message of the update stream, reduced to what the pipeline reads.
#[derive(Clone, Copy, Debug, PartialEq, Eq)]
pub enum UpdateEvent {
    /// A new slot was observed upstream.
    Slot { slot: u64 },
    /// A transaction was observed; the envelope may be absent on the wire.
    Transaction { envelope: Option<TransactionEnvelope> },
    /// Any other kind of update.
    Other,
    /// A message that carries no update at all.
    Empty,
}

/// Why no number could be taken from an update of the worker's category.
#[derive(Clone, Copy, Debug, PartialEq, Eq)]
pub enum ExtractionError {
    /// A transaction update arrived without its envelope.
    MissingEnvelope,
}

/// The number that `event` carries for a worker of `category`, if it is an
/// update of that category and the number is present.
pub open spec fn extracted(category: Category, event: UpdateEvent) -> Option<u64> {
    match (category, event) {
        (Category::Slot, UpdateEvent::Slot { slot }) => Some(slot),
        (Category::Transaction, UpdateEvent::Transaction { envelope: Some(e) }) => Some(e.index),
        _ => None,
    }
}

/// `event` is of the worker's category but lacks the field to extract.
pub open spec fn malformed(category: Category, event: UpdateEvent) -> bool {
    category is Transaction && event == (UpdateEvent::Transaction { envelope: None })
}

/// `event` belongs to the category that a worker of `category` forwards.
pub open spec fn of_interest(category: Category, event: UpdateEvent) -> bool {
    match category {
        Category::Slot => event is Slot,
        Category::Transaction => event is Transaction,
    }
}

/// What extraction yields for `event` in a worker of `category`.
pub open spec fn extraction(category: Category, event: UpdateEvent) -> Result<
    Option<u64>,
    ExtractionError,
> {
    if malformed(category, event) {
        Err(ExtractionError::MissingEnvelope)
    } else {
        Ok(extracted(category, event))
    }
}

/// Takes the number of interest out of an update.
///
/// A slot worker gets the slot number of a slot update, a transaction worker
/// the index of a transaction's envelope, each unchanged. An update of
/// another category yields `Ok(None)`: it is only observed. A transaction
/// update without envelope is an error for a transaction worker.
pub fn extract(category: Category, event: &UpdateEvent) -> (result: Result<
    Option<u64>,
    ExtractionError,
>)
    ensures
        result == extraction(category, *event),
{
    match category {
        Category::Slot => match event {
            UpdateEvent::Slot { slot } => Ok(Some(*slot)),
            _ => Ok(None),
        },
        Category::Transaction => match event {
            UpdateEvent::Transaction { envelope: Some(e) } => Ok(Some(e.index)),
            UpdateEvent::Transaction { envelope: None } => Err(ExtractionError::MissingEnvelope),
            _ => Ok(None),
        },
    }
}

/// Extraction hands on the number of an update of the worker's category
/// exactly as the update carries it.
pub proof fn lemma_extraction_preserves_value(category: Category, event: UpdateEvent)
    requires
        of_interest(category, event),
        !malformed(category, event),
    ensures
        category is Slot ==> extraction(category, event) == Ok::<Option<u64>, ExtractionError>(
            Some(event->slot),
        ),
        category is Transaction ==> extraction(category, event) == Ok::<
            Option<u64>,
            ExtractionError,
        >(Some(event->envelope->Some_0.index)),
{
}

/// An update of another category yields no number.
pub proof fn lemma_extraction_ignores_other_categories(category: Category, event: UpdateEvent)
    requires
        !of_interest(category, event),
    ensures
        extraction(category, event) == Ok::<Option<u64>, ExtractionError>(None),
{
}

} // verus!
