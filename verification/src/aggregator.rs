//! The aggregator: the single consumer of the shared channel.

use crate::text::{output_line, render_line};
use vstd::prelude::*;

verus! {

/// What the aggregator does after a receive came back.
#[derive(Debug, PartialEq, Eq)]
pub enum AggregatorAction {
    /// Print the line, then receive again.
    Emit(String),
    /// The channel is closed and empty: stop.
    Stop,
}

/// An aggregator action as a mathematical value.
pub enum AggregatorStep {
    Emit(Seq<char>),
    Stop,
}

impl View for AggregatorAction {
    type V = AggregatorStep;

    open spec fn view(&self) -> AggregatorStep {
        match self {
            AggregatorAction::Emit(line) => AggregatorStep::Emit(line@),
            AggregatorAction::Stop => AggregatorStep::Stop,
        }
    }
}

/// What the aggregator does with what a receive returned.
pub open spec fn aggregated(received: Option<u64>) -> AggregatorStep {
    match received {
        Some(value) => AggregatorStep::Emit(output_line(value)),
        None => AggregatorStep::Stop,
    }
}

/// Decides what the aggregator does with what a receive returned: a value
/// is emitted at once, as its line; the end of the channel ends the loop.
pub fn aggregate(received: Option<u64>) -> (action: AggregatorAction)
    ensures
        action@ == aggregated(received),
{
    match received {
        Some(value) => AggregatorAction::Emit(render_line(value)),
        None => AggregatorAction::Stop,
    }
}

/// The lines for `values`, one per value, in the same order.
pub open spec fn output_lines(values: Seq<u64>) -> Seq<Seq<char>> {
    Seq::new(values.len(), |i: int| output_line(values[i]))
}

} // verus!
