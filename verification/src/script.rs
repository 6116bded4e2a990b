//! Scripted remote endpoints: what a worker meets, written down in advance.
//!
//! A script says whether the connection and the subscription succeed and
//! which items the stream then yields. From a script alone this module
//! states what a worker forwards, what it logs, and how it ends.

use crate::update::{extracted, Category, UpdateEvent};
use crate::worker::{on_message, Diagnostic, WorkerError};
use vstd::prelude::*;

verus! {

/// One item that a stream yields.
#[derive(Clone, Copy, Debug, PartialEq, Eq)]
pub enum StreamItem {
    /// A message.
    Update(UpdateEvent),
    /// A transport error in place of a message.
    Failure,
}

/// The behaviour of one remote endpoint.
#[derive(Debug, PartialEq, Eq)]
pub struct Script {
    /// Whether the connection can be established.
    pub connect_ok: bool,
    /// Whether the subscription is accepted.
    pub subscribe_ok: bool,
    /// What the stream yields before it closes.
    pub items: Vec<StreamItem>,
}

/// A script as a mathematical value.
pub struct ScriptModel {
    pub connect_ok: bool,
    pub subscribe_ok: bool,
    pub items: Seq<StreamItem>,
}

impl View for Script {
    type V = ScriptModel;

    open spec fn view(&self) -> ScriptModel {
        ScriptModel {
            connect_ok: self.connect_ok,
            subscribe_ok: self.subscribe_ok,
            items: self.items@,
        }
    }
}

/// The values a worker of `category` forwards while it reads `items`: the
/// number of each update of its category, in the order of arrival, up to
/// the first failure of the stream.
pub open spec fn forwarded(category: Category, items: Seq<StreamItem>) -> Seq<u64>
    decreases items.len(),
{
    if items.len() == 0 {
        Seq::empty()
    } else {
        match items[0] {
            StreamItem::Failure => Seq::empty(),
            StreamItem::Update(update) => {
                let later = forwarded(category, items.drop_first());
                match extracted(category, update) {
                    Some(value) => seq![value] + later,
                    None => later,
                }
            },
        }
    }
}

/// The diagnostics a worker of `category` writes while it reads `items`.
pub open spec fn stream_log(category: Category, items: Seq<StreamItem>) -> Seq<Diagnostic>
    decreases items.len(),
{
    if items.len() == 0 {
        Seq::empty()
    } else {
        match items[0] {
            StreamItem::Failure => seq![Diagnostic::StreamError],
            StreamItem::Update(update) => {
                let later = stream_log(category, items.drop_first());
                match on_message(category, update).log {
                    Some(line) => seq![line] + later,
                    None => later,
                }
            },
        }
    }
}

impl ScriptModel {
    /// The setup phase succeeds.
    pub open spec fn setup_ok(self) -> bool {
        self.connect_ok && self.subscribe_ok
    }

    /// Everything a worker of `category` sends to the channel.
    pub open spec fn values(self, category: Category) -> Seq<u64> {
        if self.setup_ok() {
            forwarded(category, self.items)
        } else {
            Seq::empty()
        }
    }

    /// Everything written to the diagnostic stream on behalf of the worker.
    pub open spec fn log(self, category: Category) -> Seq<Diagnostic> {
        if self.setup_ok() {
            stream_log(category, self.items)
        } else {
            seq![Diagnostic::WorkerFailed(WorkerError::Connection)]
        }
    }

    /// How the worker ends.
    pub open spec fn exit(self) -> Result<(), WorkerError> {
        if self.setup_ok() {
            Ok(())
        } else {
            Err(WorkerError::Connection)
        }
    }
}

/// Reading one more message: what it adds in front of the rest.
pub proof fn lemma_forwarded_unfold(category: Category, items: Seq<StreamItem>, at: int)
    requires
        0 <= at < items.len(),
    ensures
        items[at] is Failure ==> forwarded(category, items.skip(at)) == Seq::<u64>::empty(),
        items[at] matches StreamItem::Update(update) ==> forwarded(category, items.skip(at)) == (
        match extracted(category, update) {
            Some(value) => seq![value] + forwarded(category, items.skip(at + 1)),
            None => forwarded(category, items.skip(at + 1)),
        }),
{
    let rest = items.skip(at);
    assert(rest.drop_first() =~= items.skip(at + 1));
}

/// Reading one more message: what it adds to the log in front of the rest.
pub proof fn lemma_stream_log_unfold(category: Category, items: Seq<StreamItem>, at: int)
    requires
        0 <= at < items.len(),
    ensures
        items[at] is Failure ==> stream_log(category, items.skip(at)) == seq![
            Diagnostic::StreamError,
        ],
        items[at] matches StreamItem::Update(update) ==> stream_log(category, items.skip(at)) == (
        match on_message(category, update).log {
            Some(line) => seq![line] + stream_log(category, items.skip(at + 1)),
            None => stream_log(category, items.skip(at + 1)),
        }),
{
    let rest = items.skip(at);
    assert(rest.drop_first() =~= items.skip(at + 1));
}

} // verus!
