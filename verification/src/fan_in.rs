//! What it means for one sequence to be the merge of several sources.
//!
//! The channel merges the values of all workers in the order of arrival.
//! Nothing is promised about how the sources interleave; what is promised is
//! that every source arrives complete and in its own order.

use crate::worker::Diagnostic;
use vstd::prelude::*;

verus! {

/// The values of `values` that came from `source`, in order, where
/// `tags[k]` is the position of the source of `values[k]`.
pub open spec fn project(values: Seq<u64>, tags: Seq<usize>, source: nat) -> Seq<u64>
    decreases values.len(),
{
    if values.len() == 0 || tags.len() != values.len() {
        Seq::empty()
    } else {
        let earlier = project(values.drop_last(), tags.drop_last(), source);
        if tags.last() == source {
            earlier.push(values.last())
        } else {
            earlier
        }
    }
}

/// `merged`, tagged by `tags`, holds each of `sources` complete and in
/// order, and nothing else.
pub open spec fn is_fan_in_by(merged: Seq<u64>, tags: Seq<usize>, sources: Seq<Seq<u64>>) -> bool {
    &&& tags.len() == merged.len()
    &&& forall|k: int| 0 <= k < tags.len() ==> #[trigger] tags[k] < sources.len()
    &&& forall|i: nat|
        i < sources.len() ==> #[trigger] project(merged, tags, i) == sources[i as int]
}

/// The number of values in all sources together.
pub open spec fn total_len(sources: Seq<Seq<u64>>) -> nat
    decreases sources.len(),
{
    if sources.len() == 0 {
        0
    } else {
        total_len(sources.drop_last()) + sources.last().len()
    }
}

/// One line of the diagnostic stream, with the position of the worker it
/// belongs to in the configured list.
#[derive(Clone, Copy, Debug, PartialEq, Eq)]
pub struct LogLine {
    pub worker: usize,
    pub diagnostic: Diagnostic,
}

/// The diagnostics of `lines` that belong to `worker`, in order.
pub open spec fn log_of(lines: Seq<LogLine>, worker: nat) -> Seq<Diagnostic>
    decreases lines.len(),
{
    if lines.len() == 0 {
        Seq::empty()
    } else {
        let earlier = log_of(lines.drop_last(), worker);
        if lines.last().worker == worker {
            earlier.push(lines.last().diagnostic)
        } else {
            earlier
        }
    }
}

/// A value that arrives extends the part of its own source and of no other.
pub proof fn lemma_project_push(values: Seq<u64>, tags: Seq<usize>, value: u64, tag: usize, source: nat)
    requires
        tags.len() == values.len(),
    ensures
        project(values.push(value), tags.push(tag), source) == if tag == source {
            project(values, tags, source).push(value)
        } else {
            project(values, tags, source)
        },
{
    assert(values.push(value).drop_last() =~= values);
    assert(tags.push(tag).drop_last() =~= tags);
}

/// A line that is written extends the log of its own worker and of no other.
pub proof fn lemma_log_of_push(lines: Seq<LogLine>, line: LogLine, worker: nat)
    ensures
        log_of(lines.push(line), worker) == if line.worker == worker {
            log_of(lines, worker).push(line.diagnostic)
        } else {
            log_of(lines, worker)
        },
{
    assert(lines.push(line).drop_last() =~= lines);
}

proof fn lemma_total_len_update(sources: Seq<Seq<u64>>, at: int, source: Seq<u64>)
    requires
        0 <= at < sources.len(),
    ensures
        total_len(sources.update(at, source)) + sources[at].len() == total_len(sources)
            + source.len(),
    decreases sources.len(),
{
    let changed = sources.update(at, source);
    if at == sources.len() - 1 {
        assert(changed.drop_last() =~= sources.drop_last());
    } else {
        assert(changed.drop_last() =~= sources.drop_last().update(at, source));
        lemma_total_len_update(sources.drop_last(), at, source);
    }
}

proof fn lemma_total_len_of_empty_sources(sources: Seq<Seq<u64>>)
    requires
        forall|i: int| 0 <= i < sources.len() ==> (#[trigger] sources[i]).len() == 0,
    ensures
        total_len(sources) == 0,
    decreases sources.len(),
{
    if sources.len() > 0 {
        lemma_total_len_of_empty_sources(sources.drop_last());
    }
}

/// A merge holds as many values as its sources hold together: none is lost
/// and none is made up. Without sources it is empty.
pub proof fn lemma_fan_in_len(merged: Seq<u64>, tags: Seq<usize>, sources: Seq<Seq<u64>>)
    requires
        is_fan_in_by(merged, tags, sources),
    ensures
        merged.len() == total_len(sources),
        sources.len() == 0 ==> merged.len() == 0,
    decreases merged.len(),
{
    if merged.len() == 0 {
        assert forall|i: int| 0 <= i < sources.len() implies (#[trigger] sources[i]).len()
            == 0 by {
            assert(project(merged, tags, i as nat) == sources[i]);
        }
        lemma_total_len_of_empty_sources(sources);
    } else {
        let from = tags.last() as nat;
        let earlier = merged.drop_last();
        let earlier_tags = tags.drop_last();
        assert(project(merged, tags, from) == sources[from as int]);
        let shorter = sources.update(from as int, sources[from as int].drop_last());
        assert forall|i: nat| i < shorter.len() implies #[trigger] project(
            earlier,
            earlier_tags,
            i,
        ) == shorter[i as int] by {
            assert(project(merged, tags, i) == sources[i as int]);
        }
        lemma_fan_in_len(earlier, earlier_tags, shorter);
        lemma_total_len_update(sources, from as int, sources[from as int].drop_last());
    }
}

proof fn lemma_project_single_tag(values: Seq<u64>, tags: Seq<usize>, source: nat)
    requires
        tags.len() == values.len(),
        forall|k: int| 0 <= k < tags.len() ==> #[trigger] tags[k] == source,
    ensures
        project(values, tags, source) == values,
    decreases values.len(),
{
    if values.len() > 0 {
        lemma_project_single_tag(values.drop_last(), tags.drop_last(), source);
    }
}

/// With a single source the merge is that source, value for value.
pub proof fn lemma_fan_in_of_one(merged: Seq<u64>, tags: Seq<usize>, sources: Seq<Seq<u64>>)
    requires
        sources.len() == 1,
        is_fan_in_by(merged, tags, sources),
    ensures
        merged == sources[0],
{
    lemma_project_single_tag(merged, tags, 0);
}

/// What arrives from one source does not depend on the others: two merges
/// that agree on a source hold the same values from it, in the same order,
/// whatever the other sources are and however they end.
pub proof fn lemma_sources_are_isolated(
    merged_a: Seq<u64>,
    tags_a: Seq<usize>,
    sources_a: Seq<Seq<u64>>,
    merged_b: Seq<u64>,
    tags_b: Seq<usize>,
    sources_b: Seq<Seq<u64>>,
    source: nat,
)
    requires
        is_fan_in_by(merged_a, tags_a, sources_a),
        is_fan_in_by(merged_b, tags_b, sources_b),
        source < sources_a.len(),
        source < sources_b.len(),
        sources_a[source as int] == sources_b[source as int],
    ensures
        project(merged_a, tags_a, source) == project(merged_b, tags_b, source),
        project(merged_a, tags_a, source) == sources_a[source as int],
{
}

} // verus!
