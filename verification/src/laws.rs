//! The general laws of the lifecycle layer, stated over the spec-level
//! transitions that every executable method is proved to implement.

use vstd::prelude::*;
use crate::aligner::Aligner;
use crate::aligner::IndexHandle;
use crate::aligner::ReaderHandle;
use crate::aligner::spec_attach_reader;
use crate::aligner::spec_complete_read;
use crate::aligner::spec_derived;
use crate::aligner::spec_take_index;
use crate::aligner::spec_take_reader;
use crate::aligner::spec_with_threads;
use crate::aligner::wf;
use crate::error::Error;
use crate::options::IndexOptions;
use crate::preset::Preset;

verus! {

/// Deriving with a preset is deterministic and idempotent: two derivations
/// with the same preset, given the engine's reply to that preset's token,
/// yield identical configuration state — identical aligners, in fact. Each
/// derivation starts from the engine's fresh baseline, so no earlier
/// configuration can leak into the result.
pub proof fn lemma_derivation_idempotent(
    first: Aligner,
    second: Aligner,
    preset: Preset,
    derived: IndexOptions,
)
    requires
        first == spec_derived(Some(preset), derived),
        second == spec_derived(Some(preset), derived),
    ensures
        first.configuration == second.configuration,
        first == second,
{
}

/// Every derivation — baseline or preset-adjusted — yields a well-formed
/// aligner with a thread count of exactly one and no resources held.
pub proof fn lemma_derivation_single_threaded(preset: Option<Preset>, derived: IndexOptions)
    ensures
        spec_derived(preset, derived).threads == 1,
        spec_derived(preset, derived).index is None,
        spec_derived(preset, derived).reader is None,
        wf(spec_derived(preset, derived)),
{
}

/// An installed index stays installed until an explicit teardown: changing
/// the thread count, consuming an open outcome, and releasing the reader all
/// leave the held index exactly as it was.
pub proof fn lemma_index_persists_until_teardown(
    a: Aligner,
    n: usize,
    reader: Option<ReaderHandle>,
)
    requires
        n >= 1,
    ensures
        spec_with_threads(a, n).index == a.index,
        spec_attach_reader(a, reader).0.index == a.index,
        spec_take_reader(a).0.index == a.index,
{
}

/// A failed open changes nothing: when the engine returns no reader, the
/// open-failure error is surfaced, the aligner keeps its exact prior state,
/// and an aligner that held no index still holds none.
pub proof fn lemma_failed_open_leaves_state_unchanged(a: Aligner)
    ensures
        ({
            let (after, r) = spec_attach_reader(a, None);
            &&& after == a
            &&& r == Err::<(), Error>(Error::IndexReaderOpenFailed)
            &&& a.index is None ==> after.index is None
        }),
{
}

/// A successful open followed by a completed read installs the index: the
/// open succeeds, the read stores exactly the index the engine produced, the
/// spent reader is withdrawn for release, and the configuration and thread
/// count ride through unchanged.
pub proof fn lemma_successful_read_installs_index(a: Aligner, reader: ReaderHandle, index: IndexHandle)
    requires
        a.reader is None,
    ensures
        ({
            let (opened, r) = spec_attach_reader(a, Some(reader));
            let (done, spent_reader, prior_index) = spec_complete_read(opened, index);
            &&& r == Ok::<(), Error>(())
            &&& done.index == Some(index)
            &&& done.reader is None
            &&& spent_reader == Some(reader)
            &&& prior_index == a.index
            &&& done.configuration == a.configuration
            &&& done.threads == a.threads
        }),
{
}

/// Teardown surfaces the held index for destruction exactly once: the first
/// withdrawal yields the handle precisely when one is held — an aligner with
/// no index surfaces nothing — and every later withdrawal yields nothing.
pub proof fn lemma_teardown_destroys_once(a: Aligner)
    ensures
        ({
            let (mid, first) = spec_take_index(a);
            let (end, second) = spec_take_index(mid);
            &&& first == a.index
            &&& (first is Some <==> a.index is Some)
            &&& second is None
            &&& end.index is None
        }),
{
}

/// The thread count set by `with_threads` is what any later index-opening
/// request forwards: the request carries the aligner's thread count verbatim,
/// so after `with_threads(n)` the concurrency hint is exactly `n`.
pub proof fn lemma_thread_hint_forwarded(a: Aligner, n: usize, hint: usize)
    requires
        n >= 1,
        hint == spec_with_threads(a, n).threads,
    ensures
        hint == n,
{
}

/// Every transition preserves well-formedness: once the thread count is
/// positive, no step of the protocol can make it otherwise.
pub proof fn lemma_transitions_preserve_wf(
    a: Aligner,
    n: usize,
    reader: Option<ReaderHandle>,
    index: IndexHandle,
)
    requires
        wf(a),
        n >= 1,
    ensures
        wf(spec_with_threads(a, n)),
        wf(spec_attach_reader(a, reader).0),
        wf(spec_complete_read(a, index).0),
        wf(spec_take_index(a).0),
        wf(spec_take_reader(a).0),
{
}

} // verus!
