//! The aligner builder and its resource lifecycle.
//!
//! An [`Aligner`] aggregates one derived configuration, a thread-count hint,
//! and at most one live index handle and one live reader handle. The engine
//! calls themselves (derive options, open a reader, read an index, destroy an
//! index) are performed by the embedding; each method here is one verified
//! step of that protocol, taking the engine's outcome as a plain value and
//! pinning down exactly how the aligner's state changes.

use vstd::prelude::*;
use crate::error::Error;
use crate::options::Configuration;
use crate::options::IndexOptions;
use crate::preset::Preset;

verus! {

/// An opaque token designating one fully materialised native index owned by
/// the engine. The embedding mints the token when the engine's read completes
/// and turns it back into the native handle only to destroy it. The type is
/// deliberately not copyable: a handle is owned by at most one aligner and is
/// surfaced at most once for destruction.
#[derive(Debug, PartialEq, Eq)]
pub struct IndexHandle {
    /// The embedding's name for the native resource.
    pub raw: usize,
}

/// An opaque token designating one open, not-yet-fully-read index source.
/// Created by a successful open, consumed by the read that yields an index,
/// and surfaced for release as soon as that read completes. Not copyable,
/// for the same reason as [`IndexHandle`].
#[derive(Debug, PartialEq, Eq)]
pub struct ReaderHandle {
    /// The embedding's name for the native resource.
    pub raw: usize,
}

/// Everything the embedding needs to hand the engine's open-reader operation:
/// the validated NUL-free path and secondary-output name, the index-build
/// options of the requesting aligner, and its thread count as the concurrency
/// hint for the read that follows.
#[derive(Debug, PartialEq, Eq)]
pub struct OpenRequest {
    /// The index source path, as NUL-free bytes.
    pub path: Vec<u8>,
    /// The secondary-output name, as NUL-free bytes; empty means "do not
    /// persist a secondary index file".
    pub output: Vec<u8>,
    /// The requesting aligner's index-build options, unchanged.
    pub index_options: IndexOptions,
    /// The requesting aligner's thread count, forwarded verbatim as the
    /// engine's concurrency hint.
    pub threads: usize,
}

/// Everything a future in-memory index build needs from the aligner: the
/// validated NUL-free sequence buffer and the four index-build parameters the
/// engine's string-build operation consumes. The build itself is unimplemented
/// engine-side; this is the stub contract for it.
#[derive(Debug, PartialEq, Eq)]
pub struct SeqIndexRequest {
    /// The reference sequence, as NUL-free bytes.
    pub seq: Vec<u8>,
    /// k-mer (seed) length.
    pub k: i16,
    /// Minimizer window size.
    pub w: i16,
    /// Index-construction flag bits.
    pub flag: i16,
    /// Width of the internal hash buckets.
    pub bucket_bits: i16,
}

/// The aggregate root: one derived configuration, a positive thread count,
/// and exclusive ownership of at most one live index and one live reader.
#[derive(Debug)]
pub struct Aligner {
    /// The configuration state this aligner was derived with.
    pub configuration: Configuration,
    /// Concurrency hint forwarded to the engine's index read; always >= 1.
    pub threads: usize,
    /// The held index, present exactly when a read has completed since the
    /// last teardown.
    pub index: Option<IndexHandle>,
    /// The held reader, present only between a successful open and the
    /// completion of the read it feeds.
    pub reader: Option<ReaderHandle>,
}

/// A byte string the engine's C transport can carry: no interior NUL.
pub open spec fn nul_free(bytes: Seq<u8>) -> bool {
    forall|i: int| 0 <= i < bytes.len() ==> bytes[i] != 0
}

/// The bytes actually handed to the engine as the secondary-output name: the
/// caller's name when one was supplied, else the empty string.
pub open spec fn output_bytes(output: Option<Vec<u8>>) -> Seq<u8> {
    match output {
        Some(o) => o@,
        None => Seq::<u8>::empty(),
    }
}

/// Whether a supplied secondary-output name is representable; an absent name
/// always is, since the empty string is trivially NUL-free.
pub open spec fn output_acceptable(output: Option<Vec<u8>>) -> bool {
    match output {
        Some(o) => nul_free(o@),
        None => true,
    }
}

/// Basic well-formedness of an aligner: the thread count is positive.
pub open spec fn wf(a: Aligner) -> bool {
    a.threads >= 1
}

/// The state a derivation yields: the engine's reply as the configuration,
/// one thread, and no resources. A function of the preset and the reply
/// alone — never of any earlier configuration, so re-deriving cannot
/// accumulate stale fields.
pub open spec fn spec_derived(preset: Option<Preset>, derived: IndexOptions) -> Aligner {
    Aligner {
        configuration: Configuration { index_options: derived, preset },
        threads: 1,
        index: None,
        reader: None,
    }
}

/// The state after replacing the thread count.
pub open spec fn spec_with_threads(a: Aligner, threads: usize) -> Aligner {
    Aligner { threads, ..a }
}

/// The step that consumes the engine's open-reader outcome: an absent reader
/// is the open failure and leaves the state untouched; a present reader is
/// stored, pending the read.
pub open spec fn spec_attach_reader(a: Aligner, reader: Option<ReaderHandle>) -> (Aligner, Result<
    (),
    Error,
>) {
    match reader {
        None => (a, Err(Error::IndexReaderOpenFailed)),
        Some(h) => ((Aligner { reader: Some(h), ..a }), Ok(())),
    }
}

/// The step that consumes the engine's completed read: the new index is
/// installed, the spent reader is withdrawn for release, and any index held
/// before is withdrawn for destruction rather than silently overwritten.
pub open spec fn spec_complete_read(a: Aligner, index: IndexHandle) -> (Aligner, Option<
    ReaderHandle,
>, Option<IndexHandle>) {
    ((Aligner { reader: None, index: Some(index), ..a }), a.reader, a.index)
}

/// The teardown step for the index: whatever is held is withdrawn, exactly
/// once, and the aligner is left holding nothing.
pub open spec fn spec_take_index(a: Aligner) -> (Aligner, Option<IndexHandle>) {
    ((Aligner { index: None, ..a }), a.index)
}

/// The teardown step for the reader, symmetric to [`spec_take_index`].
pub open spec fn spec_take_reader(a: Aligner) -> (Aligner, Option<ReaderHandle>) {
    ((Aligner { reader: None, ..a }), a.reader)
}

/// Whether `bytes` is free of interior NUL, decided by one scan.
pub fn is_nul_free(bytes: &Vec<u8>) -> (r: bool)
    ensures
        r == nul_free(bytes@),
{
    let mut i: usize = 0;
    while i < bytes.len()
        invariant
            i <= bytes@.len(),
            forall|j: int| 0 <= j < i ==> bytes@[j] != 0,
        decreases bytes@.len() - i,
    {
        if *bytes.get(i).unwrap() == 0 {
            return false;
        }
        i = i + 1;
    }
    true
}

impl Aligner {
    /// A fresh aligner over the engine's canonical baseline configuration:
    /// `derived` is the engine's reply to a derivation with no preset
    /// applied. One thread, no index, no reader.
    pub fn from_defaults(derived: IndexOptions) -> (a: Aligner)
        ensures
            a == spec_derived(None, derived),
            wf(a),
    {
        Aligner {
            configuration: Configuration { index_options: derived, preset: None },
            threads: 1,
            index: None,
            reader: None,
        }
    }

    /// A fresh aligner over a preset-adjusted configuration: `derived` is the
    /// engine's reply to a fresh baseline derivation with `preset`'s delta
    /// token applied on top. The state is built from that reply alone, never
    /// from a previously mutated record.
    pub fn with_preset(preset: Preset, derived: IndexOptions) -> (a: Aligner)
        ensures
            a == spec_derived(Some(preset), derived),
            wf(a),
    {
        Aligner {
            configuration: Configuration { index_options: derived, preset: Some(preset) },
            threads: 1,
            index: None,
            reader: None,
        }
    }

    /// Replaces the thread count. The count is purely a hint forwarded to the
    /// engine's parallel index read; this layer spawns no threads itself. A
    /// zero count is a caller contract violation and is ruled out here.
    pub fn with_threads(self, threads: usize) -> (a: Aligner)
        requires
            threads >= 1,
        ensures
            a == spec_with_threads(self, threads),
            wf(a),
    {
        Aligner { threads, ..self }
    }

    /// True exactly when an index is held. Pure query, no side effect.
    pub fn has_index(&self) -> (r: bool)
        ensures
            r == self.index.is_some(),
    {
        self.index.is_some()
    }

    /// Begins opening a file-backed index: validates that the path and the
    /// optional secondary-output name are NUL-free, and on success returns
    /// the request the embedding hands to the engine's open-reader operation,
    /// carrying this aligner's index-build options and exactly its thread
    /// count as the concurrency hint. An absent output name is encoded as the
    /// empty string, meaning "do not persist a secondary index file". On
    /// failure the error says which input was rejected and the aligner is
    /// untouched.
    pub fn with_named_index(&self, path: Vec<u8>, output: Option<Vec<u8>>) -> (r: Result<
        OpenRequest,
        Error,
    >)
        ensures
            match r {
                Ok(req) => {
                    &&& nul_free(path@)
                    &&& output_acceptable(output)
                    &&& req.path@ == path@
                    &&& req.output@ == output_bytes(output)
                    &&& req.index_options == self.configuration.index_options
                    &&& req.threads == self.threads
                },
                Err(e) => {
                    &&& !(nul_free(path@) && output_acceptable(output))
                    &&& (e == Error::InvalidPath <==> !nul_free(path@))
                    &&& (e == Error::InvalidOutputName <==> nul_free(path@) && !output_acceptable(
                        output,
                    ))
                },
            },
    {
        if !is_nul_free(&path) {
            return Err(Error::InvalidPath);
        }
        let out: Vec<u8> = match output {
            Some(o) => {
                if !is_nul_free(&o) {
                    return Err(Error::InvalidOutputName);
                }
                o
            },
            None => Vec::new(),
        };
        Ok(
            OpenRequest {
                path,
                output: out,
                index_options: self.configuration.index_options,
                threads: self.threads,
            },
        )
    }

    /// Begins opening a file-backed index with no secondary output: the same
    /// validation and request as [`Aligner::with_named_index`] with the
    /// output name absent.
    pub fn with_index(&self, path: Vec<u8>) -> (r: Result<OpenRequest, Error>)
        ensures
            match r {
                Ok(req) => {
                    &&& nul_free(path@)
                    &&& req.path@ == path@
                    &&& req.output@ == Seq::<u8>::empty()
                    &&& req.index_options == self.configuration.index_options
                    &&& req.threads == self.threads
                },
                Err(e) => {
                    &&& e == Error::InvalidPath
                    &&& !nul_free(path@)
                },
            },
    {
        self.with_named_index(path, None)
    }

    /// Consumes the outcome of the engine's open-reader call. `None` means
    /// the engine returned no reader: the open failed, the error is surfaced,
    /// and the aligner is left exactly as it was — in particular no index
    /// becomes present. `Some` stores the reader, pending the read that
    /// consumes it.
    pub fn attach_reader(&mut self, reader: Option<ReaderHandle>) -> (r: Result<(), Error>)
        requires
            old(self).reader is None,
        ensures
            ((*final(self)), r) == spec_attach_reader(*old(self), reader),
    {
        match reader {
            None => Err(Error::IndexReaderOpenFailed),
            Some(h) => {
                self.reader = Some(h);
                Ok(())
            },
        }
    }

    /// Consumes the engine's completed read: installs the resulting index —
    /// `has_index` becomes and stays true until teardown — and returns the
    /// spent reader for release together with any index that was held before,
    /// which must be destroyed rather than silently overwritten.
    pub fn complete_read(&mut self, index: IndexHandle) -> (r: (
        Option<ReaderHandle>,
        Option<IndexHandle>,
    ))
        requires
            old(self).reader is Some,
        ensures
            ((*final(self)), r.0, r.1) == spec_complete_read(*old(self), index),
    {
        let spent_reader = self.reader.take();
        let prior_index = self.index.take();
        self.index = Some(index);
        (spent_reader, prior_index)
    }

    /// Withdraws the held index, if any, for destruction. Afterwards no index
    /// is held, so a second withdrawal yields nothing: the embedding's
    /// teardown destroys each handle exactly once.
    pub fn take_index(&mut self) -> (r: Option<IndexHandle>)
        ensures
            ((*final(self)), r) == spec_take_index(*old(self)),
    {
        self.index.take()
    }

    /// Withdraws the held reader, if any, for release, symmetric to
    /// [`Aligner::take_index`].
    pub fn take_reader(&mut self) -> (r: Option<ReaderHandle>)
        ensures
            ((*final(self)), r) == spec_take_reader(*old(self)),
    {
        self.reader.take()
    }

    /// The stub contract for building an index from an in-memory sequence:
    /// validates that the buffer is NUL-free and returns the request a future
    /// engine-side build would consume, carrying the four index-build
    /// parameters of this aligner. The build operation itself is
    /// unimplemented engine-side, so no step here ever installs an index.
    pub fn with_seq(&self, seq: Vec<u8>) -> (r: Result<SeqIndexRequest, Error>)
        ensures
            match r {
                Ok(req) => {
                    &&& nul_free(seq@)
                    &&& req.seq@ == seq@
                    &&& req.k == self.configuration.index_options.k
                    &&& req.w == self.configuration.index_options.w
                    &&& req.flag == self.configuration.index_options.flag
                    &&& req.bucket_bits == self.configuration.index_options.bucket_bits
                },
                Err(e) => {
                    &&& e == Error::InvalidSequence
                    &&& !nul_free(seq@)
                },
            },
    {
        if !is_nul_free(&seq) {
            return Err(Error::InvalidSequence);
        }
        Ok(
            SeqIndexRequest {
                seq,
                k: self.configuration.index_options.k,
                w: self.configuration.index_options.w,
                flag: self.configuration.index_options.flag,
                bucket_bits: self.configuration.index_options.bucket_bits,
            },
        )
    }
}

} // verus!
