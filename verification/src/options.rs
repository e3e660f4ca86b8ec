//! Plain-value models of the configuration records the engine derives.

use vstd::prelude::*;
use crate::preset::Preset;

verus! {

/// The engine's index-build option record, field for field: seed length,
/// sampling window, flag bits, hashing width, and batch sizing. The engine
/// alone gives these values meaning; this layer only carries them, unchanged,
/// from the derivation that produced them to the open-reader call that
/// consumes them.
#[derive(Clone, Copy, Debug, PartialEq, Eq, Structural)]
pub struct IndexOptions {
    /// k-mer (seed) length.
    pub k: i16,
    /// Minimizer window size.
    pub w: i16,
    /// Index-construction flag bits.
    pub flag: i16,
    /// Width of the internal hash buckets.
    pub bucket_bits: i16,
    /// Size of one indexing mini-batch, in bases.
    pub mini_batch_size: i64,
    /// Total batch size, in bases.
    pub batch_size: u64,
}

/// One derived configuration state. It is produced only by the engine's
/// "derive defaults, optionally plus one preset" operation, never
/// hand-constructed, and applying a preset is not cumulative: every
/// derivation starts from the engine's fresh baseline.
///
/// The companion mapping-option record (scoring, chaining and filtering
/// parameters) is engine-internal floating-point data that nothing in this
/// layer reads; the embedding keeps that record alongside, keyed by the same
/// derivation that `preset` names here.
#[derive(Clone, Copy, Debug, PartialEq, Eq, Structural)]
pub struct Configuration {
    /// The index-build options the derivation returned.
    pub index_options: IndexOptions,
    /// Which preset's delta the derivation applied, if any. `None` is the
    /// engine's canonical baseline.
    pub preset: Option<Preset>,
}

} // verus!
