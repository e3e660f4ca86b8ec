//! The closed vocabulary of engine presets.

use vstd::prelude::*;

verus! {

/// A named bundle of configuration deltas understood by the engine, tuned for
/// a particular sequencing or alignment scenario. The set is closed: the
/// engine recognises exactly these names, so resolving a preset to its token
/// is total and has no error path.
#[derive(Clone, Copy, Debug, PartialEq, Eq, Structural)]
pub enum Preset {
    MapOnt,
    AvaOnt,
    Map10k,
    AvaPb,
    MapHifi,
    Asm,
    Short,
    Sr,
    Splice,
    Cdna,
}

/// The fixed, case-sensitive delta token that names a preset to the engine.
pub open spec fn token_view(p: Preset) -> Seq<char> {
    match p {
        Preset::MapOnt => "map-ont"@,
        Preset::AvaOnt => "ava-ont"@,
        Preset::Map10k => "map10k"@,
        Preset::AvaPb => "ava-pb"@,
        Preset::MapHifi => "map-hifi"@,
        Preset::Asm => "asm"@,
        Preset::Short => "short"@,
        Preset::Sr => "sr"@,
        Preset::Splice => "splice"@,
        Preset::Cdna => "cdna"@,
    }
}

impl Preset {
    /// The engine-readable delta token for this preset. The mapping is a pure
    /// function of the variant, so two resolutions of the same preset always
    /// hand the engine the same token.
    pub fn token(&self) -> (t: &'static str)
        ensures
            t@ == token_view(*self),
    {
        match self {
            Preset::MapOnt => "map-ont",
            Preset::AvaOnt => "ava-ont",
            Preset::Map10k => "map10k",
            Preset::AvaPb => "ava-pb",
            Preset::MapHifi => "map-hifi",
            Preset::Asm => "asm",
            Preset::Short => "short",
            Preset::Sr => "sr",
            Preset::Splice => "splice",
            Preset::Cdna => "cdna",
        }
    }
}

/// Every preset token is non-empty NUL-free ASCII, so the transport step that
/// NUL-terminates it for the engine cannot fail.
pub proof fn lemma_token_transportable(p: Preset)
    ensures
        token_view(p).len() > 0,
        forall|i: int| 0 <= i < token_view(p).len() ==> token_view(p)[i] != '\0',
{
    reveal_strlit("map-ont");
    reveal_strlit("ava-ont");
    reveal_strlit("map10k");
    reveal_strlit("ava-pb");
    reveal_strlit("map-hifi");
    reveal_strlit("asm");
    reveal_strlit("short");
    reveal_strlit("sr");
    reveal_strlit("splice");
    reveal_strlit("cdna");
}

} // verus!
