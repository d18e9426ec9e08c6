use crate::marker::{
    declares, declares_root, lemma_two_markers_rule_out, marker_text, MarkerProbe, OcflVersion,
    RootKind,
};
use crate::utils::FileProbe;
use vstd::prelude::*;

verus! {

/// A storage root: a directory holding the storage marker file of exactly one version,
/// with the text that version requires.
pub open spec fn storage_root(p: MarkerProbe) -> bool {
    declares(RootKind::Storage, p)
}

/// Whether the snapshot shows a storage root; `false`, never an error, for a path that is
/// not a directory, has no marker, has markers of two versions, or a marker with the
/// wrong text or none that could be read.
pub fn is_storage_root(p: &MarkerProbe) -> (r: bool)
    ensures
        r == storage_root(*p),
{
    declares_root(RootKind::Storage, p)
}

/// Adding a second marker file, of another version and with any text, to a storage root
/// makes it no longer one.
pub proof fn lemma_second_storage_marker(p: MarkerProbe, v: OcflVersion, f: FileProbe)
    requires
        storage_root(p),
        !p.marker(v).present(),
        f.present(),
    ensures
        !storage_root(p.with_marker(v, f)),
{
    let u = choose|u: OcflVersion|
        {
            &&& #[trigger] p.marker(u).holds(marker_text(RootKind::Storage, u))
            &&& forall|w: OcflVersion| w != u ==> !(#[trigger] p.marker(w)).present()
        };
    let q = p.with_marker(v, f);
    assert(u != v);
    assert(q.marker(u) == p.marker(u));
    lemma_two_markers_rule_out(RootKind::Storage, q, u, v);
}

} // verus!
