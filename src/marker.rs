use crate::utils::FileProbe;
use vstd::prelude::*;

verus! {

/// A version of the OCFL specification that a marker file can declare.
#[derive(PartialEq, Eq, Structural, Clone, Copy, Debug)]
pub enum OcflVersion {
    V1_0,
    V1_1,
}

/// The two kinds of root that a marker file declares.
#[derive(PartialEq, Eq, Structural, Clone, Copy, Debug)]
pub enum RootKind {
    Storage,
    Object,
}

/// Name of the marker file that declares a root of `kind` under `version`.
pub open spec fn marker_file(kind: RootKind, version: OcflVersion) -> Seq<char> {
    match (kind, version) {
        (RootKind::Storage, OcflVersion::V1_0) => "0=ocfl_1.0"@,
        (RootKind::Storage, OcflVersion::V1_1) => "0=ocfl_1.1"@,
        (RootKind::Object, OcflVersion::V1_0) => "0=ocfl_object_1.0"@,
        (RootKind::Object, OcflVersion::V1_1) => "0=ocfl_object_1.1"@,
    }
}

/// The exact text a marker file must hold: for a storage root its own name and a
/// newline, for an object root the object tag of its version and a newline.
pub open spec fn marker_text(kind: RootKind, version: OcflVersion) -> Seq<char> {
    match (kind, version) {
        (RootKind::Storage, OcflVersion::V1_0) => "0=ocfl_1.0\n"@,
        (RootKind::Storage, OcflVersion::V1_1) => "0=ocfl_1.1\n"@,
        (RootKind::Object, OcflVersion::V1_0) => "ocfl_object_1.0\n"@,
        (RootKind::Object, OcflVersion::V1_1) => "ocfl_object_1.1\n"@,
    }
}

/// Name of the marker file that declares a root of `kind` under `version`.
pub fn marker_file_name(kind: RootKind, version: OcflVersion) -> (r: String)
    ensures
        r@ == marker_file(kind, version),
{
    match (kind, version) {
        (RootKind::Storage, OcflVersion::V1_0) => String::from_str("0=ocfl_1.0"),
        (RootKind::Storage, OcflVersion::V1_1) => String::from_str("0=ocfl_1.1"),
        (RootKind::Object, OcflVersion::V1_0) => String::from_str("0=ocfl_object_1.0"),
        (RootKind::Object, OcflVersion::V1_1) => String::from_str("0=ocfl_object_1.1"),
    }
}

/// The exact text that the marker file of `kind` and `version` must hold.
pub fn marker_file_text(kind: RootKind, version: OcflVersion) -> (r: String)
    ensures
        r@ == marker_text(kind, version),
{
    match (kind, version) {
        (RootKind::Storage, OcflVersion::V1_0) => String::from_str("0=ocfl_1.0\n"),
        (RootKind::Storage, OcflVersion::V1_1) => String::from_str("0=ocfl_1.1\n"),
        (RootKind::Object, OcflVersion::V1_0) => String::from_str("ocfl_object_1.0\n"),
        (RootKind::Object, OcflVersion::V1_1) => String::from_str("ocfl_object_1.1\n"),
    }
}

/// A snapshot of what matters about a directory for one kind of root: whether the path
/// is a directory, and what a look at each version's marker file name inside it found.
pub struct MarkerProbe {
    pub is_dir: bool,
    pub v1_0: FileProbe,
    pub v1_1: FileProbe,
}

impl MarkerProbe {
    /// The probe of the marker file of `version`.
    pub open spec fn marker(&self, version: OcflVersion) -> FileProbe {
        match version {
            OcflVersion::V1_0 => self.v1_0,
            OcflVersion::V1_1 => self.v1_1,
        }
    }

    /// The same snapshot with the marker file of `version` found as `f`.
    pub open spec fn with_marker(self, version: OcflVersion, f: FileProbe) -> MarkerProbe {
        match version {
            OcflVersion::V1_0 => MarkerProbe { v1_0: f, ..self },
            OcflVersion::V1_1 => MarkerProbe { v1_1: f, ..self },
        }
    }

    /// The probe of the marker file of `version`.
    pub fn marker_probe(&self, version: OcflVersion) -> (r: &FileProbe)
        ensures
            *r == self.marker(version),
    {
        match version {
            OcflVersion::V1_0 => &self.v1_0,
            OcflVersion::V1_1 => &self.v1_1,
        }
    }
}

/// The marker rule: the path is a directory, the marker file of exactly one version is
/// present in it, and that file holds the text required of it.
pub open spec fn declares(kind: RootKind, p: MarkerProbe) -> bool {
    &&& p.is_dir
    &&& exists|v: OcflVersion|
        {
            &&& #[trigger] p.marker(v).holds(marker_text(kind, v))
            &&& forall|w: OcflVersion| w != v ==> !(#[trigger] p.marker(w)).present()
        }
}

/// Decides the marker rule on a snapshot.
pub fn declares_root(kind: RootKind, p: &MarkerProbe) -> (r: bool)
    ensures
        r == declares(kind, *p),
{
    if !p.is_dir {
        return false;
    }
    let has_10 = p.v1_0.is_present();
    let has_11 = p.v1_1.is_present();
    if has_10 == has_11 {
        assert forall|v: OcflVersion| !(#[trigger] p.marker(v).holds(marker_text(kind, v))
            && forall|w: OcflVersion| w != v ==> !(#[trigger] p.marker(w)).present()) by {
            if has_10 {
                let other = if v == OcflVersion::V1_0 { OcflVersion::V1_1 } else { OcflVersion::V1_0 };
                assert(other != v && p.marker(other).present());
            }
        }
        return false;
    }
    let version = if has_10 { OcflVersion::V1_0 } else { OcflVersion::V1_1 };
    let r = p.marker_probe(version).has_text(&marker_file_text(kind, version));
    if r {
        assert(forall|w: OcflVersion| w != version ==> !(#[trigger] p.marker(w)).present());
    } else {
        assert forall|v: OcflVersion| !(#[trigger] p.marker(v).holds(marker_text(kind, v))
            && forall|w: OcflVersion| w != v ==> !(#[trigger] p.marker(w)).present()) by {
            if v != version {
                assert(p.marker(version).present());
            }
        }
    }
    r
}

/// Two marker files present in one directory rule it out as a root of that kind,
/// whatever they hold.
pub proof fn lemma_two_markers_rule_out(kind: RootKind, p: MarkerProbe, v: OcflVersion, w: OcflVersion)
    requires
        v != w,
        p.marker(v).present(),
        p.marker(w).present(),
    ensures
        !declares(kind, p),
{
    assert forall|u: OcflVersion| !(#[trigger] p.marker(u).holds(marker_text(kind, u))
        && forall|x: OcflVersion| x != u ==> !(#[trigger] p.marker(x)).present()) by {
        if u == v {
            assert(p.marker(w).present());
        } else {
            assert(p.marker(v).present());
        }
    }
}

} // verus!
