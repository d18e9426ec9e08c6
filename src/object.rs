use crate::inventory::{document_id, document_identifier, id_view, json_id_member, ObjectIdError};
use crate::marker::{declares, declares_root, marker_text, MarkerProbe, OcflVersion, RootKind};
use crate::utils::FileProbe;
use vstd::prelude::*;

verus! {

/// A snapshot of what matters about a directory for an object root: its object markers,
/// and whether a regular file `inventory.json` lies directly in it.
pub struct ObjectProbe {
    pub markers: MarkerProbe,
    pub inventory: bool,
}

/// An object root: the object marker rule holds, and the inventory file is present.
pub open spec fn object_root(p: ObjectProbe) -> bool {
    declares(RootKind::Object, p.markers) && p.inventory
}

/// Name of the inventory document inside an object root.
pub fn inventory_file_name() -> (r: String)
    ensures
        r@ == "inventory.json"@,
{
    String::from_str("inventory.json")
}

/// Whether the snapshot shows an object root; `false`, never an error, whenever the
/// marker rule fails or the inventory file is missing.
pub fn is_object_root(p: &ObjectProbe) -> (r: bool)
    ensures
        r == object_root(*p),
{
    if !declares_root(RootKind::Object, &p.markers) {
        return false;
    }
    p.inventory
}

/// An object root stops being one when its inventory file goes, and when the marker file
/// it has goes.
pub proof fn lemma_object_root_conditions(p: ObjectProbe, v: OcflVersion)
    requires
        object_root(p),
        p.markers.marker(v).present(),
    ensures
        !object_root(ObjectProbe { inventory: false, ..p }),
        !object_root(ObjectProbe { markers: p.markers.with_marker(v, FileProbe::Missing), ..p }),
{
    let m = p.markers;
    let u = choose|u: OcflVersion|
        {
            &&& #[trigger] m.marker(u).holds(marker_text(RootKind::Object, u))
            &&& forall|w: OcflVersion| w != u ==> !(#[trigger] m.marker(w)).present()
        };
    assert(u == v);
    let q = m.with_marker(v, FileProbe::Missing);
    assert forall|x: OcflVersion| !(#[trigger] q.marker(x).holds(marker_text(RootKind::Object, x))
        && forall|w: OcflVersion| w != x ==> !(#[trigger] q.marker(w)).present()) by {
        if x != v {
            assert(q.marker(x) == m.marker(x));
            assert(!m.marker(x).present());
        }
    }
}

/// The identifier of the object at a directory, given its snapshot and what reading its
/// inventory document found.
pub open spec fn object_identifier(p: ObjectProbe, inventory: FileProbe) -> Result<Seq<char>, ObjectIdError> {
    if !object_root(p) {
        Err(ObjectIdError::NotAnObjectRoot)
    } else {
        match inventory {
            FileProbe::Text(t) => document_identifier(t@),
            _ => Err(ObjectIdError::Io),
        }
    }
}

/// The identifier of the object at a directory: `NotAnObjectRoot` unless the snapshot
/// shows an object root, checked before anything else; `Io` where the inventory could
/// not be read; otherwise the identifier its text records.
pub fn get_object_id(p: &ObjectProbe, inventory: &FileProbe) -> (r: Result<String, ObjectIdError>)
    ensures
        id_view(r) == object_identifier(*p, *inventory),
{
    if !is_object_root(p) {
        return Err(ObjectIdError::NotAnObjectRoot);
    }
    match inventory {
        FileProbe::Text(t) => document_id(t.as_str()),
        _ => Err(ObjectIdError::Io),
    }
}

/// The identifier of an object root is the `"id"` string of its inventory, unchanged,
/// wherever that string is not empty; the lookup fails with `MissingIdentifier` where the
/// document has no such string or an empty one, and with `MalformedDocument` where the
/// text is not JSON.
pub proof fn lemma_object_id_outcomes(p: ObjectProbe, text: String, id: Seq<char>)
    requires
        object_root(p),
    ensures
        json_id_member(text@) == Some(Some(id)) && id.len() > 0
            ==> object_identifier(p, FileProbe::Text(text)) == Ok::<Seq<char>, ObjectIdError>(id),
        json_id_member(text@) == Some(Some(Seq::<char>::empty()))
            ==> object_identifier(p, FileProbe::Text(text)) == Err::<Seq<char>, ObjectIdError>(ObjectIdError::MissingIdentifier),
        json_id_member(text@) == Some(None::<Seq<char>>)
            ==> object_identifier(p, FileProbe::Text(text)) == Err::<Seq<char>, ObjectIdError>(ObjectIdError::MissingIdentifier),
        json_id_member(text@) is None
            ==> object_identifier(p, FileProbe::Text(text)) == Err::<Seq<char>, ObjectIdError>(ObjectIdError::MalformedDocument),
{
}

} // verus!
