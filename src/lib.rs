//! Detection of OCFL storage roots and object roots, identifier lookup in an object's
//! inventory, selection of object roots out of a directory walk, and the JSON record
//! printed for each object root found.
//!
//! Every function here works on values: what the file system holds is looked at by the
//! caller and handed over as a snapshot (`MarkerProbe`, `ObjectProbe`, `FileProbe`).

pub mod inventory;
pub mod marker;
pub mod object;
pub mod record;
pub mod storage;
pub mod utils;
pub mod walk;

pub use inventory::{document_id, identifier_from_member, ObjectIdError};
pub use marker::{
    declares_root, marker_file_name, marker_file_text, MarkerProbe, OcflVersion, RootKind,
};
pub use object::{get_object_id, inventory_file_name, is_object_root, ObjectProbe};
pub use record::object_to_json;
pub use storage::is_storage_root;
pub use utils::{is_directory, FileProbe};
pub use walk::{enumerate_object_roots, Enumeration, WalkStep};
