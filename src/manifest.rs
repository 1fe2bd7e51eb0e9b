//! The schema lock file bundled with the application: a TOML document that
//! lists the schemas the node is expected to host. It is read from the
//! read-only resource area and never changed.

use vstd::prelude::*;

use crate::toml_doc::{parse_toml_table, table_fields, toml_parse_of, FieldModel};

verus! {

/// Why the manifest could not be loaded.
#[derive(Debug, Clone, Copy, PartialEq, Eq, Structural)]
pub enum ManifestError {
    /// The text is not a TOML document.
    Parse,
}

/// The loaded manifest. It offers no way to change it.
#[derive(Debug)]
pub struct Manifest {
    table: toml::Table,
}

impl View for Manifest {
    type V = Map<Seq<char>, FieldModel>;

    /// The top-level entries of the document.
    closed spec fn view(&self) -> Map<Seq<char>, FieldModel> {
        table_fields(self.table)
    }
}

impl Manifest {
    /// The parsed document.
    pub fn table(&self) -> (r: &toml::Table)
        ensures
            table_fields(*r) == self@,
    {
        &self.table
    }
}

/// What loading the schema lock file from `text` gives: the document's
/// entries where `toml` parses it, and `Parse` where it does not.
pub open spec fn schema_lock_loaded(text: Seq<char>, r: Result<Manifest, ManifestError>) -> bool {
    match r {
        Ok(m) => toml_parse_of(text) == Some(m@),
        Err(e) => toml_parse_of(text) is None && e == ManifestError::Parse,
    }
}

/// Parses the text of the schema lock file.
pub fn load_schema_lock(text: &str) -> (r: Result<Manifest, ManifestError>)
    ensures
        schema_lock_loaded(text@, r),
{
    match parse_toml_table(text) {
        Ok(table) => Ok(Manifest { table }),
        Err(_) => Err(ManifestError::Parse),
    }
}

/// Two loads of the same text agree: both succeed with manifests of the same
/// entries, or both fail with the same error.
pub proof fn lemma_manifest_load_stable(
    text: Seq<char>,
    a: Result<Manifest, ManifestError>,
    b: Result<Manifest, ManifestError>,
)
    requires
        schema_lock_loaded(text, a),
        schema_lock_loaded(text, b),
    ensures
        a is Ok <==> b is Ok,
        a is Ok ==> a->Ok_0@ == b->Ok_0@,
        a is Err ==> a == b,
{
}

} // verus!
