//! The JSON Schema collaborator, seen from the core as data: which schema
//! files compile, and what compiling one at a path yields.
//!
//! Compiling a schema means reading a file and running an external schema
//! compiler over it; neither happens inside this crate.  A `SchemaSource`
//! carries the outcome the collaborator reported for each resolved path, and
//! the resolver consults it instead of the filesystem.  A path the source
//! does not know is a file that is not there.

use vstd::prelude::*;
use vstd::string::StrSliceExecFns;
use vstd::string::StringExecFns;

use crate::de::{find, res_dv};
use crate::error::{Error, ErrorV};

verus! {

/// Ghost mirror of `JsonSchema`.
#[verifier::ext_equal]
pub struct JsonSchemaV {
    pub path: Seq<char>,
}

/// A compiled JSON Schema, carried as the resolved path it was compiled
/// from; its compiled form lives with the external schema collaborator.
#[derive(Debug)]
pub struct JsonSchema {
    pub path: String,
}

impl DeepView for JsonSchema {
    type V = JsonSchemaV;

    open spec fn deep_view(&self) -> JsonSchemaV {
        JsonSchemaV { path: self.path@ }
    }
}

/// Ghost mirror of `SchemaOutcome`.
#[verifier::ext_equal]
pub enum SchemaOutcomeV {
    Compiled,
    Failed(Seq<char>),
}

/// What the schema collaborator reported for one file: it compiled, or it
/// failed with a cause.
#[derive(Debug)]
pub enum SchemaOutcome {
    Compiled,
    Failed(String),
}

impl DeepView for SchemaOutcome {
    type V = SchemaOutcomeV;

    open spec fn deep_view(&self) -> SchemaOutcomeV {
        match self {
            SchemaOutcome::Compiled => SchemaOutcomeV::Compiled,
            SchemaOutcome::Failed(cause) => SchemaOutcomeV::Failed(cause@),
        }
    }
}

/// The collaborator's report: for each resolved path, whether the schema
/// file there compiled.
#[derive(Debug)]
pub struct SchemaSource {
    pub entries: Vec<(String, SchemaOutcome)>,
}

impl DeepView for SchemaSource {
    type V = Seq<(Seq<char>, SchemaOutcomeV)>;

    open spec fn deep_view(&self) -> Seq<(Seq<char>, SchemaOutcomeV)> {
        self.entries.deep_view()
    }
}

impl SchemaSource {
    /// A report that knows no file.
    pub fn new() -> (r: SchemaSource)
        ensures
            r.deep_view() == Seq::<(Seq<char>, SchemaOutcomeV)>::empty(),
    {
        let entries: Vec<(String, SchemaOutcome)> = Vec::new();
        proof {
            assert(SchemaSource { entries }.deep_view() =~= Seq::<(
                Seq<char>,
                SchemaOutcomeV,
            )>::empty());
        }
        SchemaSource { entries }
    }

    /// Record that the schema at `path` compiled.
    pub fn add_compiled(&mut self, path: String)
        ensures
            final(self).deep_view() == old(self).deep_view().push((path@, SchemaOutcomeV::Compiled)),
    {
        let ghost before = self.deep_view();
        let ghost pv = path@;
        self.entries.push((path, SchemaOutcome::Compiled));
        proof {
            assert(self.deep_view() =~= before.push((pv, SchemaOutcomeV::Compiled)));
        }
    }

    /// Record that the schema at `path` failed with `cause`.
    pub fn add_failed(&mut self, path: String, cause: String)
        ensures
            final(self).deep_view() == old(self).deep_view().push(
                (path@, SchemaOutcomeV::Failed(cause@)),
            ),
    {
        let ghost before = self.deep_view();
        let ghost pv = path@;
        let ghost cv = cause@;
        self.entries.push((path, SchemaOutcome::Failed(cause)));
        proof {
            assert(self.deep_view() =~= before.push((pv, SchemaOutcomeV::Failed(cv))));
        }
    }
}

/// A relative path resolved against the directory of the configuration
/// file; an absolute path stands as it is.
pub open spec fn spec_join_path(base: Seq<char>, rel: Seq<char>) -> Seq<char> {
    if rel.len() > 0 && rel[0] == '/' {
        rel
    } else if base.len() == 0 {
        rel
    } else {
        base + "/"@ + rel
    }
}

/// Resolve a path from the document against the base directory.
pub fn join_path(base: &str, rel: &str) -> (r: String)
    ensures
        r@ == spec_join_path(base@, rel@),
{
    if rel.unicode_len() > 0 && rel.get_char(0) == '/' {
        rel.to_owned()
    } else if base.unicode_len() == 0 {
        rel.to_owned()
    } else {
        let mut s = base.to_owned();
        s.append("/");
        s.append(rel);
        s
    }
}

/// The message reported when the schema at `path` cannot be compiled.
pub open spec fn schema_fail_msg(path: Seq<char>, cause: Seq<char>) -> Seq<char> {
    "Failed to read JSON Schema `"@ + path + "`: "@ + cause
}

/// What compiling the schema at `rel` (resolved against `base`) yields: the
/// compiled schema if the collaborator compiled that file, its reported
/// failure otherwise, and a missing-file failure for a path it never saw.
pub open spec fn spec_compile_schema(
    src: Seq<(Seq<char>, SchemaOutcomeV)>,
    base: Seq<char>,
    rel: Seq<char>,
) -> Result<JsonSchemaV, ErrorV> {
    let p = spec_join_path(base, rel);
    match find(src, p) {
        Some(SchemaOutcomeV::Compiled) => Ok(JsonSchemaV { path: p }),
        Some(SchemaOutcomeV::Failed(cause)) => Err(ErrorV::JsonSchema {
            message: schema_fail_msg(p, cause),
        }),
        None => Err(ErrorV::JsonSchema {
            message: schema_fail_msg(p, "No such file or directory (os error 2)"@),
        }),
    }
}

/// Compile the schema referenced at `rel`, resolved against `base`, using
/// what the collaborator reported.
pub fn compile_schema(src: &SchemaSource, base: &str, rel: &str) -> (r: Result<JsonSchema, Error>)
    ensures
        res_dv(r) == spec_compile_schema(src.deep_view(), base@, rel@),
{
    let p = join_path(base, rel);
    let cause: &str = match crate::de::assoc_find(&src.entries, p.as_str()) {
        Some(SchemaOutcome::Compiled) => {
            return Ok(JsonSchema { path: p });
        },
        Some(SchemaOutcome::Failed(cause)) => cause.as_str(),
        None => "No such file or directory (os error 2)",
    };
    let mut message = "Failed to read JSON Schema `".to_owned();
    message.append(p.as_str());
    message.append("`: ");
    message.append(cause);
    Err(Error::JsonSchema { message })
}

} // verus!
