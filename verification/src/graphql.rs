//! The boundary to the external GraphQL compiler.
//!
//! Parsing and validating GraphQL documents is delegated to the
//! `apollo_compiler` crate. Each outcome depends on the source text alone, so
//! the results carry names that the verified compile logic builds on.

use vstd::prelude::*;

use apollo_compiler::ast::Definition;
use apollo_compiler::ast::Document;
use apollo_compiler::ast::OperationType;
use apollo_compiler::ExecutableDocument;
use apollo_compiler::Schema;

verus! {

/// Whether `sdl` parses and validates as a GraphQL schema.
pub uninterp spec fn schema_ok(sdl: Seq<char>) -> bool;

/// What parsing `source` yields: nothing on a syntax error, else one entry
/// per definition of the document — nothing for a non-operation definition,
/// else the operation's name (if declared) and whether it is a mutation.
pub uninterp spec fn op_defs_of(source: Seq<char>) -> Option<
    Seq<Option<(Option<Seq<char>>, bool)>>,
>;

/// Whether `source` parses and validates as an executable document against
/// the schema given by `sdl`; false whenever `sdl` itself is invalid.
pub uninterp spec fn op_valid_in(sdl: Seq<char>, source: Seq<char>) -> bool;

/// Relies on apollo_compiler::Schema::parse_and_validate: whether schema
/// text parses and validates depends on the text alone.
#[verifier::external_body]
pub(crate) fn schema_parses(sdl: &str) -> (r: bool)
    ensures
        r == schema_ok(sdl@),
{
    Schema::parse_and_validate(sdl, "schema.graphql").is_ok()
}

/// Relies on apollo_compiler::ast::Document::parse: the parsed definition
/// list depends on the source text alone. Each definition is handed back as
/// a plain value: operation definitions as their name and mutation flag,
/// any other definition as nothing.
#[verifier::external_body]
pub(crate) fn operation_defs(source: &str) -> (r: Option<Vec<Option<(Option<String>, bool)>>>)
    ensures
        r.deep_view() == op_defs_of(source@),
{
    let doc = match Document::parse(source, "operation.graphql") {
        Ok(d) => d,
        Err(_) => return None,
    };
    Some(doc.definitions.iter().map(|def| match def {
        Definition::OperationDefinition(op) => Some((
            op.name.as_ref().map(|n| n.as_str().to_string()),
            matches!(op.operation_type, OperationType::Mutation),
        )),
        _ => None,
    }).collect())
}

/// Relies on apollo_compiler::Schema::parse_and_validate and
/// apollo_compiler::ExecutableDocument::parse_and_validate: whether an
/// executable document validates against a schema depends on the two source
/// texts alone.
#[verifier::external_body]
pub(crate) fn operation_valid(sdl: &str, source: &str) -> (r: bool)
    ensures
        r == op_valid_in(sdl@, source@),
{
    match Schema::parse_and_validate(sdl, "schema.graphql") {
        Ok(schema) => ExecutableDocument::parse_and_validate(&schema, source, "op.graphql").is_ok(),
        Err(_) => false,
    }
}

/// Schema text that has passed validation.
pub struct SchemaDocument {
    pub text: String,
}

impl SchemaDocument {
    /// The held text is a valid schema.
    pub open spec fn wf(&self) -> bool {
        schema_ok(self.text@)
    }

    /// Validates schema text; a document comes back only for a valid schema.
    pub fn validate(text: String) -> (r: Option<SchemaDocument>)
        ensures
            match r {
                Some(d) => schema_ok(text@) && d.text@ == text@,
                None => !schema_ok(text@),
            },
    {
        if schema_parses(text.as_str()) {
            Some(SchemaDocument { text })
        } else {
            None
        }
    }
}

} // verus!
