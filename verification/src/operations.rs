//! The operation compiler: turning raw operation documents into named,
//! schema-bound tools.
//!
//! A raw operation compiles only when its document parses, holds exactly one
//! operation definition, that operation carries a name, mutations are
//! permitted when it is one, and the document validates against the schema.
//! A raw operation that fails any of these is dropped; the others are kept,
//! in order.

use vstd::prelude::*;

use crate::graphql::op_defs_of;
use crate::graphql::op_valid_in;
use crate::graphql::operation_defs;
use crate::graphql::operation_valid;

verus! {

/// Whether operations that reach the mutation root are permitted.
#[derive(Clone, Copy, Debug, PartialEq, Eq, Structural)]
pub enum MutationMode {
    /// Mutations are rejected at compile time.
    Disabled,
    /// Explicitly provided mutation operations are permitted.
    Explicit,
    /// Mutations are permitted everywhere, including introspection tools.
    All,
}

/// An uncompiled operation document plus its source name.
pub struct RawOperation {
    pub source_text: String,
    pub path: Option<String>,
}

impl From<(String, Option<String>)> for RawOperation {
    fn from(t: (String, Option<String>)) -> (r: RawOperation) {
        RawOperation { source_text: t.0, path: t.1 }
    }
}

impl vstd::std_specs::convert::FromSpecImpl<(String, Option<String>)> for RawOperation {
    open spec fn obeys_from_spec() -> bool {
        true
    }

    open spec fn from_spec(t: (String, Option<String>)) -> RawOperation {
        RawOperation { source_text: t.0, path: t.1 }
    }
}

/// A raw operation validated against a schema and bound to its name.
pub struct Operation {
    pub name: String,
    pub source_text: String,
}

/// How many entries of a parsed definition list are operation definitions.
pub open spec fn count_ops(defs: Seq<Option<(Option<Seq<char>>, bool)>>) -> int
    decreases defs.len(),
{
    if defs.len() == 0 {
        0
    } else {
        count_ops(defs.drop_last()) + if defs.last() is Some {
            1int
        } else {
            0int
        }
    }
}

/// The first operation definition of a parsed definition list, if any.
pub open spec fn first_op(defs: Seq<Option<(Option<Seq<char>>, bool)>>) -> Option<
    (Option<Seq<char>>, bool),
>
    decreases defs.len(),
{
    if defs.len() == 0 {
        None
    } else {
        let r = first_op(defs.drop_last());
        if r is Some {
            r
        } else {
            defs.last()
        }
    }
}

/// The name a raw operation compiles to against schema `sdl`, or nothing
/// when it is rejected: on a parse error, on anything but exactly one
/// operation definition, on a missing operation name, on a mutation while
/// mutations are disabled, and on schema validation failure.
pub open spec fn spec_compile(sdl: Seq<char>, src: Seq<char>, mm: MutationMode) -> Option<
    Seq<char>,
> {
    match op_defs_of(src) {
        None => None,
        Some(defs) => {
            if count_ops(defs) != 1 {
                None
            } else {
                match first_op(defs) {
                    None => None,
                    Some((name_opt, is_mutation)) => match name_opt {
                        None => None,
                        Some(name) => if is_mutation && mm is Disabled {
                            None
                        } else if op_valid_in(sdl, src) {
                            Some(name)
                        } else {
                            None
                        },
                    },
                }
            }
        },
    }
}

/// The compiled (name, source) pairs of a batch, kept in order; raw
/// operations that do not compile are dropped.
pub open spec fn spec_compile_batch(
    sdl: Seq<char>,
    srcs: Seq<Seq<char>>,
    mm: MutationMode,
) -> Seq<(Seq<char>, Seq<char>)>
    decreases srcs.len(),
{
    if srcs.len() == 0 {
        Seq::empty()
    } else {
        let rest = spec_compile_batch(sdl, srcs.drop_last(), mm);
        match spec_compile(sdl, srcs.last(), mm) {
            Some(name) => rest.push((name, srcs.last())),
            None => rest,
        }
    }
}

/// The sources of a sequence of raw operations.
pub open spec fn raw_sources(raws: Seq<RawOperation>) -> Seq<Seq<char>> {
    raws.map_values(|r: RawOperation| r.source_text@)
}

/// A compiled vector matches its specification pair for pair.
pub open spec fn ops_match(ops: Seq<Operation>, compiled: Seq<(Seq<char>, Seq<char>)>) -> bool {
    &&& ops.len() == compiled.len()
    &&& forall|i: int|
        0 <= i < ops.len() ==> ops[i].name@ == compiled[i].0 && ops[i].source_text@
            == compiled[i].1
}

proof fn lemma_count_ops_nonneg(defs: Seq<Option<(Option<Seq<char>>, bool)>>)
    ensures
        count_ops(defs) >= 0,
    decreases defs.len(),
{
    if defs.len() > 0 {
        lemma_count_ops_nonneg(defs.drop_last());
    }
}

proof fn lemma_count_zero_first_none(defs: Seq<Option<(Option<Seq<char>>, bool)>>)
    requires
        count_ops(defs) == 0,
    ensures
        first_op(defs) is None,
    decreases defs.len(),
{
    if defs.len() > 0 {
        lemma_count_ops_nonneg(defs.drop_last());
        lemma_count_zero_first_none(defs.drop_last());
    }
}

proof fn lemma_some_count_pos(defs: Seq<Option<(Option<Seq<char>>, bool)>>, idx: int)
    requires
        0 <= idx < defs.len(),
        defs[idx] is Some,
    ensures
        count_ops(defs) >= 1,
    decreases defs.len(),
{
    lemma_count_ops_nonneg(defs.drop_last());
    if idx < defs.len() - 1 {
        lemma_some_count_pos(defs.drop_last(), idx);
    }
}

/// When a definition list holds exactly one operation, the operation at any
/// occupied position is the one `first_op` yields.
proof fn lemma_single_op(defs: Seq<Option<(Option<Seq<char>>, bool)>>, idx: int)
    requires
        count_ops(defs) == 1,
        0 <= idx < defs.len(),
        defs[idx] is Some,
    ensures
        first_op(defs) == defs[idx],
    decreases defs.len(),
{
    if idx == defs.len() - 1 {
        lemma_some_count_pos(defs, idx);
        assert(count_ops(defs.drop_last()) == 0);
        lemma_count_zero_first_none(defs.drop_last());
    } else {
        lemma_some_count_pos(defs.drop_last(), idx);
        lemma_count_ops_nonneg(defs.drop_last());
        assert(count_ops(defs.drop_last()) == 1);
        lemma_single_op(defs.drop_last(), idx);
    }
}

/// Compiles one raw operation against a schema.
///
/// The result carries the operation's declared name and its source text;
/// nothing comes back exactly when the specification rejects the input.
pub fn compile_operation(schema: &str, raw: &RawOperation, mutation_mode: MutationMode) -> (r:
    Option<Operation>)
    ensures
        match r {
            Some(op) => spec_compile(schema@, raw.source_text@, mutation_mode) == Some(op.name@)
                && op.source_text@ == raw.source_text@,
            None => spec_compile(schema@, raw.source_text@, mutation_mode) is None,
        },
{
    let defs_opt = operation_defs(raw.source_text.as_str());
    let mut defs = match defs_opt {
        Some(d) => d,
        None => {
            return None;
        },
    };
    let ghost sdefs = op_defs_of(raw.source_text@)->0;
    proof {
        assert(defs.deep_view() =~= sdefs);
    }
    let n = defs.len();
    let mut count: usize = 0;
    let mut idx: usize = 0;
    let mut i: usize = 0;
    while i < n
        invariant
            n == defs@.len(),
            sdefs.len() == n,
            forall|j: int| 0 <= j < n ==> #[trigger] sdefs[j] == defs@[j].deep_view(),
            0 <= i <= n,
            count <= i,
            count == count_ops(sdefs.take(i as int)),
            count >= 1 ==> 0 <= idx < i && sdefs[idx as int] is Some,
        decreases n - i,
    {
        proof {
            assert(sdefs.take(i + 1).drop_last() =~= sdefs.take(i as int));
            assert(sdefs.take(i + 1).last() == sdefs[i as int]);
        }
        if defs[i].is_some() {
            assert(sdefs[i as int] is Some);
            count = count + 1;
            if count == 1 {
                idx = i;
            }
        } else {
            assert(sdefs[i as int] is None);
        }
        i = i + 1;
    }
    proof {
        assert(sdefs.take(n as int) =~= sdefs);
    }
    if count != 1 {
        return None;
    }
    proof {
        lemma_single_op(sdefs, idx as int);
    }
    let the_def = defs.swap_remove(idx);
    let (name_opt, is_mutation) = match the_def {
        Some(t) => t,
        None => {
            proof {
                assert(false);
            }
            return None;
        },
    };
    let name = match name_opt {
        Some(nm) => nm,
        None => {
            return None;
        },
    };
    if is_mutation && matches!(mutation_mode, MutationMode::Disabled) {
        return None;
    }
    if operation_valid(schema, raw.source_text.as_str()) {
        Some(Operation { name, source_text: raw.source_text.clone() })
    } else {
        None
    }
}

/// Compiles a batch of raw operations against a schema, dropping the ones
/// that fail and keeping the rest in order.
pub fn compile_batch(schema: &str, raws: &Vec<RawOperation>, mutation_mode: MutationMode) -> (r:
    Vec<Operation>)
    ensures
        ops_match(r@, spec_compile_batch(schema@, raw_sources(raws@), mutation_mode)),
{
    let ghost srcs = raw_sources(raws@);
    let n = raws.len();
    let mut out: Vec<Operation> = Vec::new();
    let mut i: usize = 0;
    while i < n
        invariant
            n == raws@.len(),
            srcs == raw_sources(raws@),
            srcs.len() == n,
            0 <= i <= n,
            ops_match(out@, spec_compile_batch(schema@, srcs.take(i as int), mutation_mode)),
        decreases n - i,
    {
        proof {
            assert(srcs.take(i + 1).drop_last() =~= srcs.take(i as int));
            assert(srcs.take(i + 1).last() == srcs[i as int]);
            assert(srcs[i as int] == raws@[i as int].source_text@);
        }
        let compiled = compile_operation(schema, &raws[i], mutation_mode);
        match compiled {
            Some(op) => {
                out.push(op);
            },
            None => {},
        }
        i = i + 1;
    }
    proof {
        assert(srcs.take(n as int) =~= srcs);
    }
    out
}

/// Law of partial-failure isolation: a raw operation that compiles is
/// present in the batch result under its name, and every entry of the batch
/// result is the compilation of one of the raw inputs — so an input that the
/// compiler rejects contributes nothing, while the others are kept.
pub proof fn lemma_partial_failure_isolation(
    sdl: Seq<char>,
    srcs: Seq<Seq<char>>,
    mm: MutationMode,
    i: int,
)
    requires
        0 <= i < srcs.len(),
    ensures
        spec_compile(sdl, srcs[i], mm) matches Some(name) ==> spec_compile_batch(
            sdl,
            srcs,
            mm,
        ).contains((name, srcs[i])),
        forall|p: (Seq<char>, Seq<char>)|
            spec_compile_batch(sdl, srcs, mm).contains(p) ==> spec_compile(sdl, p.1, mm) == Some(
                p.0,
            ),
        spec_compile(sdl, srcs[i], mm) is None ==> forall|name: Seq<char>|
            !spec_compile_batch(sdl, srcs, mm).contains((name, srcs[i])),
    decreases srcs.len(),
{
    let batch = spec_compile_batch(sdl, srcs, mm);
    let prefix = spec_compile_batch(sdl, srcs.drop_last(), mm);
    if i == srcs.len() - 1 {
        if srcs.len() > 1 {
            lemma_partial_failure_isolation(sdl, srcs.drop_last(), mm, 0);
        }
        lemma_batch_entries(sdl, srcs.drop_last(), mm);
    } else {
        lemma_partial_failure_isolation(sdl, srcs.drop_last(), mm, i);
        assert(srcs.drop_last()[i] == srcs[i]);
    }
    lemma_batch_entries(sdl, srcs, mm);
    if spec_compile(sdl, srcs[i], mm) is Some {
        let name = spec_compile(sdl, srcs[i], mm)->0;
        if i == srcs.len() - 1 {
            assert(batch == prefix.push((name, srcs[i])));
            assert(batch.last() == (name, srcs[i]));
            assert(batch.contains((name, srcs[i])));
        } else {
            assert(prefix.contains((name, srcs[i])));
            let j = choose|j: int| 0 <= j < prefix.len() && prefix[j] == (name, srcs[i]);
            if spec_compile(sdl, srcs.last(), mm) is Some {
                assert(batch[j] == prefix[j]);
            }
            assert(batch.contains((name, srcs[i])));
        }
    }
    if spec_compile(sdl, srcs[i], mm) is None {
        assert forall|name: Seq<char>| !batch.contains((name, srcs[i])) by {
            if batch.contains((name, srcs[i])) {
                assert(spec_compile(sdl, srcs[i], mm) == Some(name));
            }
        }
    }
}

/// Every entry of a batch result is the compilation of its own source text.
proof fn lemma_batch_entries(sdl: Seq<char>, srcs: Seq<Seq<char>>, mm: MutationMode)
    ensures
        forall|p: (Seq<char>, Seq<char>)|
            spec_compile_batch(sdl, srcs, mm).contains(p) ==> spec_compile(sdl, p.1, mm) == Some(
                p.0,
            ),
    decreases srcs.len(),
{
    if srcs.len() > 0 {
        lemma_batch_entries(sdl, srcs.drop_last(), mm);
        let batch = spec_compile_batch(sdl, srcs, mm);
        let prefix = spec_compile_batch(sdl, srcs.drop_last(), mm);
        assert forall|p: (Seq<char>, Seq<char>)| batch.contains(p) implies spec_compile(
            sdl,
            p.1,
            mm,
        ) == Some(p.0) by {
            let j = choose|j: int| 0 <= j < batch.len() && batch[j] == p;
            match spec_compile(sdl, srcs.last(), mm) {
                Some(name) => {
                    if j < prefix.len() {
                        assert(prefix[j] == p);
                        assert(prefix.contains(p));
                    } else {
                        assert(p == (name, srcs.last()));
                    }
                },
                None => {
                    assert(prefix.contains(p));
                },
            }
        }
    }
}

} // verus!
