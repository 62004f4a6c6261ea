//! The running server: the shared state behind every in-flight request and
//! the hot-reload protocol that keeps it consistent.
//!
//! The schema and the compiled operation set are replaced together, as one
//! pair, by `update_schema` and `update_operations`; a reader of this state
//! never sees operations compiled against any schema but the one held
//! beside them. The peer registry grows on session initialization and is
//! pruned only when a notification attempt proves a channel dead.

use vstd::prelude::*;

use crate::errors::ERROR_CODE_METHOD_NOT_FOUND;
use crate::errors::McpError;
use crate::headers::HeaderList;
use crate::headers::spec_get;
use crate::operations::MutationMode;
use crate::operations::Operation;
use crate::operations::RawOperation;
use crate::operations::compile_batch;
use crate::operations::ops_match;
use crate::operations::raw_sources;
use crate::operations::spec_compile_batch;
use crate::text::str_eq;

verus! {

/// Which built-in tools the server exposes.
#[derive(Clone, Copy, Debug, PartialEq, Eq, Structural)]
pub struct BuiltinToggles {
    pub execute: bool,
    pub introspect: bool,
    pub search: bool,
    pub explorer: bool,
    pub validate: bool,
}

/// Where a tool call goes: to a built-in tool, to a compiled operation
/// (by its position in the operation set), or nowhere.
#[derive(Clone, Copy, Debug, PartialEq, Eq, Structural)]
pub enum ToolDispatch {
    Introspect,
    Search,
    Explorer,
    Execute,
    Validate,
    OperationAt(usize),
    NotFound,
}

/// What one notification attempt to a peer reported.
#[derive(Clone, Copy, Debug, PartialEq, Eq, Structural)]
pub enum PeerSendOutcome {
    /// The notification was delivered.
    Delivered,
    /// The channel is closed, or sending on it failed outright.
    Closed,
    /// Delivery failed, but the channel did not report itself closed.
    TransientError,
}

/// Index of the first operation named `name`, or -1 when there is none.
pub open spec fn spec_op_index(ops: Seq<Operation>, name: Seq<char>) -> int
    decreases ops.len(),
{
    if ops.len() == 0 {
        -1
    } else if ops[0].name@ == name {
        0
    } else {
        let r = spec_op_index(ops.drop_first(), name);
        if r == -1 {
            -1
        } else {
            1 + r
        }
    }
}

proof fn lemma_op_index_props(ops: Seq<Operation>, name: Seq<char>)
    ensures
        -1 <= spec_op_index(ops, name) < ops.len(),
        spec_op_index(ops, name) == -1 ==> forall|j: int|
            0 <= j < ops.len() ==> ops[j].name@ != name,
        spec_op_index(ops, name) >= 0 ==> ops[spec_op_index(ops, name)].name@ == name,
    decreases ops.len(),
{
    if ops.len() == 0 {
    } else if ops[0].name@ == name {
    } else {
        lemma_op_index_props(ops.drop_first(), name);
        assert(forall|j: int| 1 <= j < ops.len() ==> ops.drop_first()[j - 1] == ops[j]);
    }
}

proof fn lemma_op_index_exact(ops: Seq<Operation>, name: Seq<char>, i: int)
    requires
        0 <= i < ops.len(),
        ops[i].name@ == name,
        forall|j: int| 0 <= j < i ==> ops[j].name@ != name,
    ensures
        spec_op_index(ops, name) == i,
    decreases ops.len(),
{
    if i == 0 {
    } else {
        assert(forall|j: int| 0 <= j < ops.len() - 1 ==> ops.drop_first()[j] == ops[j + 1]);
        lemma_op_index_exact(ops.drop_first(), name, i - 1);
    }
}

proof fn lemma_op_index_absent(ops: Seq<Operation>, name: Seq<char>)
    requires
        forall|j: int| 0 <= j < ops.len() ==> ops[j].name@ != name,
    ensures
        spec_op_index(ops, name) == -1,
{
    lemma_op_index_props(ops, name);
    if spec_op_index(ops, name) >= 0 {
        assert(ops[spec_op_index(ops, name)].name@ == name);
    }
}

/// The registry entries kept by a notification sweep: exactly those whose
/// attempt did not report a closed channel, in order.
pub open spec fn spec_retained(peers: Seq<u64>, outcomes: Seq<PeerSendOutcome>) -> Seq<u64>
    decreases peers.len(),
{
    if peers.len() == 0 {
        Seq::empty()
    } else {
        let rest = spec_retained(peers.drop_last(), outcomes.drop_last());
        if outcomes.last() is Closed {
            rest
        } else {
            rest.push(peers.last())
        }
    }
}

/// The shared state of a running server.
pub struct ServerCore {
    /// The currently held schema text; operations are compiled against it.
    pub schema_text: String,
    /// The raw operation documents, kept for recompilation on schema change.
    pub raw_operations: Vec<RawOperation>,
    /// The compiled operation set; always the batch compilation of
    /// `raw_operations` against `schema_text`.
    pub operations: Vec<Operation>,
    pub mutation_mode: MutationMode,
    pub disable_type_description: bool,
    pub disable_schema_description: bool,
    pub disable_auth_token_passthrough: bool,
    /// The upstream GraphQL endpoint.
    pub endpoint: String,
    /// The outbound header set cloned into every upstream call.
    pub headers: HeaderList,
    /// Connected notification channels, one handle per client session.
    pub peers: Vec<u64>,
    pub builtins: BuiltinToggles,
    /// Whether a health-check component is attached.
    pub health_check: bool,
}

impl ServerCore {
    /// The held operation set is the batch compilation of the held raw
    /// operations against the held schema.
    pub closed spec fn wf(&self) -> bool {
        ops_match(
            self.operations@,
            spec_compile_batch(
                self.schema_text@,
                raw_sources(self.raw_operations@),
                self.mutation_mode,
            ),
        )
    }

    /// The tool names a listing reports: every compiled operation first, in
    /// order, then each enabled built-in.
    pub open spec fn spec_list_tools(&self) -> Seq<Seq<char>> {
        self.operations@.map_values(|op: Operation| op.name@) + (if self.builtins.execute {
            seq!["execute"@]
        } else {
            Seq::empty()
        }) + (if self.builtins.introspect {
            seq!["introspect"@]
        } else {
            Seq::empty()
        }) + (if self.builtins.search {
            seq!["search"@]
        } else {
            Seq::empty()
        }) + (if self.builtins.explorer {
            seq!["explorer"@]
        } else {
            Seq::empty()
        }) + (if self.builtins.validate {
            seq!["validate"@]
        } else {
            Seq::empty()
        })
    }

    /// Where a call to `name` is dispatched: the built-in names are claimed
    /// first (enabled or not), then the compiled operations by exact name.
    pub open spec fn spec_resolve(&self, name: Seq<char>) -> ToolDispatch {
        if name == "introspect"@ {
            if self.builtins.introspect {
                ToolDispatch::Introspect
            } else {
                ToolDispatch::NotFound
            }
        } else if name == "search"@ {
            if self.builtins.search {
                ToolDispatch::Search
            } else {
                ToolDispatch::NotFound
            }
        } else if name == "explorer"@ {
            if self.builtins.explorer {
                ToolDispatch::Explorer
            } else {
                ToolDispatch::NotFound
            }
        } else if name == "execute"@ {
            if self.builtins.execute {
                ToolDispatch::Execute
            } else {
                ToolDispatch::NotFound
            }
        } else if name == "validate"@ {
            if self.builtins.validate {
                ToolDispatch::Validate
            } else {
                ToolDispatch::NotFound
            }
        } else {
            let i = spec_op_index(self.operations@, name);
            if i == -1 {
                ToolDispatch::NotFound
            } else {
                ToolDispatch::OperationAt(i as usize)
            }
        }
    }

    /// Replaces the schema and, in the same step, recompiles every held raw
    /// operation against it; an operation that no longer compiles is
    /// dropped, the others keep serving. Peers and headers are untouched.
    pub fn update_schema(&mut self, new_schema: String)
        ensures
            final(self).schema_text@ == new_schema@,
            final(self).raw_operations@ == old(self).raw_operations@,
            ops_match(
                final(self).operations@,
                spec_compile_batch(
                    new_schema@,
                    raw_sources(old(self).raw_operations@),
                    old(self).mutation_mode,
                ),
            ),
            final(self).wf(),
            final(self).mutation_mode == old(self).mutation_mode,
            final(self).disable_type_description == old(self).disable_type_description,
            final(self).disable_schema_description == old(self).disable_schema_description,
            final(self).disable_auth_token_passthrough == old(
                self,
            ).disable_auth_token_passthrough,
            final(self).endpoint == old(self).endpoint,
            final(self).headers == old(self).headers,
            final(self).peers == old(self).peers,
            final(self).builtins == old(self).builtins,
            final(self).health_check == old(self).health_check,
    {
        let ops = compile_batch(new_schema.as_str(), &self.raw_operations, self.mutation_mode);
        self.operations = ops;
        self.schema_text = new_schema;
    }

    /// Replaces the raw operation set and, in the same step, compiles it
    /// against the currently held schema. Peers and headers are untouched.
    pub fn update_operations(&mut self, new_raw_operations: Vec<RawOperation>)
        ensures
            final(self).schema_text@ == old(self).schema_text@,
            final(self).raw_operations@ == new_raw_operations@,
            ops_match(
                final(self).operations@,
                spec_compile_batch(
                    old(self).schema_text@,
                    raw_sources(new_raw_operations@),
                    old(self).mutation_mode,
                ),
            ),
            final(self).wf(),
            final(self).mutation_mode == old(self).mutation_mode,
            final(self).disable_type_description == old(self).disable_type_description,
            final(self).disable_schema_description == old(self).disable_schema_description,
            final(self).disable_auth_token_passthrough == old(
                self,
            ).disable_auth_token_passthrough,
            final(self).endpoint == old(self).endpoint,
            final(self).headers == old(self).headers,
            final(self).peers == old(self).peers,
            final(self).builtins == old(self).builtins,
            final(self).health_check == old(self).health_check,
    {
        let ops = compile_batch(self.schema_text.as_str(), &new_raw_operations, self.mutation_mode);
        self.operations = ops;
        self.raw_operations = new_raw_operations;
    }

    /// Lists the tools exposed right now: compiled operations first, then
    /// the enabled built-ins. Computed fresh on every call.
    pub fn list_tools(&self) -> (r: Vec<String>)
        ensures
            r.deep_view() == self.spec_list_tools(),
    {
        let ghost base = self.operations@.map_values(|op: Operation| op.name@);
        let n = self.operations.len();
        let mut out: Vec<String> = Vec::new();
        let mut i: usize = 0;
        while i < n
            invariant
                n == self.operations@.len(),
                0 <= i <= n,
                out@.len() == i,
                forall|k: int| 0 <= k < i ==> out@[k]@ == self.operations@[k].name@,
            decreases n - i,
        {
            out.push(self.operations[i].name.clone());
            i = i + 1;
        }
        proof {
            assert(out.deep_view() =~= base);
        }
        let ghost stage1 = base + if self.builtins.execute {
            seq!["execute"@]
        } else {
            Seq::empty()
        };
        if self.builtins.execute {
            out.push("execute".to_owned());
        }
        proof {
            assert(out.deep_view() =~= stage1);
        }
        let ghost stage2 = stage1 + if self.builtins.introspect {
            seq!["introspect"@]
        } else {
            Seq::empty()
        };
        if self.builtins.introspect {
            out.push("introspect".to_owned());
        }
        proof {
            assert(out.deep_view() =~= stage2);
        }
        let ghost stage3 = stage2 + if self.builtins.search {
            seq!["search"@]
        } else {
            Seq::empty()
        };
        if self.builtins.search {
            out.push("search".to_owned());
        }
        proof {
            assert(out.deep_view() =~= stage3);
        }
        let ghost stage4 = stage3 + if self.builtins.explorer {
            seq!["explorer"@]
        } else {
            Seq::empty()
        };
        if self.builtins.explorer {
            out.push("explorer".to_owned());
        }
        proof {
            assert(out.deep_view() =~= stage4);
        }
        let ghost stage5 = stage4 + if self.builtins.validate {
            seq!["validate"@]
        } else {
            Seq::empty()
        };
        if self.builtins.validate {
            out.push("validate".to_owned());
        }
        proof {
            assert(out.deep_view() =~= stage5);
            assert(stage5 == self.spec_list_tools());
        }
        out
    }

    /// Resolves a tool name: the fixed built-in names first, then the
    /// compiled operations by exact match.
    pub fn resolve_tool(&self, name: &str) -> (r: ToolDispatch)
        ensures
            r == self.spec_resolve(name@),
    {
        if str_eq(name, "introspect") {
            return if self.builtins.introspect {
                ToolDispatch::Introspect
            } else {
                ToolDispatch::NotFound
            };
        }
        if str_eq(name, "search") {
            return if self.builtins.search {
                ToolDispatch::Search
            } else {
                ToolDispatch::NotFound
            };
        }
        if str_eq(name, "explorer") {
            return if self.builtins.explorer {
                ToolDispatch::Explorer
            } else {
                ToolDispatch::NotFound
            };
        }
        if str_eq(name, "execute") {
            return if self.builtins.execute {
                ToolDispatch::Execute
            } else {
                ToolDispatch::NotFound
            };
        }
        if str_eq(name, "validate") {
            return if self.builtins.validate {
                ToolDispatch::Validate
            } else {
                ToolDispatch::NotFound
            };
        }
        let n = self.operations.len();
        let mut i: usize = 0;
        while i < n
            invariant
                n == self.operations@.len(),
                0 <= i <= n,
                forall|j: int| 0 <= j < i ==> self.operations@[j].name@ != name@,
                name@ != "introspect"@,
                name@ != "search"@,
                name@ != "explorer"@,
                name@ != "execute"@,
                name@ != "validate"@,
            decreases n - i,
        {
            if str_eq(self.operations[i].name.as_str(), name) {
                proof {
                    lemma_op_index_exact(self.operations@, name@, i as int);
                }
                return ToolDispatch::OperationAt(i);
            }
            i = i + 1;
        }
        proof {
            lemma_op_index_absent(self.operations@, name@);
        }
        ToolDispatch::NotFound
    }

    /// The header set for one upstream call: the shared headers, with the
    /// caller's own validated bearer header laid over them unless
    /// passthrough is disabled, and the inbound session identifier
    /// forwarded when present. Every other header keeps its value.
    pub fn headers_for_upstream(
        &self,
        caller_auth: Option<&str>,
        session_id: Option<&str>,
    ) -> (r: HeaderList)
        ensures
            ({
                match caller_auth {
                    Some(v) => if !self.disable_auth_token_passthrough {
                        spec_get(r.entries@, "authorization"@) == Some(v@)
                    } else {
                        spec_get(r.entries@, "authorization"@) == spec_get(
                            self.headers.entries@,
                            "authorization"@,
                        )
                    },
                    None => spec_get(r.entries@, "authorization"@) == spec_get(
                        self.headers.entries@,
                        "authorization"@,
                    ),
                }
            }),
            ({
                match session_id {
                    Some(s) => spec_get(r.entries@, "mcp-session-id"@) == Some(s@),
                    None => spec_get(r.entries@, "mcp-session-id"@) == spec_get(
                        self.headers.entries@,
                        "mcp-session-id"@,
                    ),
                }
            }),
            forall|n: Seq<char>|
                n != "authorization"@ && n != "mcp-session-id"@ ==> spec_get(r.entries@, n)
                    == spec_get(self.headers.entries@, n),
    {
        proof {
            reveal_strlit("authorization");
            reveal_strlit("mcp-session-id");
            assert("authorization"@.len() != "mcp-session-id"@.len());
        }
        let mut r = self.headers.snapshot();
        match caller_auth {
            Some(v) => {
                if !self.disable_auth_token_passthrough {
                    r.insert("authorization", v);
                }
            },
            None => {},
        }
        match session_id {
            Some(s) => {
                r.insert("mcp-session-id", s);
            },
            None => {},
        }
        r
    }

    /// Appends a newly initialized session's notification channel to the
    /// registry. There is no dedup and no bound.
    pub fn register_peer(&mut self, peer: u64)
        ensures
            final(self).peers@ == old(self).peers@.push(peer),
            final(self).schema_text == old(self).schema_text,
            final(self).raw_operations == old(self).raw_operations,
            final(self).operations == old(self).operations,
            final(self).mutation_mode == old(self).mutation_mode,
            final(self).headers == old(self).headers,
            final(self).builtins == old(self).builtins,
            final(self).wf() <==> old(self).wf(),
    {
        self.peers.push(peer);
    }

    /// Applies the outcomes of one notification sweep: a peer whose channel
    /// reported closed is dropped from the registry, every other peer is
    /// retained, in order.
    pub fn apply_notification_outcomes(&mut self, outcomes: &Vec<PeerSendOutcome>)
        requires
            outcomes@.len() == old(self).peers@.len(),
        ensures
            final(self).peers@ == spec_retained(old(self).peers@, outcomes@),
            final(self).schema_text == old(self).schema_text,
            final(self).raw_operations == old(self).raw_operations,
            final(self).operations == old(self).operations,
            final(self).mutation_mode == old(self).mutation_mode,
            final(self).headers == old(self).headers,
            final(self).builtins == old(self).builtins,
            final(self).wf() <==> old(self).wf(),
    {
        let n = self.peers.len();
        let mut retained: Vec<u64> = Vec::new();
        let mut i: usize = 0;
        while i < n
            invariant
                n == self.peers@.len(),
                n == outcomes@.len(),
                0 <= i <= n,
                retained@ == spec_retained(
                    self.peers@.take(i as int),
                    outcomes@.take(i as int),
                ),
            decreases n - i,
        {
            proof {
                assert(self.peers@.take(i + 1).drop_last() =~= self.peers@.take(i as int));
                assert(outcomes@.take(i + 1).drop_last() =~= outcomes@.take(i as int));
                assert(self.peers@.take(i + 1).last() == self.peers@[i as int]);
                assert(outcomes@.take(i + 1).last() == outcomes@[i as int]);
            }
            match outcomes[i] {
                PeerSendOutcome::Closed => {},
                _ => {
                    retained.push(self.peers[i]);
                },
            }
            i = i + 1;
        }
        proof {
            assert(self.peers@.take(n as int) =~= self.peers@);
            assert(outcomes@.take(n as int) =~= outcomes@);
        }
        self.peers = retained;
    }
}

/// A core whose operation set is the batch compilation of its raw
/// operations against its schema is consistent.
pub proof fn lemma_wf_intro(core: &ServerCore)
    requires
        ops_match(
            core.operations@,
            spec_compile_batch(
                core.schema_text@,
                raw_sources(core.raw_operations@),
                core.mutation_mode,
            ),
        ),
    ensures
        core.wf(),
{
}

/// Law of atomic pairing: in a consistent core, the held operation set is
/// exactly the batch compilation of the held raw operations against the
/// held schema — a reader never observes operations compiled against a
/// schema other than the one it also observes as current.
pub proof fn lemma_operations_match_schema(core: &ServerCore)
    requires
        core.wf(),
    ensures
        ops_match(
            core.operations@,
            spec_compile_batch(
                core.schema_text@,
                raw_sources(core.raw_operations@),
                core.mutation_mode,
            ),
        ),
{
}

/// Law of peer pruning, first half: a peer whose channel reported closed at
/// every position it holds in the registry is absent after the sweep.
pub proof fn lemma_closed_peer_pruned(peers: Seq<u64>, outcomes: Seq<PeerSendOutcome>, p: u64)
    requires
        outcomes.len() == peers.len(),
        forall|j: int| 0 <= j < peers.len() && peers[j] == p ==> outcomes[j] is Closed,
    ensures
        !spec_retained(peers, outcomes).contains(p),
    decreases peers.len(),
{
    if peers.len() > 0 {
        assert(forall|j: int|
            0 <= j < peers.len() - 1 && peers.drop_last()[j] == p ==> outcomes.drop_last()[j]
                is Closed);
        lemma_closed_peer_pruned(peers.drop_last(), outcomes.drop_last(), p);
        let rest = spec_retained(peers.drop_last(), outcomes.drop_last());
        if !(outcomes.last() is Closed) {
            assert(peers.last() != p);
            assert forall|k: int|
                0 <= k < rest.push(peers.last()).len() implies rest.push(peers.last())[k]
                != p by {
                if k < rest.len() {
                    assert(rest.push(peers.last())[k] == rest[k]);
                    assert(!rest.contains(p));
                }
            }
        }
    }
}

/// Law of peer pruning, second half: a peer whose delivery attempt failed
/// only transiently — or succeeded — is still present after the sweep.
pub proof fn lemma_live_peer_retained(peers: Seq<u64>, outcomes: Seq<PeerSendOutcome>, j: int)
    requires
        outcomes.len() == peers.len(),
        0 <= j < peers.len(),
        !(outcomes[j] is Closed),
    ensures
        spec_retained(peers, outcomes).contains(peers[j]),
    decreases peers.len(),
{
    let r = spec_retained(peers, outcomes);
    let rest = spec_retained(peers.drop_last(), outcomes.drop_last());
    if j == peers.len() - 1 {
        assert(r == rest.push(peers.last()));
        assert(r[r.len() - 1] == peers[j]);
    } else {
        lemma_live_peer_retained(peers.drop_last(), outcomes.drop_last(), j);
        let k = choose|k: int| 0 <= k < rest.len() && rest[k] == peers.drop_last()[j];
        if outcomes.last() is Closed {
            assert(r[k] == peers[j]);
        } else {
            assert(r == rest.push(peers.last()));
            assert(r[k] == peers[j]);
        }
    }
}

/// Law of atomic pairing, seen through a listing: in a consistent core,
/// every operation name a `list_tools` reader receives is the name of an
/// operation compiled against the very schema the same core holds.
pub proof fn lemma_listing_reflects_pair(core: &ServerCore)
    requires
        core.wf(),
    ensures
        forall|i: int|
            0 <= i < core.operations@.len() ==> core.spec_list_tools()[i] == spec_compile_batch(
                core.schema_text@,
                raw_sources(core.raw_operations@),
                core.mutation_mode,
            )[i].0,
{
    let names = core.operations@.map_values(|op: Operation| op.name@);
    assert forall|i: int| 0 <= i < core.operations@.len() implies core.spec_list_tools()[i]
        == spec_compile_batch(
        core.schema_text@,
        raw_sources(core.raw_operations@),
        core.mutation_mode,
    )[i].0 by {
        assert(core.spec_list_tools()[i] == names[i]);
    }
}

/// The "tool not found" error a call with an unresolved name receives.
pub fn tool_not_found(name: &str) -> (r: McpError)
    ensures
        r.code == ERROR_CODE_METHOD_NOT_FOUND,
        r.message@ == "Tool "@ + name@ + " not found"@,
{
    let mut message = "Tool ".to_owned();
    message.append(name);
    message.append(" not found");
    McpError { code: ERROR_CODE_METHOD_NOT_FOUND, message }
}

/// Whether one finished call counts as a success for telemetry: the call
/// returned a result and that result does not flag an error.
pub fn call_success(returned_ok: bool, result_error_flag: Option<bool>) -> (r: bool)
    ensures
        r == (returned_ok && result_error_flag != Some(true)),
{
    returned_ok && !matches!(result_error_flag, Some(true))
}

} // verus!
