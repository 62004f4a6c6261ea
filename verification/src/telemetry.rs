//! Telemetry attribute and metric names recorded around tool calls.

use vstd::prelude::*;

verus! {

/// Supported telemetry attribute (tag) keys.
#[derive(Clone, Copy, Debug, PartialEq, Eq, Structural, Hash)]
pub enum TelemetryAttribute {
    ToolName,
    OperationId,
    OperationSource,
    Success,
    RequestId,
    ClientName,
    ClientVersion,
}

/// Supported telemetry metric names.
#[derive(Clone, Copy, Debug, PartialEq, Eq, Structural, Hash)]
pub enum TelemetryMetric {
    InitializeCount,
    ListToolsCount,
    GetInfoCount,
    ToolCount,
    ToolDuration,
}

/// Every telemetry attribute, in declaration order.
pub open spec fn spec_all_attributes() -> Seq<TelemetryAttribute> {
    seq![
        TelemetryAttribute::ToolName,
        TelemetryAttribute::OperationId,
        TelemetryAttribute::OperationSource,
        TelemetryAttribute::Success,
        TelemetryAttribute::RequestId,
        TelemetryAttribute::ClientName,
        TelemetryAttribute::ClientVersion,
    ]
}

/// The attributes kept when the omitted ones are taken out, in order.
pub open spec fn spec_included(
    attrs: Seq<TelemetryAttribute>,
    omitted: Seq<TelemetryAttribute>,
) -> Seq<TelemetryAttribute>
    decreases attrs.len(),
{
    if attrs.len() == 0 {
        Seq::empty()
    } else {
        let rest = spec_included(attrs.drop_last(), omitted);
        if omitted.contains(attrs.last()) {
            rest
        } else {
            rest.push(attrs.last())
        }
    }
}

impl TelemetryAttribute {
    /// The dotted key this attribute is recorded under.
    pub open spec fn spec_key(self) -> Seq<char> {
        match self {
            TelemetryAttribute::ToolName => "apollo.mcp.tool_name"@,
            TelemetryAttribute::OperationId => "apollo.mcp.operation_id"@,
            TelemetryAttribute::OperationSource => "apollo.mcp.operation_source"@,
            TelemetryAttribute::Success => "apollo.mcp.success"@,
            TelemetryAttribute::RequestId => "apollo.mcp.request_id"@,
            TelemetryAttribute::ClientName => "apollo.mcp.client_name"@,
            TelemetryAttribute::ClientVersion => "apollo.mcp.client_version"@,
        }
    }

    /// Converts the attribute to its key text.
    pub fn as_str(&self) -> (r: &'static str)
        ensures
            r@ == self.spec_key(),
    {
        match self {
            TelemetryAttribute::ToolName => "apollo.mcp.tool_name",
            TelemetryAttribute::OperationId => "apollo.mcp.operation_id",
            TelemetryAttribute::OperationSource => "apollo.mcp.operation_source",
            TelemetryAttribute::Success => "apollo.mcp.success",
            TelemetryAttribute::RequestId => "apollo.mcp.request_id",
            TelemetryAttribute::ClientName => "apollo.mcp.client_name",
            TelemetryAttribute::ClientVersion => "apollo.mcp.client_version",
        }
    }

    /// Every attribute, in declaration order.
    pub fn all_attributes() -> (r: Vec<TelemetryAttribute>)
        ensures
            r@ == spec_all_attributes(),
    {
        let mut v: Vec<TelemetryAttribute> = Vec::new();
        v.push(TelemetryAttribute::ToolName);
        v.push(TelemetryAttribute::OperationId);
        v.push(TelemetryAttribute::OperationSource);
        v.push(TelemetryAttribute::Success);
        v.push(TelemetryAttribute::RequestId);
        v.push(TelemetryAttribute::ClientName);
        v.push(TelemetryAttribute::ClientVersion);
        proof {
            assert(v@ =~= spec_all_attributes());
        }
        v
    }

    /// The attributes that remain when `omitted` are taken out, in order.
    pub fn included_attributes(omitted: &Vec<TelemetryAttribute>) -> (r: Vec<TelemetryAttribute>)
        ensures
            r@ == spec_included(spec_all_attributes(), omitted@),
    {
        let all = TelemetryAttribute::all_attributes();
        let n = all.len();
        let mut out: Vec<TelemetryAttribute> = Vec::new();
        let mut i: usize = 0;
        while i < n
            invariant
                n == all@.len(),
                all@ == spec_all_attributes(),
                0 <= i <= n,
                out@ == spec_included(all@.take(i as int), omitted@),
            decreases n - i,
        {
            proof {
                assert(all@.take(i + 1).drop_last() =~= all@.take(i as int));
                assert(all@.take(i + 1).last() == all@[i as int]);
            }
            if !attr_in(omitted, all[i]) {
                out.push(all[i]);
            }
            i = i + 1;
        }
        proof {
            assert(all@.take(n as int) =~= all@);
        }
        out
    }
}

/// Whether `a` stands in `v`.
fn attr_in(v: &Vec<TelemetryAttribute>, a: TelemetryAttribute) -> (r: bool)
    ensures
        r == v@.contains(a),
{
    let n = v.len();
    let mut i: usize = 0;
    while i < n
        invariant
            n == v@.len(),
            0 <= i <= n,
            forall|k: int| 0 <= k < i ==> v@[k] != a,
        decreases n - i,
    {
        if v[i] == a {
            return true;
        }
        i = i + 1;
    }
    proof {
        if v@.contains(a) {
            let k = choose|k: int| 0 <= k < v@.len() && v@[k] == a;
            assert(v@[k] != a);
        }
    }
    false
}

impl TelemetryMetric {
    /// The dotted name this metric is recorded under.
    pub open spec fn spec_key(self) -> Seq<char> {
        match self {
            TelemetryMetric::InitializeCount => "apollo.mcp.initialize.count"@,
            TelemetryMetric::ListToolsCount => "apollo.mcp.list_tools.count"@,
            TelemetryMetric::GetInfoCount => "apollo.mcp.get_info.count"@,
            TelemetryMetric::ToolCount => "apollo.mcp.tool.count"@,
            TelemetryMetric::ToolDuration => "apollo.mcp.tool.duration"@,
        }
    }

    /// Converts the metric to its name text.
    pub fn as_str(&self) -> (r: &'static str)
        ensures
            r@ == self.spec_key(),
    {
        match self {
            TelemetryMetric::InitializeCount => "apollo.mcp.initialize.count",
            TelemetryMetric::ListToolsCount => "apollo.mcp.list_tools.count",
            TelemetryMetric::GetInfoCount => "apollo.mcp.get_info.count",
            TelemetryMetric::ToolCount => "apollo.mcp.tool.count",
            TelemetryMetric::ToolDuration => "apollo.mcp.tool.duration",
        }
    }
}

} // verus!
