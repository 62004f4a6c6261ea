use mcp_server_core::telemetry::TelemetryAttribute;
use mcp_server_core::telemetry::TelemetryMetric;

#[test]
fn attribute_keys_are_dotted_names() {
    assert_eq!(TelemetryAttribute::ToolName.as_str(), "apollo.mcp.tool_name");
    assert_eq!(
        TelemetryAttribute::OperationId.as_str(),
        "apollo.mcp.operation_id"
    );
    assert_eq!(
        TelemetryAttribute::OperationSource.as_str(),
        "apollo.mcp.operation_source"
    );
    assert_eq!(TelemetryAttribute::Success.as_str(), "apollo.mcp.success");
    assert_eq!(
        TelemetryAttribute::RequestId.as_str(),
        "apollo.mcp.request_id"
    );
    assert_eq!(
        TelemetryAttribute::ClientName.as_str(),
        "apollo.mcp.client_name"
    );
    assert_eq!(
        TelemetryAttribute::ClientVersion.as_str(),
        "apollo.mcp.client_version"
    );
}

#[test]
fn metric_names_are_dotted_names() {
    assert_eq!(
        TelemetryMetric::InitializeCount.as_str(),
        "apollo.mcp.initialize.count"
    );
    assert_eq!(
        TelemetryMetric::ListToolsCount.as_str(),
        "apollo.mcp.list_tools.count"
    );
    assert_eq!(
        TelemetryMetric::GetInfoCount.as_str(),
        "apollo.mcp.get_info.count"
    );
    assert_eq!(TelemetryMetric::ToolCount.as_str(), "apollo.mcp.tool.count");
    assert_eq!(
        TelemetryMetric::ToolDuration.as_str(),
        "apollo.mcp.tool.duration"
    );
}

#[test]
fn included_attributes_drops_exactly_the_omitted_ones() {
    let omitted = vec![TelemetryAttribute::Success, TelemetryAttribute::RequestId];
    let included = TelemetryAttribute::included_attributes(&omitted);
    assert_eq!(
        included,
        vec![
            TelemetryAttribute::ToolName,
            TelemetryAttribute::OperationId,
            TelemetryAttribute::OperationSource,
            TelemetryAttribute::ClientName,
            TelemetryAttribute::ClientVersion,
        ]
    );

    let none_omitted: Vec<TelemetryAttribute> = vec![];
    assert_eq!(
        TelemetryAttribute::included_attributes(&none_omitted).len(),
        7
    );
}
