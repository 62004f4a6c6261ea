use mcp_server_core::cors::CorsConfig;
use mcp_server_core::graphql::SchemaDocument;
use mcp_server_core::headers::HeaderList;
use mcp_server_core::operations::MutationMode;
use mcp_server_core::operations::RawOperation;
use mcp_server_core::operations::compile_batch;
use mcp_server_core::operations::compile_operation;
use mcp_server_core::server::HealthCheckConfig;
use mcp_server_core::server::Server;
use mcp_server_core::server::ServerSettings;
use mcp_server_core::server::Transport;

const SCHEMA: &str = "type Query { id: String }";

fn raw(source: &str) -> RawOperation {
    RawOperation::from((source.to_string(), None))
}

fn running_core() -> mcp_server_core::running::ServerCore {
    let settings = ServerSettings {
        transport: Transport::StreamableHttp {
            auth: None,
            address: "127.0.0.1".to_string(),
            port: 7799,
            stateful_mode: false,
        },
        endpoint: "http://localhost:4000".to_string(),
        headers: HeaderList::new(),
        execute_introspection: false,
        validate_introspection: false,
        introspect_introspection: false,
        introspect_minify: false,
        search_minify: false,
        search_introspection: false,
        explorer_graph_ref: None,
        custom_scalar_map: None,
        mutation_mode: MutationMode::Disabled,
        disable_type_description: false,
        disable_schema_description: false,
        disable_auth_token_passthrough: false,
        search_leaf_depth: 5,
        index_memory_bytes: 1024 * 1024,
        health_check: HealthCheckConfig { enabled: false },
        cors: CorsConfig::default(),
        token_manager: None,
    };
    Server::new(settings).start(SCHEMA.to_string(), vec![])
}

#[test]
fn invalid_operations_should_not_crash_server() {
    let mut running = running_core();

    let operations = vec![
        RawOperation::from((
            "query Valid { id }".to_string(),
            Some("valid.graphql".to_string()),
        )),
        RawOperation::from((
            "query Invalid {{ id }".to_string(),
            Some("invalid.graphql".to_string()),
        )),
        RawOperation::from((
            "query { id }".to_string(),
            Some("unnamed.graphql".to_string()),
        )),
    ];

    running.update_operations(operations);
    let updated_operations = &running.operations;

    assert_eq!(updated_operations.len(), 1);
    assert_eq!(updated_operations.first().unwrap().name, "Valid");
}

#[test]
fn a_valid_named_query_compiles_to_its_name() {
    let op = compile_operation(SCHEMA, &raw("query GetId { id }"), MutationMode::Disabled)
        .expect("a valid named query compiles");
    assert_eq!(op.name, "GetId");
    assert_eq!(op.source_text, "query GetId { id }");
}

#[test]
fn a_broken_document_does_not_compile() {
    assert!(compile_operation(SCHEMA, &raw("query Broken {{ id }"), MutationMode::All).is_none());
}

#[test]
fn an_anonymous_operation_does_not_compile() {
    assert!(compile_operation(SCHEMA, &raw("query { id }"), MutationMode::All).is_none());
    assert!(compile_operation(SCHEMA, &raw("{ id }"), MutationMode::All).is_none());
}

#[test]
fn a_document_with_two_operations_does_not_compile() {
    let two = "query A { id } query B { id }";
    assert!(compile_operation(SCHEMA, &raw(two), MutationMode::All).is_none());
}

#[test]
fn a_schema_invalid_operation_does_not_compile() {
    assert!(compile_operation(SCHEMA, &raw("query Q { missing }"), MutationMode::All).is_none());
}

#[test]
fn mutations_compile_only_when_the_mode_permits_them() {
    let schema = "type Query { id: String } type Mutation { bump: Int }";
    let m = "mutation Bump { bump }";
    assert!(compile_operation(schema, &raw(m), MutationMode::Disabled).is_none());
    let explicit = compile_operation(schema, &raw(m), MutationMode::Explicit)
        .expect("an explicit mutation compiles when permitted");
    assert_eq!(explicit.name, "Bump");
    assert!(compile_operation(schema, &raw(m), MutationMode::All).is_some());
}

#[test]
fn a_broken_schema_compiles_nothing() {
    let broken_schema = "type Query {";
    assert!(compile_operation(broken_schema, &raw("query Q { id }"), MutationMode::All).is_none());
}

#[test]
fn schema_validation_accepts_only_valid_schemas() {
    let ok = SchemaDocument::validate(SCHEMA.to_string());
    assert!(ok.is_some());
    assert_eq!(ok.unwrap().text, SCHEMA);
    assert!(SchemaDocument::validate("type Query {".to_string()).is_none());
    assert!(SchemaDocument::validate("type Broken { id: Missing }".to_string()).is_none());
}

#[test]
fn compilation_is_deterministic() {
    let a = compile_operation(SCHEMA, &raw("query GetId { id }"), MutationMode::Disabled);
    let b = compile_operation(SCHEMA, &raw("query GetId { id }"), MutationMode::Disabled);
    match (a, b) {
        (Some(x), Some(y)) => {
            assert_eq!(x.name, y.name);
            assert_eq!(x.source_text, y.source_text);
        }
        _ => panic!("the same inputs must compile the same way"),
    }
}

#[test]
fn batch_keeps_valid_operations_in_order() {
    let raws = vec![
        raw("query First { id }"),
        raw("query Broken {{"),
        raw("query Second { id }"),
    ];
    let compiled = compile_batch(SCHEMA, &raws, MutationMode::Disabled);
    let names: Vec<&str> = compiled.iter().map(|o| o.name.as_str()).collect();
    assert_eq!(names, vec!["First", "Second"]);
}

#[test]
fn update_schema_recompiles_the_held_operations() {
    let mut running = running_core();
    running.update_operations(vec![raw("query Q { id }"), raw("query R { id }")]);
    assert_eq!(running.operations.len(), 2);

    // The new schema renames the field, so both held operations drop out.
    running.update_schema("type Query { name: String }".to_string());
    assert_eq!(running.operations.len(), 0);
    assert_eq!(running.schema_text, "type Query { name: String }");
    // The raw forms are kept, so a schema that fits them again revives them.
    running.update_schema(SCHEMA.to_string());
    assert_eq!(running.operations.len(), 2);
    assert_eq!(running.operations[0].name, "Q");
    assert_eq!(running.operations[1].name, "R");
}

#[test]
fn list_tools_reports_operations_before_builtins() {
    let settings = ServerSettings {
        execute_introspection: true,
        validate_introspection: true,
        ..running_settings_template()
    };
    let mut core = Server::new(settings).start(SCHEMA.to_string(), vec![]);
    core.update_operations(vec![raw("query Zeta { id }")]);
    assert_eq!(
        core.list_tools(),
        vec!["Zeta".to_string(), "execute".to_string(), "validate".to_string()]
    );
}

fn running_settings_template() -> ServerSettings {
    ServerSettings {
        transport: Transport::Stdio,
        endpoint: "http://localhost:4000".to_string(),
        headers: HeaderList::new(),
        execute_introspection: false,
        validate_introspection: false,
        introspect_introspection: false,
        introspect_minify: false,
        search_minify: false,
        search_introspection: false,
        explorer_graph_ref: None,
        custom_scalar_map: None,
        mutation_mode: MutationMode::Disabled,
        disable_type_description: false,
        disable_schema_description: false,
        disable_auth_token_passthrough: false,
        search_leaf_depth: 5,
        index_memory_bytes: 1024 * 1024,
        health_check: HealthCheckConfig { enabled: false },
        cors: CorsConfig::default(),
        token_manager: None,
    }
}
