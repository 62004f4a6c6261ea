//! The server configuration and the one-way lifecycle step that builds the
//! running server's shared state from it.
//!
//! Binding listeners, installing transports and serving connections happen
//! outside the library; the lifecycle step here performs everything that
//! decides state: compiling the initial operations, choosing the built-in
//! tool set, and deciding whether a health check is attached.

use vstd::prelude::*;

use crate::authgate::AuthConfig;
use crate::cors::CorsConfig;
use crate::headers::HeaderList;
use crate::headers::spec_get;
use crate::operations::MutationMode;
use crate::operations::RawOperation;
use crate::operations::compile_batch;
use crate::operations::ops_match;
use crate::operations::raw_sources;
use crate::operations::spec_compile_batch;
use crate::running::BuiltinToggles;
use crate::running::ServerCore;
use crate::token::TokenManager;

verus! {

/// The transport the server listens on.
pub enum Transport {
    /// Standard streams.
    Stdio,
    /// Server-Sent Events on the given address and port.
    SSE { auth: Option<AuthConfig>, address: String, port: u16 },
    /// Streaming HTTP on the given address and port.
    StreamableHttp { auth: Option<AuthConfig>, address: String, port: u16, stateful_mode: bool },
}

impl Transport {
    /// The address bound when none is configured.
    pub fn default_address() -> (r: String)
        ensures
            r@ == "127.0.0.1"@,
    {
        "127.0.0.1".to_owned()
    }

    /// The port bound when none is configured.
    pub fn default_port() -> (r: u16)
        ensures
            r == 5000,
    {
        5000
    }

    /// Whether streaming HTTP keeps session state when not configured.
    pub fn default_stateful_mode() -> (r: bool)
        ensures
            r,
    {
        true
    }
}

/// Health-check configuration.
pub struct HealthCheckConfig {
    /// Whether the health check is enabled.
    pub enabled: bool,
}

impl Default for HealthCheckConfig {
    /// Disabled unless configured.
    fn default() -> (r: HealthCheckConfig)
        ensures
            !r.enabled,
    {
        HealthCheckConfig { enabled: false }
    }
}

/// Everything a server is built from.
pub struct ServerSettings {
    pub transport: Transport,
    pub endpoint: String,
    pub headers: HeaderList,
    pub execute_introspection: bool,
    pub validate_introspection: bool,
    pub introspect_introspection: bool,
    pub introspect_minify: bool,
    pub search_minify: bool,
    pub search_introspection: bool,
    pub explorer_graph_ref: Option<String>,
    pub custom_scalar_map: Option<String>,
    pub mutation_mode: MutationMode,
    pub disable_type_description: bool,
    pub disable_schema_description: bool,
    pub disable_auth_token_passthrough: bool,
    pub search_leaf_depth: usize,
    pub index_memory_bytes: usize,
    pub health_check: HealthCheckConfig,
    pub cors: CorsConfig,
    pub token_manager: Option<TokenManager>,
}

/// A configured server, ready for its one-way start.
pub struct Server {
    pub settings: ServerSettings,
}

impl Server {
    /// Takes the settings in, forcing the outbound content type to JSON:
    /// the `content-type` header is set to `application/json`, and every
    /// other configured header keeps its value.
    pub fn new(settings: ServerSettings) -> (r: Server)
        ensures
            spec_get(r.settings.headers.entries@, "content-type"@) == Some("application/json"@),
            forall|n: Seq<char>|
                n != "content-type"@ ==> spec_get(r.settings.headers.entries@, n) == spec_get(
                    settings.headers.entries@,
                    n,
                ),
            r.settings.transport == settings.transport,
            r.settings.endpoint == settings.endpoint,
            r.settings.execute_introspection == settings.execute_introspection,
            r.settings.validate_introspection == settings.validate_introspection,
            r.settings.introspect_introspection == settings.introspect_introspection,
            r.settings.introspect_minify == settings.introspect_minify,
            r.settings.search_minify == settings.search_minify,
            r.settings.search_introspection == settings.search_introspection,
            r.settings.explorer_graph_ref == settings.explorer_graph_ref,
            r.settings.custom_scalar_map == settings.custom_scalar_map,
            r.settings.mutation_mode == settings.mutation_mode,
            r.settings.disable_type_description == settings.disable_type_description,
            r.settings.disable_schema_description == settings.disable_schema_description,
            r.settings.disable_auth_token_passthrough == settings.disable_auth_token_passthrough,
            r.settings.search_leaf_depth == settings.search_leaf_depth,
            r.settings.index_memory_bytes == settings.index_memory_bytes,
            r.settings.health_check == settings.health_check,
            r.settings.cors == settings.cors,
            r.settings.token_manager == settings.token_manager,
    {
        let mut settings = settings;
        settings.headers.insert("content-type", "application/json");
        Server { settings }
    }

    /// The one-way lifecycle transition: builds the running server's shared
    /// state from the configuration, the initially loaded schema, and the
    /// raw operations. Raw operations that fail to compile are dropped —
    /// startup goes on without them. The built-in tool set follows the
    /// introspection toggles, the explorer tool exists exactly when a graph
    /// reference is configured, and a health check is attached only on the
    /// streaming-HTTP transport with the health check enabled.
    pub fn start(self, schema_text: String, operations: Vec<RawOperation>) -> (r: ServerCore)
        ensures
            r.schema_text@ == schema_text@,
            r.raw_operations@ == operations@,
            ops_match(
                r.operations@,
                spec_compile_batch(
                    schema_text@,
                    raw_sources(operations@),
                    self.settings.mutation_mode,
                ),
            ),
            r.wf(),
            r.mutation_mode == self.settings.mutation_mode,
            r.disable_type_description == self.settings.disable_type_description,
            r.disable_schema_description == self.settings.disable_schema_description,
            r.disable_auth_token_passthrough == self.settings.disable_auth_token_passthrough,
            r.endpoint == self.settings.endpoint,
            r.headers == self.settings.headers,
            r.peers@.len() == 0,
            r.builtins == (BuiltinToggles {
                execute: self.settings.execute_introspection,
                introspect: self.settings.introspect_introspection,
                search: self.settings.search_introspection,
                explorer: self.settings.explorer_graph_ref is Some,
                validate: self.settings.validate_introspection,
            }),
            r.health_check == (self.settings.health_check.enabled
                && self.settings.transport is StreamableHttp),
    {
        let compiled = compile_batch(schema_text.as_str(), &operations, self.settings.mutation_mode);
        let health_check = self.settings.health_check.enabled && matches!(
            self.settings.transport,
            Transport::StreamableHttp { .. },
        );
        let core = ServerCore {
            schema_text,
            raw_operations: operations,
            operations: compiled,
            mutation_mode: self.settings.mutation_mode,
            disable_type_description: self.settings.disable_type_description,
            disable_schema_description: self.settings.disable_schema_description,
            disable_auth_token_passthrough: self.settings.disable_auth_token_passthrough,
            endpoint: self.settings.endpoint,
            headers: self.settings.headers,
            peers: Vec::new(),
            builtins: BuiltinToggles {
                execute: self.settings.execute_introspection,
                introspect: self.settings.introspect_introspection,
                search: self.settings.search_introspection,
                explorer: matches!(self.settings.explorer_graph_ref, Some(_)),
                validate: self.settings.validate_introspection,
            },
            health_check,
        };
        proof {
            crate::running::lemma_wf_intro(&core);
        }
        core
    }
}

/// The server name reported to clients, carrying the configured customer
/// identifier when one is present and non-empty.
pub fn server_name_for(customer_id: Option<&str>) -> (r: String)
    ensures
        match customer_id {
            Some(c) => if c@.len() > 0 {
                r@ == "Apollo MCP Server - "@ + c@
            } else {
                r@ == "Apollo MCP Server"@
            },
            None => r@ == "Apollo MCP Server"@,
        },
{
    match customer_id {
        Some(c) => {
            if c.unicode_len() > 0 {
                let mut s = "Apollo MCP Server - ".to_owned();
                s.append(c);
                s
            } else {
                "Apollo MCP Server".to_owned()
            }
        },
        None => "Apollo MCP Server".to_owned(),
    }
}

/// Whether a configuration value turns token refresh on: exactly the text
/// `true` does.
pub fn token_refresh_flag_enabled(value: Option<&str>) -> (r: bool)
    ensures
        r == match value {
            Some(v) => v@ == "true"@,
            None => false,
        },
{
    match value {
        Some(v) => crate::text::str_eq(v, "true"),
        None => false,
    }
}

} // verus!
