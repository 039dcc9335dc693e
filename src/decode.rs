use vstd::prelude::*;
use crate::node::Node;
use crate::node::field_of;
use crate::node::find_field;
use crate::error::Shape;
use crate::error::SegV;
use crate::error::FaultV;
use crate::error::SchemaError;
use crate::error::PathSeg;
use crate::error::missing;
use crate::error::mismatch;
use crate::error::under;
use crate::error::unknown;
use crate::fields::bad_field;
use crate::fields::text_field;
use crate::fields::opt_text_field;
use crate::fields::bool_field;
use crate::fields::port_field;
use crate::fields::number_field;
use crate::fields::opt_pairs_field;
use crate::fields::res_eq;
use crate::fields::text_field_of;
use crate::fields::opt_text_field_of;
use crate::fields::bool_field_of;
use crate::fields::port_field_of;
use crate::fields::number_field_of;
use crate::fields::opt_pairs_field_of;
use crate::types::CStreamConfig;
use crate::types::Engine;
use crate::types::PluginConfig;
use crate::types::SourceConfig;
use crate::types::ApiSource;
use crate::types::ApiRequest;
use crate::types::WebhookSource;
use crate::types::PipelineConfig;
use crate::types::TransformConfig;
use crate::types::OutputConfig;
use crate::types::WebhookOutput;
use crate::types::PostgresOutput;
use crate::types::DbConnection;
use crate::types::EngineV;
use crate::types::PluginV;
use crate::types::RequestV;
use crate::types::SourceV;
use crate::types::TransformV;
use crate::types::TransformType;
use crate::types::ConnectionV;
use crate::types::OutputV;
use crate::types::PipelineV;
use crate::types::ConfigV;

verus! {

/// Each item decoded in order; the first failure, placed under its index.
pub open spec fn list_of<V>(items: Seq<Node>, dec: spec_fn(Node) -> Result<V, FaultV>) -> Result<
    Seq<V>,
    FaultV,
>
    decreases items.len(),
{
    if items.len() == 0 {
        Ok(seq![])
    } else {
        match list_of(items.drop_last(), dec) {
            Err(f) => Err(f),
            Ok(p) => match dec(items.last()) {
                Ok(x) => Ok(p.push(x)),
                Err(f) => Err(under(SegV::Index(items.len() - 1), f)),
            },
        }
    }
}

/// A failure in a prefix of the items is the failure of the whole list.
pub proof fn lemma_list_prefix_err<V>(
    items: Seq<Node>,
    j: int,
    dec: spec_fn(Node) -> Result<V, FaultV>,
)
    requires
        0 <= j <= items.len(),
        list_of(items.take(j), dec).is_err(),
    ensures
        list_of(items, dec) == list_of(items.take(j), dec),
    decreases items.len(),
{
    if j < items.len() {
        assert(items.drop_last().take(j) =~= items.take(j));
        lemma_list_prefix_err(items.drop_last(), j, dec);
    } else {
        assert(items.take(j) =~= items);
    }
}

/// A mandatory sequence field.
pub open spec fn list_field<V>(
    n: Node,
    key: Seq<char>,
    dec: spec_fn(Node) -> Result<V, FaultV>,
) -> Result<Seq<V>, FaultV> {
    match field_of(n, key) {
        None => Err(missing(key)),
        Some(Node::List(items)) => match list_of(items@, dec) {
            Ok(s) => Ok(s),
            Err(f) => Err(under(SegV::Key(key), f)),
        },
        Some(v) => Err(bad_field(key, Shape::List, v)),
    }
}

/// An optional sequence field; an explicit null counts as absent.
pub open spec fn opt_list_field<V>(
    n: Node,
    key: Seq<char>,
    dec: spec_fn(Node) -> Result<V, FaultV>,
) -> Result<Option<Seq<V>>, FaultV> {
    match field_of(n, key) {
        None => Ok(None),
        Some(Node::Null) => Ok(None),
        Some(Node::List(items)) => match list_of(items@, dec) {
            Ok(s) => Ok(Some(s)),
            Err(f) => Err(under(SegV::Key(key), f)),
        },
        Some(v) => Err(bad_field(key, Shape::List, v)),
    }
}

/// A mandatory nested record.
pub open spec fn sub_field<V>(
    n: Node,
    key: Seq<char>,
    dec: spec_fn(Node) -> Result<V, FaultV>,
) -> Result<V, FaultV> {
    match field_of(n, key) {
        None => Err(missing(key)),
        Some(v) => match dec(v) {
            Ok(x) => Ok(x),
            Err(f) => Err(under(SegV::Key(key), f)),
        },
    }
}

pub open spec fn is_mapping(n: Node) -> bool {
    n is Mapping
}

pub open spec fn decode_engine(n: Node) -> Result<EngineV, FaultV> {
    if !is_mapping(n) {
        Err(mismatch(Shape::Mapping, n))
    } else {
        match number_field(n, "version"@) {
            Err(f) => Err(f),
            Ok(version) => match bool_field(n, "plugins_enabled"@) {
                Err(f) => Err(f),
                Ok(plugins_enabled) => match text_field(n, "schedule_interval"@) {
                    Err(f) => Err(f),
                    Ok(schedule_interval) => Ok(
                        EngineV { version, plugins_enabled, schedule_interval },
                    ),
                },
            },
        }
    }
}

pub open spec fn decode_plugin(n: Node) -> Result<PluginV, FaultV> {
    if !is_mapping(n) {
        Err(mismatch(Shape::Mapping, n))
    } else {
        match text_field(n, "name"@) {
            Err(f) => Err(f),
            Ok(name) => match text_field(n, "type"@) {
                Err(f) => Err(f),
                Ok(plugin_type) => match text_field(n, "path"@) {
                    Err(f) => Err(f),
                    Ok(path) => Ok(PluginV { name, plugin_type, path }),
                },
            },
        }
    }
}

pub open spec fn decode_request(n: Node) -> Result<RequestV, FaultV> {
    if !is_mapping(n) {
        Err(mismatch(Shape::Mapping, n))
    } else {
        match opt_text_field(n, "method"@) {
            Err(f) => Err(f),
            Ok(method) => match text_field(n, "url"@) {
                Err(f) => Err(f),
                Ok(url) => match opt_pairs_field(n, "headers"@) {
                    Err(f) => Err(f),
                    Ok(headers) => Ok(RequestV { method, url, headers }),
                },
            },
        }
    }
}

pub open spec fn decode_api(n: Node) -> Result<SourceV, FaultV> {
    match text_field(n, "id"@) {
        Err(f) => Err(f),
        Ok(id) => match opt_text_field(n, "interval"@) {
            Err(f) => Err(f),
            Ok(interval) => match sub_field(n, "request"@, |v: Node| decode_request(v)) {
                Err(f) => Err(f),
                Ok(request) => match opt_text_field(n, "response_path"@) {
                    Err(f) => Err(f),
                    Ok(response_path) => Ok(SourceV::Api { id, interval, request, response_path }),
                },
            },
        },
    }
}

pub open spec fn decode_webhook_source(n: Node) -> Result<SourceV, FaultV> {
    match text_field(n, "id"@) {
        Err(f) => Err(f),
        Ok(id) => match port_field(n, "listen_port"@) {
            Err(f) => Err(f),
            Ok(listen_port) => match text_field(n, "path"@) {
                Err(f) => Err(f),
                Ok(path) => match opt_text_field(n, "secret"@) {
                    Err(f) => Err(f),
                    Ok(secret) => Ok(SourceV::Webhook { id, listen_port, path, secret }),
                },
            },
        },
    }
}

/// A source: the `type` tag picks the variant, whose fields are then read.
pub open spec fn decode_source(n: Node) -> Result<SourceV, FaultV> {
    if !is_mapping(n) {
        Err(mismatch(Shape::Mapping, n))
    } else {
        match field_of(n, "type"@) {
            Some(Node::Text(t)) => if t@ == "api"@ {
                decode_api(n)
            } else if t@ == "webhook"@ {
                decode_webhook_source(n)
            } else {
                Err(unknown(Some(t@)))
            },
            _ => Err(unknown(None)),
        }
    }
}

pub open spec fn transform_type(n: Node) -> Result<TransformType, FaultV> {
    match field_of(n, "type"@) {
        Some(Node::Text(t)) => if t@ == "filter"@ {
            Ok(TransformType::Filter)
        } else if t@ == "rename"@ {
            Ok(TransformType::Rename)
        } else if t@ == "add_fields"@ {
            Ok(TransformType::AddFields)
        } else if t@ == "plugin"@ {
            Ok(TransformType::Plugin)
        } else {
            Err(unknown(Some(t@)))
        },
        _ => Err(unknown(None)),
    }
}

/// The first field that the transform's kind requires and that it lacks.
pub open spec fn transform_gap(t: TransformV) -> Option<Seq<char>> {
    match t.kind {
        TransformType::Filter => if t.field is None {
            Some("field"@)
        } else if t.op is None {
            Some("op"@)
        } else if t.value is None {
            Some("value"@)
        } else {
            None
        },
        TransformType::Rename => if t.map is None {
            Some("map"@)
        } else {
            None
        },
        TransformType::AddFields => if t.fields is None {
            Some("fields"@)
        } else {
            None
        },
        TransformType::Plugin => if t.name is None {
            Some("name"@)
        } else {
            None
        },
    }
}

/// The transform's fields as written, before the check of its kind.
pub open spec fn transform_fields(n: Node) -> Result<TransformV, FaultV> {
    match transform_type(n) {
        Err(f) => Err(f),
        Ok(kind) => match opt_text_field(n, "id"@) {
            Err(f) => Err(f),
            Ok(id) => match opt_text_field(n, "field"@) {
                Err(f) => Err(f),
                Ok(field) => match opt_text_field(n, "op"@) {
                    Err(f) => Err(f),
                    Ok(op) => match opt_text_field(n, "value"@) {
                        Err(f) => Err(f),
                        Ok(value) => match opt_pairs_field(n, "map"@) {
                            Err(f) => Err(f),
                            Ok(map) => match opt_pairs_field(n, "fields"@) {
                                Err(f) => Err(f),
                                Ok(fields) => match opt_text_field(n, "name"@) {
                                    Err(f) => Err(f),
                                    Ok(name) => Ok(
                                        TransformV { kind, id, field, op, value, map, fields, name },
                                    ),
                                },
                            },
                        },
                    },
                },
            },
        },
    }
}

/// A transform: its fields, then the fields that its kind requires.
pub open spec fn decode_transform(n: Node) -> Result<TransformV, FaultV> {
    if !is_mapping(n) {
        Err(mismatch(Shape::Mapping, n))
    } else {
        match transform_fields(n) {
            Err(f) => Err(f),
            Ok(t) => match transform_gap(t) {
                Some(k) => Err(missing(k)),
                None => Ok(t),
            },
        }
    }
}

pub open spec fn decode_connection(n: Node) -> Result<ConnectionV, FaultV> {
    if !is_mapping(n) {
        Err(mismatch(Shape::Mapping, n))
    } else {
        match text_field(n, "host"@) {
            Err(f) => Err(f),
            Ok(host) => match port_field(n, "port"@) {
                Err(f) => Err(f),
                Ok(port) => match text_field(n, "db"@) {
                    Err(f) => Err(f),
                    Ok(db) => match text_field(n, "user"@) {
                        Err(f) => Err(f),
                        Ok(user) => match text_field(n, "password"@) {
                            Err(f) => Err(f),
                            Ok(password) => Ok(ConnectionV { host, port, db, user, password }),
                        },
                    },
                },
            },
        }
    }
}

pub open spec fn decode_webhook_output(n: Node) -> Result<OutputV, FaultV> {
    match opt_text_field(n, "id"@) {
        Err(f) => Err(f),
        Ok(id) => match text_field(n, "url"@) {
            Err(f) => Err(f),
            Ok(url) => match opt_pairs_field(n, "headers"@) {
                Err(f) => Err(f),
                Ok(headers) => Ok(OutputV::Webhook { id, url, headers }),
            },
        },
    }
}

pub open spec fn decode_postgres(n: Node) -> Result<OutputV, FaultV> {
    match opt_text_field(n, "id"@) {
        Err(f) => Err(f),
        Ok(id) => match sub_field(n, "connection"@, |v: Node| decode_connection(v)) {
            Err(f) => Err(f),
            Ok(connection) => match text_field(n, "table"@) {
                Err(f) => Err(f),
                Ok(table) => match opt_pairs_field(n, "field_mapping"@) {
                    Err(f) => Err(f),
                    Ok(field_mapping) => Ok(
                        OutputV::Postgres { id, connection, table, field_mapping },
                    ),
                },
            },
        },
    }
}

/// An output: the `type` tag picks the variant, whose fields are then read.
pub open spec fn decode_output(n: Node) -> Result<OutputV, FaultV> {
    if !is_mapping(n) {
        Err(mismatch(Shape::Mapping, n))
    } else {
        match field_of(n, "type"@) {
            Some(Node::Text(t)) => if t@ == "webhook"@ {
                decode_webhook_output(n)
            } else if t@ == "postgres"@ {
                decode_postgres(n)
            } else {
                Err(unknown(Some(t@)))
            },
            _ => Err(unknown(None)),
        }
    }
}

pub open spec fn decode_pipeline(n: Node) -> Result<PipelineV, FaultV> {
    if !is_mapping(n) {
        Err(mismatch(Shape::Mapping, n))
    } else {
        match list_field(n, "transforms"@, transform_dec()) {
            Err(f) => Err(f),
            Ok(transforms) => match list_field(n, "outputs"@, output_dec()) {
                Err(f) => Err(f),
                Ok(outputs) => Ok(PipelineV { transforms, outputs }),
            },
        }
    }
}

pub open spec fn engine_dec() -> spec_fn(Node) -> Result<EngineV, FaultV> {
    |v: Node| decode_engine(v)
}

pub open spec fn plugin_dec() -> spec_fn(Node) -> Result<PluginV, FaultV> {
    |v: Node| decode_plugin(v)
}

pub open spec fn source_dec() -> spec_fn(Node) -> Result<SourceV, FaultV> {
    |v: Node| decode_source(v)
}

pub open spec fn transform_dec() -> spec_fn(Node) -> Result<TransformV, FaultV> {
    |v: Node| decode_transform(v)
}

pub open spec fn output_dec() -> spec_fn(Node) -> Result<OutputV, FaultV> {
    |v: Node| decode_output(v)
}

/// The whole document: `engine` first, then plugins, sources and pipeline.
pub open spec fn decode_config(n: Node) -> Result<ConfigV, FaultV> {
    if !is_mapping(n) {
        Err(mismatch(Shape::Mapping, n))
    } else {
        match sub_field(n, "engine"@, engine_dec()) {
            Err(f) => Err(f),
            Ok(engine) => match opt_list_field(n, "plugins"@, plugin_dec()) {
                Err(f) => Err(f),
                Ok(plugins) => match opt_list_field(n, "sources"@, source_dec()) {
                    Err(f) => Err(f),
                    Ok(sources) => match field_of(n, "pipeline"@) {
                        None => Ok(ConfigV { engine, plugins, sources, pipeline: None }),
                        Some(Node::Null) => Ok(ConfigV { engine, plugins, sources, pipeline: None }),
                        Some(v) => match decode_pipeline(v) {
                            Err(f) => Err(under(SegV::Key("pipeline"@), f)),
                            Ok(p) => Ok(ConfigV { engine, plugins, sources, pipeline: Some(p) }),
                        },
                    },
                },
            },
        }
    }
}

fn expect_mapping(n: &Node) -> (r: Result<(), SchemaError>)
    ensures
        r is Ok <==> is_mapping(*n),
        r matches Err(e) ==> e@ == mismatch(Shape::Mapping, *n),
{
    match n {
        Node::Mapping(_) => Ok(()),
        _ => Err(SchemaError::mismatch(Shape::Mapping, n)),
    }
}

impl Engine {
    pub fn from_node(n: &Node) -> (r: Result<Engine, SchemaError>)
        ensures
            res_eq(r, decode_engine(*n)),
    {
        if let Err(e) = expect_mapping(n) {
            return Err(e);
        }
        let version = match number_field_of(n, "version") {
            Ok(v) => v,
            Err(e) => return Err(e),
        };
        let plugins_enabled = match bool_field_of(n, "plugins_enabled") {
            Ok(v) => v,
            Err(e) => return Err(e),
        };
        let schedule_interval = match text_field_of(n, "schedule_interval") {
            Ok(v) => v,
            Err(e) => return Err(e),
        };
        Ok(Engine { version, plugins_enabled, schedule_interval })
    }
}

impl PluginConfig {
    pub fn from_node(n: &Node) -> (r: Result<PluginConfig, SchemaError>)
        ensures
            res_eq(r, decode_plugin(*n)),
    {
        if let Err(e) = expect_mapping(n) {
            return Err(e);
        }
        let name = match text_field_of(n, "name") {
            Ok(v) => v,
            Err(e) => return Err(e),
        };
        let plugin_type = match text_field_of(n, "type") {
            Ok(v) => v,
            Err(e) => return Err(e),
        };
        let path = match text_field_of(n, "path") {
            Ok(v) => v,
            Err(e) => return Err(e),
        };
        Ok(PluginConfig { name, plugin_type, path })
    }
}

impl ApiRequest {
    pub fn from_node(n: &Node) -> (r: Result<ApiRequest, SchemaError>)
        ensures
            res_eq(r, decode_request(*n)),
    {
        if let Err(e) = expect_mapping(n) {
            return Err(e);
        }
        let method = match opt_text_field_of(n, "method") {
            Ok(v) => v,
            Err(e) => return Err(e),
        };
        let url = match text_field_of(n, "url") {
            Ok(v) => v,
            Err(e) => return Err(e),
        };
        let headers = match opt_pairs_field_of(n, "headers") {
            Ok(v) => v,
            Err(e) => return Err(e),
        };
        Ok(ApiRequest { method, url, headers })
    }
}

impl ApiSource {
    /// Reads the fields of an `api` source; the tag has been read already.
    pub fn from_node(n: &Node) -> (r: Result<ApiSource, SchemaError>)
        ensures
            match r {
                Ok(a) => decode_api(*n) == Ok::<SourceV, FaultV>(SourceConfig::Api(a)@),
                Err(e) => decode_api(*n) == Err::<SourceV, FaultV>(e@),
            },
    {
        let id = match text_field_of(n, "id") {
            Ok(v) => v,
            Err(e) => return Err(e),
        };
        let interval = match opt_text_field_of(n, "interval") {
            Ok(v) => v,
            Err(e) => return Err(e),
        };
        let request = match find_field(n, "request") {
            None => return Err(SchemaError::missing("request")),
            Some(v) => match ApiRequest::from_node(v) {
                Ok(x) => x,
                Err(e) => return Err(e.under_key("request")),
            },
        };
        let response_path = match opt_text_field_of(n, "response_path") {
            Ok(v) => v,
            Err(e) => return Err(e),
        };
        Ok(ApiSource { id, interval, request, response_path })
    }
}

impl WebhookSource {
    /// Reads the fields of a `webhook` source; the tag has been read already.
    pub fn from_node(n: &Node) -> (r: Result<WebhookSource, SchemaError>)
        ensures
            match r {
                Ok(w) => decode_webhook_source(*n) == Ok::<SourceV, FaultV>(
                    SourceConfig::Webhook(w)@,
                ),
                Err(e) => decode_webhook_source(*n) == Err::<SourceV, FaultV>(e@),
            },
    {
        let id = match text_field_of(n, "id") {
            Ok(v) => v,
            Err(e) => return Err(e),
        };
        let listen_port = match port_field_of(n, "listen_port") {
            Ok(v) => v,
            Err(e) => return Err(e),
        };
        let path = match text_field_of(n, "path") {
            Ok(v) => v,
            Err(e) => return Err(e),
        };
        let secret = match opt_text_field_of(n, "secret") {
            Ok(v) => v,
            Err(e) => return Err(e),
        };
        Ok(WebhookSource { id, listen_port, path, secret })
    }
}

impl SourceConfig {
    pub fn from_node(n: &Node) -> (r: Result<SourceConfig, SchemaError>)
        ensures
            res_eq(r, decode_source(*n)),
    {
        if let Err(e) = expect_mapping(n) {
            return Err(e);
        }
        match find_field(n, "type") {
            Some(Node::Text(t)) => {
                if *t == "api".to_owned() {
                    match ApiSource::from_node(n) {
                        Ok(a) => Ok(SourceConfig::Api(a)),
                        Err(e) => Err(e),
                    }
                } else if *t == "webhook".to_owned() {
                    match WebhookSource::from_node(n) {
                        Ok(w) => Ok(SourceConfig::Webhook(w)),
                        Err(e) => Err(e),
                    }
                } else {
                    Err(SchemaError::unknown(Some(t.clone())))
                }
            },
            _ => Err(SchemaError::unknown(None)),
        }
    }
}


fn plugins_from(items: &Vec<Node>) -> (r: Result<Vec<PluginConfig>, SchemaError>)
    ensures
        match r {
            Ok(v) => list_of(items@, plugin_dec()) == Ok::<Seq<PluginV>, FaultV>(
                v@.map_values(|x: PluginConfig| x@),
            ),
            Err(e) => list_of(items@, plugin_dec()) == Err::<Seq<PluginV>, FaultV>(e@),
        },
{
    let mut out: Vec<PluginConfig> = Vec::new();
    let mut i: usize = 0;
    assert(items@.take(0) =~= Seq::<Node>::empty());
    assert(out@.map_values(|x: PluginConfig| x@) =~= Seq::<PluginV>::empty());
    while i < items.len()
        invariant
            0 <= i <= items@.len(),
            list_of(items@.take(i as int), plugin_dec()) == Ok::<Seq<PluginV>, FaultV>(
                out@.map_values(|x: PluginConfig| x@),
            ),
        decreases items@.len() - i,
    {
        assert(items@.take(i as int + 1).drop_last() =~= items@.take(i as int));
        assert(items@.take(i as int + 1).last() == items@[i as int]);
        match PluginConfig::from_node(&items[i]) {
            Ok(x) => {
                let ghost before = out@.map_values(|x: PluginConfig| x@);
                out.push(x);
                assert(out@.map_values(|x: PluginConfig| x@) =~= before.push(x@));
            },
            Err(e) => {
                let e = e.under(PathSeg::Index(i));
                proof {
                    lemma_list_prefix_err(items@, i as int + 1, plugin_dec());
                }
                return Err(e);
            },
        }
        i = i + 1;
    }
    assert(items@.take(i as int) =~= items@);
    Ok(out)
}

fn sources_from(items: &Vec<Node>) -> (r: Result<Vec<SourceConfig>, SchemaError>)
    ensures
        match r {
            Ok(v) => list_of(items@, source_dec()) == Ok::<Seq<SourceV>, FaultV>(
                v@.map_values(|x: SourceConfig| x@),
            ),
            Err(e) => list_of(items@, source_dec()) == Err::<Seq<SourceV>, FaultV>(e@),
        },
{
    let mut out: Vec<SourceConfig> = Vec::new();
    let mut i: usize = 0;
    assert(items@.take(0) =~= Seq::<Node>::empty());
    assert(out@.map_values(|x: SourceConfig| x@) =~= Seq::<SourceV>::empty());
    while i < items.len()
        invariant
            0 <= i <= items@.len(),
            list_of(items@.take(i as int), source_dec()) == Ok::<Seq<SourceV>, FaultV>(
                out@.map_values(|x: SourceConfig| x@),
            ),
        decreases items@.len() - i,
    {
        assert(items@.take(i as int + 1).drop_last() =~= items@.take(i as int));
        assert(items@.take(i as int + 1).last() == items@[i as int]);
        match SourceConfig::from_node(&items[i]) {
            Ok(x) => {
                let ghost before = out@.map_values(|x: SourceConfig| x@);
                out.push(x);
                assert(out@.map_values(|x: SourceConfig| x@) =~= before.push(x@));
            },
            Err(e) => {
                let e = e.under(PathSeg::Index(i));
                proof {
                    lemma_list_prefix_err(items@, i as int + 1, source_dec());
                }
                return Err(e);
            },
        }
        i = i + 1;
    }
    assert(items@.take(i as int) =~= items@);
    Ok(out)
}

fn transforms_from(items: &Vec<Node>) -> (r: Result<Vec<TransformConfig>, SchemaError>)
    ensures
        match r {
            Ok(v) => list_of(items@, transform_dec()) == Ok::<Seq<TransformV>, FaultV>(
                v@.map_values(|x: TransformConfig| x@),
            ),
            Err(e) => list_of(items@, transform_dec()) == Err::<Seq<TransformV>, FaultV>(e@),
        },
{
    let mut out: Vec<TransformConfig> = Vec::new();
    let mut i: usize = 0;
    assert(items@.take(0) =~= Seq::<Node>::empty());
    assert(out@.map_values(|x: TransformConfig| x@) =~= Seq::<TransformV>::empty());
    while i < items.len()
        invariant
            0 <= i <= items@.len(),
            list_of(items@.take(i as int), transform_dec()) == Ok::<Seq<TransformV>, FaultV>(
                out@.map_values(|x: TransformConfig| x@),
            ),
        decreases items@.len() - i,
    {
        assert(items@.take(i as int + 1).drop_last() =~= items@.take(i as int));
        assert(items@.take(i as int + 1).last() == items@[i as int]);
        match TransformConfig::from_node(&items[i]) {
            Ok(x) => {
                let ghost before = out@.map_values(|x: TransformConfig| x@);
                out.push(x);
                assert(out@.map_values(|x: TransformConfig| x@) =~= before.push(x@));
            },
            Err(e) => {
                let e = e.under(PathSeg::Index(i));
                proof {
                    lemma_list_prefix_err(items@, i as int + 1, transform_dec());
                }
                return Err(e);
            },
        }
        i = i + 1;
    }
    assert(items@.take(i as int) =~= items@);
    Ok(out)
}

fn outputs_from(items: &Vec<Node>) -> (r: Result<Vec<OutputConfig>, SchemaError>)
    ensures
        match r {
            Ok(v) => list_of(items@, output_dec()) == Ok::<Seq<OutputV>, FaultV>(
                v@.map_values(|x: OutputConfig| x@),
            ),
            Err(e) => list_of(items@, output_dec()) == Err::<Seq<OutputV>, FaultV>(e@),
        },
{
    let mut out: Vec<OutputConfig> = Vec::new();
    let mut i: usize = 0;
    assert(items@.take(0) =~= Seq::<Node>::empty());
    assert(out@.map_values(|x: OutputConfig| x@) =~= Seq::<OutputV>::empty());
    while i < items.len()
        invariant
            0 <= i <= items@.len(),
            list_of(items@.take(i as int), output_dec()) == Ok::<Seq<OutputV>, FaultV>(
                out@.map_values(|x: OutputConfig| x@),
            ),
        decreases items@.len() - i,
    {
        assert(items@.take(i as int + 1).drop_last() =~= items@.take(i as int));
        assert(items@.take(i as int + 1).last() == items@[i as int]);
        match OutputConfig::from_node(&items[i]) {
            Ok(x) => {
                let ghost before = out@.map_values(|x: OutputConfig| x@);
                out.push(x);
                assert(out@.map_values(|x: OutputConfig| x@) =~= before.push(x@));
            },
            Err(e) => {
                let e = e.under(PathSeg::Index(i));
                proof {
                    lemma_list_prefix_err(items@, i as int + 1, output_dec());
                }
                return Err(e);
            },
        }
        i = i + 1;
    }
    assert(items@.take(i as int) =~= items@);
    Ok(out)
}

impl TransformConfig {
    /// The check that a transform carries what its kind requires:
    /// `field`, `op` and `value` for a filter, `map` for a rename,
    /// `fields` for add-fields, `name` for a plugin.
    pub fn check_kind(&self) -> (r: Result<(), SchemaError>)
        ensures
            match transform_gap(self@) {
                None => r is Ok,
                Some(k) => r matches Err(e) && e@ == missing(k),
            },
    {
        match self.kind {
            TransformType::Filter => if self.field.is_none() {
                Err(SchemaError::missing("field"))
            } else if self.op.is_none() {
                Err(SchemaError::missing("op"))
            } else if self.value.is_none() {
                Err(SchemaError::missing("value"))
            } else {
                Ok(())
            },
            TransformType::Rename => if self.map.is_none() {
                Err(SchemaError::missing("map"))
            } else {
                Ok(())
            },
            TransformType::AddFields => if self.fields.is_none() {
                Err(SchemaError::missing("fields"))
            } else {
                Ok(())
            },
            TransformType::Plugin => if self.name.is_none() {
                Err(SchemaError::missing("name"))
            } else {
                Ok(())
            },
        }
    }

    pub fn from_node(n: &Node) -> (r: Result<TransformConfig, SchemaError>)
        ensures
            res_eq(r, decode_transform(*n)),
    {
        if let Err(e) = expect_mapping(n) {
            return Err(e);
        }
        let kind = match find_field(n, "type") {
            Some(Node::Text(t)) => {
                if *t == "filter".to_owned() {
                    TransformType::Filter
                } else if *t == "rename".to_owned() {
                    TransformType::Rename
                } else if *t == "add_fields".to_owned() {
                    TransformType::AddFields
                } else if *t == "plugin".to_owned() {
                    TransformType::Plugin
                } else {
                    return Err(SchemaError::unknown(Some(t.clone())));
                }
            },
            _ => return Err(SchemaError::unknown(None)),
        };
        let id = match opt_text_field_of(n, "id") {
            Ok(v) => v,
            Err(e) => return Err(e),
        };
        let field = match opt_text_field_of(n, "field") {
            Ok(v) => v,
            Err(e) => return Err(e),
        };
        let op = match opt_text_field_of(n, "op") {
            Ok(v) => v,
            Err(e) => return Err(e),
        };
        let value = match opt_text_field_of(n, "value") {
            Ok(v) => v,
            Err(e) => return Err(e),
        };
        let map = match opt_pairs_field_of(n, "map") {
            Ok(v) => v,
            Err(e) => return Err(e),
        };
        let fields = match opt_pairs_field_of(n, "fields") {
            Ok(v) => v,
            Err(e) => return Err(e),
        };
        let name = match opt_text_field_of(n, "name") {
            Ok(v) => v,
            Err(e) => return Err(e),
        };
        let t = TransformConfig { kind, id, field, op, value, map, fields, name };
        assert(transform_fields(*n) == Ok::<TransformV, FaultV>(t@));
        match t.check_kind() {
            Ok(()) => Ok(t),
            Err(e) => Err(e),
        }
    }
}

impl DbConnection {
    pub fn from_node(n: &Node) -> (r: Result<DbConnection, SchemaError>)
        ensures
            res_eq(r, decode_connection(*n)),
    {
        if let Err(e) = expect_mapping(n) {
            return Err(e);
        }
        let host = match text_field_of(n, "host") {
            Ok(v) => v,
            Err(e) => return Err(e),
        };
        let port = match port_field_of(n, "port") {
            Ok(v) => v,
            Err(e) => return Err(e),
        };
        let db = match text_field_of(n, "db") {
            Ok(v) => v,
            Err(e) => return Err(e),
        };
        let user = match text_field_of(n, "user") {
            Ok(v) => v,
            Err(e) => return Err(e),
        };
        let password = match text_field_of(n, "password") {
            Ok(v) => v,
            Err(e) => return Err(e),
        };
        Ok(DbConnection { host, port, db, user, password })
    }
}

impl WebhookOutput {
    /// Reads the fields of a `webhook` output; the tag has been read already.
    pub fn from_node(n: &Node) -> (r: Result<WebhookOutput, SchemaError>)
        ensures
            match r {
                Ok(w) => decode_webhook_output(*n) == Ok::<OutputV, FaultV>(
                    OutputConfig::Webhook(w)@,
                ),
                Err(e) => decode_webhook_output(*n) == Err::<OutputV, FaultV>(e@),
            },
    {
        let id = match opt_text_field_of(n, "id") {
            Ok(v) => v,
            Err(e) => return Err(e),
        };
        let url = match text_field_of(n, "url") {
            Ok(v) => v,
            Err(e) => return Err(e),
        };
        let headers = match opt_pairs_field_of(n, "headers") {
            Ok(v) => v,
            Err(e) => return Err(e),
        };
        Ok(WebhookOutput { id, url, headers })
    }
}

impl PostgresOutput {
    /// Reads the fields of a `postgres` output; the tag has been read already.
    pub fn from_node(n: &Node) -> (r: Result<PostgresOutput, SchemaError>)
        ensures
            match r {
                Ok(p) => decode_postgres(*n) == Ok::<OutputV, FaultV>(OutputConfig::Postgres(p)@),
                Err(e) => decode_postgres(*n) == Err::<OutputV, FaultV>(e@),
            },
    {
        let id = match opt_text_field_of(n, "id") {
            Ok(v) => v,
            Err(e) => return Err(e),
        };
        let connection = match find_field(n, "connection") {
            None => return Err(SchemaError::missing("connection")),
            Some(v) => match DbConnection::from_node(v) {
                Ok(x) => x,
                Err(e) => return Err(e.under_key("connection")),
            },
        };
        let table = match text_field_of(n, "table") {
            Ok(v) => v,
            Err(e) => return Err(e),
        };
        let field_mapping = match opt_pairs_field_of(n, "field_mapping") {
            Ok(v) => v,
            Err(e) => return Err(e),
        };
        Ok(PostgresOutput { id, connection, table, field_mapping })
    }
}

impl OutputConfig {
    pub fn from_node(n: &Node) -> (r: Result<OutputConfig, SchemaError>)
        ensures
            res_eq(r, decode_output(*n)),
    {
        if let Err(e) = expect_mapping(n) {
            return Err(e);
        }
        match find_field(n, "type") {
            Some(Node::Text(t)) => {
                if *t == "webhook".to_owned() {
                    match WebhookOutput::from_node(n) {
                        Ok(w) => Ok(OutputConfig::Webhook(w)),
                        Err(e) => Err(e),
                    }
                } else if *t == "postgres".to_owned() {
                    match PostgresOutput::from_node(n) {
                        Ok(p) => Ok(OutputConfig::Postgres(p)),
                        Err(e) => Err(e),
                    }
                } else {
                    Err(SchemaError::unknown(Some(t.clone())))
                }
            },
            _ => Err(SchemaError::unknown(None)),
        }
    }
}

impl PipelineConfig {
    pub fn from_node(n: &Node) -> (r: Result<PipelineConfig, SchemaError>)
        ensures
            res_eq(r, decode_pipeline(*n)),
    {
        if let Err(e) = expect_mapping(n) {
            return Err(e);
        }
        let transforms = match find_field(n, "transforms") {
            None => return Err(SchemaError::missing("transforms")),
            Some(Node::List(items)) => match transforms_from(items) {
                Ok(v) => v,
                Err(e) => return Err(e.under_key("transforms")),
            },
            Some(v) => return Err(SchemaError::mismatch(Shape::List, v).under_key("transforms")),
        };
        let outputs = match find_field(n, "outputs") {
            None => return Err(SchemaError::missing("outputs")),
            Some(Node::List(items)) => match outputs_from(items) {
                Ok(v) => v,
                Err(e) => return Err(e.under_key("outputs")),
            },
            Some(v) => return Err(SchemaError::mismatch(Shape::List, v).under_key("outputs")),
        };
        Ok(PipelineConfig { transforms, outputs })
    }
}

impl CStreamConfig {
    /// Decodes and validates a parsed document, stopping at the first violation.
    pub fn from_node(n: &Node) -> (r: Result<CStreamConfig, SchemaError>)
        ensures
            res_eq(r, decode_config(*n)),
    {
        if let Err(e) = expect_mapping(n) {
            return Err(e);
        }
        let engine = match find_field(n, "engine") {
            None => return Err(SchemaError::missing("engine")),
            Some(v) => match Engine::from_node(v) {
                Ok(x) => x,
                Err(e) => return Err(e.under_key("engine")),
            },
        };
        let plugins = match find_field(n, "plugins") {
            None => None,
            Some(Node::Null) => None,
            Some(Node::List(items)) => match plugins_from(items) {
                Ok(v) => Some(v),
                Err(e) => return Err(e.under_key("plugins")),
            },
            Some(v) => return Err(SchemaError::mismatch(Shape::List, v).under_key("plugins")),
        };
        let sources = match find_field(n, "sources") {
            None => None,
            Some(Node::Null) => None,
            Some(Node::List(items)) => match sources_from(items) {
                Ok(v) => Some(v),
                Err(e) => return Err(e.under_key("sources")),
            },
            Some(v) => return Err(SchemaError::mismatch(Shape::List, v).under_key("sources")),
        };
        let pipeline = match find_field(n, "pipeline") {
            None => None,
            Some(Node::Null) => None,
            Some(v) => match PipelineConfig::from_node(v) {
                Ok(p) => Some(p),
                Err(e) => return Err(e.under_key("pipeline")),
            },
        };
        Ok(CStreamConfig { engine, plugins, sources, pipeline })
    }
}

} // verus!
