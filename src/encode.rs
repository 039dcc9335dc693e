use vstd::prelude::*;
use crate::node::Node;
use crate::node::Numeral;
use crate::node::entry_at;
use crate::error::FaultV;
use crate::error::opt_str;
use crate::fields::pairs_of;
use crate::decode::decode_engine;
use crate::decode::decode_plugin;
use crate::decode::decode_request;
use crate::decode::decode_source;
use crate::decode::decode_transform;
use crate::decode::decode_connection;
use crate::decode::decode_output;
use crate::decode::decode_pipeline;
use crate::decode::decode_config;
use crate::decode::transform_gap;
use crate::decode::list_of;
use crate::decode::plugin_dec;
use crate::decode::source_dec;
use crate::decode::transform_dec;
use crate::decode::output_dec;
use crate::types::Pairs;
use crate::types::pairs_view;
use crate::types::opt_pairs;
use crate::types::CStreamConfig;
use crate::types::Engine;
use crate::types::PluginConfig;
use crate::types::SourceConfig;
use crate::types::ApiRequest;
use crate::types::PipelineConfig;
use crate::types::TransformConfig;
use crate::types::TransformType;
use crate::types::OutputConfig;
use crate::types::DbConnection;
use crate::types::EngineV;
use crate::types::PluginV;
use crate::types::RequestV;
use crate::types::SourceV;
use crate::types::TransformV;
use crate::types::OutputV;
use crate::types::ConnectionV;
use crate::types::PipelineV;
use crate::types::ConfigV;

verus! {

impl Numeral {
    pub fn duplicate(&self) -> (r: Numeral)
        ensures
            r@ == self@,
    {
        match self {
            Numeral::Int(i) => Numeral::Int(*i),
            Numeral::Real(s) => Numeral::Real(s.clone()),
        }
    }
}

/// Appends an entry; a lookup then finds what it found before, else the new entry.
fn put(es: &mut Vec<(String, Node)>, key: &str, v: Node)
    ensures
        final(es)@ == old(es)@.push((final(es)@.last().0, v)),
        final(es)@.last().0@ == key@,
        forall|k: Seq<char>|
            #![trigger entry_at(final(es)@, k)]
            entry_at(final(es)@, k) == match entry_at(old(es)@, k) {
                Some(x) => Some(x),
                None => if key@ == k {
                    Some(v)
                } else {
                    None
                },
            },
{
    es.push((key.to_owned(), v));
    assert(final(es)@.drop_last() =~= old(es)@);
}


/// An optional string as a node: null when absent.
fn opt_text_node(o: &Option<String>) -> (r: Node)
    ensures
        match opt_str(*o) {
            Some(t) => r matches Node::Text(x) && x@ == t,
            None => r is Null,
        },
{
    match o {
        Some(t) => Node::Text(t.clone()),
        None => Node::Null,
    }
}

fn pairs_entries(p: &Pairs) -> (r: Vec<(String, Node)>)
    ensures
        pairs_of(r@) == Ok::<_, FaultV>(pairs_view(*p)),
{
    let mut out: Vec<(String, Node)> = Vec::new();
    let mut i: usize = 0;
    assert(pairs_view(*p).take(0) =~= Seq::<(Seq<char>, Seq<char>)>::empty());
    while i < p.len()
        invariant
            0 <= i <= p@.len(),
            pairs_of(out@) == Ok::<_, FaultV>(pairs_view(*p).take(i as int)),
        decreases p@.len() - i,
    {
        let ghost before = out@;
        out.push((p[i].0.clone(), Node::Text(p[i].1.clone())));
        assert(out@.drop_last() =~= before);
        assert(pairs_view(*p).take(i as int + 1) =~= pairs_view(*p).take(i as int).push(
            (p@[i as int].0@, p@[i as int].1@),
        ));
        i = i + 1;
    }
    assert(pairs_view(*p).take(i as int) =~= pairs_view(*p));
    out
}

/// An optional string mapping as a node: null when absent.
fn opt_pairs_node(o: &Option<Pairs>) -> (r: Node)
    ensures
        match opt_pairs(*o) {
            Some(p) => r matches Node::Mapping(es) && pairs_of(es@) == Ok::<_, FaultV>(p),
            None => r is Null,
        },
{
    match o {
        Some(p) => Node::Mapping(pairs_entries(p)),
        None => Node::Null,
    }
}

impl Engine {
    /// The document tree that writes these settings out.
    pub fn to_node(&self) -> (r: Node)
        ensures
            decode_engine(r) == Ok::<EngineV, FaultV>(self@),
    {
        let mut es: Vec<(String, Node)> = Vec::new();
        put(&mut es, "version", Node::Num(self.version.duplicate()));
        put(&mut es, "plugins_enabled", Node::Bool(self.plugins_enabled));
        put(&mut es, "schedule_interval", Node::Text(self.schedule_interval.clone()));
        proof {
            reveal_strlit("version");
            reveal_strlit("plugins_enabled");
            reveal_strlit("schedule_interval");
            assert("version"@.len() == 7 && "plugins_enabled"@.len() == 15);
            assert("schedule_interval"@.len() == 17);
        }
        Node::Mapping(es)
    }
}

impl PluginConfig {
    pub fn to_node(&self) -> (r: Node)
        ensures
            decode_plugin(r) == Ok::<PluginV, FaultV>(self@),
    {
        let mut es: Vec<(String, Node)> = Vec::new();
        put(&mut es, "name", Node::Text(self.name.clone()));
        put(&mut es, "type", Node::Text(self.plugin_type.clone()));
        put(&mut es, "path", Node::Text(self.path.clone()));
        proof {
            reveal_strlit("name");
            reveal_strlit("type");
            reveal_strlit("path");
            assert("name"@[0] != "type"@[0] && "name"@[0] != "path"@[0] && "type"@[0] != "path"@[0]);
        }
        Node::Mapping(es)
    }
}

impl ApiRequest {
    pub fn to_node(&self) -> (r: Node)
        ensures
            decode_request(r) == Ok::<RequestV, FaultV>(self@),
    {
        let mut es: Vec<(String, Node)> = Vec::new();
        put(&mut es, "method", opt_text_node(&self.method));
        put(&mut es, "url", Node::Text(self.url.clone()));
        put(&mut es, "headers", opt_pairs_node(&self.headers));
        proof {
            reveal_strlit("method");
            reveal_strlit("url");
            reveal_strlit("headers");
            assert("method"@.len() == 6 && "url"@.len() == 3 && "headers"@.len() == 7);
        }
        Node::Mapping(es)
    }
}

impl SourceConfig {
    pub fn to_node(&self) -> (r: Node)
        ensures
            decode_source(r) == Ok::<SourceV, FaultV>(self@),
    {
        let mut es: Vec<(String, Node)> = Vec::new();
        match self {
            SourceConfig::Api(a) => {
                put(&mut es, "type", Node::Text("api".to_owned()));
                put(&mut es, "id", Node::Text(a.id.clone()));
                put(&mut es, "interval", opt_text_node(&a.interval));
                put(&mut es, "request", a.request.to_node());
                put(&mut es, "response_path", opt_text_node(&a.response_path));
                proof {
                    reveal_strlit("type");
                    reveal_strlit("id");
                    reveal_strlit("interval");
                    reveal_strlit("request");
                    reveal_strlit("response_path");
                    reveal_strlit("api");
                    reveal_strlit("webhook");
                    assert("type"@.len() == 4 && "id"@.len() == 2 && "interval"@.len() == 8);
                    assert("request"@.len() == 7 && "response_path"@.len() == 13);
                    assert("api"@.len() == 3);
                }
            },
            SourceConfig::Webhook(w) => {
                put(&mut es, "type", Node::Text("webhook".to_owned()));
                put(&mut es, "id", Node::Text(w.id.clone()));
                put(&mut es, "listen_port", Node::Num(Numeral::Int(w.listen_port as i64)));
                put(&mut es, "path", Node::Text(w.path.clone()));
                put(&mut es, "secret", opt_text_node(&w.secret));
                proof {
                    reveal_strlit("type");
                    reveal_strlit("id");
                    reveal_strlit("listen_port");
                    reveal_strlit("path");
                    reveal_strlit("secret");
                    reveal_strlit("api");
                    reveal_strlit("webhook");
                    assert("type"@[0] != "path"@[0] && "id"@.len() == 2 && "listen_port"@.len() == 11);
                    assert("secret"@.len() == 6 && "api"@.len() == 3 && "webhook"@.len() == 7);
                }
            },
        }
        Node::Mapping(es)
    }
}

impl TransformConfig {
    /// Requires that the transform carries what its kind needs: one that
    /// does not could not be read back.
    pub fn to_node(&self) -> (r: Node)
        requires
            transform_gap(self@) is None,
        ensures
            decode_transform(r) == Ok::<TransformV, FaultV>(self@),
    {
        let tag = match self.kind {
            TransformType::Filter => "filter",
            TransformType::Rename => "rename",
            TransformType::AddFields => "add_fields",
            TransformType::Plugin => "plugin",
        };
        let mut es: Vec<(String, Node)> = Vec::new();
        put(&mut es, "type", Node::Text(tag.to_owned()));
        put(&mut es, "id", opt_text_node(&self.id));
        put(&mut es, "field", opt_text_node(&self.field));
        put(&mut es, "op", opt_text_node(&self.op));
        put(&mut es, "value", opt_text_node(&self.value));
        put(&mut es, "map", opt_pairs_node(&self.map));
        put(&mut es, "fields", opt_pairs_node(&self.fields));
        put(&mut es, "name", opt_text_node(&self.name));
        proof {
            reveal_strlit("type");
            reveal_strlit("id");
            reveal_strlit("field");
            reveal_strlit("op");
            reveal_strlit("value");
            reveal_strlit("map");
            reveal_strlit("fields");
            reveal_strlit("name");
            reveal_strlit("filter");
            reveal_strlit("rename");
            reveal_strlit("add_fields");
            reveal_strlit("plugin");
            assert("type"@[0] != "name"@[0] && "id"@[0] != "op"@[0] && "field"@[0] != "value"@[0]);
            assert("map"@.len() == 3 && "fields"@.len() == 6);
            assert("filter"@[0] != "rename"@[0] && "filter"@[0] != "plugin"@[0]);
            assert("rename"@[0] != "plugin"@[0] && "add_fields"@.len() == 10);
        }
        Node::Mapping(es)
    }
}

impl DbConnection {
    pub fn to_node(&self) -> (r: Node)
        ensures
            decode_connection(r) == Ok::<ConnectionV, FaultV>(self@),
    {
        let mut es: Vec<(String, Node)> = Vec::new();
        put(&mut es, "host", Node::Text(self.host.clone()));
        put(&mut es, "port", Node::Num(Numeral::Int(self.port as i64)));
        put(&mut es, "db", Node::Text(self.db.clone()));
        put(&mut es, "user", Node::Text(self.user.clone()));
        put(&mut es, "password", Node::Text(self.password.clone()));
        proof {
            reveal_strlit("host");
            reveal_strlit("port");
            reveal_strlit("db");
            reveal_strlit("user");
            reveal_strlit("password");
            assert("host"@[0] != "port"@[0] && "host"@[0] != "user"@[0] && "port"@[0] != "user"@[0]);
            assert("db"@.len() == 2 && "password"@.len() == 8);
        }
        Node::Mapping(es)
    }
}

impl OutputConfig {
    pub fn to_node(&self) -> (r: Node)
        ensures
            decode_output(r) == Ok::<OutputV, FaultV>(self@),
    {
        let mut es: Vec<(String, Node)> = Vec::new();
        match self {
            OutputConfig::Webhook(w) => {
                put(&mut es, "type", Node::Text("webhook".to_owned()));
                put(&mut es, "id", opt_text_node(&w.id));
                put(&mut es, "url", Node::Text(w.url.clone()));
                put(&mut es, "headers", opt_pairs_node(&w.headers));
                proof {
                    reveal_strlit("type");
                    reveal_strlit("id");
                    reveal_strlit("url");
                    reveal_strlit("headers");
                    reveal_strlit("webhook");
                    reveal_strlit("postgres");
                    assert("type"@.len() == 4 && "id"@.len() == 2 && "url"@.len() == 3);
                    assert("headers"@.len() == 7 && "webhook"@.len() == 7);
                }
            },
            OutputConfig::Postgres(p) => {
                put(&mut es, "type", Node::Text("postgres".to_owned()));
                put(&mut es, "id", opt_text_node(&p.id));
                put(&mut es, "connection", p.connection.to_node());
                put(&mut es, "table", Node::Text(p.table.clone()));
                put(&mut es, "field_mapping", opt_pairs_node(&p.field_mapping));
                proof {
                    reveal_strlit("type");
                    reveal_strlit("id");
                    reveal_strlit("connection");
                    reveal_strlit("table");
                    reveal_strlit("field_mapping");
                    reveal_strlit("webhook");
                    reveal_strlit("postgres");
                    assert("type"@.len() == 4 && "id"@.len() == 2 && "connection"@.len() == 10);
                    assert("table"@.len() == 5 && "field_mapping"@.len() == 13);
                    assert("webhook"@.len() == 7 && "postgres"@.len() == 8);
                }
            },
        }
        Node::Mapping(es)
    }
}

fn plugins_node(xs: &Vec<PluginConfig>) -> (r: Vec<Node>)
    ensures
        list_of(r@, plugin_dec()) == Ok::<_, FaultV>(xs@.map_values(|x: PluginConfig| x@)),
{
    let mut out: Vec<Node> = Vec::new();
    let mut i: usize = 0;
    assert(xs@.map_values(|x: PluginConfig| x@).take(0) =~= Seq::<PluginV>::empty());
    while i < xs.len()
        invariant
            0 <= i <= xs@.len(),
            list_of(out@, plugin_dec()) == Ok::<_, FaultV>(
                xs@.map_values(|x: PluginConfig| x@).take(i as int),
            ),
        decreases xs@.len() - i,
    {
        let ghost before = out@;
        out.push(xs[i].to_node());
        assert(out@.drop_last() =~= before);
        assert(xs@.map_values(|x: PluginConfig| x@).take(i as int + 1) =~= xs@.map_values(
            |x: PluginConfig| x@,
        ).take(i as int).push(xs@[i as int]@));
        i = i + 1;
    }
    assert(xs@.map_values(|x: PluginConfig| x@).take(i as int) =~= xs@.map_values(|x: PluginConfig| x@));
    out
}

fn sources_node(xs: &Vec<SourceConfig>) -> (r: Vec<Node>)
    ensures
        list_of(r@, source_dec()) == Ok::<_, FaultV>(xs@.map_values(|x: SourceConfig| x@)),
{
    let mut out: Vec<Node> = Vec::new();
    let mut i: usize = 0;
    assert(xs@.map_values(|x: SourceConfig| x@).take(0) =~= Seq::<SourceV>::empty());
    while i < xs.len()
        invariant
            0 <= i <= xs@.len(),
            list_of(out@, source_dec()) == Ok::<_, FaultV>(
                xs@.map_values(|x: SourceConfig| x@).take(i as int),
            ),
        decreases xs@.len() - i,
    {
        let ghost before = out@;
        out.push(xs[i].to_node());
        assert(out@.drop_last() =~= before);
        assert(xs@.map_values(|x: SourceConfig| x@).take(i as int + 1) =~= xs@.map_values(
            |x: SourceConfig| x@,
        ).take(i as int).push(xs@[i as int]@));
        i = i + 1;
    }
    assert(xs@.map_values(|x: SourceConfig| x@).take(i as int) =~= xs@.map_values(|x: SourceConfig| x@));
    out
}

fn transforms_node(xs: &Vec<TransformConfig>) -> (r: Vec<Node>)
    requires
        forall|j: int| 0 <= j < xs@.len() ==> transform_gap(#[trigger] xs@[j]@) is None,
    ensures
        list_of(r@, transform_dec()) == Ok::<_, FaultV>(xs@.map_values(|x: TransformConfig| x@)),
{
    let mut out: Vec<Node> = Vec::new();
    let mut i: usize = 0;
    assert(xs@.map_values(|x: TransformConfig| x@).take(0) =~= Seq::<TransformV>::empty());
    while i < xs.len()
        invariant
            0 <= i <= xs@.len(),
            forall|j: int| 0 <= j < xs@.len() ==> transform_gap(#[trigger] xs@[j]@) is None,
            list_of(out@, transform_dec()) == Ok::<_, FaultV>(
                xs@.map_values(|x: TransformConfig| x@).take(i as int),
            ),
        decreases xs@.len() - i,
    {
        let ghost before = out@;
        out.push(xs[i].to_node());
        assert(out@.drop_last() =~= before);
        assert(xs@.map_values(|x: TransformConfig| x@).take(i as int + 1) =~= xs@.map_values(
            |x: TransformConfig| x@,
        ).take(i as int).push(xs@[i as int]@));
        i = i + 1;
    }
    assert(xs@.map_values(|x: TransformConfig| x@).take(i as int) =~= xs@.map_values(|x: TransformConfig| x@));
    out
}

fn outputs_node(xs: &Vec<OutputConfig>) -> (r: Vec<Node>)
    ensures
        list_of(r@, output_dec()) == Ok::<_, FaultV>(xs@.map_values(|x: OutputConfig| x@)),
{
    let mut out: Vec<Node> = Vec::new();
    let mut i: usize = 0;
    assert(xs@.map_values(|x: OutputConfig| x@).take(0) =~= Seq::<OutputV>::empty());
    while i < xs.len()
        invariant
            0 <= i <= xs@.len(),
            list_of(out@, output_dec()) == Ok::<_, FaultV>(
                xs@.map_values(|x: OutputConfig| x@).take(i as int),
            ),
        decreases xs@.len() - i,
    {
        let ghost before = out@;
        out.push(xs[i].to_node());
        assert(out@.drop_last() =~= before);
        assert(xs@.map_values(|x: OutputConfig| x@).take(i as int + 1) =~= xs@.map_values(
            |x: OutputConfig| x@,
        ).take(i as int).push(xs@[i as int]@));
        i = i + 1;
    }
    assert(xs@.map_values(|x: OutputConfig| x@).take(i as int) =~= xs@.map_values(|x: OutputConfig| x@));
    out
}

impl PipelineConfig {
    pub fn to_node(&self) -> (r: Node)
        requires
            forall|j: int|
                0 <= j < self.transforms@.len() ==> transform_gap(#[trigger] self.transforms@[j]@)
                    is None,
        ensures
            decode_pipeline(r) == Ok::<PipelineV, FaultV>(self@),
    {
        let mut es: Vec<(String, Node)> = Vec::new();
        put(&mut es, "transforms", Node::List(transforms_node(&self.transforms)));
        put(&mut es, "outputs", Node::List(outputs_node(&self.outputs)));
        proof {
            reveal_strlit("transforms");
            reveal_strlit("outputs");
            assert("transforms"@.len() == 10 && "outputs"@.len() == 7);
        }
        Node::Mapping(es)
    }
}

/// Every transform of the configuration carries what its kind requires.
pub open spec fn transforms_complete(c: CStreamConfig) -> bool {
    c.pipeline matches Some(p) ==> forall|j: int|
        0 <= j < p.transforms@.len() ==> transform_gap(#[trigger] p.transforms@[j]@) is None
}

impl CStreamConfig {
    /// Writes the configuration out as a document tree. Reading that tree
    /// back gives the same configuration: every variant tag and every absent
    /// optional field comes back as it was.
    pub fn to_node(&self) -> (r: Node)
        requires
            transforms_complete(*self),
        ensures
            decode_config(r) == Ok::<ConfigV, FaultV>(self@),
    {
        let mut es: Vec<(String, Node)> = Vec::new();
        put(&mut es, "engine", self.engine.to_node());
        let plugins = match &self.plugins {
            Some(v) => Node::List(plugins_node(v)),
            None => Node::Null,
        };
        put(&mut es, "plugins", plugins);
        let sources = match &self.sources {
            Some(v) => Node::List(sources_node(v)),
            None => Node::Null,
        };
        put(&mut es, "sources", sources);
        let pipeline = match &self.pipeline {
            Some(p) => p.to_node(),
            None => Node::Null,
        };
        put(&mut es, "pipeline", pipeline);
        proof {
            reveal_strlit("engine");
            reveal_strlit("plugins");
            reveal_strlit("sources");
            reveal_strlit("pipeline");
            assert("engine"@.len() == 6 && "plugins"@[0] != "sources"@[0]);
            assert("pipeline"@.len() == 8);
        }
        Node::Mapping(es)
    }
}

} // verus!
