use cstream::error::ConfigError;
use cstream::error::PathSeg;
use cstream::error::SchemaError;
use cstream::error::SchemaErrorKind;
use cstream::error::Shape;
use cstream::message::decimal_text;
use cstream::node::Node;
use cstream::node::Numeral;
use cstream::syntax::parse_config;
use cstream::syntax::parse_document;
use cstream::types::ApiRequest;
use cstream::types::ApiSource;
use cstream::types::CStreamConfig;
use cstream::types::DbConnection;
use cstream::types::Engine;
use cstream::types::PipelineConfig;
use cstream::types::PluginConfig;
use cstream::types::PostgresOutput;
use cstream::types::WebhookOutput;
use cstream::types::WebhookSource;
use cstream::types::OutputConfig;
use cstream::types::SourceConfig;
use cstream::types::TransformConfig;
use cstream::types::TransformType;

const ENGINE: &str = "engine:\n  version: 1.0\n  plugins_enabled: false\n  schedule_interval: \"5m\"\n";

fn schema_error(text: &str) -> SchemaError {
    match parse_config(text) {
        Err(ConfigError::Schema(e)) => e,
        other => panic!("expected a schema error, got {:?}", other),
    }
}

fn path_text(e: &SchemaError) -> Vec<String> {
    e.path
        .iter()
        .map(|s| match s {
            PathSeg::Key(k) => k.clone(),
            PathSeg::Index(i) => format!("[{}]", i),
        })
        .collect()
}

fn ok(text: &str) -> CStreamConfig {
    match parse_config(text) {
        Ok(c) => c,
        Err(e) => panic!("expected success, got {:?}", e),
    }
}

#[test]
fn minimal_document_has_only_engine() {
    let c = ok(ENGINE);
    assert!(matches!(c.engine.version, Numeral::Real(_)));
    assert!(!c.engine.plugins_enabled);
    assert_eq!(c.engine.schedule_interval, "5m");
    assert!(c.plugins.is_none());
    assert!(c.sources.is_none());
    assert!(c.pipeline.is_none());
}

#[test]
fn integer_version_is_kept() {
    let c = ok("engine:\n  version: 2\n  plugins_enabled: true\n  schedule_interval: 1h\n");
    assert!(matches!(c.engine.version, Numeral::Int(2)));
    assert!(c.engine.plugins_enabled);
}

fn webhook_doc(port: &str) -> String {
    format!(
        "{}sources:\n  - type: webhook\n    id: hook\n    listen_port: {}\n    path: \"/events\"\n",
        ENGINE, port
    )
}

#[test]
fn webhook_source_port_parses() {
    let c = ok(&webhook_doc("8080"));
    let sources = c.sources.unwrap();
    assert_eq!(sources.len(), 1);
    match &sources[0] {
        SourceConfig::Webhook(w) => {
            assert_eq!(w.listen_port, 8080);
            assert_eq!(w.id, "hook");
            assert_eq!(w.path, "/events");
            assert!(w.secret.is_none());
        }
        other => panic!("wrong variant {:?}", other),
    }
}

#[test]
fn webhook_source_port_out_of_range() {
    let e = schema_error(&webhook_doc("99999"));
    assert!(matches!(
        e.kind,
        SchemaErrorKind::TypeMismatch { expected: Shape::Port, actual: Shape::Integer, .. }
    ));
    assert_eq!(path_text(&e), vec!["sources", "[0]", "listen_port"]);
    assert!(matches!(e.kind, SchemaErrorKind::TypeMismatch { number: Some(99999), .. }));
}

#[test]
fn port_boundaries_accepted() {
    assert!(parse_config(&webhook_doc("0")).is_ok());
    assert!(parse_config(&webhook_doc("65535")).is_ok());
    assert!(parse_config(&webhook_doc("65536")).is_err());
    match parse_config(&webhook_doc("-1")) {
        Err(ConfigError::Schema(e)) => assert_eq!(
            e.message(),
            "at `sources[0].listen_port`: expected an integer in 0..=65535, found an integer (-1)"
        ),
        other => panic!("expected a schema error, got {:?}", other),
    }
}

#[test]
fn port_as_string_is_a_type_mismatch() {
    let e = schema_error(&webhook_doc("\"8080\""));
    assert!(matches!(
        e.kind,
        SchemaErrorKind::TypeMismatch { expected: Shape::Port, actual: Shape::Text, .. }
    ));
}

fn pipeline_doc(transform: &str) -> String {
    format!(
        "{}pipeline:\n  transforms:\n    - {}\n  outputs: []\n",
        ENGINE, transform
    )
}

#[test]
fn filter_transform_parses() {
    let c = ok(&pipeline_doc("{type: filter, field: \"status\", op: \"eq\", value: \"active\"}"));
    let p = c.pipeline.unwrap();
    assert_eq!(p.transforms.len(), 1);
    let t = &p.transforms[0];
    assert_eq!(t.kind, TransformType::Filter);
    assert_eq!(t.field.as_deref(), Some("status"));
    assert_eq!(t.op.as_deref(), Some("eq"));
    assert_eq!(t.value.as_deref(), Some("active"));
    assert!(p.outputs.is_empty());
}

#[test]
fn filter_without_op_fails_cross_field() {
    let e = schema_error(&pipeline_doc("{type: filter, field: \"status\", value: \"active\"}"));
    assert!(matches!(e.kind, SchemaErrorKind::MissingField));
    assert_eq!(path_text(&e), vec!["pipeline", "transforms", "[0]", "op"]);
}

#[test]
fn rename_with_only_map_succeeds() {
    let c = ok(&pipeline_doc("{type: rename, map: {a: b, c: d}}"));
    let t = &c.pipeline.unwrap().transforms[0];
    assert_eq!(t.kind, TransformType::Rename);
    let map = t.map.as_ref().unwrap();
    assert_eq!(map, &vec![("a".to_string(), "b".to_string()), ("c".to_string(), "d".to_string())]);
}

#[test]
fn each_kind_names_its_missing_field() {
    for (kind, field) in [("rename", "map"), ("add_fields", "fields"), ("plugin", "name")] {
        let e = schema_error(&pipeline_doc(&format!("{{type: {}}}", kind)));
        assert!(matches!(e.kind, SchemaErrorKind::MissingField));
        assert_eq!(path_text(&e).last().unwrap(), field);
    }
}

#[test]
fn unknown_transform_tag() {
    let e = schema_error(&pipeline_doc("{type: explode}"));
    match &e.kind {
        SchemaErrorKind::UnknownVariant(Some(t)) => assert_eq!(t.as_str(), "explode"),
        other => panic!("wrong kind {:?}", other),
    }
    assert_eq!(path_text(&e), vec!["pipeline", "transforms", "[0]", "type"]);
}

#[test]
fn unknown_source_tag() {
    let e = schema_error(&format!("{}sources:\n  - type: kafka\n    id: k\n", ENGINE));
    match &e.kind {
        SchemaErrorKind::UnknownVariant(Some(t)) => assert_eq!(t.as_str(), "kafka"),
        other => panic!("wrong kind {:?}", other),
    }
}

#[test]
fn source_without_tag() {
    let e = schema_error(&format!("{}sources:\n  - id: k\n", ENGINE));
    assert!(matches!(e.kind, SchemaErrorKind::UnknownVariant(None)));
}

#[test]
fn unknown_output_tag() {
    let text = format!("{}pipeline:\n  transforms: []\n  outputs:\n    - type: s3\n", ENGINE);
    let e = schema_error(&text);
    match &e.kind {
        SchemaErrorKind::UnknownVariant(Some(t)) => assert_eq!(t.as_str(), "s3"),
        other => panic!("wrong kind {:?}", other),
    }
    assert_eq!(path_text(&e), vec!["pipeline", "outputs", "[0]", "type"]);
}

const CONNECTION: &str = "      connection: {host: db, port: 5432, db: main, user: app, password: pw}\n";

#[test]
fn postgres_output_without_table() {
    let text = format!(
        "{}pipeline:\n  transforms: []\n  outputs:\n    - type: postgres\n{}",
        ENGINE, CONNECTION
    );
    let e = schema_error(&text);
    assert!(matches!(e.kind, SchemaErrorKind::MissingField));
    assert_eq!(path_text(&e), vec!["pipeline", "outputs", "[0]", "table"]);
}

#[test]
fn postgres_output_complete() {
    let text = format!(
        "{}pipeline:\n  transforms: []\n  outputs:\n    - type: postgres\n      table: events\n      field_mapping: {{user_id: uid}}\n{}",
        ENGINE, CONNECTION
    );
    let c = ok(&text);
    match &c.pipeline.unwrap().outputs[0] {
        OutputConfig::Postgres(p) => {
            assert_eq!(p.table, "events");
            assert_eq!(p.connection.port, 5432);
            assert_eq!(p.connection.password, "pw");
            assert!(p.id.is_none());
            assert_eq!(
                p.field_mapping.as_ref().unwrap(),
                &vec![("user_id".to_string(), "uid".to_string())]
            );
        }
        other => panic!("wrong variant {:?}", other),
    }
}

#[test]
fn connection_port_out_of_range() {
    let text = format!(
        "{}pipeline:\n  transforms: []\n  outputs:\n    - type: postgres\n      table: t\n      connection: {{host: db, port: 70000, db: main, user: app, password: pw}}\n",
        ENGINE
    );
    let e = schema_error(&text);
    assert_eq!(path_text(&e), vec!["pipeline", "outputs", "[0]", "connection", "port"]);
}

#[test]
fn missing_engine() {
    let e = schema_error("sources:\n  - type: nonsense\n");
    assert!(matches!(e.kind, SchemaErrorKind::MissingField));
    assert_eq!(path_text(&e), vec!["engine"]);
}

#[test]
fn engine_missing_each_field() {
    for field in ["version", "plugins_enabled", "schedule_interval"] {
        let lines: Vec<&str> = ENGINE.lines().filter(|l| !l.contains(field)).collect();
        let e = schema_error(&(lines.join("\n") + "\n"));
        assert!(matches!(e.kind, SchemaErrorKind::MissingField));
        assert_eq!(path_text(&e), vec!["engine", field]);
    }
}

#[test]
fn api_source_with_headers() {
    let text = format!(
        "{}sources:\n  - type: api\n    id: feed\n    interval: 10s\n    request:\n      url: \"http://x/y\"\n      headers: {{Accept: json}}\n",
        ENGINE
    );
    let c = ok(&text);
    match &c.sources.unwrap()[0] {
        SourceConfig::Api(a) => {
            assert_eq!(a.id, "feed");
            assert_eq!(a.interval.as_deref(), Some("10s"));
            assert!(a.request.method.is_none());
            assert_eq!(a.request.url, "http://x/y");
            assert_eq!(
                a.request.headers.as_ref().unwrap(),
                &vec![("Accept".to_string(), "json".to_string())]
            );
            assert!(a.response_path.is_none());
        }
        other => panic!("wrong variant {:?}", other),
    }
}

#[test]
fn api_source_without_url() {
    let text = format!("{}sources:\n  - type: api\n    id: feed\n    request: {{method: GET}}\n", ENGINE);
    let e = schema_error(&text);
    assert_eq!(path_text(&e), vec!["sources", "[0]", "request", "url"]);
}

#[test]
fn header_value_must_be_text() {
    let text = format!(
        "{}pipeline:\n  transforms: []\n  outputs:\n    - type: webhook\n      url: u\n      headers: {{X-Count: 3}}\n",
        ENGINE
    );
    let e = schema_error(&text);
    assert!(matches!(
        e.kind,
        SchemaErrorKind::TypeMismatch { expected: Shape::Text, actual: Shape::Integer, .. }
    ));
    assert_eq!(path_text(&e), vec!["pipeline", "outputs", "[0]", "headers", "X-Count"]);
}

#[test]
fn plugins_parse_in_order() {
    let text = format!(
        "{}plugins:\n  - {{name: a, type: wasm, path: /p/a}}\n  - {{name: b, type: native, path: /p/b}}\n",
        ENGINE
    );
    let plugins = ok(&text).plugins.unwrap();
    assert_eq!(plugins.len(), 2);
    assert_eq!(plugins[0].name, "a");
    assert_eq!(plugins[0].plugin_type, "wasm");
    assert_eq!(plugins[1].path, "/p/b");
}

#[test]
fn malformed_yaml_is_a_syntax_error() {
    match parse_config("engine: [unclosed\n") {
        Err(ConfigError::Syntax(e)) => assert!(!e.message.is_empty()),
        other => panic!("expected a syntax error, got {:?}", other),
    }
}

#[test]
fn root_must_be_a_mapping() {
    let e = schema_error("- 1\n- 2\n");
    assert!(matches!(
        e.kind,
        SchemaErrorKind::TypeMismatch { expected: Shape::Mapping, actual: Shape::List, .. }
    ));
    assert!(e.path.is_empty());
}

#[test]
fn document_tree_keeps_values_and_order() {
    let n = parse_document("b: 1\na: [x, 2.5, true, ~]\n").unwrap();
    match n {
        Node::Mapping(es) => {
            assert_eq!(es.len(), 2);
            assert_eq!(es[0].0, "b");
            assert!(matches!(es[0].1, Node::Num(Numeral::Int(1))));
            assert_eq!(es[1].0, "a");
            match &es[1].1 {
                Node::List(items) => {
                    assert!(matches!(&items[0], Node::Text(s) if s == "x"));
                    assert!(matches!(&items[1], Node::Num(Numeral::Real(s)) if s == "2.5"));
                    assert!(matches!(items[2], Node::Bool(true)));
                    assert!(matches!(items[3], Node::Null));
                }
                other => panic!("not a list {:?}", other),
            }
        }
        other => panic!("not a mapping {:?}", other),
    }
}

#[test]
fn check_kind_on_built_transform() {
    let t = TransformConfig {
        kind: TransformType::Filter,
        id: None,
        field: Some("status".to_string()),
        op: None,
        value: Some("x".to_string()),
        map: None,
        fields: None,
        name: None,
    };
    let e = t.check_kind().unwrap_err();
    assert!(matches!(e.kind, SchemaErrorKind::MissingField));
    assert_eq!(path_text(&e), vec!["op"]);
}

#[test]
fn built_configuration_round_trips_through_tree() {
    let c = CStreamConfig {
        engine: Engine { version: Numeral::Real("1.5".to_string()), plugins_enabled: true, schedule_interval: "5m".to_string() },
        plugins: Some(vec![PluginConfig { name: "p".to_string(), plugin_type: "wasm".to_string(), path: "/x".to_string() }]),
        sources: Some(vec![
            SourceConfig::Api(ApiSource {
                id: "a".to_string(),
                interval: None,
                request: ApiRequest { method: Some("GET".to_string()), url: "u".to_string(), headers: Some(vec![("k".to_string(), "v".to_string())]) },
                response_path: Some("data".to_string()),
            }),
            SourceConfig::Webhook(WebhookSource { id: "w".to_string(), listen_port: 65535, path: "/h".to_string(), secret: None }),
        ]),
        pipeline: Some(PipelineConfig {
            transforms: vec![TransformConfig {
                kind: TransformType::AddFields,
                id: Some("t".to_string()),
                field: None,
                op: None,
                value: None,
                map: None,
                fields: Some(vec![("env".to_string(), "prod".to_string())]),
                name: None,
            }],
            outputs: vec![
                OutputConfig::Webhook(WebhookOutput { id: None, url: "o".to_string(), headers: None }),
                OutputConfig::Postgres(PostgresOutput {
                    id: Some("pg".to_string()),
                    connection: DbConnection { host: "h".to_string(), port: 0, db: "d".to_string(), user: "u".to_string(), password: "p".to_string() },
                    table: "t".to_string(),
                    field_mapping: None,
                }),
            ],
        }),
    };
    let back = CStreamConfig::from_node(&c.to_node()).unwrap();
    assert_eq!(format!("{:?}", back), format!("{:?}", c));
}

#[test]
fn decimal_text_writes_digits() {
    assert_eq!(decimal_text(0), "0");
    assert_eq!(decimal_text(7), "7");
    assert_eq!(decimal_text(1234), "1234");
    assert_eq!(decimal_text(usize::MAX), usize::MAX.to_string());
}

#[test]
fn message_names_cross_field_gap() {
    let e = schema_error(&pipeline_doc("{type: filter, field: \"status\", value: \"active\"}"));
    assert_eq!(e.message(), "missing mandatory field `pipeline.transforms[0].op`");
}

#[test]
fn message_for_port_range() {
    let e = schema_error(&webhook_doc("99999"));
    assert_eq!(
        e.message(),
        "at `sources[0].listen_port`: expected an integer in 0..=65535, found an integer (99999)"
    );
}

#[test]
fn message_for_unknown_tag_and_root() {
    let e = schema_error(&pipeline_doc("{type: explode}"));
    assert_eq!(e.message(), "unknown variant `explode` at `pipeline.transforms[0].type`");
    let e = schema_error("- 1\n");
    assert_eq!(e.message(), "at `the document root`: expected a mapping, found a sequence");
    let e = schema_error(&format!("{}sources:\n  - id: k\n", ENGINE));
    assert_eq!(e.message(), "missing or non-string variant tag at `sources[0].type`");
}
