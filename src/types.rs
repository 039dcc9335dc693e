use vstd::prelude::*;
use crate::node::Numeral;
use crate::error::opt_str;

verus! {

pub enum NumeralV {
    Int(int),
    Real(Seq<char>),
}

impl View for Numeral {
    type V = NumeralV;

    open spec fn view(&self) -> NumeralV {
        match self {
            Numeral::Int(i) => NumeralV::Int(*i as int),
            Numeral::Real(s) => NumeralV::Real(s@),
        }
    }
}

/// A string-to-string mapping (headers, renames, column names) in document order.
pub type Pairs = Vec<(String, String)>;

pub open spec fn pairs_view(p: Pairs) -> Seq<(Seq<char>, Seq<char>)> {
    p@.map_values(|e: (String, String)| (e.0@, e.1@))
}

pub open spec fn opt_pairs(o: Option<Pairs>) -> Option<Seq<(Seq<char>, Seq<char>)>> {
    match o {
        Some(p) => Some(pairs_view(p)),
        None => None,
    }
}

/// The whole configuration document.
#[derive(Debug)]
pub struct CStreamConfig {
    pub engine: Engine,
    pub plugins: Option<Vec<PluginConfig>>,
    pub sources: Option<Vec<SourceConfig>>,
    pub pipeline: Option<PipelineConfig>,
}

/// Engine-level settings.
#[derive(Debug)]
pub struct Engine {
    pub version: Numeral,
    pub plugins_enabled: bool,
    pub schedule_interval: String,
}

#[derive(Debug)]
pub struct PluginConfig {
    pub name: String,
    /// Written `type` in the document.
    pub plugin_type: String,
    pub path: String,
}

#[derive(Debug)]
pub enum SourceConfig {
    Api(ApiSource),
    Webhook(WebhookSource),
}

#[derive(Debug)]
pub struct ApiSource {
    pub id: String,
    pub interval: Option<String>,
    pub request: ApiRequest,
    pub response_path: Option<String>,
}

#[derive(Debug)]
pub struct ApiRequest {
    pub method: Option<String>,
    pub url: String,
    pub headers: Option<Pairs>,
}

#[derive(Debug)]
pub struct WebhookSource {
    pub id: String,
    pub listen_port: u16,
    pub path: String,
    pub secret: Option<String>,
}

#[derive(Debug)]
pub struct PipelineConfig {
    /// In execution order.
    pub transforms: Vec<TransformConfig>,
    pub outputs: Vec<OutputConfig>,
}

/// A transform stage: a kind and the fields that kinds draw from.
/// A decoded value always carries the fields its kind requires.
#[derive(Debug)]
pub struct TransformConfig {
    pub kind: TransformType,
    pub id: Option<String>,
    pub field: Option<String>,
    pub op: Option<String>,
    pub value: Option<String>,
    pub map: Option<Pairs>,
    pub fields: Option<Pairs>,
    pub name: Option<String>,
}

#[derive(Debug, Clone, Copy, PartialEq, Eq)]
pub enum TransformType {
    Filter,
    Rename,
    AddFields,
    Plugin,
}

#[derive(Debug)]
pub enum OutputConfig {
    Webhook(WebhookOutput),
    Postgres(PostgresOutput),
}

#[derive(Debug)]
pub struct WebhookOutput {
    pub id: Option<String>,
    pub url: String,
    pub headers: Option<Pairs>,
}

#[derive(Debug)]
pub struct PostgresOutput {
    pub id: Option<String>,
    pub connection: DbConnection,
    pub table: String,
    pub field_mapping: Option<Pairs>,
}

#[derive(Debug)]
pub struct DbConnection {
    pub host: String,
    pub port: u16,
    pub db: String,
    pub user: String,
    pub password: String,
}

pub struct ConfigV {
    pub engine: EngineV,
    pub plugins: Option<Seq<PluginV>>,
    pub sources: Option<Seq<SourceV>>,
    pub pipeline: Option<PipelineV>,
}

pub struct EngineV {
    pub version: NumeralV,
    pub plugins_enabled: bool,
    pub schedule_interval: Seq<char>,
}

pub struct PluginV {
    pub name: Seq<char>,
    pub plugin_type: Seq<char>,
    pub path: Seq<char>,
}

pub enum SourceV {
    Api {
        id: Seq<char>,
        interval: Option<Seq<char>>,
        request: RequestV,
        response_path: Option<Seq<char>>,
    },
    Webhook { id: Seq<char>, listen_port: u16, path: Seq<char>, secret: Option<Seq<char>> },
}

pub struct RequestV {
    pub method: Option<Seq<char>>,
    pub url: Seq<char>,
    pub headers: Option<Seq<(Seq<char>, Seq<char>)>>,
}

pub struct PipelineV {
    pub transforms: Seq<TransformV>,
    pub outputs: Seq<OutputV>,
}

pub struct TransformV {
    pub kind: TransformType,
    pub id: Option<Seq<char>>,
    pub field: Option<Seq<char>>,
    pub op: Option<Seq<char>>,
    pub value: Option<Seq<char>>,
    pub map: Option<Seq<(Seq<char>, Seq<char>)>>,
    pub fields: Option<Seq<(Seq<char>, Seq<char>)>>,
    pub name: Option<Seq<char>>,
}

pub enum OutputV {
    Webhook { id: Option<Seq<char>>, url: Seq<char>, headers: Option<Seq<(Seq<char>, Seq<char>)>> },
    Postgres {
        id: Option<Seq<char>>,
        connection: ConnectionV,
        table: Seq<char>,
        field_mapping: Option<Seq<(Seq<char>, Seq<char>)>>,
    },
}

pub struct ConnectionV {
    pub host: Seq<char>,
    pub port: u16,
    pub db: Seq<char>,
    pub user: Seq<char>,
    pub password: Seq<char>,
}

impl View for Engine {
    type V = EngineV;

    open spec fn view(&self) -> EngineV {
        EngineV {
            version: self.version@,
            plugins_enabled: self.plugins_enabled,
            schedule_interval: self.schedule_interval@,
        }
    }
}

impl View for PluginConfig {
    type V = PluginV;

    open spec fn view(&self) -> PluginV {
        PluginV { name: self.name@, plugin_type: self.plugin_type@, path: self.path@ }
    }
}

impl View for ApiRequest {
    type V = RequestV;

    open spec fn view(&self) -> RequestV {
        RequestV {
            method: opt_str(self.method),
            url: self.url@,
            headers: opt_pairs(self.headers),
        }
    }
}

impl View for SourceConfig {
    type V = SourceV;

    open spec fn view(&self) -> SourceV {
        match self {
            SourceConfig::Api(a) => SourceV::Api {
                id: a.id@,
                interval: opt_str(a.interval),
                request: a.request@,
                response_path: opt_str(a.response_path),
            },
            SourceConfig::Webhook(w) => SourceV::Webhook {
                id: w.id@,
                listen_port: w.listen_port,
                path: w.path@,
                secret: opt_str(w.secret),
            },
        }
    }
}

impl View for TransformConfig {
    type V = TransformV;

    open spec fn view(&self) -> TransformV {
        TransformV {
            kind: self.kind,
            id: opt_str(self.id),
            field: opt_str(self.field),
            op: opt_str(self.op),
            value: opt_str(self.value),
            map: opt_pairs(self.map),
            fields: opt_pairs(self.fields),
            name: opt_str(self.name),
        }
    }
}

impl View for DbConnection {
    type V = ConnectionV;

    open spec fn view(&self) -> ConnectionV {
        ConnectionV {
            host: self.host@,
            port: self.port,
            db: self.db@,
            user: self.user@,
            password: self.password@,
        }
    }
}

impl View for OutputConfig {
    type V = OutputV;

    open spec fn view(&self) -> OutputV {
        match self {
            OutputConfig::Webhook(w) => OutputV::Webhook {
                id: opt_str(w.id),
                url: w.url@,
                headers: opt_pairs(w.headers),
            },
            OutputConfig::Postgres(p) => OutputV::Postgres {
                id: opt_str(p.id),
                connection: p.connection@,
                table: p.table@,
                field_mapping: opt_pairs(p.field_mapping),
            },
        }
    }
}

impl View for PipelineConfig {
    type V = PipelineV;

    open spec fn view(&self) -> PipelineV {
        PipelineV {
            transforms: self.transforms@.map_values(|t: TransformConfig| t@),
            outputs: self.outputs@.map_values(|o: OutputConfig| o@),
        }
    }
}

impl View for CStreamConfig {
    type V = ConfigV;

    open spec fn view(&self) -> ConfigV {
        ConfigV {
            engine: self.engine@,
            plugins: match self.plugins {
                Some(v) => Some(v@.map_values(|p: PluginConfig| p@)),
                None => None,
            },
            sources: match self.sources {
                Some(v) => Some(v@.map_values(|s: SourceConfig| s@)),
                None => None,
            },
            pipeline: match self.pipeline {
                Some(p) => Some(p@),
                None => None,
            },
        }
    }
}

} // verus!
