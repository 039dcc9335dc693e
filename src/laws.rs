use vstd::prelude::*;
use crate::node::Node;
use crate::node::Numeral;
use crate::node::field_of;
use crate::error::Shape;
use crate::error::SegV;
use crate::error::FaultV;
use crate::error::KindV;
use crate::error::missing;
use crate::error::unknown;
use crate::fields::text_field;
use crate::fields::bool_field;
use crate::fields::port_field;
use crate::fields::number_field;
use crate::fields::opt_text_field;
use crate::decode::is_mapping;
use crate::decode::sub_field;
use crate::decode::list_field;
use crate::decode::decode_source;
use crate::decode::decode_output;
use crate::decode::decode_transform;
use crate::decode::decode_engine;
use crate::decode::transform_fields;
use crate::types::TransformType;
use crate::types::TransformV;
use crate::types::EngineV;
use crate::types::SourceV;
use crate::types::OutputV;
use crate::types::ConfigV;
use crate::decode::decode_connection;
use crate::error::under;
use crate::error::mismatch;
use crate::decode::decode_config;
use crate::decode::list_of;
use crate::decode::opt_list_field;
use crate::decode::lemma_list_prefix_err;
use crate::decode::engine_dec;
use crate::decode::plugin_dec;
use crate::decode::source_dec;
use crate::decode::transform_dec;
use crate::decode::output_dec;
use crate::decode::transform_gap;

verus! {

/// A source whose `type` is a string other than `api` and `webhook` is
/// rejected as an unknown variant naming that tag; one without a string
/// tag is rejected as an unknown variant too.
pub proof fn lemma_source_tag_closed(n: Node, t: String)
    requires
        is_mapping(n),
    ensures
        field_of(n, "type"@) == Some(Node::Text(t)) && t@ != "api"@ && t@ != "webhook"@
            ==> decode_source(n) == Err::<SourceV, FaultV>(unknown(Some(t@))),
        !(field_of(n, "type"@) is Some && field_of(n, "type"@)->0 is Text)
            ==> decode_source(n) == Err::<SourceV, FaultV>(unknown(None)),
{
}

/// An output whose `type` is a string other than `webhook` and `postgres`
/// is rejected as an unknown variant naming that tag; one without a string
/// tag is rejected as an unknown variant too.
pub proof fn lemma_output_tag_closed(n: Node, t: String)
    requires
        is_mapping(n),
    ensures
        field_of(n, "type"@) == Some(Node::Text(t)) && t@ != "webhook"@ && t@ != "postgres"@
            ==> decode_output(n) == Err::<OutputV, FaultV>(unknown(Some(t@))),
        !(field_of(n, "type"@) is Some && field_of(n, "type"@)->0 is Text)
            ==> decode_output(n) == Err::<OutputV, FaultV>(unknown(None)),
{
}

/// A transform whose `type` is a string other than `filter`, `rename`,
/// `add_fields` and `plugin` is rejected as an unknown variant naming that
/// tag; one without a string tag is rejected as an unknown variant too.
pub proof fn lemma_transform_tag_closed(n: Node, t: String)
    requires
        is_mapping(n),
    ensures
        field_of(n, "type"@) == Some(Node::Text(t)) && t@ != "filter"@ && t@ != "rename"@
            && t@ != "add_fields"@ && t@ != "plugin"@ ==> decode_transform(n) == Err::<
            TransformV,
            FaultV,
        >(unknown(Some(t@))),
        !(field_of(n, "type"@) is Some && field_of(n, "type"@)->0 is Text) ==> decode_transform(n)
            == Err::<TransformV, FaultV>(unknown(None)),
{
}

/// A mandatory field that is absent is reported as missing, under its own
/// name, whatever shape the field requires.
pub proof fn lemma_missing_field_named<V>(
    n: Node,
    key: Seq<char>,
    dec: spec_fn(Node) -> Result<V, FaultV>,
)
    requires
        field_of(n, key) is None,
    ensures
        text_field(n, key) == Err::<Seq<char>, FaultV>(missing(key)),
        bool_field(n, key) == Err::<bool, FaultV>(missing(key)),
        port_field(n, key) == Err::<u16, FaultV>(missing(key)),
        number_field(n, key) == Err::<crate::types::NumeralV, FaultV>(missing(key)),
        sub_field(n, key, dec) == Err::<V, FaultV>(missing(key)),
        list_field(n, key, dec) == Err::<Seq<V>, FaultV>(missing(key)),
        missing(key).kind == KindV::MissingField,
        missing(key).path == seq![SegV::Key(key)],
{
}

/// Engine settings with all three mandatory fields well-typed are accepted,
/// whatever else the mapping holds.
pub proof fn lemma_engine_complete(n: Node)
    requires
        is_mapping(n),
        number_field(n, "version"@) is Ok,
        bool_field(n, "plugins_enabled"@) is Ok,
        text_field(n, "schedule_interval"@) is Ok,
    ensures
        decode_engine(n) == Ok::<EngineV, FaultV>(
            EngineV {
                version: number_field(n, "version"@)->Ok_0,
                plugins_enabled: bool_field(n, "plugins_enabled"@)->Ok_0,
                schedule_interval: text_field(n, "schedule_interval"@)->Ok_0,
            },
        ),
{
}

/// A webhook source with its mandatory fields well-typed is accepted,
/// whether or not it carries a secret.
pub proof fn lemma_webhook_source_complete(n: Node, t: String)
    requires
        is_mapping(n),
        field_of(n, "type"@) == Some(Node::Text(t)),
        t@ == "webhook"@,
        text_field(n, "id"@) is Ok,
        port_field(n, "listen_port"@) is Ok,
        text_field(n, "path"@) is Ok,
        opt_text_field(n, "secret"@) is Ok,
    ensures
        decode_source(n) is Ok,
{
    reveal_strlit("webhook");
    reveal_strlit("api");
    assert("webhook"@.len() != "api"@.len());
}

/// A port is accepted exactly when it is an integer in 0..=65535, and keeps
/// its value; any other integer is a range error on that field.
pub proof fn lemma_port_bounds(n: Node, key: Seq<char>, i: i64)
    requires
        field_of(n, key) == Some(Node::Num(Numeral::Int(i))),
    ensures
        port_field(n, key) is Ok <==> 0 <= i <= 65535,
        port_field(n, key) matches Ok(p) ==> p as int == i as int,
        !(0 <= i <= 65535) ==> port_field(n, key) == Err::<u16, FaultV>(
            FaultV {
                kind: KindV::TypeMismatch(Shape::Port, Shape::Integer, Some(i as int)),
                path: seq![SegV::Key(key)],
            },
        ),
{
    if !(0 <= i <= 65535) {
        assert(seq![SegV::Key(key)] + Seq::<SegV>::empty() =~= seq![SegV::Key(key)]);
    }
}

/// A filter whose `field` and `value` are present but whose `op` is not fails
/// the check of its kind, naming `op`, though `op` is optional field by field.
pub proof fn lemma_filter_needs_op(n: Node)
    requires
        is_mapping(n),
        transform_fields(n) is Ok,
        transform_fields(n)->Ok_0.kind == TransformType::Filter,
        transform_fields(n)->Ok_0.field is Some,
        transform_fields(n)->Ok_0.op is None,
    ensures
        decode_transform(n) == Err::<TransformV, FaultV>(missing("op"@)),
{
}

/// A rename that carries `map` is accepted with the fields as written,
/// whatever other fields it lacks.
pub proof fn lemma_rename_needs_only_map(n: Node)
    requires
        is_mapping(n),
        transform_fields(n) is Ok,
        transform_fields(n)->Ok_0.kind == TransformType::Rename,
        transform_fields(n)->Ok_0.map is Some,
    ensures
        decode_transform(n) == Ok::<TransformV, FaultV>(transform_fields(n)->Ok_0),
{
}

/// The first entry of a list that fails decides the list's failure, under
/// the entry's position.
pub proof fn lemma_list_fault_at<V>(
    items: Seq<Node>,
    i: int,
    dec: spec_fn(Node) -> Result<V, FaultV>,
)
    requires
        0 <= i < items.len(),
        list_of(items.take(i), dec) is Ok,
        dec(items[i]) is Err,
    ensures
        list_of(items, dec) == Err::<Seq<V>, FaultV>(under(SegV::Index(i), dec(items[i])->Err_0)),
{
    assert(items.take(i + 1).drop_last() =~= items.take(i));
    assert(items.take(i + 1).last() == items[i]);
    lemma_list_prefix_err(items, i + 1, dec);
}

/// In a document whose engine and plugins are well-formed, the first source
/// that fails decides the document's failure, at `sources[i]`.
pub proof fn lemma_source_fault_in_document(n: Node, items: Vec<Node>, i: int)
    requires
        is_mapping(n),
        sub_field(n, "engine"@, engine_dec()) is Ok,
        opt_list_field(n, "plugins"@, plugin_dec()) is Ok,
        field_of(n, "sources"@) == Some(Node::List(items)),
        0 <= i < items@.len(),
        list_of(items@.take(i), source_dec()) is Ok,
        decode_source(items@[i]) is Err,
    ensures
        decode_config(n) == Err::<ConfigV, FaultV>(
            under(
                SegV::Key("sources"@),
                under(SegV::Index(i), decode_source(items@[i])->Err_0),
            ),
        ),
{
    lemma_list_fault_at(items@, i, source_dec());
}

/// The context of a pipeline node `p` inside an otherwise well-formed document.
pub open spec fn pipeline_in_document(n: Node, p: Node) -> bool {
    &&& is_mapping(n)
    &&& sub_field(n, "engine"@, engine_dec()) is Ok
    &&& opt_list_field(n, "plugins"@, plugin_dec()) is Ok
    &&& opt_list_field(n, "sources"@, source_dec()) is Ok
    &&& field_of(n, "pipeline"@) == Some(p)
    &&& is_mapping(p)
}

/// In a well-formed document, the first transform that fails decides the
/// document's failure, at `pipeline.transforms[k]`.
pub proof fn lemma_transform_fault_in_document(n: Node, p: Node, items: Vec<Node>, k: int)
    requires
        pipeline_in_document(n, p),
        field_of(p, "transforms"@) == Some(Node::List(items)),
        0 <= k < items@.len(),
        list_of(items@.take(k), transform_dec()) is Ok,
        decode_transform(items@[k]) is Err,
    ensures
        decode_config(n) == Err::<ConfigV, FaultV>(
            under(
                SegV::Key("pipeline"@),
                under(
                    SegV::Key("transforms"@),
                    under(SegV::Index(k), decode_transform(items@[k])->Err_0),
                ),
            ),
        ),
{
    lemma_list_fault_at(items@, k, transform_dec());
}

/// In a well-formed document with well-formed transforms, the first output
/// that fails decides the document's failure, at `pipeline.outputs[j]`.
pub proof fn lemma_output_fault_in_document(n: Node, p: Node, items: Vec<Node>, j: int)
    requires
        pipeline_in_document(n, p),
        list_field(p, "transforms"@, transform_dec()) is Ok,
        field_of(p, "outputs"@) == Some(Node::List(items)),
        0 <= j < items@.len(),
        list_of(items@.take(j), output_dec()) is Ok,
        decode_output(items@[j]) is Err,
    ensures
        decode_config(n) == Err::<ConfigV, FaultV>(
            under(
                SegV::Key("pipeline"@),
                under(
                    SegV::Key("outputs"@),
                    under(SegV::Index(j), decode_output(items@[j])->Err_0),
                ),
            ),
        ),
{
    lemma_list_fault_at(items@, j, output_dec());
}

/// A list that decodes holds, at each position, what its entry decodes to.
pub proof fn lemma_list_ok<V>(items: Seq<Node>, dec: spec_fn(Node) -> Result<V, FaultV>)
    requires
        list_of(items, dec) is Ok,
    ensures
        list_of(items, dec)->Ok_0.len() == items.len(),
        forall|j: int|
            0 <= j < items.len() ==> dec(#[trigger] items[j]) == Ok::<V, FaultV>(
                list_of(items, dec)->Ok_0[j],
            ),
    decreases items.len(),
{
    if items.len() > 0 {
        lemma_list_ok(items.drop_last(), dec);
        assert forall|j: int| 0 <= j < items.len() implies dec(#[trigger] items[j]) == Ok::<
            V,
            FaultV,
        >(list_of(items, dec)->Ok_0[j]) by {
            if j < items.len() - 1 {
                assert(items[j] == items.drop_last()[j]);
            }
        }
    }
}

/// A document with an entry whose tag names no known variant fails with that
/// tag, at the entry's position: here a source at `sources[i]`.
pub proof fn lemma_unknown_source_in_document(n: Node, items: Vec<Node>, i: int, t: String)
    requires
        is_mapping(n),
        sub_field(n, "engine"@, engine_dec()) is Ok,
        opt_list_field(n, "plugins"@, plugin_dec()) is Ok,
        field_of(n, "sources"@) == Some(Node::List(items)),
        0 <= i < items@.len(),
        list_of(items@.take(i), source_dec()) is Ok,
        is_mapping(items@[i]),
        field_of(items@[i], "type"@) == Some(Node::Text(t)),
        t@ != "api"@,
        t@ != "webhook"@,
    ensures
        decode_config(n) == Err::<ConfigV, FaultV>(
            under(SegV::Key("sources"@), under(SegV::Index(i), unknown(Some(t@)))),
        ),
{
    lemma_source_fault_in_document(n, items, i);
}

/// The same for a transform at `pipeline.transforms[k]`.
pub proof fn lemma_unknown_transform_in_document(
    n: Node,
    p: Node,
    items: Vec<Node>,
    k: int,
    t: String,
)
    requires
        pipeline_in_document(n, p),
        field_of(p, "transforms"@) == Some(Node::List(items)),
        0 <= k < items@.len(),
        list_of(items@.take(k), transform_dec()) is Ok,
        is_mapping(items@[k]),
        field_of(items@[k], "type"@) == Some(Node::Text(t)),
        t@ != "filter"@,
        t@ != "rename"@,
        t@ != "add_fields"@,
        t@ != "plugin"@,
    ensures
        decode_config(n) == Err::<ConfigV, FaultV>(
            under(
                SegV::Key("pipeline"@),
                under(SegV::Key("transforms"@), under(SegV::Index(k), unknown(Some(t@)))),
            ),
        ),
{
    lemma_transform_fault_in_document(n, p, items, k);
}

/// The same for an output at `pipeline.outputs[j]`.
pub proof fn lemma_unknown_output_in_document(
    n: Node,
    p: Node,
    items: Vec<Node>,
    j: int,
    t: String,
)
    requires
        pipeline_in_document(n, p),
        list_field(p, "transforms"@, transform_dec()) is Ok,
        field_of(p, "outputs"@) == Some(Node::List(items)),
        0 <= j < items@.len(),
        list_of(items@.take(j), output_dec()) is Ok,
        is_mapping(items@[j]),
        field_of(items@[j], "type"@) == Some(Node::Text(t)),
        t@ != "webhook"@,
        t@ != "postgres"@,
    ensures
        decode_config(n) == Err::<ConfigV, FaultV>(
            under(
                SegV::Key("pipeline"@),
                under(SegV::Key("outputs"@), under(SegV::Index(j), unknown(Some(t@)))),
            ),
        ),
{
    lemma_output_fault_in_document(n, p, items, j);
}

/// A document without `engine` fails naming `engine`, before anything else
/// is looked at.
pub proof fn lemma_missing_engine(n: Node)
    requires
        is_mapping(n),
        field_of(n, "engine"@) is None,
    ensures
        decode_config(n) == Err::<ConfigV, FaultV>(missing("engine"@)),
{
}

/// A postgres output at `pipeline.outputs[j]` whose `id` and `connection` are
/// well-formed and which lacks `table` fails naming `table` at its position.
pub proof fn lemma_missing_table_in_document(n: Node, p: Node, items: Vec<Node>, j: int, t: String)
    requires
        pipeline_in_document(n, p),
        list_field(p, "transforms"@, transform_dec()) is Ok,
        field_of(p, "outputs"@) == Some(Node::List(items)),
        0 <= j < items@.len(),
        list_of(items@.take(j), output_dec()) is Ok,
        is_mapping(items@[j]),
        field_of(items@[j], "type"@) == Some(Node::Text(t)),
        t@ == "postgres"@,
        opt_text_field(items@[j], "id"@) is Ok,
        sub_field(items@[j], "connection"@, |v: Node| decode_connection(v)) is Ok,
        field_of(items@[j], "table"@) is None,
    ensures
        decode_config(n) == Err::<ConfigV, FaultV>(
            under(
                SegV::Key("pipeline"@),
                under(SegV::Key("outputs"@), under(SegV::Index(j), missing("table"@))),
            ),
        ),
{
    reveal_strlit("postgres");
    reveal_strlit("webhook");
    assert("postgres"@.len() != "webhook"@.len());
    lemma_output_fault_in_document(n, p, items, j);
}

/// A webhook source at `sources[i]` whose `listen_port` is an integer outside
/// 0..=65535 fails with a range error at `sources[i].listen_port`.
pub proof fn lemma_port_out_of_range_in_document(
    n: Node,
    items: Vec<Node>,
    i: int,
    t: String,
    x: i64,
)
    requires
        is_mapping(n),
        sub_field(n, "engine"@, engine_dec()) is Ok,
        opt_list_field(n, "plugins"@, plugin_dec()) is Ok,
        field_of(n, "sources"@) == Some(Node::List(items)),
        0 <= i < items@.len(),
        list_of(items@.take(i), source_dec()) is Ok,
        is_mapping(items@[i]),
        field_of(items@[i], "type"@) == Some(Node::Text(t)),
        t@ == "webhook"@,
        text_field(items@[i], "id"@) is Ok,
        field_of(items@[i], "listen_port"@) == Some(Node::Num(Numeral::Int(x))),
        !(0 <= x <= 65535),
    ensures
        decode_config(n) == Err::<ConfigV, FaultV>(
            under(
                SegV::Key("sources"@),
                under(
                    SegV::Index(i),
                    under(
                        SegV::Key("listen_port"@),
                        mismatch(Shape::Port, Node::Num(Numeral::Int(x))),
                    ),
                ),
            ),
        ),
{
    reveal_strlit("webhook");
    reveal_strlit("api");
    assert("webhook"@.len() != "api"@.len());
    lemma_source_fault_in_document(n, items, i);
}

/// In a document that decodes, a webhook source's port is the integer
/// written at `sources[i].listen_port`.
pub proof fn lemma_port_kept_in_document(n: Node, items: Vec<Node>, i: int, t: String, x: i64)
    requires
        decode_config(n) is Ok,
        field_of(n, "sources"@) == Some(Node::List(items)),
        0 <= i < items@.len(),
        field_of(items@[i], "type"@) == Some(Node::Text(t)),
        t@ == "webhook"@,
        field_of(items@[i], "listen_port"@) == Some(Node::Num(Numeral::Int(x))),
    ensures
        0 <= x <= 65535,
        decode_config(n)->Ok_0.sources matches Some(s) && s[i] matches SourceV::Webhook {
            listen_port,
            ..
        } && listen_port as int == x as int,
{
    reveal_strlit("webhook");
    reveal_strlit("api");
    assert("webhook"@.len() != "api"@.len());
    lemma_list_ok(items@, source_dec());
    assert(source_dec()(items@[i]) == decode_source(items@[i]));
}

/// In a document that decodes, every transform carries what its kind
/// requires.
pub proof fn lemma_decoded_transforms_complete(n: Node, p: Node, items: Vec<Node>, k: int)
    requires
        decode_config(n) is Ok,
        field_of(n, "pipeline"@) == Some(p),
        field_of(p, "transforms"@) == Some(Node::List(items)),
        0 <= k < items@.len(),
    ensures
        decode_config(n)->Ok_0.pipeline matches Some(pv) && transform_gap(pv.transforms[k])
            is None && decode_transform(items@[k]) == Ok::<TransformV, FaultV>(pv.transforms[k]),
{
    lemma_list_ok(items@, transform_dec());
    assert(transform_dec()(items@[k]) == decode_transform(items@[k]));
}

/// A filter at `pipeline.transforms[k]` with `field` and without `op` fails
/// the check of its kind, naming `op` at its position.
pub proof fn lemma_filter_without_op_in_document(n: Node, p: Node, items: Vec<Node>, k: int)
    requires
        pipeline_in_document(n, p),
        field_of(p, "transforms"@) == Some(Node::List(items)),
        0 <= k < items@.len(),
        list_of(items@.take(k), transform_dec()) is Ok,
        is_mapping(items@[k]),
        transform_fields(items@[k]) is Ok,
        transform_fields(items@[k])->Ok_0.kind == TransformType::Filter,
        transform_fields(items@[k])->Ok_0.field is Some,
        transform_fields(items@[k])->Ok_0.op is None,
    ensures
        decode_config(n) == Err::<ConfigV, FaultV>(
            under(
                SegV::Key("pipeline"@),
                under(SegV::Key("transforms"@), under(SegV::Index(k), missing("op"@))),
            ),
        ),
{
    lemma_transform_fault_in_document(n, p, items, k);
}

/// In a document that decodes, a rename at `pipeline.transforms[k]` that
/// carries `map` comes out as a rename with the fields as written.
pub proof fn lemma_rename_in_document(n: Node, p: Node, items: Vec<Node>, k: int)
    requires
        decode_config(n) is Ok,
        field_of(n, "pipeline"@) == Some(p),
        field_of(p, "transforms"@) == Some(Node::List(items)),
        0 <= k < items@.len(),
        transform_fields(items@[k]) is Ok,
        transform_fields(items@[k])->Ok_0.kind == TransformType::Rename,
    ensures
        decode_config(n)->Ok_0.pipeline matches Some(pv) && pv.transforms[k] == transform_fields(
            items@[k],
        )->Ok_0,
{
    lemma_decoded_transforms_complete(n, p, items, k);
}

} // verus!
