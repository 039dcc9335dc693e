use vstd::prelude::*;
use crate::node::Node;
use crate::node::Numeral;
use crate::error::ConfigError;
use crate::error::FaultV;
use crate::error::SyntaxError;
use crate::decode::decode_config;
use crate::types::CStreamConfig;
use crate::types::ConfigV;

verus! {

#[verifier::external_type_specification]
#[verifier::external_body]
pub struct ExYamlValue(serde_yml::Value);

#[verifier::external_type_specification]
#[verifier::external_body]
pub struct ExYamlError(serde_yml::Error);

/// The tree that the YAML parser reads from a text, or `None` where the text
/// is not one well-formed document. It depends on the text alone.
pub uninterp spec fn yaml_tree(text: Seq<char>) -> Option<Node>;

/// Relies on the variants of serde_yml::Value and serde_yml::Number, on the
/// `Display` of a number, and on a mapping's iteration in document order, to
/// copy a parsed value into a `Node` one for one.
#[verifier::external_body]
fn tree_of(v: serde_yml::Value) -> (r: Node) {
    match v {
        serde_yml::Value::Null => Node::Null,
        serde_yml::Value::Bool(b) => Node::Bool(b),
        serde_yml::Value::Number(serde_yml::Number::Integer(i)) => Node::Num(Numeral::Int(i)),
        serde_yml::Value::Number(x) => Node::Num(Numeral::Real(x.to_string())),
        serde_yml::Value::String(s) => Node::Text(s),
        serde_yml::Value::Sequence(xs) => Node::List(xs.into_iter().map(tree_of).collect()),
        serde_yml::Value::Mapping(m) => Node::Mapping(m.into_iter().map(|(k, x)| (k, tree_of(x))).collect()),
        serde_yml::Value::Tagged(_) => Node::Tagged,
    }
}

/// Relies on serde_yml::from_str, read as an untyped `Value`: parses one YAML
/// document or reports why it is not one; the result depends on the text alone.
#[verifier::external_body]
fn yaml_from_str(text: &str) -> (r: Result<Node, serde_yml::Error>)
    ensures
        r is Ok <==> yaml_tree(text@) is Some,
        r matches Ok(n) ==> yaml_tree(text@) == Some(n),
{
    serde_yml::from_str::<serde_yml::Value>(text).map(tree_of)
}

/// Relies on the `Display` of serde_yml::Error for a readable message.
#[verifier::external_body]
fn yaml_error_message(e: &serde_yml::Error) -> (r: String) {
    e.to_string()
}

/// Relies on serde_yml::Error::location, and on its line and column.
#[verifier::external_body]
fn yaml_error_location(e: &serde_yml::Error) -> (r: Option<(usize, usize)>) {
    e.location().map(|l| (l.line(), l.column()))
}

/// The syntax stage: YAML text to an untyped tree.
pub fn parse_document(text: &str) -> (r: Result<Node, SyntaxError>)
    ensures
        r is Ok <==> yaml_tree(text@) is Some,
        r matches Ok(n) ==> yaml_tree(text@) == Some(n),
{
    match yaml_from_str(text) {
        Ok(n) => Ok(n),
        Err(e) => Err(SyntaxError { message: yaml_error_message(&e), location: yaml_error_location(&e) }),
    }
}

/// Parses and validates a configuration document: a syntax error where the
/// text is no YAML document, else exactly what decoding the parsed tree gives.
pub fn parse_config(text: &str) -> (r: Result<CStreamConfig, ConfigError>)
    ensures
        match yaml_tree(text@) {
            None => r matches Err(ConfigError::Syntax(_)),
            Some(n) => match r {
                Ok(c) => decode_config(n) == Ok::<ConfigV, FaultV>(c@),
                Err(ConfigError::Schema(e)) => decode_config(n) == Err::<ConfigV, FaultV>(e@),
                Err(ConfigError::Syntax(_)) => false,
            },
        },
{
    match parse_document(text) {
        Err(e) => Err(ConfigError::Syntax(e)),
        Ok(n) => match CStreamConfig::from_node(&n) {
            Ok(c) => Ok(c),
            Err(e) => Err(ConfigError::Schema(e)),
        },
    }
}

} // verus!
