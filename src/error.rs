use vstd::prelude::*;
use crate::node::Node;
use crate::node::Numeral;

verus! {

/// The primitive shape of a node, or the shape a field requires.
#[derive(Debug, Clone, Copy, PartialEq, Eq)]
pub enum Shape {
    Null,
    Bool,
    Integer,
    Real,
    /// Any number, integer or real.
    Number,
    /// An integer in 0..=65535.
    Port,
    Text,
    List,
    Mapping,
    Tagged,
}

pub open spec fn shape_of(n: Node) -> Shape {
    match n {
        Node::Null => Shape::Null,
        Node::Bool(_) => Shape::Bool,
        Node::Num(Numeral::Int(_)) => Shape::Integer,
        Node::Num(Numeral::Real(_)) => Shape::Real,
        Node::Text(_) => Shape::Text,
        Node::List(_) => Shape::List,
        Node::Mapping(_) => Shape::Mapping,
        Node::Tagged => Shape::Tagged,
    }
}

pub fn node_shape(n: &Node) -> (r: Shape)
    ensures
        r == shape_of(*n),
{
    match n {
        Node::Null => Shape::Null,
        Node::Bool(_) => Shape::Bool,
        Node::Num(Numeral::Int(_)) => Shape::Integer,
        Node::Num(Numeral::Real(_)) => Shape::Real,
        Node::Text(_) => Shape::Text,
        Node::List(_) => Shape::List,
        Node::Mapping(_) => Shape::Mapping,
        Node::Tagged => Shape::Tagged,
    }
}

/// One step of the path from the document root to an offending value.
#[derive(Debug)]
pub enum PathSeg {
    Key(String),
    Index(usize),
}

pub enum SegV {
    Key(Seq<char>),
    Index(int),
}

impl View for PathSeg {
    type V = SegV;

    open spec fn view(&self) -> SegV {
        match self {
            PathSeg::Key(k) => SegV::Key(k@),
            PathSeg::Index(i) => SegV::Index(*i as int),
        }
    }
}

#[derive(Debug)]
pub enum SchemaErrorKind {
    /// A mandatory field is absent; the path ends with its name.
    MissingField,
    /// A discriminant names no known variant; holds the tag when it is a string.
    UnknownVariant(Option<String>),
    /// A value has the wrong shape, or a number is out of range; `number`
    /// holds the value when it is an integer.
    TypeMismatch { expected: Shape, actual: Shape, number: Option<i64> },
}

pub enum KindV {
    MissingField,
    UnknownVariant(Option<Seq<char>>),
    TypeMismatch(Shape, Shape, Option<int>),
}

pub open spec fn opt_str(o: Option<String>) -> Option<Seq<char>> {
    match o {
        Some(s) => Some(s@),
        None => None,
    }
}

impl View for SchemaErrorKind {
    type V = KindV;

    open spec fn view(&self) -> KindV {
        match self {
            SchemaErrorKind::MissingField => KindV::MissingField,
            SchemaErrorKind::UnknownVariant(t) => KindV::UnknownVariant(opt_str(*t)),
            SchemaErrorKind::TypeMismatch { expected, actual, number } => KindV::TypeMismatch(
                *expected,
                *actual,
                match number {
                    Some(i) => Some(*i as int),
                    None => None,
                },
            ),
        }
    }
}

/// A document that is well-formed YAML but breaks the schema.
#[derive(Debug)]
pub struct SchemaError {
    pub kind: SchemaErrorKind,
    /// From the document root down to the offending field or element.
    pub path: Vec<PathSeg>,
}

pub struct FaultV {
    pub kind: KindV,
    pub path: Seq<SegV>,
}

impl View for SchemaError {
    type V = FaultV;

    open spec fn view(&self) -> FaultV {
        FaultV { kind: self.kind@, path: self.path@.map_values(|s: PathSeg| s@) }
    }
}

/// Text that is not a well-formed YAML document.
#[derive(Debug)]
pub struct SyntaxError {
    pub message: String,
    /// Line and column, when the parser can tell them.
    pub location: Option<(usize, usize)>,
}

/// Why a document could not be turned into a configuration.
#[derive(Debug)]
pub enum ConfigError {
    Syntax(SyntaxError),
    Schema(SchemaError),
}

pub open spec fn missing(key: Seq<char>) -> FaultV {
    FaultV { kind: KindV::MissingField, path: seq![SegV::Key(key)] }
}

/// The value of an integer node.
pub open spec fn integer_of(n: Node) -> Option<int> {
    match n {
        Node::Num(Numeral::Int(i)) => Some(i as int),
        _ => None,
    }
}

pub open spec fn mismatch(expected: Shape, n: Node) -> FaultV {
    FaultV { kind: KindV::TypeMismatch(expected, shape_of(n), integer_of(n)), path: seq![] }
}

pub open spec fn under(seg: SegV, f: FaultV) -> FaultV {
    FaultV { kind: f.kind, path: seq![seg] + f.path }
}

/// A discriminant that is absent, not a string, or no known tag.
pub open spec fn unknown(tag: Option<Seq<char>>) -> FaultV {
    FaultV { kind: KindV::UnknownVariant(tag), path: seq![SegV::Key("type"@)] }
}

impl SchemaError {
    pub fn unknown(tag: Option<String>) -> (r: SchemaError)
        ensures
            r@ == unknown(opt_str(tag)),
    {
        let mut path = Vec::new();
        path.push(PathSeg::Key("type".to_owned()));
        let r = SchemaError { kind: SchemaErrorKind::UnknownVariant(tag), path };
        assert(r@.path =~= seq![SegV::Key("type"@)]);
        r
    }

    pub fn missing(key: &str) -> (r: SchemaError)
        ensures
            r@ == missing(key@),
    {
        let mut path = Vec::new();
        path.push(PathSeg::Key(key.to_owned()));
        let r = SchemaError { kind: SchemaErrorKind::MissingField, path };
        assert(r@.path =~= seq![SegV::Key(key@)]);
        r
    }

    pub fn mismatch(expected: Shape, n: &Node) -> (r: SchemaError)
        ensures
            r@ == mismatch(expected, *n),
    {
        let r = SchemaError {
            kind: SchemaErrorKind::TypeMismatch {
                expected,
                actual: node_shape(n),
                number: match n {
                    Node::Num(Numeral::Int(i)) => Some(*i),
                    _ => None,
                },
            },
            path: Vec::new(),
        };
        assert(r@.path =~= Seq::<SegV>::empty());
        r
    }

    /// The same error seen from one level further up.
    pub fn under(self, seg: PathSeg) -> (r: SchemaError)
        ensures
            r@ == under(seg@, self@),
    {
        let ghost old_path = self.path@;
        let mut path = self.path;
        path.insert(0, seg);
        let r = SchemaError { kind: self.kind, path };
        assert(r@.path =~= seq![seg@] + old_path.map_values(|s: PathSeg| s@));
        r
    }

    pub fn under_key(self, key: &str) -> (r: SchemaError)
        ensures
            r@ == under(SegV::Key(key@), self@),
    {
        self.under(PathSeg::Key(key.to_owned()))
    }
}

} // verus!
