use vstd::prelude::*;
use crate::node::Node;
use crate::node::Numeral;
use crate::node::field_of;
use crate::node::find_field;
use crate::error::Shape;
use crate::error::SegV;
use crate::error::FaultV;
use crate::error::SchemaError;
use crate::error::missing;
use crate::error::mismatch;
use crate::error::under;
use crate::error::opt_str;
use crate::types::NumeralV;
use crate::types::Pairs;
use crate::types::pairs_view;
use crate::types::opt_pairs;

verus! {

/// An executable result agrees with a spec result through the view.
pub open spec fn res_eq<T: View>(r: Result<T, SchemaError>, s: Result<T::V, FaultV>) -> bool {
    match r {
        Ok(v) => s == Ok::<T::V, FaultV>(v@),
        Err(e) => s == Err::<T::V, FaultV>(e@),
    }
}

pub open spec fn res_opt_str(
    r: Result<Option<String>, SchemaError>,
    s: Result<Option<Seq<char>>, FaultV>,
) -> bool {
    match r {
        Ok(v) => s == Ok::<Option<Seq<char>>, FaultV>(opt_str(v)),
        Err(e) => s == Err::<Option<Seq<char>>, FaultV>(e@),
    }
}

pub open spec fn res_opt_pairs(
    r: Result<Option<Pairs>, SchemaError>,
    s: Result<Option<Seq<(Seq<char>, Seq<char>)>>, FaultV>,
) -> bool {
    match r {
        Ok(v) => s == Ok::<Option<Seq<(Seq<char>, Seq<char>)>>, FaultV>(opt_pairs(v)),
        Err(e) => s == Err::<Option<Seq<(Seq<char>, Seq<char>)>>, FaultV>(e@),
    }
}

/// A mismatch reported at the field `key`.
pub open spec fn bad_field(key: Seq<char>, expected: Shape, v: Node) -> FaultV {
    under(SegV::Key(key), mismatch(expected, v))
}

/// A mandatory string field.
pub open spec fn text_field(n: Node, key: Seq<char>) -> Result<Seq<char>, FaultV> {
    match field_of(n, key) {
        None => Err(missing(key)),
        Some(Node::Text(s)) => Ok(s@),
        Some(v) => Err(bad_field(key, Shape::Text, v)),
    }
}

/// An optional string field; an explicit null counts as absent.
pub open spec fn opt_text_field(n: Node, key: Seq<char>) -> Result<Option<Seq<char>>, FaultV> {
    match field_of(n, key) {
        None => Ok(None),
        Some(Node::Null) => Ok(None),
        Some(Node::Text(s)) => Ok(Some(s@)),
        Some(v) => Err(bad_field(key, Shape::Text, v)),
    }
}

pub open spec fn bool_field(n: Node, key: Seq<char>) -> Result<bool, FaultV> {
    match field_of(n, key) {
        None => Err(missing(key)),
        Some(Node::Bool(b)) => Ok(b),
        Some(v) => Err(bad_field(key, Shape::Bool, v)),
    }
}

/// A mandatory 16-bit unsigned integer.
pub open spec fn port_field(n: Node, key: Seq<char>) -> Result<u16, FaultV> {
    match field_of(n, key) {
        None => Err(missing(key)),
        Some(Node::Num(Numeral::Int(i))) => if 0 <= i <= 65535 {
            Ok(i as u16)
        } else {
            Err(bad_field(key, Shape::Port, Node::Num(Numeral::Int(i))))
        },
        Some(v) => Err(bad_field(key, Shape::Port, v)),
    }
}

pub open spec fn number_field(n: Node, key: Seq<char>) -> Result<NumeralV, FaultV> {
    match field_of(n, key) {
        None => Err(missing(key)),
        Some(Node::Num(x)) => Ok(x@),
        Some(v) => Err(bad_field(key, Shape::Number, v)),
    }
}

/// The entries of a string-to-string mapping, each value a string.
pub open spec fn pairs_of(es: Seq<(String, Node)>) -> Result<Seq<(Seq<char>, Seq<char>)>, FaultV>
    decreases es.len(),
{
    if es.len() == 0 {
        Ok(seq![])
    } else {
        match pairs_of(es.drop_last()) {
            Err(f) => Err(f),
            Ok(p) => match es.last().1 {
                Node::Text(s) => Ok(p.push((es.last().0@, s@))),
                v => Err(bad_field(es.last().0@, Shape::Text, v)),
            },
        }
    }
}

/// An optional string-to-string mapping.
pub open spec fn opt_pairs_field(n: Node, key: Seq<char>) -> Result<
    Option<Seq<(Seq<char>, Seq<char>)>>,
    FaultV,
> {
    match field_of(n, key) {
        None => Ok(None),
        Some(Node::Null) => Ok(None),
        Some(Node::Mapping(es)) => match pairs_of(es@) {
            Ok(p) => Ok(Some(p)),
            Err(f) => Err(under(SegV::Key(key), f)),
        },
        Some(v) => Err(bad_field(key, Shape::Mapping, v)),
    }
}

pub fn text_field_of(n: &Node, key: &str) -> (r: Result<String, SchemaError>)
    ensures
        res_eq(r, text_field(*n, key@)),
{
    match find_field(n, key) {
        None => Err(SchemaError::missing(key)),
        Some(Node::Text(s)) => Ok(s.clone()),
        Some(v) => Err(SchemaError::mismatch(Shape::Text, v).under_key(key)),
    }
}

pub fn opt_text_field_of(n: &Node, key: &str) -> (r: Result<Option<String>, SchemaError>)
    ensures
        res_opt_str(r, opt_text_field(*n, key@)),
{
    match find_field(n, key) {
        None => Ok(None),
        Some(Node::Null) => Ok(None),
        Some(Node::Text(s)) => Ok(Some(s.clone())),
        Some(v) => Err(SchemaError::mismatch(Shape::Text, v).under_key(key)),
    }
}

pub fn bool_field_of(n: &Node, key: &str) -> (r: Result<bool, SchemaError>)
    ensures
        res_eq(r, bool_field(*n, key@)),
{
    match find_field(n, key) {
        None => Err(SchemaError::missing(key)),
        Some(Node::Bool(b)) => Ok(*b),
        Some(v) => Err(SchemaError::mismatch(Shape::Bool, v).under_key(key)),
    }
}

pub fn port_field_of(n: &Node, key: &str) -> (r: Result<u16, SchemaError>)
    ensures
        res_eq(r, port_field(*n, key@)),
{
    match find_field(n, key) {
        None => Err(SchemaError::missing(key)),
        Some(Node::Num(Numeral::Int(i))) => if 0 <= *i && *i <= 65535 {
            Ok(*i as u16)
        } else {
            Err(SchemaError::mismatch(Shape::Port, &Node::Num(Numeral::Int(*i))).under_key(key))
        },
        Some(v) => Err(SchemaError::mismatch(Shape::Port, v).under_key(key)),
    }
}

pub fn number_field_of(n: &Node, key: &str) -> (r: Result<Numeral, SchemaError>)
    ensures
        res_eq(r, number_field(*n, key@)),
{
    match find_field(n, key) {
        None => Err(SchemaError::missing(key)),
        Some(Node::Num(Numeral::Int(i))) => Ok(Numeral::Int(*i)),
        Some(Node::Num(Numeral::Real(s))) => Ok(Numeral::Real(s.clone())),
        Some(v) => Err(SchemaError::mismatch(Shape::Number, v).under_key(key)),
    }
}

pub fn pairs_of_entries(es: &Vec<(String, Node)>) -> (r: Result<Pairs, SchemaError>)
    ensures
        match r {
            Ok(p) => pairs_of(es@) == Ok::<_, FaultV>(pairs_view(p)),
            Err(e) => pairs_of(es@) == Err::<Seq<(Seq<char>, Seq<char>)>, FaultV>(e@),
        },
{
    let mut out: Pairs = Vec::new();
    let mut i: usize = 0;
    assert(pairs_view(out) =~= Seq::<(Seq<char>, Seq<char>)>::empty());
    assert(es@.take(0) =~= Seq::<(String, Node)>::empty());
    while i < es.len()
        invariant
            0 <= i <= es@.len(),
            pairs_of(es@.take(i as int)) == Ok::<_, FaultV>(pairs_view(out)),
        decreases es@.len() - i,
    {
        assert(es@.take(i as int + 1).drop_last() =~= es@.take(i as int));
        match &es[i].1 {
            Node::Text(s) => {
                let ghost before = pairs_view(out);
                out.push((es[i].0.clone(), s.clone()));
                assert(pairs_view(out) =~= before.push((es@[i as int].0@, s@)));
            },
            v => {
                let e = SchemaError::mismatch(Shape::Text, v).under_key(es[i].0.as_str());
                proof {
                    lemma_pairs_prefix_err(es@, i as int + 1);
                }
                return Err(e);
            },
        }
        i = i + 1;
    }
    assert(es@.take(i as int) =~= es@);
    Ok(out)
}

/// A failure in a prefix of the entries is the failure of the whole.
pub proof fn lemma_pairs_prefix_err(es: Seq<(String, Node)>, j: int)
    requires
        0 <= j <= es.len(),
        pairs_of(es.take(j)).is_err(),
    ensures
        pairs_of(es) == pairs_of(es.take(j)),
    decreases es.len(),
{
    if j < es.len() {
        assert(es.drop_last().take(j) =~= es.take(j));
        lemma_pairs_prefix_err(es.drop_last(), j);
    } else {
        assert(es.take(j) =~= es);
    }
}

pub fn opt_pairs_field_of(n: &Node, key: &str) -> (r: Result<Option<Pairs>, SchemaError>)
    ensures
        res_opt_pairs(r, opt_pairs_field(*n, key@)),
{
    match find_field(n, key) {
        None => Ok(None),
        Some(Node::Null) => Ok(None),
        Some(Node::Mapping(es)) => match pairs_of_entries(es) {
            Ok(p) => Ok(Some(p)),
            Err(e) => Err(e.under_key(key)),
        },
        Some(v) => Err(SchemaError::mismatch(Shape::Mapping, v).under_key(key)),
    }
}

} // verus!
