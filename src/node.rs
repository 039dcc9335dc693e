use vstd::prelude::*;

verus! {

/// A YAML number as the parser resolved it.
#[derive(Debug)]
pub enum Numeral {
    Int(i64),
    /// A floating-point scalar, kept as the text the parser prints for it.
    Real(String),
}

/// An untyped YAML tree: the result of the syntax stage.
#[derive(Debug)]
pub enum Node {
    Null,
    Bool(bool),
    Num(Numeral),
    Text(String),
    List(Vec<Node>),
    /// Entries in document order; keys are strings.
    Mapping(Vec<(String, Node)>),
    /// A value carrying an explicit YAML tag, which no part of the schema accepts.
    Tagged,
}

/// The first entry of `es` under `key`, if any.
pub open spec fn entry_at(es: Seq<(String, Node)>, key: Seq<char>) -> Option<Node>
    decreases es.len(),
{
    if es.len() == 0 {
        None
    } else {
        match entry_at(es.drop_last(), key) {
            Some(v) => Some(v),
            None => if es.last().0@ == key {
                Some(es.last().1)
            } else {
                None
            },
        }
    }
}

/// A match in a prefix of the entries is the match of the whole.
pub proof fn lemma_entry_prefix(es: Seq<(String, Node)>, j: int, key: Seq<char>)
    requires
        0 <= j <= es.len(),
        entry_at(es.take(j), key).is_some(),
    ensures
        entry_at(es, key) == entry_at(es.take(j), key),
    decreases es.len(),
{
    if j < es.len() {
        assert(es.drop_last().take(j) =~= es.take(j));
        lemma_entry_prefix(es.drop_last(), j, key);
    } else {
        assert(es.take(j) =~= es);
    }
}

/// The value under `key` when `n` is a mapping.
pub open spec fn field_of(n: Node, key: Seq<char>) -> Option<Node> {
    match n {
        Node::Mapping(es) => entry_at(es@, key),
        _ => None,
    }
}

/// Looks up `key` in a mapping node; any other node has no fields.
pub fn find_field<'a>(n: &'a Node, key: &str) -> (r: Option<&'a Node>)
    ensures
        match r {
            Some(v) => field_of(*n, key@) == Some(*v),
            None => field_of(*n, key@).is_none(),
        },
{
    match n {
        Node::Mapping(es) => {
            let k = key.to_owned();
            let mut i: usize = 0;
            while i < es.len()
                invariant
                    0 <= i <= es@.len(),
                    k@ == key@,
                    field_of(*n, key@) == entry_at(es@, key@),
                    entry_at(es@.take(i as int), key@).is_none(),
                decreases es@.len() - i,
            {
                assert(es@.take(i as int + 1).drop_last() =~= es@.take(i as int));
                if es[i].0 == k {
                    proof {
                        assert(es@.take(i as int + 1).last() == es@[i as int]);
                        assert(entry_at(es@.take(i as int + 1), key@) == Some(es@[i as int].1));
                        lemma_entry_prefix(es@, i as int + 1, key@);
                    }
                    return Some(&es[i].1);
                }
                i = i + 1;
            }
            assert(es@.take(i as int) =~= es@);
            None
        },
        _ => None,
    }
}

} // verus!
