use vstd::prelude::*;
use vstd::string::StringExecFns;
use crate::error::Shape;
use crate::error::SegV;
use crate::error::KindV;
use crate::error::FaultV;
use crate::error::PathSeg;
use crate::error::SchemaError;
use crate::error::SchemaErrorKind;

verus! {

pub open spec fn digit_text(d: nat) -> Seq<char> {
    if d == 0 { "0"@ } else if d == 1 { "1"@ } else if d == 2 { "2"@ } else if d == 3 { "3"@ }
    else if d == 4 { "4"@ } else if d == 5 { "5"@ } else if d == 6 { "6"@ } else if d == 7 { "7"@ }
    else if d == 8 { "8"@ } else { "9"@ }
}

/// The decimal digits of `n`.
pub open spec fn decimal(n: nat) -> Seq<char>
    decreases n,
{
    if n < 10 {
        digit_text(n)
    } else {
        decimal(n / 10) + digit_text(n % 10)
    }
}

fn digit_str(d: usize) -> (r: &'static str)
    requires
        d < 10,
    ensures
        r@ == digit_text(d as nat),
{
    if d == 0 { "0" } else if d == 1 { "1" } else if d == 2 { "2" } else if d == 3 { "3" }
    else if d == 4 { "4" } else if d == 5 { "5" } else if d == 6 { "6" } else if d == 7 { "7" }
    else if d == 8 { "8" } else { "9" }
}

pub fn decimal_text(n: usize) -> (r: String)
    ensures
        r@ == decimal(n as nat),
{
    decimal_text_u64(n as u64)
}

/// An integer in decimal, with a minus sign when negative.
pub open spec fn signed_text(i: int) -> Seq<char> {
    if i < 0 {
        "-"@ + decimal((-i) as nat)
    } else {
        decimal(i as nat)
    }
}

pub fn signed_decimal_text(i: i64) -> (r: String)
    ensures
        r@ == signed_text(i as int),
{
    if i < 0 {
        let m: u64 = if i == i64::MIN { 9223372036854775808u64 } else { (-i) as u64 };
        let d = decimal_text_u64(m);
        let mut s = "-".to_owned();
        s.append(d.as_str());
        s
    } else {
        decimal_text_u64(i as u64)
    }
}

pub fn decimal_text_u64(n: u64) -> (r: String)
    ensures
        r@ == decimal(n as nat),
    decreases n,
{
    if n < 10 {
        digit_str(n as usize).to_owned()
    } else {
        let mut s = decimal_text_u64(n / 10);
        s.append(digit_str((n % 10) as usize));
        s
    }
}

/// A dotted path with indices in brackets: `pipeline.transforms[2].map`.
pub open spec fn path_text(path: Seq<SegV>) -> Seq<char>
    decreases path.len(),
{
    if path.len() == 0 {
        seq![]
    } else {
        path_text(path.drop_last()) + match path.last() {
            SegV::Key(k) => if path.len() == 1 { k } else { "."@ + k },
            SegV::Index(i) => "["@ + decimal(i as nat) + "]"@,
        }
    }
}

/// Where the error lies: its path, or the document root for an empty path.
pub open spec fn place_text(path: Seq<SegV>) -> Seq<char> {
    if path.len() == 0 {
        "the document root"@
    } else {
        path_text(path)
    }
}

pub open spec fn shape_text(s: Shape) -> Seq<char> {
    match s {
        Shape::Null => "null"@,
        Shape::Bool => "a boolean"@,
        Shape::Integer => "an integer"@,
        Shape::Real => "a floating-point number"@,
        Shape::Number => "a number"@,
        Shape::Port => "an integer in 0..=65535"@,
        Shape::Text => "a string"@,
        Shape::List => "a sequence"@,
        Shape::Mapping => "a mapping"@,
        Shape::Tagged => "a tagged value"@,
    }
}

/// The diagnostic for a schema error: what is wrong, and where.
pub open spec fn fault_text(f: FaultV) -> Seq<char> {
    match f.kind {
        KindV::MissingField => "missing mandatory field `"@ + place_text(f.path) + "`"@,
        KindV::UnknownVariant(Some(t)) => "unknown variant `"@ + t + "` at `"@ + place_text(f.path)
            + "`"@,
        KindV::UnknownVariant(None) => "missing or non-string variant tag at `"@ + place_text(
            f.path,
        ) + "`"@,
        KindV::TypeMismatch(e, a, v) => "at `"@ + place_text(f.path) + "`: expected "@ + shape_text(e)
            + ", found "@ + shape_text(a) + match v {
            Some(i) => " ("@ + signed_text(i) + ")"@,
            None => seq![],
        },
    }
}

fn shape_str(s: Shape) -> (r: &'static str)
    ensures
        r@ == shape_text(s),
{
    match s {
        Shape::Null => "null",
        Shape::Bool => "a boolean",
        Shape::Integer => "an integer",
        Shape::Real => "a floating-point number",
        Shape::Number => "a number",
        Shape::Port => "an integer in 0..=65535",
        Shape::Text => "a string",
        Shape::List => "a sequence",
        Shape::Mapping => "a mapping",
        Shape::Tagged => "a tagged value",
    }
}

fn place_of(path: &Vec<PathSeg>) -> (r: String)
    ensures
        r@ == place_text(path@.map_values(|s: PathSeg| s@)),
{
    let ghost segs = path@.map_values(|s: PathSeg| s@);
    if path.len() == 0 {
        return "the document root".to_owned();
    }
    let mut out = String::new();
    let mut i: usize = 0;
    assert(segs.take(0) =~= Seq::<SegV>::empty());
    while i < path.len()
        invariant
            0 <= i <= path@.len(),
            segs == path@.map_values(|s: PathSeg| s@),
            out@ == path_text(segs.take(i as int)),
        decreases path@.len() - i,
    {
        assert(segs.take(i as int + 1).drop_last() =~= segs.take(i as int));
        assert(segs.take(i as int + 1).last() == path@[i as int]@);
        match &path[i] {
            PathSeg::Key(k) => {
                if i > 0 {
                    out.append(".");
                }
                out.append(k.as_str());
            },
            PathSeg::Index(x) => {
                out.append("[");
                let d = decimal_text(*x);
                out.append(d.as_str());
                out.append("]");
            },
        }
        i = i + 1;
    }
    assert(segs.take(i as int) =~= segs);
    out
}

impl SchemaError {
    /// A message for an operator: what is wrong, and at which field path.
    pub fn message(&self) -> (r: String)
        ensures
            r@ == fault_text(self@),
    {
        let place = place_of(&self.path);
        let mut out = String::new();
        match &self.kind {
            SchemaErrorKind::MissingField => {
                out.append("missing mandatory field `");
                out.append(place.as_str());
                out.append("`");
            },
            SchemaErrorKind::UnknownVariant(Some(t)) => {
                out.append("unknown variant `");
                out.append(t.as_str());
                out.append("` at `");
                out.append(place.as_str());
                out.append("`");
            },
            SchemaErrorKind::UnknownVariant(None) => {
                out.append("missing or non-string variant tag at `");
                out.append(place.as_str());
                out.append("`");
            },
            SchemaErrorKind::TypeMismatch { expected, actual, number } => {
                out.append("at `");
                out.append(place.as_str());
                out.append("`: expected ");
                out.append(shape_str(*expected));
                out.append(", found ");
                out.append(shape_str(*actual));
                if let Some(i) = number {
                    out.append(" (");
                    let d = signed_decimal_text(*i);
                    out.append(d.as_str());
                    out.append(")");
                }
            },
        }
        assert(out@ =~= fault_text(self@));
        out
    }
}

} // verus!
