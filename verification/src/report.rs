//! Rendering a validation outcome as the two status lines that are
//! printed for each file: an announcement naming the file, then a
//! verdict. Rendering never changes an outcome; the caller only prints
//! what it is handed.

use vstd::prelude::*;
use vstd::string::StringExecFns;

use crate::check::{Outcome, OutcomeV};
use crate::json::Shape;
use crate::schema::{Diag, DiagV, ErrKind, KindV, Seg, SegV};

verus! {

/// The decimal digit character for one digit value.
pub open spec fn digit_char(d: int) -> char {
    if d == 0 {
        '0'
    } else if d == 1 {
        '1'
    } else if d == 2 {
        '2'
    } else if d == 3 {
        '3'
    } else if d == 4 {
        '4'
    } else if d == 5 {
        '5'
    } else if d == 6 {
        '6'
    } else if d == 7 {
        '7'
    } else if d == 8 {
        '8'
    } else {
        '9'
    }
}

/// The decimal digits of a number, most significant first, with no
/// leading zero except for the number zero itself.
pub open spec fn dec_digits(n: nat) -> Seq<char>
    decreases n,
{
    if n < 10 {
        seq![digit_char(n as int)]
    } else {
        dec_digits(n / 10).push(digit_char((n % 10) as int))
    }
}

/// Appends one decimal digit character.
fn push_digit(s: &mut String, d: u64)
    requires
        d < 10,
    ensures
        final(s)@ == old(s)@.push(digit_char(d as int)),
{
    if d == 0 {
        s.append("0");
        proof {
            reveal_strlit("0");
            assert(old(s)@ + "0"@ =~= old(s)@.push('0'));
        }
    } else if d == 1 {
        s.append("1");
        proof {
            reveal_strlit("1");
            assert(old(s)@ + "1"@ =~= old(s)@.push('1'));
        }
    } else if d == 2 {
        s.append("2");
        proof {
            reveal_strlit("2");
            assert(old(s)@ + "2"@ =~= old(s)@.push('2'));
        }
    } else if d == 3 {
        s.append("3");
        proof {
            reveal_strlit("3");
            assert(old(s)@ + "3"@ =~= old(s)@.push('3'));
        }
    } else if d == 4 {
        s.append("4");
        proof {
            reveal_strlit("4");
            assert(old(s)@ + "4"@ =~= old(s)@.push('4'));
        }
    } else if d == 5 {
        s.append("5");
        proof {
            reveal_strlit("5");
            assert(old(s)@ + "5"@ =~= old(s)@.push('5'));
        }
    } else if d == 6 {
        s.append("6");
        proof {
            reveal_strlit("6");
            assert(old(s)@ + "6"@ =~= old(s)@.push('6'));
        }
    } else if d == 7 {
        s.append("7");
        proof {
            reveal_strlit("7");
            assert(old(s)@ + "7"@ =~= old(s)@.push('7'));
        }
    } else if d == 8 {
        s.append("8");
        proof {
            reveal_strlit("8");
            assert(old(s)@ + "8"@ =~= old(s)@.push('8'));
        }
    } else {
        s.append("9");
        proof {
            reveal_strlit("9");
            assert(old(s)@ + "9"@ =~= old(s)@.push('9'));
        }
    }
}

/// Appends the decimal digits of a number.
fn append_u64(s: &mut String, n: u64)
    ensures
        final(s)@ == old(s)@ + dec_digits(n as nat),
    decreases n,
{
    if n < 10 {
        push_digit(s, n);
        proof {
            assert(old(s)@.push(digit_char(n as int)) =~= old(s)@ + dec_digits(n as nat));
        }
    } else {
        append_u64(s, n / 10);
        push_digit(s, n % 10);
        proof {
            assert((old(s)@ + dec_digits((n / 10) as nat)).push(digit_char((n % 10) as int))
                =~= old(s)@ + dec_digits(n as nat));
        }
    }
}

/// Renders a number in decimal.
pub fn format_u64(n: u64) -> (s: String)
    ensures
        s@ == dec_digits(n as nat),
{
    let mut s = String::new();
    append_u64(&mut s, n);
    proof {
        assert(Seq::<char>::empty() + dec_digits(n as nat) =~= dec_digits(n as nat));
    }
    s
}

/// The text of one path segment: `.name` for a field, `[i]` for an index.
pub open spec fn seg_text(seg: SegV) -> Seq<char> {
    match seg {
        SegV::Key(k) => "."@ + k,
        SegV::Idx(i) => "["@ + dec_digits(i as nat) + "]"@,
    }
}

/// The text of a diagnostic path, rooted at the document: `$`, then one
/// segment after another.
pub open spec fn path_text(path: Seq<SegV>) -> Seq<char>
    decreases path.len(),
{
    if path.len() == 0 {
        "$"@
    } else {
        path_text(path.drop_last()) + seg_text(path.last())
    }
}

/// A word for each shape, as it appears in a diagnostic.
pub open spec fn shape_text(sh: Shape) -> Seq<char> {
    match sh {
        Shape::Null => "null"@,
        Shape::Boolean => "a boolean"@,
        Shape::Number => "a number"@,
        Shape::Text => "a string"@,
        Shape::Sequence => "a sequence"@,
        Shape::Object => "an object"@,
        Shape::Unsigned32 => "an unsigned 32-bit integer"@,
        Shape::Unsigned16 => "an unsigned 16-bit integer"@,
    }
}

/// The full text of a diagnostic.
pub open spec fn diag_text(d: DiagV) -> Seq<char> {
    match d.kind {
        KindV::Missing(f) => "missing field `"@ + f + "` at "@ + path_text(d.path),
        KindV::Mismatch { expected, found } => "expected "@ + shape_text(expected) + " but found "@
            + shape_text(found) + " at "@ + path_text(d.path),
        KindV::Unparseable => "content is not valid JSON"@,
    }
}

/// The announcement line for one file.
pub open spec fn announce_text(path: Seq<char>) -> Seq<char> {
    "Checking file "@ + path
}

/// The verdict line for one file.
pub open spec fn verdict_text(path: Seq<char>, o: OutcomeV) -> Seq<char> {
    match o {
        OutcomeV::Valid => "File "@ + path + " is valid"@,
        OutcomeV::Invalid(d) => "File "@ + path + " is invalid: "@ + diag_text(d),
    }
}

/// Appends the text of one path segment.
fn append_seg(s: &mut String, seg: &Seg)
    ensures
        final(s)@ == old(s)@ + seg_text(seg@),
{
    match seg {
        Seg::Key(k) => {
            s.append(".");
            s.append(k.as_str());
            proof {
                assert((old(s)@ + "."@) + k@ =~= old(s)@ + ("."@ + k@));
            }
        },
        Seg::Idx(i) => {
            s.append("[");
            append_u64(s, *i as u64);
            s.append("]");
            proof {
                assert(((old(s)@ + "["@) + dec_digits(*i as nat)) + "]"@ =~= old(s)@ + ("["@
                    + dec_digits(*i as nat) + "]"@));
            }
        },
    }
}

/// Renders a diagnostic path.
#[verifier::loop_isolation(false)]
fn format_path(path: &Vec<Seg>) -> (s: String)
    ensures
        s@ == path_text(path@.map_values(|seg: Seg| seg@)),
{
    let ghost pv = path@.map_values(|seg: Seg| seg@);
    let mut s = String::from_str("$");
    let n = path.len();
    for i in 0..n
        invariant
            n == path.len(),
            s@ == path_text(pv.take(i as int)),
    {
        append_seg(&mut s, &path[i]);
        proof {
            assert(pv.take(i as int + 1).drop_last() =~= pv.take(i as int));
            assert(pv.take(i as int + 1).last() == pv[i as int]);
        }
    }
    proof {
        assert(pv.take(n as int) =~= pv);
    }
    s
}

/// A word for the found or expected shape.
fn shape_word(sh: Shape) -> (s: String)
    ensures
        s@ == shape_text(sh),
{
    match sh {
        Shape::Null => String::from_str("null"),
        Shape::Boolean => String::from_str("a boolean"),
        Shape::Number => String::from_str("a number"),
        Shape::Text => String::from_str("a string"),
        Shape::Sequence => String::from_str("a sequence"),
        Shape::Object => String::from_str("an object"),
        Shape::Unsigned32 => String::from_str("an unsigned 32-bit integer"),
        Shape::Unsigned16 => String::from_str("an unsigned 16-bit integer"),
    }
}

impl Diag {
    /// Renders the diagnostic: what was wrong, and the path to where.
    pub fn describe(&self) -> (s: String)
        ensures
            s@ == diag_text(self@),
    {
        match &self.kind {
            ErrKind::Missing(f) => {
                let mut s = String::from_str("missing field `");
                s.append(f.as_str());
                s.append("` at ");
                let p = format_path(&self.path);
                s.append(p.as_str());
                proof {
                    assert((("missing field `"@ + f@) + "` at "@) + path_text(self@.path)
                        =~= diag_text(self@));
                }
                s
            },
            ErrKind::Mismatch { expected, found } => {
                let mut s = String::from_str("expected ");
                let ew = shape_word(*expected);
                s.append(ew.as_str());
                s.append(" but found ");
                let fw = shape_word(*found);
                s.append(fw.as_str());
                s.append(" at ");
                let p = format_path(&self.path);
                s.append(p.as_str());
                proof {
                    assert((((("expected "@ + shape_text(*expected)) + " but found "@)
                        + shape_text(*found)) + " at "@) + path_text(self@.path) =~= diag_text(
                        self@,
                    ));
                }
                s
            },
            ErrKind::Unparseable => String::from_str("content is not valid JSON"),
        }
    }
}

/// Renders the two status lines for one file: the announcement, then
/// the verdict with its diagnostic when the file is invalid.
pub fn report_lines(path: &String, outcome: &Outcome) -> (r: (String, String))
    ensures
        r.0@ == announce_text(path@),
        r.1@ == verdict_text(path@, outcome@),
{
    let mut announce = String::from_str("Checking file ");
    announce.append(path.as_str());
    let mut verdict = String::from_str("File ");
    verdict.append(path.as_str());
    match outcome {
        Outcome::Valid => {
            verdict.append(" is valid");
            proof {
                assert((("File "@ + path@) + " is valid"@) =~= verdict_text(path@, outcome@));
            }
        },
        Outcome::Invalid(d) => {
            verdict.append(" is invalid: ");
            let t = d.describe();
            verdict.append(t.as_str());
            proof {
                assert(((("File "@ + path@) + " is invalid: "@) + diag_text(d@)) =~= verdict_text(
                    path@,
                    outcome@,
                ));
            }
        },
    }
    (announce, verdict)
}

} // verus!
