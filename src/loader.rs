use vstd::prelude::*;

use crate::annotation::{line_result, parse_annotation, Annotation};
use crate::error::{ParseError, ParseFailure};

verus! {

/// The first line of a file that does not parse: its index (from 0) and why.
#[derive(Clone, Debug, PartialEq, Eq)]
pub struct LineError {
    pub index: usize,
    pub error: ParseError,
}

/// What a file of these lines loads to: every line's annotation in line
/// order, or the first failing line's index and error.
pub open spec fn load_result(ls: Seq<Seq<char>>) -> Result<Seq<Annotation>, (nat, ParseFailure)>
    decreases ls.len(),
{
    if ls.len() == 0 {
        Ok(seq![])
    } else {
        match load_result(ls.drop_last()) {
            Err(e) => Err(e),
            Ok(prev) => match line_result(ls.last()) {
                Ok(a) => Ok(prev.push(a)),
                Err(f) => Err(((ls.len() - 1) as nat, f)),
            },
        }
    }
}

/// The texts of a list of lines.
pub open spec fn line_texts(lines: Seq<String>) -> Seq<Seq<char>> {
    lines.map_values(|l: String| l@)
}

/// A successful load holds one annotation per line, the i-th being the parse
/// of the i-th line.
pub proof fn lemma_load_keeps_order(ls: Seq<Seq<char>>)
    requires
        load_result(ls) is Ok,
    ensures
        load_result(ls)->Ok_0.len() == ls.len(),
        forall|i: int|
            0 <= i < ls.len() ==> line_result(#[trigger] ls[i]) == Ok::<Annotation, ParseFailure>(
                load_result(ls)->Ok_0[i],
            ),
    decreases ls.len(),
{
    if ls.len() > 0 {
        let prefix = ls.drop_last();
        lemma_load_keeps_order(prefix);
        let v = load_result(ls)->Ok_0;
        assert forall|i: int| 0 <= i < ls.len() implies line_result(#[trigger] ls[i]) == Ok::<
            Annotation,
            ParseFailure,
        >(v[i]) by {
            if i < ls.len() - 1 {
                assert(ls[i] == prefix[i]);
            }
        }
    }
}

/// A failed load names a line that fails, and every line before it parses.
pub proof fn lemma_load_error_is_first(ls: Seq<Seq<char>>)
    requires
        load_result(ls) is Err,
    ensures
        load_result(ls)->Err_0.0 < ls.len(),
        line_result(ls[load_result(ls)->Err_0.0 as int]) == Err::<Annotation, ParseFailure>(
            load_result(ls)->Err_0.1,
        ),
        forall|j: int| 0 <= j < load_result(ls)->Err_0.0 ==> (#[trigger] line_result(ls[j])) is Ok,
    decreases ls.len(),
{
    let prefix = ls.drop_last();
    assert forall|i: int| 0 <= i < ls.len() - 1 implies ls[i] == #[trigger] prefix[i] by {}
    if load_result(prefix) is Err {
        lemma_load_error_is_first(prefix);
        assert forall|j: int| 0 <= j < load_result(ls)->Err_0.0 implies (#[trigger] line_result(
            ls[j],
        )) is Ok by {
            assert(ls[j] == prefix[j]);
        }
    } else {
        lemma_load_keeps_order(prefix);
        assert forall|j: int| 0 <= j < load_result(ls)->Err_0.0 implies (#[trigger] line_result(
            ls[j],
        )) is Ok by {
            assert(ls[j] == prefix[j]);
        }
    }
}

/// Loading fails as soon as any line fails: no partial result is returned.
pub proof fn lemma_load_fails_fast(ls: Seq<Seq<char>>, i: int)
    requires
        0 <= i < ls.len(),
        line_result(ls[i]) is Err,
    ensures
        load_result(ls) is Err,
{
    if load_result(ls) is Ok {
        lemma_load_keeps_order(ls);
    }
}

/// Parses every line of an annotation file, in order, stopping at the first
/// line that fails.
pub fn parse_annotation_lines(lines: &Vec<String>) -> (r: Result<Vec<Annotation>, LineError>)
    ensures
        match r {
            Ok(v) => load_result(line_texts(lines@)) == Ok::<Seq<Annotation>, (nat, ParseFailure)>(
                v@,
            ),
            Err(e) => load_result(line_texts(lines@)) == Err::<Seq<Annotation>, (nat, ParseFailure)>(
                (e.index as nat, e.error@),
            ),
        },
{
    let ghost ls = line_texts(lines@);
    let mut out: Vec<Annotation> = Vec::new();
    let mut i: usize = 0;
    while i < lines.len()
        invariant
            ls == line_texts(lines@),
            i <= lines@.len(),
            load_result(ls.take(i as int)) == Ok::<Seq<Annotation>, (nat, ParseFailure)>(out@),
        decreases lines@.len() - i,
    {
        proof {
            assert(ls.take(i + 1).drop_last() == ls.take(i as int));
            assert(ls.take(i + 1).last() == lines@[i as int]@);
        }
        match parse_annotation(lines[i].as_str()) {
            Ok(a) => {
                out.push(a);
            },
            Err(e) => {
                proof {
                    lemma_error_extends(ls, i as int + 1);
                }
                return Err(LineError { index: i, error: e });
            },
        }
        i = i + 1;
    }
    proof {
        assert(ls.take(i as int) == ls);
    }
    Ok(out)
}

/// A failure in a prefix is the failure of the whole.
proof fn lemma_error_extends(ls: Seq<Seq<char>>, n: int)
    requires
        0 <= n <= ls.len(),
        load_result(ls.take(n)) is Err,
    ensures
        load_result(ls) == load_result(ls.take(n)),
    decreases ls.len() - n,
{
    if n < ls.len() {
        assert(ls.take(n + 1).drop_last() == ls.take(n));
        lemma_error_extends(ls, n + 1);
    } else {
        assert(ls.take(n) == ls);
    }
}

} // verus!
