use vstd::prelude::*;
use vstd::string::StrSliceExecFns;

verus! {

/// The characters that separate tokens: ASCII space, tab, line feed,
/// form feed and carriage return.
pub open spec fn is_separator(c: char) -> bool {
    c == ' ' || c == '\t' || c == '\n' || c == '\x0C' || c == '\r'
}

/// The tokens of `s[i..]`, where a token that is still open started at `start`
/// (`start == i` when none is open). A token is a maximal run of
/// non-separator characters.
pub open spec fn tokens_from(s: Seq<char>, start: int, i: int) -> Seq<Seq<char>>
    decreases s.len() - i,
{
    if i >= s.len() {
        if start < i {
            seq![s.subrange(start, i)]
        } else {
            seq![]
        }
    } else if is_separator(s[i]) {
        if start < i {
            seq![s.subrange(start, i)] + tokens_from(s, i + 1, i + 1)
        } else {
            tokens_from(s, i + 1, i + 1)
        }
    } else {
        tokens_from(s, start, i + 1)
    }
}

/// The tokens of a line: its maximal runs of non-separator characters, in order.
pub open spec fn tokens(s: Seq<char>) -> Seq<Seq<char>> {
    tokens_from(s, 0, 0)
}

/// Whether two strings hold the same characters.
pub fn same_text(a: &str, b: &str) -> (r: bool)
    ensures
        r == (a@ == b@),
{
    let n = a.unicode_len();
    if n != b.unicode_len() {
        return false;
    }
    let mut i: usize = 0;
    while i < n
        invariant
            n == a@.len(),
            n == b@.len(),
            i <= n,
            a@.subrange(0, i as int) == b@.subrange(0, i as int),
        decreases n - i,
    {
        if a.get_char(i) != b.get_char(i) {
            assert(a@[i as int] != b@[i as int]);
            return false;
        }
        assert(a@.subrange(0, i + 1) == a@.subrange(0, i as int).push(a@[i as int]));
        assert(b@.subrange(0, i + 1) == b@.subrange(0, i as int).push(b@[i as int]));
        i = i + 1;
    }
    assert(a@ == a@.subrange(0, n as int));
    assert(b@ == b@.subrange(0, n as int));
    true
}

/// Splits a line into its tokens, each a maximal run of characters that are
/// not ASCII whitespace.
pub fn tokenize(line: &str) -> (r: Vec<String>)
    ensures
        r@.len() == tokens(line@).len(),
        forall|k: int| 0 <= k < r@.len() ==> #[trigger] r@[k]@ == tokens(line@)[k],
{
    let n = line.unicode_len();
    let mut out: Vec<String> = Vec::new();
    let mut start: usize = 0;
    let mut i: usize = 0;
    while i < n
        invariant
            n == line@.len(),
            start <= i <= n,
            out@.map_values(|t: String| t@) + tokens_from(line@, start as int, i as int)
                == tokens(line@),
        decreases n - i,
    {
        let c = line.get_char(i);
        if c == ' ' || c == '\t' || c == '\n' || c == '\x0C' || c == '\r' {
            if start < i {
                let t = line.substring_char(start, i).to_owned();
                proof {
                    assert(out@.push(t).map_values(|t: String| t@) == out@.map_values(
                        |t: String| t@,
                    ).push(t@));
                }
                out.push(t);
            }
            start = i + 1;
        }
        i = i + 1;
    }
    if start < n {
        let t = line.substring_char(start, n).to_owned();
        proof {
            assert(out@.push(t).map_values(|t: String| t@) == out@.map_values(|t: String| t@).push(
                t@,
            ));
        }
        out.push(t);
    }
    proof {
        assert(out@.map_values(|t: String| t@) == tokens(line@));
        assert forall|k: int| 0 <= k < out@.len() implies #[trigger] out@[k]@ == tokens(line@)[k] by {
            assert(out@.map_values(|t: String| t@)[k] == out@[k]@);
        }
    }
    out
}

} // verus!
