use vstd::prelude::*;

use crate::category::{category_of, Category};
use crate::error::{ParseError, ParseFailure};
use crate::text::{tokenize, tokens};
use crate::zero_one_bool::{deserialize, flag_of};

verus! {

/// The number of tokens on an annotation line.
pub const TOKENS_PER_LINE: usize = 10;

/// The number of coordinate tokens that open an annotation line.
pub const COORDINATE_TOKENS: usize = 8;

/// Whether a 64-bit IEEE 754 bit pattern is a finite number (its exponent is
/// not all ones).
pub open spec fn is_finite_bits(bits: u64) -> bool {
    (bits >> 52u64) & 0x7FFu64 != 0x7FFu64
}

/// A finite coordinate in image pixel space, held as the IEEE 754 bit pattern
/// of its 64-bit value.
#[derive(Clone, Copy, Debug, PartialEq, Eq, Hash, Structural)]
pub struct Coordinate {
    pub bits: u64,
}

impl Coordinate {
    /// The coordinate with this bit pattern; `None` for infinities and NaNs.
    pub fn from_bits(bits: u64) -> (r: Option<Coordinate>)
        ensures
            r == (if is_finite_bits(bits) {
                Some(Coordinate { bits })
            } else {
                None
            }),
    {
        if (bits >> 52u64) & 0x7FFu64 != 0x7FFu64 {
            Some(Coordinate { bits })
        } else {
            None
        }
    }

    /// The bit pattern of this coordinate.
    pub fn to_bits(self) -> (r: u64)
        ensures
            r == self.bits,
    {
        self.bits
    }
}

/// One labelled oriented bounding box: four corners, a category and a
/// difficulty flag.
#[derive(Clone, Copy, Debug, PartialEq, Eq, Hash, Structural)]
pub struct Annotation {
    pub x1: Coordinate,
    pub y1: Coordinate,
    pub x2: Coordinate,
    pub y2: Coordinate,
    pub x3: Coordinate,
    pub y3: Coordinate,
    pub x4: Coordinate,
    pub y4: Coordinate,
    pub category: Category,
    pub difficult: bool,
}

impl Annotation {
    /// Every coordinate is finite.
    pub open spec fn wf(&self) -> bool {
        &&& is_finite_bits(self.x1.bits)
        &&& is_finite_bits(self.y1.bits)
        &&& is_finite_bits(self.x2.bits)
        &&& is_finite_bits(self.y2.bits)
        &&& is_finite_bits(self.x3.bits)
        &&& is_finite_bits(self.y3.bits)
        &&& is_finite_bits(self.x4.bits)
        &&& is_finite_bits(self.y4.bits)
    }
}

/// The bit pattern of the finite number that serde_scan reads from a token as
/// a `noisy_float::types::R64`, or `None` where it reads none.
pub uninterp spec fn scanned_coordinate(s: Seq<char>) -> Option<u64>;

/// Relies on serde_scan::from_str reading one noisy_float::types::R64: std's
/// float syntax, refused by noisy_float unless the value is finite. The
/// result depends on the text alone.
#[verifier::external_body]
fn scan_coordinate(token: &str) -> (r: Option<u64>)
    ensures
        r == scanned_coordinate(token@),
        r matches Some(b) ==> is_finite_bits(b),
{
    serde_scan::from_str::<noisy_float::types::R64>(token).ok().map(|v| v.raw().to_bits())
}

/// The index of the first coordinate, from `k` on, that did not read as a
/// finite number.
pub open spec fn first_missing(sc: Seq<Option<u64>>, k: int) -> Option<int>
    decreases COORDINATE_TOKENS - k,
{
    if k >= COORDINATE_TOKENS {
        None
    } else if sc[k] is None {
        Some(k)
    } else {
        first_missing(sc, k + 1)
    }
}

/// The coordinate read at position `k`.
pub open spec fn coordinate_at(sc: Seq<Option<u64>>, k: int) -> Coordinate {
    Coordinate { bits: sc[k]->0 }
}

/// What ten tokens make, given what their first eight read as: eight
/// coordinates, a category alias and a difficulty flag, in this order; the
/// first thing that fails decides the error.
pub open spec fn assembled(t: Seq<Seq<char>>, sc: Seq<Option<u64>>) -> Result<
    Annotation,
    ParseFailure,
> {
    if first_missing(sc, 0) is Some {
        let k = first_missing(sc, 0)->0;
        Err(ParseFailure::Coordinate { index: k as nat, token: t[k] })
    } else if category_of(t[8]) is None {
        Err(ParseFailure::UnknownCategory { token: t[8] })
    } else if flag_of(t[9]) is None {
        Err(ParseFailure::MalformedFlag { token: t[9] })
    } else {
        Ok(
            Annotation {
                x1: coordinate_at(sc, 0),
                y1: coordinate_at(sc, 1),
                x2: coordinate_at(sc, 2),
                y2: coordinate_at(sc, 3),
                x3: coordinate_at(sc, 4),
                y3: coordinate_at(sc, 5),
                x4: coordinate_at(sc, 6),
                y4: coordinate_at(sc, 7),
                category: category_of(t[8])->0,
                difficult: flag_of(t[9])->0,
            },
        )
    }
}

/// What the coordinate tokens of a line read as.
pub open spec fn scanned_coordinates(t: Seq<Seq<char>>) -> Seq<Option<u64>> {
    Seq::new(COORDINATE_TOKENS as nat, |k: int| scanned_coordinate(t[k]))
}

/// What one line parses to.
pub open spec fn line_result(s: Seq<char>) -> Result<Annotation, ParseFailure> {
    let t = tokens(s);
    if t.len() != TOKENS_PER_LINE {
        Err(ParseFailure::TokenCount { expected: TOKENS_PER_LINE as nat, found: t.len(), line: s })
    } else {
        assembled(t, scanned_coordinates(t))
    }
}

/// A line that does not split into exactly ten tokens fails with a
/// token-count error, whatever its tokens hold.
pub proof fn lemma_token_count_checked(s: Seq<char>)
    requires
        tokens(s).len() != TOKENS_PER_LINE,
    ensures
        line_result(s) == Err::<Annotation, ParseFailure>(
            ParseFailure::TokenCount {
                expected: TOKENS_PER_LINE as nat,
                found: tokens(s).len(),
                line: s,
            },
        ),
{
}

/// A line of ten tokens whose coordinates read but whose category token is no
/// alias fails with an unknown-category error naming that token.
pub proof fn lemma_unknown_category_rejected(s: Seq<char>)
    requires
        tokens(s).len() == TOKENS_PER_LINE,
        first_missing(scanned_coordinates(tokens(s)), 0) is None,
        category_of(tokens(s)[8]) is None,
    ensures
        line_result(s) == Err::<Annotation, ParseFailure>(
            ParseFailure::UnknownCategory { token: tokens(s)[8] },
        ),
{
}

/// Builds an annotation from the ten tokens of a line and what its eight
/// coordinate tokens read as (`None` where one read as no finite number).
pub fn assemble_annotation(tokens: &Vec<String>, coordinates: &Vec<Option<u64>>) -> (r: Result<
    Annotation,
    ParseError,
>)
    requires
        tokens@.len() == TOKENS_PER_LINE,
        coordinates@.len() == COORDINATE_TOKENS,
        forall|k: int|
            0 <= k < COORDINATE_TOKENS ==> (#[trigger] coordinates@[k] matches Some(b)
                ==> is_finite_bits(b)),
    ensures
        match r {
            Ok(a) => assembled(tokens@.map_values(|t: String| t@), coordinates@) == Ok::<
                Annotation,
                ParseFailure,
            >(a) && a.wf(),
            Err(e) => assembled(tokens@.map_values(|t: String| t@), coordinates@) == Err::<
                Annotation,
                ParseFailure,
            >(e@),
        },
{
    let ghost t = tokens@.map_values(|t: String| t@);
    let mut k: usize = 0;
    while k < COORDINATE_TOKENS
        invariant
            t == tokens@.map_values(|t: String| t@),
            tokens@.len() == TOKENS_PER_LINE,
            coordinates@.len() == COORDINATE_TOKENS,
            k <= COORDINATE_TOKENS,
            forall|j: int| 0 <= j < k ==> (#[trigger] coordinates@[j]) is Some,
            first_missing(coordinates@, 0) == first_missing(coordinates@, k as int),
        decreases COORDINATE_TOKENS - k,
    {
        if coordinates[k].is_none() {
            assert(first_missing(coordinates@, k as int) == Some(k as int));
            assert(t[k as int] == tokens@[k as int]@);
            return Err(ParseError::Coordinate { index: k, token: tokens[k].clone() });
        }
        k = k + 1;
    }
    assert(t[8] == tokens@[8]@ && t[9] == tokens@[9]@);
    let category = match Category::from_alias(tokens[8].as_str()) {
        Some(c) => c,
        None => {
            return Err(ParseError::UnknownCategory { token: tokens[8].clone() });
        },
    };
    let difficult = match deserialize(tokens[9].as_str()) {
        Ok(b) => b,
        Err(e) => {
            return Err(e);
        },
    };
    Ok(
        Annotation {
            x1: Coordinate { bits: coordinates[0].unwrap() },
            y1: Coordinate { bits: coordinates[1].unwrap() },
            x2: Coordinate { bits: coordinates[2].unwrap() },
            y2: Coordinate { bits: coordinates[3].unwrap() },
            x3: Coordinate { bits: coordinates[4].unwrap() },
            y3: Coordinate { bits: coordinates[5].unwrap() },
            x4: Coordinate { bits: coordinates[6].unwrap() },
            y4: Coordinate { bits: coordinates[7].unwrap() },
            category,
            difficult,
        },
    )
}

/// Parses one annotation line.
pub fn parse_annotation(line: &str) -> (r: Result<Annotation, ParseError>)
    ensures
        match r {
            Ok(a) => line_result(line@) == Ok::<Annotation, ParseFailure>(a) && a.wf(),
            Err(e) => line_result(line@) == Err::<Annotation, ParseFailure>(e@),
        },
{
    let toks = tokenize(line);
    let ghost t = tokens(line@);
    if toks.len() != TOKENS_PER_LINE {
        return Err(
            ParseError::TokenCount {
                expected: TOKENS_PER_LINE,
                found: toks.len(),
                line: line.to_owned(),
            },
        );
    }
    let mut coordinates: Vec<Option<u64>> = Vec::new();
    let mut k: usize = 0;
    while k < COORDINATE_TOKENS
        invariant
            t == tokens(line@),
            toks@.len() == TOKENS_PER_LINE,
            forall|j: int| 0 <= j < toks@.len() ==> #[trigger] toks@[j]@ == t[j],
            k <= COORDINATE_TOKENS,
            coordinates@.len() == k,
            forall|j: int|
                0 <= j < k ==> #[trigger] coordinates@[j] == scanned_coordinate(t[j]) && (
                coordinates@[j] matches Some(b) ==> is_finite_bits(b)),
        decreases COORDINATE_TOKENS - k,
    {
        let c = scan_coordinate(toks[k].as_str());
        coordinates.push(c);
        k = k + 1;
    }
    proof {
        assert(toks@.map_values(|t: String| t@) == t);
        assert(coordinates@ == scanned_coordinates(t));
    }
    assemble_annotation(&toks, &coordinates)
}

} // verus!
