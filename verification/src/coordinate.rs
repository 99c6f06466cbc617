//! Tile coordinates and the validation of the path segments that carry them.

use crate::text::chars_of;
use vstd::prelude::*;

verus! {

/// The address of one tile of the pyramid: zoom level, column and row.
#[derive(Clone, Copy, Debug, PartialEq, Eq, Structural)]
pub struct TileCoordinate {
    pub zoom: i32,
    pub column: i32,
    pub row: i32,
}

impl TileCoordinate {
    /// No part of the address is negative.
    pub open spec fn well_formed(&self) -> bool {
        self.zoom >= 0 && self.column >= 0 && self.row >= 0
    }
}

/// One of the three parts of a tile address.
#[derive(Clone, Copy, Debug, PartialEq, Eq, Structural)]
pub enum Axis {
    Zoom,
    Column,
    Row,
}

/// A path segment that is not a non-negative decimal integer. `axis` is the
/// first part of the address, in the order zoom, column, row, that is at fault.
#[derive(Clone, Copy, Debug, PartialEq, Eq, Structural)]
pub struct MalformedCoordinate {
    pub axis: Axis,
}

pub open spec fn is_digit(c: char) -> bool {
    '0' <= c && c <= '9'
}

pub open spec fn digit_value(c: char) -> int {
    c as int - '0' as int
}

pub open spec fn all_digits(s: Seq<char>) -> bool {
    forall|i: int| 0 <= i < s.len() ==> is_digit(#[trigger] s[i])
}

/// The number that a run of decimal digits denotes, most significant first.
pub open spec fn digits_value(s: Seq<char>) -> int
    decreases s.len(),
{
    if s.len() == 0 {
        0
    } else {
        digits_value(s.drop_last()) * 10 + digit_value(s.last())
    }
}

pub open spec fn has_sign(s: Seq<char>) -> bool {
    s.len() > 0 && (s[0] == '+' || s[0] == '-')
}

/// The digits of a segment: what follows its sign, if it has one.
pub open spec fn magnitude_part(s: Seq<char>) -> Seq<char> {
    if has_sign(s) {
        s.skip(1)
    } else {
        s
    }
}

/// The integer that a segment is written as: an optional sign and at least
/// one decimal digit. `None` where the segment is not of that form.
pub open spec fn written_integer(s: Seq<char>) -> Option<int> {
    let digits = magnitude_part(s);
    if digits.len() > 0 && all_digits(digits) {
        if has_sign(s) && s[0] == '-' {
            Some(-digits_value(digits))
        } else {
            Some(digits_value(digits))
        }
    } else {
        None
    }
}

/// The value of a coordinate segment: the integer it is written as, where
/// that is at least zero and fits the store's 32-bit integer parameter.
pub open spec fn segment_value(s: Seq<char>) -> Option<int> {
    match written_integer(s) {
        Some(v) => if 0 <= v <= i32::MAX {
            Some(v)
        } else {
            None
        },
        None => None,
    }
}

/// The coordinate that three path segments denote, or the first of them that
/// is malformed.
pub open spec fn tile_coordinate(zoom: Seq<char>, column: Seq<char>, row: Seq<char>) -> Result<
    TileCoordinate,
    MalformedCoordinate,
> {
    if segment_value(zoom) is None {
        Err(MalformedCoordinate { axis: Axis::Zoom })
    } else if segment_value(column) is None {
        Err(MalformedCoordinate { axis: Axis::Column })
    } else if segment_value(row) is None {
        Err(MalformedCoordinate { axis: Axis::Row })
    } else {
        Ok(
            TileCoordinate {
                zoom: segment_value(zoom)->0 as i32,
                column: segment_value(column)->0 as i32,
                row: segment_value(row)->0 as i32,
            },
        )
    }
}

proof fn lemma_digits_value_step(s: Seq<char>, from: int, to: int)
    requires
        0 <= from <= to < s.len(),
    ensures
        digits_value(s.subrange(from, to + 1)) == digits_value(s.subrange(from, to)) * 10
            + digit_value(s[to]),
{
    let longer = s.subrange(from, to + 1);
    assert(longer.drop_last() =~= s.subrange(from, to));
    assert(longer.last() == s[to]);
}

/// Reads one coordinate segment.
pub fn parse_segment(segment: &str) -> (value: Option<i32>)
    ensures
        match value {
            Some(v) => segment_value(segment@) == Some(v as int),
            None => segment_value(segment@) is None,
        },
{
    let chars = chars_of(segment);
    let n: usize = chars.len();
    let signed: bool = n > 0 && (chars[0] == '+' || chars[0] == '-');
    let negative: bool = signed && chars[0] == '-';
    let start: usize = if signed {
        1
    } else {
        0
    };
    if start == n {
        return None;
    }
    let ghost digits = magnitude_part(segment@);
    assert(digits =~= chars@.subrange(start as int, n as int));
    let mut magnitude: i32 = 0;
    let mut too_large: bool = false;
    let mut i: usize = start;
    while i < n
        invariant
            start <= i <= n,
            n == chars@.len(),
            digits == magnitude_part(segment@),
            digits == chars@.subrange(start as int, n as int),
            all_digits(chars@.subrange(start as int, i as int)),
            0 <= magnitude,
            !too_large ==> magnitude == digits_value(chars@.subrange(start as int, i as int)),
            too_large ==> digits_value(chars@.subrange(start as int, i as int)) > i32::MAX,
        decreases n - i,
    {
        let c: char = chars[i];
        if c < '0' || c > '9' {
            assert(digits[i - start] == c);
            return None;
        }
        let d: i32 = (c as u32 - '0' as u32) as i32;
        proof {
            lemma_digits_value_step(chars@, start as int, i as int);
            assert(d == digit_value(chars@[i as int]));
            assert forall|k: int| 0 <= k < i + 1 - start implies is_digit(
                #[trigger] chars@.subrange(start as int, i + 1)[k],
            ) by {
                if k < i - start {
                    assert(chars@.subrange(start as int, i as int)[k] == chars@[start + k]);
                }
            }
        }
        if !too_large {
            if magnitude > (i32::MAX - d) / 10 {
                too_large = true;
            } else {
                magnitude = magnitude * 10 + d;
            }
        }
        i = i + 1;
    }
    assert(chars@.subrange(start as int, n as int) =~= digits);
    if too_large {
        None
    } else if negative {
        if magnitude == 0 {
            Some(0)
        } else {
            None
        }
    } else {
        Some(magnitude)
    }
}

impl TileCoordinate {
    /// Validates the three path segments of a tile address. Each must be a
    /// non-negative decimal integer; no bound ties column and row to the zoom
    /// level, so any three such integers make a coordinate.
    pub fn parse(zoom: &str, column: &str, row: &str) -> (parsed: Result<
        TileCoordinate,
        MalformedCoordinate,
    >)
        ensures
            parsed == tile_coordinate(zoom@, column@, row@),
            parsed matches Ok(coordinate) ==> coordinate.well_formed(),
    {
        match parse_segment(zoom) {
            None => Err(MalformedCoordinate { axis: Axis::Zoom }),
            Some(z) => match parse_segment(column) {
                None => Err(MalformedCoordinate { axis: Axis::Column }),
                Some(x) => match parse_segment(row) {
                    None => Err(MalformedCoordinate { axis: Axis::Row }),
                    Some(y) => Ok(TileCoordinate { zoom: z, column: x, row: y }),
                },
            },
        }
    }
}

} // verus!
