//! Reading a move written as two square names, such as `e2 e4`.

use vstd::prelude::*;
use crate::board::Board;
use crate::coord::Coord;

verus! {

/// The characters of a string, in order.
fn chars_of(text: &str) -> (chars: Vec<char>)
    ensures
        chars@ == text@,
{
    let mut chars: Vec<char> = Vec::new();
    for c in it: text.chars()
        invariant
            it.seq() == text@,
            chars@ == it.seq().take(it.index() as int),
    {
        chars.push(c);
    }
    chars
}

/// Whether `c` is white space: a character with Unicode's `White_Space`
/// property.
pub open spec fn is_space(c: char) -> bool {
    let u = c as u32;
    ||| 0x09 <= u <= 0x0D
    ||| u == 0x20
    ||| u == 0x85
    ||| u == 0xA0
    ||| u == 0x1680
    ||| 0x2000 <= u <= 0x200A
    ||| u == 0x2028
    ||| u == 0x2029
    ||| u == 0x202F
    ||| u == 0x205F
    ||| u == 0x3000
}

/// Whether the characters of `text` from index `from` up to `to` are all
/// white space.
pub open spec fn blank(text: Seq<char>, from: int, to: int) -> bool {
    forall|k: int| from <= k < to ==> is_space(#[trigger] text[k])
}

/// The square named by the two characters of `text` at index `i`: a column
/// letter from `a` to `h`, then a row digit from `1` to `8`.
pub open spec fn square_at(text: Seq<char>, i: int) -> Option<Coord> {
    if 0 <= i && i + 2 <= text.len() && 'a' as u32 <= text[i] as u32 <= 'h' as u32 && '1' as u32
        <= text[i + 1] as u32 <= '8' as u32 {
        Some(Coord::at(text[i + 1] as u32 - '1' as u32, text[i] as u32 - 'a' as u32))
    } else {
        None
    }
}

/// Whether `text` consists of the names of `start` and `end`, in this order,
/// with white space between them and possibly around them, and nothing
/// else.
pub open spec fn reads_as(text: Seq<char>, start: Coord, end: Coord) -> bool {
    exists|i: int, j: int|
        {
            &&& i + 2 < j
            &&& blank(text, 0, i)
            &&& #[trigger] square_at(text, i) == Some(start)
            &&& blank(text, i + 2, j)
            &&& #[trigger] square_at(text, j) == Some(end)
            &&& blank(text, j + 2, text.len() as int)
        }
}

/// Whether `c` is white space.
fn is_white_space(c: char) -> (b: bool)
    ensures
        b == is_space(c),
{
    let u: u32 = c as u32;
    (0x09 <= u && u <= 0x0D) || u == 0x20 || u == 0x85 || u == 0xA0 || u == 0x1680 || (0x2000 <= u
        && u <= 0x200A) || u == 0x2028 || u == 0x2029 || u == 0x202F || u == 0x205F || u == 0x3000
}

/// The index of the first character at or after `from` that is not white
/// space, or the length of `chars` if there is none.
fn skip_blank(chars: &Vec<char>, from: usize) -> (to: usize)
    requires
        from <= chars.len(),
    ensures
        from <= to <= chars.len(),
        blank(chars@, from as int, to as int),
        to < chars.len() ==> !is_space(chars[to as int]),
{
    let mut to: usize = from;
    while to < chars.len() && is_white_space(chars[to])
        invariant
            from <= to <= chars.len(),
            blank(chars@, from as int, to as int),
        decreases chars.len() - to,
    {
        to += 1;
    }
    to
}

/// The square named by the two characters at index `i`, if they name one.
fn read_square(chars: &Vec<char>, i: usize) -> (square: Option<Coord>)
    requires
        i <= chars.len(),
    ensures
        square == square_at(chars@, i as int),
{
    if chars.len() - i < 2 {
        return None;
    }
    let file: u32 = chars[i] as u32;
    let rank: u32 = chars[i + 1] as u32;
    if 'a' as u32 <= file && file <= 'h' as u32 && '1' as u32 <= rank && rank <= '8' as u32 {
        Some(Coord { row: (rank - '1' as u32) as i8, col: (file - 'a' as u32) as i8 })
    } else {
        None
    }
}

impl Board {
    /// Reads a move written as two square names separated by white space,
    /// such as `e2 e4`: for each square its column letter, `a` to `h` for
    /// columns 0 to 7, then its row digit, `1` to `8` for rows 0 to 7. White
    /// space around the two names is ignored. Any other text gives `None`.
    pub fn parse_move_string(move_string: &str) -> (parsed: Option<(Coord, Coord)>)
        ensures
            match parsed {
                Some((start, end)) => reads_as(move_string@, start, end),
                None => forall|start: Coord, end: Coord| !reads_as(move_string@, start, end),
            },
    {
        let chars = chars_of(move_string);
        let i = skip_blank(&chars, 0);
        let start = read_square(&chars, i);
        if start.is_none() {
            proof {
                lemma_first_name(chars@, i as int);
            }
            return None;
        }
        let j = skip_blank(&chars, i + 2);
        let end = read_square(&chars, j);
        if j == i + 2 || end.is_none() {
            proof {
                lemma_first_name(chars@, i as int);
                lemma_second_name(chars@, i as int, j as int);
            }
            return None;
        }
        let k = skip_blank(&chars, j + 2);
        if k != chars.len() {
            proof {
                lemma_first_name(chars@, i as int);
                lemma_second_name(chars@, i as int, j as int);
            }
            return None;
        }
        Some((start.unwrap(), end.unwrap()))
    }
}

/// A reading of `text` takes its first name where the leading white space
/// ends.
proof fn lemma_first_name(text: Seq<char>, i: int)
    requires
        0 <= i <= text.len(),
        blank(text, 0, i),
        i < text.len() ==> !is_space(text[i]),
    ensures
        forall|a: int, b: int|
            blank(text, 0, a) && (#[trigger] square_at(text, a)) is Some && (#[trigger] square_at(
                text,
                b,
            )) is Some ==> a == i,
{
    assert forall|a: int, b: int|
        blank(text, 0, a) && (#[trigger] square_at(text, a)) is Some && (#[trigger] square_at(
            text,
            b,
        )) is Some implies a == i by {
        assert(!is_space(text[a]));
        if a < i {
            assert(is_space(text[a]));
        }
        if i < a {
            assert(is_space(text[i]));
        }
    }
}

/// A reading of `text` whose first name stands at `i` takes its second name
/// where the white space after the first ends.
proof fn lemma_second_name(text: Seq<char>, i: int, j: int)
    requires
        0 <= i,
        i + 2 <= j <= text.len(),
        blank(text, i + 2, j),
        j < text.len() ==> !is_space(text[j]),
    ensures
        forall|b: int|
            i + 2 < b && blank(text, i + 2, b) && (#[trigger] square_at(text, b)) is Some ==> b
                == j,
{
    assert forall|b: int|
        i + 2 < b && blank(text, i + 2, b) && (#[trigger] square_at(text, b)) is Some implies b
        == j by {
        assert(!is_space(text[b]));
        if b < j {
            assert(is_space(text[b]));
        }
        if j < b {
            assert(is_space(text[j]));
        }
    }
}

} // verus!
