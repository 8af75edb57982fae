//! Colour palettes and the mapping from iteration counts to colours.

use vstd::prelude::*;

use vstd::utf8::is_ascii_chars;

use crate::MAX_ITERATIONS;

verus! {

/// Colour given to points that never escape within the iteration cap.
pub const SENTINEL: [u8; 3] = [0, 0, 0];

/// The colour that `count` receives from `colors`.
pub open spec fn color_of(count: u32, colors: Seq<[u8; 3]>) -> [u8; 3] {
    if count >= MAX_ITERATIONS {
        SENTINEL
    } else {
        colors[(count as int) % (colors.len() as int)]
    }
}

/// Maps an iteration count to a colour: the sentinel for non-escaping
/// points, otherwise the palette entry at `count` taken cyclically.
pub fn to_rgb(it: u32, colors: &Vec<[u8; 3]>) -> (r: [u8; 3])
    requires
        it < MAX_ITERATIONS ==> colors@.len() > 0,
    ensures
        r == color_of(it, colors@),
        it >= MAX_ITERATIONS ==> r == SENTINEL,
{
    if it >= MAX_ITERATIONS {
        return SENTINEL;
    }
    let i: usize = it as usize % colors.len();
    colors[i]
}


/// The palette built from `base`: the base sequence followed by its reverse,
/// so that the cyclic ramp runs forward and back without a seam.
pub open spec fn mirrored(base: Seq<[u8; 3]>) -> Seq<[u8; 3]> {
    base + base.reverse()
}

/// Builds the cyclic palette from a base sequence of colours.
pub fn mirror_palette(base: Vec<[u8; 3]>) -> (r: Vec<[u8; 3]>)
    ensures
        r@ == mirrored(base@),
        r@.len() == 2 * base@.len(),
        forall|i: int| 0 <= i < base@.len() ==> r@[i] == base@[i],
        forall|i: int|
            0 <= i < base@.len() ==> #[trigger] r@[base@.len() + i] == base@[base@.len() - 1 - i],
{
    let n: usize = base.len();
    let mut r: Vec<[u8; 3]> = base;
    let mut i: usize = 0;
    while i < n
        invariant
            i <= n,
            n == base@.len(),
            r@.len() == n + i,
            r@.subrange(0, n as int) == base@,
            forall|j: int| 0 <= j < i ==> #[trigger] r@[n + j] == base@[n - 1 - j],
        decreases n - i,
    {
        let c: [u8; 3] = r[n - 1 - i];
        r.push(c);
        proof {
            assert(r@.subrange(0, n as int) =~= base@);
        }
        i = i + 1;
    }
    assert(r@ =~= mirrored(base@)) by {
        let rev = base@.reverse();
        assert(rev.len() == n);
        assert forall|j: int| 0 <= j < n implies #[trigger] rev[j] == base@[n - 1 - j] by {}
        let m = mirrored(base@);
        assert forall|k: int| 0 <= k < 2 * n implies #[trigger] r@[k] == m[k] by {
            if k < n {
                assert(r@.subrange(0, n as int)[k] == base@[k]);
            } else {
                assert(r@[n + (k - n)] == base@[n - 1 - (k - n)]);
            }
        }
    }
    r
}

/// Value of one hexadecimal digit, in either case.
pub open spec fn hex_digit(c: char) -> Option<u8> {
    if '0' <= c && c <= '9' {
        Some((c as u32 - '0' as u32) as u8)
    } else if 'a' <= c && c <= 'f' {
        Some((c as u32 - 'a' as u32 + 10) as u8)
    } else if 'A' <= c && c <= 'F' {
        Some((c as u32 - 'A' as u32 + 10) as u8)
    } else {
        None
    }
}

/// Value of a two-character channel field read as a base-16 number: two
/// digits, or a plus sign followed by one digit.
pub open spec fn hex_pair(a: char, b: char) -> Option<u8> {
    if a == '+' {
        hex_digit(b)
    } else {
        match (hex_digit(a), hex_digit(b)) {
            (Some(x), Some(y)) => Some((16 * x + y) as u8),
            _ => None,
        }
    }
}

/// The colour that a line `#RRGGBB` (or `#RRGGBBAA`, alpha ignored) denotes.
pub open spec fn hex_color(s: Seq<char>) -> Option<[u8; 3]> {
    if (s.len() == 7 || s.len() == 9) && s[0] == '#' && hex_pair(s[1], s[2]) is Some
        && hex_pair(s[3], s[4]) is Some && hex_pair(s[5], s[6]) is Some && (s.len() == 9
        ==> hex_pair(s[7], s[8]) is Some) {
        Some([hex_pair(s[1], s[2])->Some_0, hex_pair(s[3], s[4])->Some_0, hex_pair(s[5], s[6])->Some_0])
    } else {
        None
    }
}

#[verifier::external_type_specification]
#[verifier::external_body]
pub struct ExRasterError(raster::error::RasterError);

/// Relies on raster::Color::hex, which on an ASCII string accepts `#` followed
/// by three or four channel fields of two characters, each read with
/// `u8::from_str_radix(_, 16)`; the alpha channel is dropped here.
#[verifier::external_body]
fn raster_hex(s: &str) -> (r: Result<[u8; 3], raster::error::RasterError>)
    requires
        s.is_ascii(),
    ensures
        r matches Ok(c) ==> hex_color(s@) == Some(c),
        r is Err ==> hex_color(s@) is None,
{
    raster::Color::hex(s).map(|c| [c.r, c.g, c.b])
}

/// A line that denotes a colour holds ASCII characters only.
proof fn lemma_hex_color_ascii(s: Seq<char>)
    requires
        hex_color(s) is Some,
    ensures
        is_ascii_chars(s),
{
    assert forall|i: int| 0 <= i < s.len() implies '\0' <= #[trigger] s[i] <= '\u{7f}' by {
        if i > 0 {
            let a = if i % 2 == 1 { s[i] } else { s[i - 1] };
            let b = if i % 2 == 1 { s[i + 1] } else { s[i] };
            assert(hex_pair(a, b) is Some);
        }
    }
}

/// Reads one colour line of the form `#RRGGBB` or `#RRGGBBAA`.
pub fn parse_color(s: &str) -> (r: Option<[u8; 3]>)
    ensures
        r == hex_color(s@),
{
    if !s.is_ascii() {
        proof {
            if hex_color(s@) is Some {
                lemma_hex_color_ascii(s@);
            }
        }
        return None;
    }
    match raster_hex(s) {
        Ok(c) => Some(c),
        Err(_) => None,
    }
}


/// Why a list of colour lines does not make a palette.
#[derive(Clone, Copy, Debug, PartialEq, Eq, Structural)]
pub enum PaletteError {
    /// No colour was given: a palette needs at least one.
    Empty,
    /// The line at this index is not a colour of the form `#RRGGBB`.
    InvalidColor { line: usize },
}

/// The base colours that `lines` denote, one per line.
pub open spec fn base_colors(lines: Seq<String>) -> Seq<[u8; 3]> {
    Seq::new(lines.len(), |i: int| hex_color(lines[i]@)->Some_0)
}

/// Builds the cyclic palette from colour lines: each line is decoded, and the
/// base sequence is mirrored. Fails on an empty list, or at the first line
/// that is not a colour.
pub fn parse_palette(lines: &Vec<String>) -> (r: Result<Vec<[u8; 3]>, PaletteError>)
    ensures
        match r {
            Ok(p) => {
                &&& lines@.len() > 0
                &&& forall|i: int| 0 <= i < lines@.len() ==> hex_color(#[trigger] lines@[i]@) is Some
                &&& p@ == mirrored(base_colors(lines@))
            },
            Err(PaletteError::Empty) => lines@.len() == 0,
            Err(PaletteError::InvalidColor { line }) => {
                &&& line < lines@.len()
                &&& hex_color(lines@[line as int]@) is None
                &&& forall|j: int| 0 <= j < line ==> hex_color(#[trigger] lines@[j]@) is Some
            },
        },
{
    if lines.len() == 0 {
        return Err(PaletteError::Empty);
    }
    let mut base: Vec<[u8; 3]> = Vec::new();
    let mut i: usize = 0;
    while i < lines.len()
        invariant
            i <= lines@.len(),
            base@.len() == i,
            forall|j: int| 0 <= j < i ==> hex_color(#[trigger] lines@[j]@) is Some,
            forall|j: int| 0 <= j < i ==> #[trigger] base@[j] == hex_color(lines@[j]@)->Some_0,
        decreases lines@.len() - i,
    {
        match parse_color(lines[i].as_str()) {
            Some(c) => base.push(c),
            None => return Err(PaletteError::InvalidColor { line: i }),
        }
        i = i + 1;
    }
    assert(base@ =~= base_colors(lines@));
    Ok(mirror_palette(base))
}

} // verus!
