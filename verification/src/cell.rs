//! What a visited cell carries: its grapheme, resolved colours, where those
//! colours came from, and its attributes.
use vstd::prelude::*;

use crate::bits::bit16;
use crate::sys;
use crate::sys::shitty_vt_cell;

verus! {

/// Text attributes on a cell.
#[derive(Clone, Copy, Debug, Default, PartialEq, Eq, Structural)]
pub struct Attributes(pub u16);

impl Attributes {
    /// Bold (SGR 1).
    pub fn bold(self) -> (set: bool)
        ensures
            set == bit16(self.0, 0),
    {
        let bits = self.0;
        assert((bits & 1u16 != 0) == ((bits >> 0u16) & 1 == 1)) by (bit_vector);
        bits & sys::SHITTY_VT_ATTR_BOLD != 0
    }

    /// Faint (SGR 2).
    pub fn faint(self) -> (set: bool)
        ensures
            set == bit16(self.0, 1),
    {
        let bits = self.0;
        assert((bits & 2u16 != 0) == ((bits >> 1u16) & 1 == 1)) by (bit_vector);
        bits & sys::SHITTY_VT_ATTR_FAINT != 0
    }

    /// Italic (SGR 3).
    pub fn italic(self) -> (set: bool)
        ensures
            set == bit16(self.0, 2),
    {
        let bits = self.0;
        assert((bits & 4u16 != 0) == ((bits >> 2u16) & 1 == 1)) by (bit_vector);
        bits & sys::SHITTY_VT_ATTR_ITALIC != 0
    }

    /// Blinking (SGR 5).
    pub fn blink(self) -> (set: bool)
        ensures
            set == bit16(self.0, 3),
    {
        let bits = self.0;
        assert((bits & 8u16 != 0) == ((bits >> 3u16) & 1 == 1)) by (bit_vector);
        bits & sys::SHITTY_VT_ATTR_BLINK != 0
    }

    /// Reverse video (SGR 7): the swap belongs to whoever paints.
    pub fn inverse(self) -> (set: bool)
        ensures
            set == bit16(self.0, 4),
    {
        let bits = self.0;
        assert((bits & 16u16 != 0) == ((bits >> 4u16) & 1 == 1)) by (bit_vector);
        bits & sys::SHITTY_VT_ATTR_INVERSE != 0
    }

    /// Concealed (SGR 8).
    pub fn conceal(self) -> (set: bool)
        ensures
            set == bit16(self.0, 5),
    {
        let bits = self.0;
        assert((bits & 32u16 != 0) == ((bits >> 5u16) & 1 == 1)) by (bit_vector);
        bits & sys::SHITTY_VT_ATTR_CONCEAL != 0
    }

    /// Struck through (SGR 9).
    pub fn strike(self) -> (set: bool)
        ensures
            set == bit16(self.0, 6),
    {
        let bits = self.0;
        assert((bits & 64u16 != 0) == ((bits >> 6u16) & 1 == 1)) by (bit_vector);
        bits & sys::SHITTY_VT_ATTR_STRIKE != 0
    }

    /// Overlined (SGR 53).
    pub fn overline(self) -> (set: bool)
        ensures
            set == bit16(self.0, 7),
    {
        let bits = self.0;
        assert((bits & 128u16 != 0) == ((bits >> 7u16) & 1 == 1)) by (bit_vector);
        bits & sys::SHITTY_VT_ATTR_OVERLINE != 0
    }

}

/// An 8-bit-per-channel colour, already resolved through the palette.
#[derive(Clone, Copy, Debug, Default, PartialEq, Eq, Structural)]
pub struct Rgb {
    pub r: u8,
    pub g: u8,
    pub b: u8,
}

impl Rgb {
    /// The colour a packed `0x00BBGGRR` value stands for: red in the low
    /// byte, then green, then blue; the top byte is ignored.
    pub open spec fn spec_from_packed(packed: u32) -> Rgb {
        Rgb {
            r: (packed % 256) as u8,
            g: ((packed / 256) % 256) as u8,
            b: ((packed / 65536) % 256) as u8,
        }
    }

    /// The facade hands out `0x00BBGGRR` — the little-endian view of
    /// `struct { uint8_t r, g, b; }`.
    pub fn from_packed(packed: u32) -> (rgb: Rgb)
        ensures
            rgb == Rgb::spec_from_packed(packed),
    {
        assert(packed & 0xff == packed % 256) by (bit_vector);
        assert((packed >> 8) & 0xff == (packed / 256) % 256) by (bit_vector);
        assert((packed >> 16) & 0xff == (packed / 65536) % 256) by (bit_vector);
        Rgb {
            r: (packed & 0xff) as u8,
            g: ((packed >> 8) & 0xff) as u8,
            b: ((packed >> 16) & 0xff) as u8,
        }
    }
}

/// Unpacking loses exactly the top byte: two packed values give the same
/// colour if and only if they agree in their low three bytes.
pub proof fn lemma_from_packed_ignores_top_byte(p: u32, q: u32)
    ensures
        Rgb::spec_from_packed(p) == Rgb::spec_from_packed(q) <==> p % 0x1000000 == q % 0x1000000,
{
    assert((p % 0x1000000 == q % 0x1000000) <==> (p % 256 == q % 256 && (p / 256) % 256 == (q
        / 256) % 256 && (p / 65536) % 256 == (q / 65536) % 256)) by (bit_vector);
}

/// Where a resolved colour came from: what the application asked for, as
/// opposed to what that request resolved to.
#[derive(Clone, Copy, Debug, PartialEq, Eq, Structural, Hash)]
pub enum ColorSource {
    /// The terminal's default foreground.
    DefaultForeground,
    /// The terminal's default background.
    DefaultBackground,
    /// A palette entry; 0..16 are the ANSI colours, bright half included.
    Indexed(u8),
    /// A direct colour; the resolved value is the request.
    Direct,
}

impl ColorSource {
    /// The source a `*_source` field describes: its low byte is the kind,
    /// its high byte the palette entry of an indexed colour. The facade
    /// defines kinds 0 to 3; any higher kind is read as a direct colour.
    pub open spec fn spec_from_raw(source: u16) -> ColorSource {
        let kind = source % 256;
        if kind == sys::SHITTY_VT_COLOR_DEFAULT_FOREGROUND {
            ColorSource::DefaultForeground
        } else if kind == sys::SHITTY_VT_COLOR_DEFAULT_BACKGROUND {
            ColorSource::DefaultBackground
        } else if kind == sys::SHITTY_VT_COLOR_INDEXED {
            ColorSource::Indexed((source / 256) as u8)
        } else {
            ColorSource::Direct
        }
    }

    /// Decodes a `*_source` field.
    pub fn from_raw(source: u16) -> (decoded: ColorSource)
        ensures
            decoded == ColorSource::spec_from_raw(source),
    {
        let kind = sys::shitty_vt_color_kind(source);
        if kind == sys::SHITTY_VT_COLOR_DEFAULT_FOREGROUND {
            ColorSource::DefaultForeground
        } else if kind == sys::SHITTY_VT_COLOR_DEFAULT_BACKGROUND {
            ColorSource::DefaultBackground
        } else if kind == sys::SHITTY_VT_COLOR_INDEXED {
            ColorSource::Indexed(sys::shitty_vt_color_index(source))
        } else {
            ColorSource::Direct
        }
    }
}

/// The Unicode scalar values among `points`, as characters, in order; a
/// value that is not a scalar is left out.
pub open spec fn scalar_text(points: Seq<u32>) -> Seq<char>
    decreases points.len(),
{
    if points.len() == 0 {
        Seq::empty()
    } else {
        let last = points.last();
        let rest = scalar_text(points.drop_last());
        if vstd::utf8::is_scalar(last) {
            rest.push(last as char)
        } else {
            rest
        }
    }
}

/// `char::from_u32`: `Some` exactly when `code` is a Unicode scalar value,
/// and then the character with that value.
#[verifier::external_body]
fn char_from_u32(code: u32) -> (ch: Option<char>)
    ensures
        ch is Some <==> vstd::utf8::is_scalar(code),
        ch matches Some(c) ==> c as u32 == code && c == code as char,
{
    char::from_u32(code)
}

/// `String::push`: appends one character.
#[verifier::external_body]
fn push_char(s: &mut String, ch: char)
    ensures
        final(s)@ == old(s)@.push(ch),
{
    s.push(ch)
}

/// One visible cell. Borrowed for the duration of the visit callback.
#[derive(Clone, Copy, Debug)]
pub struct Cell<'a> {
    /// The cell's grapheme cluster as codepoints. Empty for a blank cell.
    pub grapheme: &'a [u32],
    pub foreground: Rgb,
    pub background: Rgb,
    pub underline_color: Rgb,
    pub attributes: Attributes,
    /// 0 none, 1 straight, 2 double, 3 curly, 4 dotted, 5 dashed
    pub underline_style: u8,
    /// 1 or 2. The continuation column of a wide cell is never visited.
    pub width: u8,
    /// What the application asked for as the foreground.
    pub foreground_source: ColorSource,
    /// What the application asked for as the background.
    pub background_source: ColorSource,
    /// What the application asked for as the underline colour.
    pub underline_source: ColorSource,
}

impl<'a> Cell<'a> {
    /// Decodes a cell the facade reported. Shared by every walk, so the
    /// walks cannot drift in how they decode a cell.
    pub fn from_raw(raw: &shitty_vt_cell<'a>) -> (cell: Cell<'a>)
        ensures
            cell.grapheme@ == raw.grapheme@,
            cell.foreground == Rgb::spec_from_packed(raw.foreground),
            cell.background == Rgb::spec_from_packed(raw.background),
            cell.underline_color == Rgb::spec_from_packed(raw.underline_color),
            cell.attributes == Attributes(raw.attributes),
            cell.underline_style == raw.underline_style,
            cell.width == raw.width,
            cell.foreground_source == ColorSource::spec_from_raw(raw.foreground_source),
            cell.background_source == ColorSource::spec_from_raw(raw.background_source),
            cell.underline_source == ColorSource::spec_from_raw(raw.underline_source),
    {
        Cell {
            grapheme: raw.grapheme,
            foreground: Rgb::from_packed(raw.foreground),
            background: Rgb::from_packed(raw.background),
            underline_color: Rgb::from_packed(raw.underline_color),
            attributes: Attributes(raw.attributes),
            underline_style: raw.underline_style,
            width: raw.width,
            foreground_source: ColorSource::from_raw(raw.foreground_source),
            background_source: ColorSource::from_raw(raw.background_source),
            underline_source: ColorSource::from_raw(raw.underline_source),
        }
    }

    /// The cluster as a `String`: every codepoint that is a Unicode scalar
    /// value, in order. Allocates; for hot paths read [`Cell::grapheme`]
    /// directly.
    pub fn text(&self) -> (text: String)
        ensures
            text@ == scalar_text(self.grapheme@),
    {
        let mut text = String::new();
        let mut i: usize = 0;
        while i < self.grapheme.len()
            invariant
                0 <= i <= self.grapheme@.len(),
                text@ == scalar_text(self.grapheme@.take(i as int)),
            decreases self.grapheme@.len() - i,
        {
            let point = self.grapheme[i];
            assert(self.grapheme@.take(i as int + 1).drop_last() == self.grapheme@.take(i as int));
            match char_from_u32(point) {
                Some(ch) => push_char(&mut text, ch),
                None => {},
            }
            i = i + 1;
        }
        assert(self.grapheme@.take(i as int) == self.grapheme@);
        text
    }
}

/// Each channel is its own byte of the packed value, whatever the other
/// bytes hold: red the lowest, green the next, blue the third; and the three
/// channels put back together are the packed value without its top byte.
pub proof fn lemma_channels_are_bytes(p: u32)
    ensures
        Rgb::spec_from_packed(p).r as u32 == p & 0xff,
        Rgb::spec_from_packed(p).g as u32 == (p >> 8) & 0xff,
        Rgb::spec_from_packed(p).b as u32 == (p >> 16) & 0xff,
        Rgb::spec_from_packed(p).r as u32 + 256 * (Rgb::spec_from_packed(p).g as u32) + 65536 * (
        Rgb::spec_from_packed(p).b as u32) == p & 0xffffff,
{
    assert(p % 256 == p & 0xff && (p / 256) % 256 == (p >> 8) & 0xff && (p / 65536) % 256 == (p
        >> 16) & 0xff && (p % 256) + 256 * ((p / 256) % 256) + 65536 * ((p / 65536) % 256) == p
        & 0xffffff) by (bit_vector);
}

/// Where an indexed colour came from is the palette entry in the high byte,
/// every entry 0 to 255 included; only kind 0 is the default foreground and
/// only kind 1 the default background.
pub proof fn lemma_color_source_kinds(index: u8, source: u16)
    ensures
        ColorSource::spec_from_raw((2 + 256 * (index as int)) as u16) == ColorSource::Indexed(index),
        ColorSource::spec_from_raw(source) == ColorSource::DefaultForeground <==> source % 256 == 0,
        ColorSource::spec_from_raw(source) == ColorSource::DefaultBackground <==> source % 256 == 1,
        ColorSource::spec_from_raw(source) is Indexed <==> source % 256 == 2,
        ColorSource::spec_from_raw(source) matches ColorSource::Indexed(i) ==> i as int == source / 256,
{
    let s = (2 + 256 * (index as int)) as u16;
    assert(s % 256 == 2 && s / 256 == index);
}

/// The number of Unicode scalar values among `points`.
pub open spec fn count_scalars(points: Seq<u32>) -> nat
    decreases points.len(),
{
    if points.len() == 0 {
        0
    } else {
        count_scalars(points.drop_last()) + if vstd::utf8::is_scalar(points.last()) {
            1nat
        } else {
            0nat
        }
    }
}

/// The text of a cluster drops no scalar value: it has one character per
/// scalar value among the codepoints, and when every codepoint is a scalar
/// value the text is the codepoints themselves, character for character.
/// Codepoints that are not scalar values leave no trace.
pub proof fn lemma_text_keeps_every_scalar(points: Seq<u32>)
    ensures
        scalar_text(points).len() == count_scalars(points),
        (forall|i: int| 0 <= i < points.len() ==> vstd::utf8::is_scalar(#[trigger] points[i])) ==> {
            &&& scalar_text(points).len() == points.len()
            &&& forall|i: int|
                0 <= i < points.len() ==> #[trigger] scalar_text(points)[i] == points[i] as char
        },
        (forall|i: int| 0 <= i < points.len() ==> !vstd::utf8::is_scalar(#[trigger] points[i]))
            ==> scalar_text(points).len() == 0,
    decreases points.len(),
{
    if points.len() > 0 {
        let rest = points.drop_last();
        lemma_text_keeps_every_scalar(rest);
        if forall|i: int| 0 <= i < points.len() ==> vstd::utf8::is_scalar(#[trigger] points[i]) {
            assert forall|i: int| 0 <= i < rest.len() implies vstd::utf8::is_scalar(#[trigger] rest[i]) by {
                assert(rest[i] == points[i]);
            }
            assert(vstd::utf8::is_scalar(points[points.len() - 1]));
            assert forall|i: int| 0 <= i < points.len() implies #[trigger] scalar_text(points)[i]
                == points[i] as char by {
                if i < points.len() - 1 {
                    assert(rest[i] == points[i]);
                }
            }
        }
        if forall|i: int| 0 <= i < points.len() ==> !vstd::utf8::is_scalar(#[trigger] points[i]) {
            assert forall|i: int| 0 <= i < rest.len() implies !vstd::utf8::is_scalar(#[trigger] rest[i]) by {
                assert(rest[i] == points[i]);
            }
            assert(!vstd::utf8::is_scalar(points[points.len() - 1]));
        }
    }
}

} // verus!
