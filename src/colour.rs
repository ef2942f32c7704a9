//! Line colours, and the five colours seen by the sensor bar packed into one word.

use vstd::prelude::*;

verus! {

/// A line colour, with its three-bit code: White 0, Red 1, Green 2, Blue 3, Black 4.
#[derive(Clone, Copy, Debug, PartialEq, Eq, Structural)]
pub enum Colour {
    White,
    Red,
    Green,
    Blue,
    Black,
}

/// The three-bit code of a colour.
pub open spec fn code_of(c: Colour) -> u16 {
    match c {
        Colour::White => 0,
        Colour::Red => 1,
        Colour::Green => 2,
        Colour::Blue => 3,
        Colour::Black => 4,
    }
}

/// The colour of a code below 5.
pub open spec fn colour_of(code: u16) -> Colour {
    if code == 0 {
        Colour::White
    } else if code == 1 {
        Colour::Red
    } else if code == 2 {
        Colour::Green
    } else if code == 3 {
        Colour::Blue
    } else {
        Colour::Black
    }
}

impl Colour {
    /// The colour with the given code, or `None` for codes of 5 and above.
    pub fn from_code(code: u8) -> (r: Option<Colour>)
        ensures
            code < 5 ==> r == Some(colour_of(code as u16)),
            code >= 5 ==> r.is_none(),
    {
        match code {
            0 => Some(Colour::White),
            1 => Some(Colour::Red),
            2 => Some(Colour::Green),
            3 => Some(Colour::Blue),
            4 => Some(Colour::Black),
            _ => None,
        }
    }

    /// The colour named by a letter (`W`, `R`, `G`, `B`, or `N` for black, in either
    /// case), or `None` for any other character.
    pub fn from_letter(letter: char) -> (r: Option<Colour>)
        ensures
            (letter == 'W' || letter == 'w') <==> r == Some(Colour::White),
            (letter == 'R' || letter == 'r') <==> r == Some(Colour::Red),
            (letter == 'G' || letter == 'g') <==> r == Some(Colour::Green),
            (letter == 'B' || letter == 'b') <==> r == Some(Colour::Blue),
            (letter == 'N' || letter == 'n') <==> r == Some(Colour::Black),
    {
        match letter {
            'W' | 'w' => Some(Colour::White),
            'R' | 'r' => Some(Colour::Red),
            'G' | 'g' => Some(Colour::Green),
            'B' | 'b' => Some(Colour::Blue),
            'N' | 'n' => Some(Colour::Black),
            _ => None,
        }
    }

    /// The three-bit code of this colour.
    pub fn code(&self) -> (r: u8)
        ensures
            r as u16 == code_of(*self),
    {
        match self {
            Colour::White => 0,
            Colour::Red => 1,
            Colour::Green => 2,
            Colour::Blue => 3,
            Colour::Black => 4,
        }
    }

    /// The colour as red, green and blue intensities, for painting.
    pub fn rgb(&self) -> (r: (u8, u8, u8))
        ensures
            *self == Colour::White ==> r == (255u8, 255u8, 255u8),
            *self == Colour::Red ==> r == (255u8, 0u8, 0u8),
            *self == Colour::Green ==> r == (0u8, 255u8, 0u8),
            *self == Colour::Blue ==> r == (0u8, 0u8, 255u8),
            *self == Colour::Black ==> r == (0u8, 0u8, 0u8),
    {
        match self {
            Colour::White => (255, 255, 255),
            Colour::Red => (255, 0, 0),
            Colour::Green => (0, 255, 0),
            Colour::Blue => (0, 0, 255),
            Colour::Black => (0, 0, 0),
        }
    }

    /// The colour's name.
    pub fn name(&self) -> (r: &'static str)
        ensures
            *self == Colour::White ==> r@ == "White"@,
            *self == Colour::Red ==> r@ == "Red"@,
            *self == Colour::Green ==> r@ == "Green"@,
            *self == Colour::Blue ==> r@ == "Blue"@,
            *self == Colour::Black ==> r@ == "Black"@,
    {
        match self {
            Colour::White => "White",
            Colour::Red => "Red",
            Colour::Green => "Green",
            Colour::Blue => "Blue",
            Colour::Black => "Black",
        }
    }
}

/// The three-bit field of sensor `i` (0 to 4) in a colour word: sensor 0 sits in
/// bits 14..12, sensor 4 in bits 2..0.
pub open spec fn field_of(word: u16, i: int) -> u16 {
    if i == 0 {
        (word >> 12u16) & 7u16
    } else if i == 1 {
        (word >> 9u16) & 7u16
    } else if i == 2 {
        (word >> 6u16) & 7u16
    } else if i == 3 {
        (word >> 3u16) & 7u16
    } else {
        word & 7u16
    }
}

/// A colour word is legal when each of its five fields holds a colour code.
pub open spec fn legal_word(word: u16) -> bool {
    forall|i: int| 0 <= i < 5 ==> #[trigger] field_of(word, i) < 5
}

/// The five colours that a legal word holds, sensor 0 first.
pub open spec fn decode_word(word: u16) -> Seq<Colour> {
    Seq::new(5, |i: int| colour_of(field_of(word, i)))
}

/// The word that packs five colours, sensor 0 in the highest field.
pub open spec fn encode_colours(s: Seq<Colour>) -> u16 {
    pack_codes(code_of(s[0]), code_of(s[1]), code_of(s[2]), code_of(s[3]), code_of(s[4]))
}

/// Five three-bit codes packed into the low fifteen bits of a word.
pub open spec fn pack_codes(c0: u16, c1: u16, c2: u16, c3: u16, c4: u16) -> u16 {
    (c0 << 12u16) | (c1 << 9u16) | (c2 << 6u16) | (c3 << 3u16) | c4
}

/// The colours under the five sensors, sensor 0 (outer left) first.
#[derive(Clone, Copy, Debug)]
pub struct Colours {
    colours: [Colour; 5],
}

impl View for Colours {
    type V = Seq<Colour>;

    closed spec fn view(&self) -> Seq<Colour> {
        self.colours@
    }
}

impl Colours {
    /// Every sensor sees white.
    pub fn new() -> (r: Self)
        ensures
            r@ == seq![Colour::White, Colour::White, Colour::White, Colour::White, Colour::White],
    {
        let r = Colours { colours: [Colour::White, Colour::White, Colour::White, Colour::White, Colour::White] };
        assert(r@ =~= seq![Colour::White, Colour::White, Colour::White, Colour::White, Colour::White]);
        r
    }

    /// The five colours, sensor 0 first.
    pub fn from_array(colours: [Colour; 5]) -> (r: Self)
        ensures
            r@ == colours@,
    {
        Colours { colours }
    }

    /// Decodes a colour word: five three-bit fields, sensor 0 in bits 14..12.
    pub fn from_word(colour_word: u16) -> (r: Self)
        requires
            legal_word(colour_word),
        ensures
            r@ == decode_word(colour_word),
    {
        let w = colour_word;
        assert(field_of(w, 0) < 5 && field_of(w, 1) < 5 && field_of(w, 2) < 5 && field_of(w, 3) < 5
            && field_of(w, 4) < 5);
        let c0 = Self::decode_field((w >> 12u16) & 7u16);
        let c1 = Self::decode_field((w >> 9u16) & 7u16);
        let c2 = Self::decode_field((w >> 6u16) & 7u16);
        let c3 = Self::decode_field((w >> 3u16) & 7u16);
        let c4 = Self::decode_field(w & 7u16);
        let r = Colours { colours: [c0, c1, c2, c3, c4] };
        assert(r@ =~= decode_word(w));
        r
    }

    /// Decodes a colour word, or gives `None` when a field holds no colour code.
    pub fn try_from_word(colour_word: u16) -> (r: Option<Self>)
        ensures
            legal_word(colour_word) ==> r.is_some() && r.unwrap()@ == decode_word(colour_word),
            !legal_word(colour_word) ==> r.is_none(),
    {
        let w = colour_word;
        if ((w >> 12u16) & 7u16) < 5 && ((w >> 9u16) & 7u16) < 5 && ((w >> 6u16) & 7u16) < 5
            && ((w >> 3u16) & 7u16) < 5 && (w & 7u16) < 5 {
            assert(legal_word(w)) by {
                assert forall|i: int| 0 <= i < 5 implies #[trigger] field_of(w, i) < 5 by {}
            }
            Some(Self::from_word(w))
        } else {
            assert(!legal_word(w)) by {
                if ((w >> 12u16) & 7u16) >= 5 {
                    assert(field_of(w, 0) >= 5);
                } else if ((w >> 9u16) & 7u16) >= 5 {
                    assert(field_of(w, 1) >= 5);
                } else if ((w >> 6u16) & 7u16) >= 5 {
                    assert(field_of(w, 2) >= 5);
                } else if ((w >> 3u16) & 7u16) >= 5 {
                    assert(field_of(w, 3) >= 5);
                } else {
                    assert(field_of(w, 4) >= 5);
                }
            }
            None
        }
    }

    fn decode_field(code: u16) -> (r: Colour)
        requires
            code < 5,
        ensures
            r == colour_of(code),
    {
        if code == 0 {
            Colour::White
        } else if code == 1 {
            Colour::Red
        } else if code == 2 {
            Colour::Green
        } else if code == 3 {
            Colour::Blue
        } else {
            Colour::Black
        }
    }

    /// Packs the five colours into the low fifteen bits of a word.
    pub fn pack(&self) -> (r: u16)
        ensures
            r == encode_colours(self@),
    {
        let c0 = self.colours[0].code() as u16;
        let c1 = self.colours[1].code() as u16;
        let c2 = self.colours[2].code() as u16;
        let c3 = self.colours[3].code() as u16;
        let c4 = self.colours[4].code() as u16;
        (c0 << 12u16) | (c1 << 9u16) | (c2 << 6u16) | (c3 << 3u16) | c4
    }

    /// The colour under sensor `index`.
    pub fn get(&self, index: usize) -> (r: Colour)
        requires
            index < 5,
        ensures
            r == self@[index as int],
    {
        self.colours[index]
    }

    /// The five colours in sensor order, sensor 0 first.
    pub fn to_vec(&self) -> (r: Vec<Colour>)
        ensures
            r@ == self@,
    {
        let r = vec![self.colours[0], self.colours[1], self.colours[2], self.colours[3], self.colours[4]];
        assert(r@ =~= self@);
        r
    }

    /// Whether every sensor sees white.
    pub fn all_white(&self) -> (r: bool)
        ensures
            r == (forall|i: int| 0 <= i < 5 ==> self@[i] == Colour::White),
    {
        let mut i: usize = 0;
        while i < 5
            invariant
                i <= 5,
                forall|j: int| 0 <= j < i ==> self@[j] == Colour::White,
            decreases 5 - i,
        {
            if self.colours[i] != Colour::White {
                return false;
            }
            i = i + 1;
        }
        true
    }
}

/// Packing five codes and reading back field `i` gives code `i`.
proof fn lemma_pack_fields(c0: u16, c1: u16, c2: u16, c3: u16, c4: u16)
    requires
        c0 < 8 && c1 < 8 && c2 < 8 && c3 < 8 && c4 < 8,
    ensures
        field_of(pack_codes(c0, c1, c2, c3, c4), 0) == c0,
        field_of(pack_codes(c0, c1, c2, c3, c4), 1) == c1,
        field_of(pack_codes(c0, c1, c2, c3, c4), 2) == c2,
        field_of(pack_codes(c0, c1, c2, c3, c4), 3) == c3,
        field_of(pack_codes(c0, c1, c2, c3, c4), 4) == c4,
{
    assert(((((c0 << 12u16) | (c1 << 9u16) | (c2 << 6u16) | (c3 << 3u16) | c4) >> 12u16) & 7u16) == c0
        && ((((c0 << 12u16) | (c1 << 9u16) | (c2 << 6u16) | (c3 << 3u16) | c4) >> 9u16) & 7u16) == c1
        && ((((c0 << 12u16) | (c1 << 9u16) | (c2 << 6u16) | (c3 << 3u16) | c4) >> 6u16) & 7u16) == c2
        && ((((c0 << 12u16) | (c1 << 9u16) | (c2 << 6u16) | (c3 << 3u16) | c4) >> 3u16) & 7u16) == c3
        && (((c0 << 12u16) | (c1 << 9u16) | (c2 << 6u16) | (c3 << 3u16) | c4) & 7u16) == c4)
        by (bit_vector)
        requires
            c0 < 8 && c1 < 8 && c2 < 8 && c3 < 8 && c4 < 8,
    ;
}

/// Decoding a legal colour word and packing the colours again gives the word back,
/// provided the word's unused top bit is clear.
pub proof fn lemma_word_colours_round_trip(colour_word: u16)
    requires
        legal_word(colour_word),
        colour_word < 0x8000,
    ensures
        encode_colours(decode_word(colour_word)) == colour_word,
{
    let w = colour_word;
    assert(field_of(w, 0) < 5 && field_of(w, 1) < 5 && field_of(w, 2) < 5 && field_of(w, 3) < 5
        && field_of(w, 4) < 5);
    assert(pack_codes((w >> 12u16) & 7u16, (w >> 9u16) & 7u16, (w >> 6u16) & 7u16, (w >> 3u16) & 7u16, w & 7u16) == w)
        by (bit_vector)
        requires
            w < 0x8000,
    ;
}

/// Packing five colours and decoding the word gives the same five colours.
pub proof fn lemma_colours_word_round_trip(s: Seq<Colour>)
    requires
        s.len() == 5,
    ensures
        legal_word(encode_colours(s)),
        decode_word(encode_colours(s)) == s,
{
    lemma_pack_fields(code_of(s[0]), code_of(s[1]), code_of(s[2]), code_of(s[3]), code_of(s[4]));
    assert(decode_word(encode_colours(s)) =~= s);
}

} // verus!
