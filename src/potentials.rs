//! Bit sequences tagged with an endianness, and their textual form.
//!
//! The text form is a string of `'0'` and `'1'` characters, optionally split
//! into groups of four (a nibble) or eight (a byte) by single spaces. When a
//! grouped rendering needs padding to complete its last group, the padding
//! zeros go at the most significant end: at the start of big-endian text and
//! at the end of little-endian text. Parsing with `ignore_padding` removes
//! the zeros found at that same end.

use vstd::prelude::*;

use crate::circuit::Potential;

verus! {

/// Whether `c` may appear in a bit string.
pub open spec fn is_bit_char(c: char) -> bool {
    c == '0' || c == '1' || c == ' '
}

/// Whether every character of `text` may appear in a bit string.
pub open spec fn is_bit_string(text: Seq<char>) -> bool {
    forall|i: int| 0 <= i < text.len() ==> is_bit_char(#[trigger] text[i])
}

/// The bits that `text` spells, in text order; spaces are skipped.
pub open spec fn parse_bits(text: Seq<char>) -> Seq<bool>
    decreases text.len(),
{
    if text.len() == 0 {
        Seq::empty()
    } else {
        let front = parse_bits(text.drop_last());
        if text.last() == ' ' {
            front
        } else {
            front.push(text.last() == '1')
        }
    }
}

/// `bits` without the run of low bits at its start.
pub open spec fn strip_leading_zeros(bits: Seq<bool>) -> Seq<bool>
    decreases bits.len(),
{
    if bits.len() > 0 && !bits[0] {
        strip_leading_zeros(bits.drop_first())
    } else {
        bits
    }
}

/// `bits` without the run of low bits at its end.
pub open spec fn strip_trailing_zeros(bits: Seq<bool>) -> Seq<bool>
    decreases bits.len(),
{
    if bits.len() > 0 && !bits.last() {
        strip_trailing_zeros(bits.drop_last())
    } else {
        bits
    }
}

/// The bits that little-endian `text` holds. Padding sits at the end.
pub open spec fn decode_little_endian(text: Seq<char>, ignore_padding: bool) -> Seq<bool> {
    if ignore_padding {
        strip_trailing_zeros(parse_bits(text))
    } else {
        parse_bits(text)
    }
}

/// The bits that big-endian `text` holds. Padding sits at the start.
pub open spec fn decode_big_endian(text: Seq<char>, ignore_padding: bool) -> Seq<bool> {
    if ignore_padding {
        strip_leading_zeros(parse_bits(text))
    } else {
        parse_bits(text)
    }
}

/// Appending a character appends its bit, unless it is a space.
proof fn lemma_parse_bits_push(text: Seq<char>, c: char)
    ensures
        parse_bits(text.push(c)) == if c == ' ' {
            parse_bits(text)
        } else {
            parse_bits(text).push(c == '1')
        },
{
    assert(text.push(c).drop_last() == text);
}

/// Reads the bits of a bit string in text order.
fn parse_bit_string(text: &str) -> (r: Vec<Potential>)
    requires
        is_bit_string(text@),
    ensures
        r@ == parse_bits(text@),
{
    let count = text.unicode_len();
    let mut bits: Vec<Potential> = Vec::new();
    let mut i: usize = 0;
    assert(text@.take(0) == Seq::<char>::empty());
    while i < count
        invariant
            count == text@.len(),
            i <= count,
            bits@ == parse_bits(text@.take(i as int)),
        decreases count - i,
    {
        let c = text.get_char(i);
        proof {
            assert(text@.take(i + 1) == text@.take(i as int).push(c));
            lemma_parse_bits_push(text@.take(i as int), c);
        }
        if c != ' ' {
            bits.push(c == '1');
        }
        i = i + 1;
    }
    assert(text@.take(count as int) == text@);
    bits
}

/// Low bits skipped at the start do not change what stripping leaves.
proof fn lemma_strip_leading_prefix(bits: Seq<bool>, j: int)
    requires
        0 <= j <= bits.len(),
        forall|k: int| 0 <= k < j ==> !#[trigger] bits[k],
    ensures
        strip_leading_zeros(bits) == strip_leading_zeros(bits.skip(j)),
    decreases j,
{
    if j == 0 {
        assert(bits.skip(0) == bits);
    } else {
        lemma_strip_leading_prefix(bits, j - 1);
        assert(bits.skip(j - 1)[0] == bits[j - 1]);
        assert(bits.skip(j - 1).drop_first() == bits.skip(j));
    }
}

/// Low bits dropped from the end do not change what stripping leaves.
proof fn lemma_strip_trailing_suffix(bits: Seq<bool>, j: int)
    requires
        0 <= j <= bits.len(),
        forall|k: int| j <= k < bits.len() ==> !#[trigger] bits[k],
    ensures
        strip_trailing_zeros(bits) == strip_trailing_zeros(bits.take(j)),
    decreases bits.len() - j,
{
    if j == bits.len() {
        assert(bits.take(j) == bits);
    } else {
        lemma_strip_trailing_suffix(bits, j + 1);
        assert(bits.take(j + 1).last() == bits[j]);
        assert(bits.take(j + 1).drop_last() == bits.take(j));
    }
}

/// `bits` without its leading low bits.
fn without_leading_zeros(bits: &Vec<Potential>) -> (r: Vec<Potential>)
    ensures
        r@ == strip_leading_zeros(bits@),
{
    let mut start: usize = 0;
    while start < bits.len() && !bits[start]
        invariant
            start <= bits.len(),
            forall|k: int| 0 <= k < start ==> !#[trigger] bits@[k],
        decreases bits.len() - start,
    {
        start = start + 1;
    }
    let mut r: Vec<Potential> = Vec::new();
    let mut i: usize = start;
    while i < bits.len()
        invariant
            start <= i <= bits.len(),
            r@ == bits@.subrange(start as int, i as int),
        decreases bits.len() - i,
    {
        r.push(bits[i]);
        assert(r@ == bits@.subrange(start as int, i + 1));
        i = i + 1;
    }
    proof {
        lemma_strip_leading_prefix(bits@, start as int);
        assert(r@ == bits@.skip(start as int));
    }
    r
}

/// Remove the trailing low bits of `bits`.
fn drop_trailing_zeros(bits: &mut Vec<Potential>)
    ensures
        final(bits)@ == strip_trailing_zeros(old(bits)@),
{
    let ghost original = bits@;
    while bits.len() > 0 && !bits[bits.len() - 1]
        invariant
            bits.len() <= original.len(),
            bits@ == original.take(bits.len() as int),
            forall|k: int| bits.len() <= k < original.len() ==> !#[trigger] original[k],
        decreases bits.len(),
    {
        bits.pop();
        assert(bits@ == original.take(bits.len() as int));
    }
    proof {
        lemma_strip_trailing_suffix(original, bits.len() as int);
    }
}

/// The group width of a format type: 0 ungrouped, 1 nibbles, 2 bytes.
pub open spec fn group_width(format_type: nat) -> nat {
    if format_type == 1 {
        4
    } else if format_type == 2 {
        8
    } else {
        0
    }
}

/// How many padding bits complete the last group of `len` bits.
pub open spec fn padding_len(len: nat, width: nat) -> nat {
    if width > 0 && len % width != 0 {
        (width - len % width) as nat
    } else {
        0
    }
}

/// `bits` with padding zeros at its most significant end, so that its
/// length is a multiple of `width`.
pub open spec fn padded(bits: Seq<bool>, width: nat, little_endian: bool) -> Seq<bool> {
    let zeros = Seq::new(padding_len(bits.len(), width), |i: int| false);
    if little_endian {
        bits + zeros
    } else {
        zeros + bits
    }
}

/// One `'0'` or `'1'` character per bit.
pub open spec fn bit_chars(bits: Seq<bool>) -> Seq<char> {
    bits.map_values(|b: bool| if b { '1' } else { '0' })
}

/// `chars` with a single space before each character whose position is a
/// nonzero multiple of `width`; ungrouped when `width` is 0.
pub open spec fn grouped(chars: Seq<char>, width: nat) -> Seq<char>
    decreases chars.len(),
{
    if chars.len() == 0 {
        Seq::empty()
    } else {
        let front = grouped(chars.drop_last(), width);
        let position = chars.len() - 1;
        if width > 0 && position > 0 && position % (width as int) == 0 {
            front + seq![' ', chars.last()]
        } else {
            front.push(chars.last())
        }
    }
}

/// The text that renders `bits`, given in the order of the requested
/// endianness, under `format_type`.
pub open spec fn raw_text(bits: Seq<bool>, format_type: nat, little_endian: bool) -> Seq<char> {
    let width = group_width(format_type);
    grouped(bit_chars(padded(bits, width, little_endian)), width)
}

/// Renders `digits` as characters, grouped every `width` of them.
fn render_groups(digits: &Vec<Potential>, width: usize) -> (r: String)
    ensures
        r@ == grouped(bit_chars(digits@), width as nat),
{
    let mut text = String::new();
    let mut i: usize = 0;
    proof {
        reveal_strlit(" ");
        reveal_strlit("0");
        reveal_strlit("1");
        assert(bit_chars(digits@.take(0)) == Seq::<char>::empty());
    }
    while i < digits.len()
        invariant
            i <= digits.len(),
            text@ == grouped(bit_chars(digits@.take(i as int)), width as nat),
            " "@ == seq![' '],
            "0"@ == seq!['0'],
            "1"@ == seq!['1'],
        decreases digits.len() - i,
    {
        let ghost front = bit_chars(digits@.take(i as int));
        let ghost c = if digits@[i as int] { '1' } else { '0' };
        assert(bit_chars(digits@.take(i + 1)) == front.push(c));
        assert(front.push(c).drop_last() == front);
        if width > 0 && i > 0 && i % width == 0 {
            text.append(" ");
        }
        if digits[i] {
            text.append("1");
        } else {
            text.append("0");
        }
        assert(text@ == grouped(front.push(c), width as nat));
        i = i + 1;
    }
    assert(digits@.take(digits.len() as int) == digits@);
    text
}

/// Appends `count` low bits to `bits`.
fn push_zeros(bits: &mut Vec<Potential>, count: usize)
    requires
        old(bits).len() + count <= usize::MAX,
    ensures
        final(bits)@ == old(bits)@ + Seq::new(count as nat, |i: int| false),
{
    let mut i: usize = 0;
    while i < count
        invariant
            i <= count,
            bits@ == old(bits)@ + Seq::new(i as nat, |k: int| false),
        decreases count - i,
    {
        bits.push(false);
        assert(bits@ == old(bits)@ + Seq::new((i + 1) as nat, |k: int| false));
        i = i + 1;
    }
}

/// A sequence of potentials tagged with the endianness it is stored in.
#[derive(Debug, Clone)]
pub struct Potentials {
    data: Vec<Potential>,
    little_endian: bool,
}

impl Potentials {
    /// The stored bits, in storage order.
    pub closed spec fn bits(&self) -> Seq<bool> {
        self.data@
    }

    /// Whether the bits are stored little-endian.
    pub closed spec fn is_little_endian(&self) -> bool {
        self.little_endian
    }

    /// The bits in the order of the requested endianness: stored order when it
    /// matches, reversed otherwise.
    pub open spec fn bits_in(&self, little_endian: bool) -> Seq<bool> {
        if self.is_little_endian() == little_endian {
            self.bits()
        } else {
            self.bits().reverse()
        }
    }

    /// Holds `potentials` as little-endian bits.
    pub fn of_little_endian(potentials: Vec<Potential>) -> (r: Self)
        ensures
            r.bits() == potentials@,
            r.is_little_endian(),
    {
        Potentials { data: potentials, little_endian: true }
    }

    /// Holds `potentials` as big-endian bits.
    pub fn of_big_endian(potentials: Vec<Potential>) -> (r: Self)
        ensures
            r.bits() == potentials@,
            !r.is_little_endian(),
    {
        Potentials { data: potentials, little_endian: false }
    }

    /// The bits in the order of the requested endianness.
    pub fn get_data(&self, little_endian: bool) -> (r: Vec<Potential>)
        ensures
            r@ == self.bits_in(little_endian),
    {
        let n = self.data.len();
        let reversed = self.little_endian != little_endian;
        let mut r: Vec<Potential> = Vec::new();
        let mut i: usize = 0;
        while i < n
            invariant
                n == self.data.len(),
                i <= n,
                r.len() == i,
                forall|k: int| 0 <= k < i ==> #[trigger] r@[k] == if reversed {
                    self.data@[n - 1 - k]
                } else {
                    self.data@[k]
                },
            decreases n - i,
        {
            if reversed {
                r.push(self.data[n - 1 - i]);
            } else {
                r.push(self.data[i]);
            }
            i = i + 1;
        }
        assert(r@ == self.bits_in(little_endian));
        r
    }

    /// Parses little-endian text; with `ignore_padding` the low bits at the
    /// end of the text are taken as padding and left out.
    pub fn from_little_endian(little_endian: &str, ignore_padding: bool) -> (r: Self)
        requires
            is_bit_string(little_endian@),
        ensures
            r.bits() == decode_little_endian(little_endian@, ignore_padding),
            r.is_little_endian(),
    {
        let mut data = parse_bit_string(little_endian);
        if ignore_padding {
            drop_trailing_zeros(&mut data);
        }
        Potentials { data, little_endian: true }
    }

    /// Parses big-endian text; with `ignore_padding` the low bits at the
    /// start of the text are taken as padding and left out.
    pub fn from_big_endian(big_endian: &str, ignore_padding: bool) -> (r: Self)
        requires
            is_bit_string(big_endian@),
        ensures
            r.bits() == decode_big_endian(big_endian@, ignore_padding),
            !r.is_little_endian(),
    {
        let parsed = parse_bit_string(big_endian);
        let data = if ignore_padding {
            without_leading_zeros(&parsed)
        } else {
            parsed
        };
        Potentials { data, little_endian: false }
    }

    /// The number of bits held.
    pub fn len(&self) -> (r: usize)
        ensures
            r == self.bits().len(),
    {
        self.data.len()
    }
    /// Renders the bits in the requested endianness. `format_type` 0 gives
    /// one run of digits, 1 groups of four, 2 groups of eight; a grouped
    /// rendering is padded with zeros to a whole number of groups.
    pub fn to_raw(&self, little_endian: bool, format_type: usize) -> (r: String)
        requires
            format_type <= 2,
            self.bits().len() + 8 <= usize::MAX,
        ensures
            r@ == raw_text(self.bits_in(little_endian), format_type as nat, little_endian),
    {
        let items = self.get_data(little_endian);
        let width: usize = if format_type == 1 {
            4
        } else if format_type == 2 {
            8
        } else {
            0
        };
        let len = items.len();
        let padding: usize = if width > 0 && len % width != 0 {
            width - len % width
        } else {
            0
        };
        let mut digits: Vec<Potential> = Vec::new();
        if !little_endian {
            push_zeros(&mut digits, padding);
        }
        let mut i: usize = 0;
        let ghost start = digits@;
        while i < len
            invariant
                len == items.len(),
                len + 8 <= usize::MAX,
                i <= len,
                start.len() <= 8,
                digits@ == start + items@.take(i as int),
            decreases len - i,
        {
            digits.push(items[i]);
            assert(digits@ == start + items@.take(i + 1));
            i = i + 1;
        }
        assert(items@.take(len as int) == items@);
        if little_endian {
            push_zeros(&mut digits, padding);
        }
        assert(digits@ == padded(items@, group_width(format_type as nat), little_endian));
        render_groups(&digits, width)
    }

    /// Little-endian text; the format type defaults to nibble groups.
    pub fn to_little_endian(&self, format_type: Option<usize>) -> (r: String)
        requires
            format_type.unwrap_or(1) <= 2,
            self.bits().len() + 8 <= usize::MAX,
        ensures
            r@ == raw_text(self.bits_in(true), format_type.unwrap_or(1) as nat, true),
    {
        self.to_raw(true, format_type.unwrap_or(1))
    }

    /// Big-endian text; the format type defaults to nibble groups.
    pub fn to_big_endian(&self, format_type: Option<usize>) -> (r: String)
        requires
            format_type.unwrap_or(1) <= 2,
            self.bits().len() + 8 <= usize::MAX,
        ensures
            r@ == raw_text(self.bits_in(false), format_type.unwrap_or(1) as nat, false),
    {
        self.to_raw(false, format_type.unwrap_or(1))
    }
}

/// Grouped digit text is a bit string, and parsing it gives the bits back.
proof fn lemma_parse_grouped(bits: Seq<bool>, width: nat)
    ensures
        is_bit_string(grouped(bit_chars(bits), width)),
        parse_bits(grouped(bit_chars(bits), width)) == bits,
    decreases bits.len(),
{
    let chars = bit_chars(bits);
    if bits.len() == 0 {
        assert(grouped(chars, width) == Seq::<char>::empty());
        assert(bits == Seq::<bool>::empty());
    } else {
        let rest = bits.drop_last();
        lemma_parse_grouped(rest, width);
        assert(chars.drop_last() == bit_chars(rest));
        let front = grouped(bit_chars(rest), width);
        let c = chars.last();
        assert(c == if bits.last() { '1' } else { '0' });
        let position = chars.len() - 1;
        if width > 0 && position > 0 && position % (width as int) == 0 {
            assert(grouped(chars, width) == front.push(' ').push(c));
            lemma_parse_bits_push(front, ' ');
            lemma_parse_bits_push(front.push(' '), c);
        } else {
            assert(grouped(chars, width) == front.push(c));
            lemma_parse_bits_push(front, c);
        }
        assert(rest.push(bits.last()) == bits);
        let text = grouped(chars, width);
        assert forall|i: int| 0 <= i < text.len() implies is_bit_char(#[trigger] text[i]) by {
            if i < front.len() {
                assert(text[i] == front[i]);
            }
        }
    }
}

/// Rendered text is a bit string, and parsing it in the same endianness while
/// keeping padding gives the padded bits.
pub proof fn lemma_raw_text_decodes_to_padded(bits: Seq<bool>, format_type: nat, little_endian: bool)
    ensures
        is_bit_string(raw_text(bits, format_type, little_endian)),
        parse_bits(raw_text(bits, format_type, little_endian)) == padded(
            bits,
            group_width(format_type),
            little_endian,
        ),
{
    lemma_parse_grouped(padded(bits, group_width(format_type), little_endian), group_width(format_type));
}

/// Rendering bits in either endianness and parsing the text back in that same
/// endianness, keeping padding, reproduces the bits exactly whenever the
/// rendering added no padding: always when ungrouped, and for bit counts that
/// fill whole groups.
pub proof fn lemma_raw_round_trip(bits: Seq<bool>, format_type: nat)
    requires
        format_type <= 2,
        padding_len(bits.len(), group_width(format_type)) == 0,
    ensures
        is_bit_string(raw_text(bits, format_type, true)),
        is_bit_string(raw_text(bits, format_type, false)),
        decode_little_endian(raw_text(bits, format_type, true), false) == bits,
        decode_big_endian(raw_text(bits, format_type, false), false) == bits,
{
    lemma_raw_text_decodes_to_padded(bits, format_type, true);
    lemma_raw_text_decodes_to_padded(bits, format_type, false);
    let zeros = Seq::new(0, |i: int| false);
    assert(bits + zeros == bits);
    assert(zeros + bits == bits);
}

/// Converting to another endianness and back is the identity: potentials
/// holding `p`'s bits as read in endianness `e`, tagged `e`, read the same
/// as `p` in every endianness, and give back `p`'s stored order.
pub proof fn lemma_endianness_round_trip(p: Potentials, q: Potentials, e: bool)
    requires
        q.bits() == p.bits_in(e),
        q.is_little_endian() == e,
    ensures
        q.bits_in(p.is_little_endian()) == p.bits(),
        forall|x: bool| #[trigger] q.bits_in(x) == p.bits_in(x),
{
    assert(p.bits().reverse().reverse() == p.bits());
}

} // verus!
