//! Chunk types and their property bits.
#![allow(non_upper_case_globals)]

use vstd::prelude::*;
use vstd::std_specs::cmp::PartialEqSpec;

verus! {

/// The four bytes that name a chunk, as they stand in the stream.
///
/// Any four bytes make a value: the type does not ask for ASCII letters, and
/// the four predicates below answer for every byte pattern.
#[derive(Clone, Copy, Eq, Hash)]
pub struct ChunkType(pub [u8; 4]);

impl View for ChunkType {
    type V = Seq<u8>;

    /// The four bytes of the name, in stream order.
    open spec fn view(&self) -> Seq<u8> {
        self.0@
    }
}

impl PartialEq for ChunkType {
    /// Two names are equal when they agree byte for byte.
    fn eq(&self, other: &ChunkType) -> (r: bool) {
        let r = self.0[0] == other.0[0] && self.0[1] == other.0[1] && self.0[2] == other.0[2]
            && self.0[3] == other.0[3];
        proof {
            if r {
                assert(self@ =~= other@);
            }
        }
        r
    }
}

impl vstd::std_specs::cmp::PartialEqSpecImpl for ChunkType {
    open spec fn obeys_eq_spec() -> bool {
        true
    }

    open spec fn eq_spec(&self, other: &ChunkType) -> bool {
        self@ == other@
    }
}

// -- Critical chunks --

/// Image header
pub const IHDR: [u8; 4] = ['I' as u8, 'H' as u8, 'D' as u8, 'R' as u8];

/// Palette
pub const PLTE: [u8; 4] = ['P' as u8, 'L' as u8, 'T' as u8, 'E' as u8];

/// Image data
pub const IDAT: [u8; 4] = ['I' as u8, 'D' as u8, 'A' as u8, 'T' as u8];

/// Image trailer
pub const IEND: [u8; 4] = ['I' as u8, 'E' as u8, 'N' as u8, 'D' as u8];

// -- Ancillary chunks --

/// Transparency
pub const tRNS: [u8; 4] = ['t' as u8, 'R' as u8, 'N' as u8, 'S' as u8];

/// Background colour
pub const bKGD: [u8; 4] = ['b' as u8, 'K' as u8, 'G' as u8, 'D' as u8];

/// Image last-modification time
pub const tIME: [u8; 4] = ['t' as u8, 'I' as u8, 'M' as u8, 'E' as u8];

/// Physical pixel dimensions
pub const pHYs: [u8; 4] = ['p' as u8, 'H' as u8, 'Y' as u8, 's' as u8];

/// Source system's pixel chromaticities
pub const cHRM: [u8; 4] = ['c' as u8, 'H' as u8, 'R' as u8, 'M' as u8];

/// Source system's gamma value
pub const gAMA: [u8; 4] = ['g' as u8, 'A' as u8, 'M' as u8, 'A' as u8];

/// sRGB color space chunk
pub const sRGB: [u8; 4] = ['s' as u8, 'R' as u8, 'G' as u8, 'B' as u8];

/// ICC profile chunk
pub const iCCP: [u8; 4] = ['i' as u8, 'C' as u8, 'C' as u8, 'P' as u8];

/// Latin-1 uncompressed textual data
pub const tEXt: [u8; 4] = ['t' as u8, 'E' as u8, 'X' as u8, 't' as u8];

/// Latin-1 compressed textual data
pub const zTXt: [u8; 4] = ['z' as u8, 'T' as u8, 'X' as u8, 't' as u8];

/// UTF-8 textual data
pub const iTXt: [u8; 4] = ['i' as u8, 'T' as u8, 'X' as u8, 't' as u8];

// -- Extension chunks --

/// Animation control
pub const acTL: [u8; 4] = ['a' as u8, 'c' as u8, 'T' as u8, 'L' as u8];

/// Frame control
pub const fcTL: [u8; 4] = ['f' as u8, 'c' as u8, 'T' as u8, 'L' as u8];

/// Frame data
pub const fdAT: [u8; 4] = ['f' as u8, 'd' as u8, 'A' as u8, 'T' as u8];

// -- Chunk type determination --

/// The bit of a name byte that carries a property. In ASCII it is the bit
/// that tells a lower-case letter (set) from an upper-case one (clear).
pub const PROPERTY_BIT: u8 = 32;

/// Whether the property bit of `byte` is set.
pub open spec fn property_bit_set(byte: u8) -> bool {
    byte & PROPERTY_BIT != 0
}

/// A decoder must understand the chunk to show the image: the property bit
/// of byte 0 is clear.
pub open spec fn spec_is_critical(tag: ChunkType) -> bool {
    !property_bit_set(tag@[0])
}

/// The chunk type is private to a vendor or an application, not publicly
/// registered: the property bit of byte 1 is set.
pub open spec fn spec_is_private(tag: ChunkType) -> bool {
    property_bit_set(tag@[1])
}

/// The name breaks the reserved-bit convention: the property bit of byte 2 is
/// set.
pub open spec fn spec_reserved_set(tag: ChunkType) -> bool {
    property_bit_set(tag@[2])
}

/// An editor that does not know the chunk may copy it into an edited file:
/// the property bit of byte 3 is set.
pub open spec fn spec_safe_to_copy(tag: ChunkType) -> bool {
    property_bit_set(tag@[3])
}

/// Returns true if the chunk is critical.
#[verifier::when_used_as_spec(spec_is_critical)]
pub fn is_critical(tag: ChunkType) -> (r: bool)
    ensures
        r == spec_is_critical(tag),
{
    tag.0[0] & PROPERTY_BIT == 0
}

/// Returns true if the chunk is private.
#[verifier::when_used_as_spec(spec_is_private)]
pub fn is_private(tag: ChunkType) -> (r: bool)
    ensures
        r == spec_is_private(tag),
{
    tag.0[1] & PROPERTY_BIT != 0
}

/// Checks whether the reserved bit of the chunk name is set.
/// If it is set the chunk name is invalid.
#[verifier::when_used_as_spec(spec_reserved_set)]
pub fn reserved_set(tag: ChunkType) -> (r: bool)
    ensures
        r == spec_reserved_set(tag),
{
    tag.0[2] & PROPERTY_BIT != 0
}

/// Returns true if the chunk is safe to copy if unknown.
#[verifier::when_used_as_spec(spec_safe_to_copy)]
pub fn safe_to_copy(tag: ChunkType) -> (r: bool)
    ensures
        r == spec_safe_to_copy(tag),
{
    tag.0[3] & PROPERTY_BIT != 0
}

// -- What holds of the property bits --

/// Whether `byte` is an upper-case ASCII letter.
pub open spec fn is_ascii_upper(byte: u8) -> bool {
    'A' as u8 <= byte <= 'Z' as u8
}

/// Whether `byte` is a lower-case ASCII letter.
pub open spec fn is_ascii_lower(byte: u8) -> bool {
    'a' as u8 <= byte <= 'z' as u8
}

/// The property bit is the bit of value 32: it is set exactly when the
/// byte's quotient by 32 is odd.
pub proof fn lemma_property_bit_value(byte: u8)
    ensures
        property_bit_set(byte) <==> (byte / 32) % 2 == 1,
{
    assert((byte & 32 != 0) <==> (byte / 32) % 2 == 1) by (bit_vector);
}

/// On ASCII letters the property bit is the case of the letter: clear on an
/// upper-case letter, set on a lower-case one.
pub proof fn lemma_property_bit_is_letter_case(byte: u8)
    ensures
        is_ascii_upper(byte) ==> !property_bit_set(byte),
        is_ascii_lower(byte) ==> property_bit_set(byte),
{
    assert(65 <= byte <= 90 ==> byte & 32 == 0) by (bit_vector);
    assert(97 <= byte <= 122 ==> byte & 32 != 0) by (bit_vector);
}

/// The letter-case reading of the property bit, for all bytes at once.
proof fn lemma_letter_case_of_all_bytes()
    ensures
        forall|byte: u8| is_ascii_upper(byte) ==> !#[trigger] property_bit_set(byte),
        forall|byte: u8| is_ascii_lower(byte) ==> #[trigger] property_bit_set(byte),
{
    assert forall|byte: u8| is_ascii_upper(byte) implies !#[trigger] property_bit_set(byte) by {
        lemma_property_bit_is_letter_case(byte);
    }
    assert forall|byte: u8| is_ascii_lower(byte) implies #[trigger] property_bit_set(byte) by {
        lemma_property_bit_is_letter_case(byte);
    }
}

// -- What holds of the registered names --

/// `tag` is one of the four critical chunk types of the base format.
pub open spec fn is_critical_name(tag: ChunkType) -> bool {
    tag == ChunkType(IHDR) || tag == ChunkType(PLTE) || tag == ChunkType(IDAT) || tag
        == ChunkType(IEND)
}

/// `tag` is one of the ancillary chunk types that an editor may copy
/// without knowing them.
pub open spec fn is_copy_safe_ancillary_name(tag: ChunkType) -> bool {
    tag == ChunkType(pHYs) || tag == ChunkType(tEXt) || tag == ChunkType(zTXt) || tag
        == ChunkType(iTXt)
}

/// `tag` is one of the eleven ancillary chunk types of the base format.
pub open spec fn is_ancillary_name(tag: ChunkType) -> bool {
    is_copy_safe_ancillary_name(tag) || tag == ChunkType(tRNS) || tag == ChunkType(bKGD) || tag
        == ChunkType(tIME) || tag == ChunkType(cHRM) || tag == ChunkType(gAMA) || tag
        == ChunkType(sRGB) || tag == ChunkType(iCCP)
}

/// `tag` is one of the three chunk types of the animation extension.
pub open spec fn is_extension_name(tag: ChunkType) -> bool {
    tag == ChunkType(acTL) || tag == ChunkType(fcTL) || tag == ChunkType(fdAT)
}

/// Every critical chunk type of the base format is critical, public,
/// conforms to the reserved-bit convention and is not safe to copy.
pub proof fn lemma_critical_names(tag: ChunkType)
    requires
        is_critical_name(tag),
    ensures
        is_critical(tag),
        !is_private(tag),
        !reserved_set(tag),
        !safe_to_copy(tag),
{
    lemma_letter_case_of_all_bytes();
}

/// Every ancillary chunk type of the base format is ancillary, public and
/// conforms to the reserved-bit convention. It is safe to copy exactly when
/// it is one of the physical-dimensions chunk and the three text chunks.
pub proof fn lemma_ancillary_names(tag: ChunkType)
    requires
        is_ancillary_name(tag),
    ensures
        !is_critical(tag),
        !is_private(tag),
        !reserved_set(tag),
        safe_to_copy(tag) <==> is_copy_safe_ancillary_name(tag),
{
    lemma_letter_case_of_all_bytes();
}

/// Every chunk type of the animation extension is ancillary, private,
/// conforms to the reserved-bit convention and is not safe to copy.
pub proof fn lemma_extension_names(tag: ChunkType)
    requires
        is_extension_name(tag),
    ensures
        !is_critical(tag),
        is_private(tag),
        !reserved_set(tag),
        !safe_to_copy(tag),
{
    lemma_letter_case_of_all_bytes();
}

/// The three groups of registered names share no name.
pub proof fn lemma_name_groups_disjoint(tag: ChunkType)
    ensures
        !(is_critical_name(tag) && is_ancillary_name(tag)),
        !(is_critical_name(tag) && is_extension_name(tag)),
        !(is_ancillary_name(tag) && is_extension_name(tag)),
{
    if is_critical_name(tag) {
        lemma_critical_names(tag);
    }
    if is_ancillary_name(tag) {
        lemma_ancillary_names(tag);
    }
    if is_extension_name(tag) {
        lemma_extension_names(tag);
    }
}

// -- What holds of every name --

/// Building a name from four bytes and reading its bytes back gives the same
/// four bytes, through the field and through the view.
pub proof fn lemma_bytes_round_trip(bytes: [u8; 4])
    ensures
        ChunkType(bytes).0 == bytes,
        ChunkType(bytes)@ == bytes@,
        ChunkType(bytes)@.len() == 4,
        forall|i: int| 0 <= i < 4 ==> ChunkType(bytes)@[i] == bytes[i],
{
}

/// Two names are the same value exactly when they hold the same bytes, and
/// that is what `==` tests: a single differing byte makes them unequal.
pub proof fn lemma_equal_iff_same_bytes(a: ChunkType, b: ChunkType)
    ensures
        a == b <==> a@ == b@,
        a == b <==> forall|i: int| 0 <= i < 4 ==> a@[i] == b@[i],
        a.eq_spec(&b) <==> a == b,
{
    if a@ == b@ {
        assert(a.0 =~= b.0);
    }
    if forall|i: int| 0 <= i < 4 ==> a@[i] == b@[i] {
        assert(a@ =~= b@);
    }
}

/// Each property is read off one byte of the name and nothing else: two
/// names that agree in that byte agree in the property. So a name classifies
/// the same way every time it is asked.
pub proof fn lemma_one_byte_per_property(a: ChunkType, b: ChunkType)
    ensures
        a@[0] == b@[0] ==> is_critical(a) == is_critical(b),
        a@[1] == b@[1] ==> is_private(a) == is_private(b),
        a@[2] == b@[2] ==> reserved_set(a) == reserved_set(b),
        a@[3] == b@[3] ==> safe_to_copy(a) == safe_to_copy(b),
        a == b ==> is_critical(a) == is_critical(b) && is_private(a) == is_private(b)
            && reserved_set(a) == reserved_set(b) && safe_to_copy(a) == safe_to_copy(b),
{
}

/// The four properties are independent: each of the sixteen combinations is
/// the classification of some name, and of one made of ASCII letters.
pub proof fn lemma_every_combination_has_a_name(
    critical: bool,
    private: bool,
    reserved: bool,
    safecopy: bool,
)
    ensures
        exists|tag: ChunkType|
            {
                &&& is_critical(tag) == critical
                &&& is_private(tag) == private
                &&& reserved_set(tag) == reserved
                &&& safe_to_copy(tag) == safecopy
                &&& forall|i: int|
                    0 <= i < 4 ==> is_ascii_upper(#[trigger] tag@[i]) || is_ascii_lower(tag@[i])
            },
{
    let b0: u8 = if critical { 'X' as u8 } else { 'x' as u8 };
    let b1: u8 = if private { 'x' as u8 } else { 'X' as u8 };
    let b2: u8 = if reserved { 'x' as u8 } else { 'X' as u8 };
    let b3: u8 = if safecopy { 'x' as u8 } else { 'X' as u8 };
    let tag = ChunkType([b0, b1, b2, b3]);
    lemma_property_bit_is_letter_case(b0);
    lemma_property_bit_is_letter_case(b1);
    lemma_property_bit_is_letter_case(b2);
    lemma_property_bit_is_letter_case(b3);
    assert(tag@[0] == b0 && tag@[1] == b1 && tag@[2] == b2 && tag@[3] == b3);
    // `tag` is the name that exists.
    assert(is_critical(tag) == critical);
}

} // verus!
