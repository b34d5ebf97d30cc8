//! What a label contributes to the hash by which layouts are compared.

use vstd::prelude::*;
use vstd::utf8::{encode_utf8, encode_utf8_decode_utf8};
use std::hash::Hasher;
use crate::length::Length;

verus! {

/// `iced_native::Hasher`, the hasher that a user interface feeds the
/// layout-relevant parts of its elements to. The library only writes to one.
#[verifier::external_type_specification]
#[verifier::external_body]
pub struct ExHasher(iced_native::Hasher);

/// What a hasher holds, as far as the library speaks of it: the bytes that
/// have been written to it so far, in the order in which they were written.
pub uninterp spec fn written(state: iced_native::Hasher) -> Seq<u8>;

/// Writes bytes to a hasher: one call of `Hasher::write` of std on an
/// `iced_native::Hasher`, which passes the bytes on to the `XxHash64` of
/// twox-hash that it wraps. That hasher takes in every byte it is given, in
/// order, so the bytes written so far grow by exactly `bytes`.
#[verifier::external_body]
pub(crate) fn write_bytes(state: &mut iced_native::Hasher, bytes: &[u8])
    ensures
        written(*final(state)) == written(*old(state)) + bytes@,
{
    state.write(bytes);
}

/// The discriminator that every icon label puts in front of its
/// contribution, so that it is never taken for that of another kind of
/// element with the same content.
pub const ICON_TEXT_MARKER: u64 = 0x4943_4f4e_5445_5854;

/// The byte that is written behind the content of a key. No UTF-8 text
/// holds it.
pub const END_OF_CONTENT: u8 = 0xff;

/// The parts of a label that decide its layout, in the order in which they
/// are hashed.
#[derive(Debug, PartialEq, Eq)]
pub struct LayoutKey<'a> {
    /// The discriminator of icon labels.
    pub marker: u64,
    /// The glyph codes.
    pub content: &'a str,
    /// The glyph size, where the label names one.
    pub size: Option<u16>,
    /// The sizing intent along the horizontal axis.
    pub width: Length,
    /// The sizing intent along the vertical axis.
    pub height: Length,
}

/// The mathematical content of a [`LayoutKey`].
pub struct LayoutKeyView {
    pub marker: u64,
    pub content: Seq<char>,
    pub size: Option<u16>,
    pub width: Length,
    pub height: Length,
}

impl<'a> View for LayoutKey<'a> {
    type V = LayoutKeyView;

    open spec fn view(&self) -> LayoutKeyView {
        LayoutKeyView {
            marker: self.marker,
            content: self.content@,
            size: self.size,
            width: self.width,
            height: self.height,
        }
    }
}

/// The two bytes of a 16-bit number, high byte first.
pub open spec fn u16_bytes(value: u16) -> Seq<u8> {
    seq![(value / 0x100) as u8, (value % 0x100) as u8]
}

/// The four bytes of a 32-bit number, high byte first.
pub open spec fn u32_bytes(value: u32) -> Seq<u8> {
    u16_bytes((value / 0x1_0000) as u16) + u16_bytes((value % 0x1_0000) as u16)
}

/// The eight bytes of a 64-bit number, high byte first.
pub open spec fn u64_bytes(value: u64) -> Seq<u8> {
    u32_bytes((value / 0x1_0000_0000) as u32) + u32_bytes((value % 0x1_0000_0000) as u32)
}

/// Three bytes: a tag, and the two bytes of a 16-bit number.
pub open spec fn tagged(tag: u8, value: u16) -> Seq<u8> {
    seq![tag] + u16_bytes(value)
}

/// The three bytes of an optional glyph size: the tag 0 and a zero for none,
/// the tag 1 and the size for some.
pub open spec fn size_bytes(size: Option<u16>) -> Seq<u8> {
    match size {
        None => tagged(0, 0),
        Some(size) => tagged(1, size),
    }
}

/// The three bytes of a sizing intent: the tag 0 for `Fill`, 1 for
/// `FillPortion`, 2 for `Shrink` and 3 for `Fixed`, and the number of the
/// intent, zero where it has none.
pub open spec fn length_bytes(length: Length) -> Seq<u8> {
    match length {
        Length::Fill => tagged(0, 0),
        Length::FillPortion(portion) => tagged(1, portion),
        Length::Shrink => tagged(2, 0),
        Length::Fixed(units) => tagged(3, units),
    }
}

impl LayoutKeyView {
    /// The ten bytes that stand behind the content: the byte that ends the
    /// content, the glyph size, and the horizontal and the vertical sizing
    /// intent.
    pub open spec fn tail(self) -> Seq<u8> {
        seq![END_OF_CONTENT] + size_bytes(self.size) + length_bytes(self.width) + length_bytes(
            self.height,
        )
    }

    /// The bytes that a key is hashed as: the marker, the content in UTF-8,
    /// and the tail.
    pub open spec fn bytes(self) -> Seq<u8> {
        u64_bytes(self.marker) + encode_utf8(self.content) + self.tail()
    }
}

fn push_u16(bytes: &mut Vec<u8>, value: u16)
    ensures
        final(bytes)@ == old(bytes)@ + u16_bytes(value),
{
    bytes.push((value / 0x100) as u8);
    bytes.push((value % 0x100) as u8);
    assert(bytes@ =~= old(bytes)@ + u16_bytes(value));
}

fn push_u32(bytes: &mut Vec<u8>, value: u32)
    ensures
        final(bytes)@ == old(bytes)@ + u32_bytes(value),
{
    push_u16(bytes, (value / 0x1_0000) as u16);
    push_u16(bytes, (value % 0x1_0000) as u16);
    assert(bytes@ =~= old(bytes)@ + u32_bytes(value));
}

fn push_u64(bytes: &mut Vec<u8>, value: u64)
    ensures
        final(bytes)@ == old(bytes)@ + u64_bytes(value),
{
    push_u32(bytes, (value / 0x1_0000_0000) as u32);
    push_u32(bytes, (value % 0x1_0000_0000) as u32);
    assert(bytes@ =~= old(bytes)@ + u64_bytes(value));
}

fn push_tagged(bytes: &mut Vec<u8>, tag: u8, value: u16)
    ensures
        final(bytes)@ == old(bytes)@ + tagged(tag, value),
{
    bytes.push(tag);
    push_u16(bytes, value);
    assert(bytes@ =~= old(bytes)@ + tagged(tag, value));
}

fn push_size(bytes: &mut Vec<u8>, size: Option<u16>)
    ensures
        final(bytes)@ == old(bytes)@ + size_bytes(size),
{
    match size {
        None => push_tagged(bytes, 0, 0),
        Some(size) => push_tagged(bytes, 1, size),
    }
}

fn push_length(bytes: &mut Vec<u8>, length: Length)
    ensures
        final(bytes)@ == old(bytes)@ + length_bytes(length),
{
    match length {
        Length::Fill => push_tagged(bytes, 0, 0),
        Length::FillPortion(portion) => push_tagged(bytes, 1, portion),
        Length::Shrink => push_tagged(bytes, 2, 0),
        Length::Fixed(units) => push_tagged(bytes, 3, units),
    }
}

impl<'a> LayoutKey<'a> {
    /// The bytes that the key is hashed as.
    pub fn to_bytes(&self) -> (bytes: Vec<u8>)
        ensures
            bytes@ == self@.bytes(),
    {
        let mut bytes: Vec<u8> = Vec::new();
        push_u64(&mut bytes, self.marker);
        assert(bytes@ =~= u64_bytes(self.marker));
        bytes.extend_from_slice(self.content.as_bytes());
        assert(bytes@ =~= u64_bytes(self.marker) + encode_utf8(self.content@));
        bytes.push(END_OF_CONTENT);
        push_size(&mut bytes, self.size);
        push_length(&mut bytes, self.width);
        push_length(&mut bytes, self.height);
        assert(bytes@ =~= self@.bytes());
        bytes
    }
}

/// A 16-bit number can be read back from its two bytes.
pub proof fn lemma_u16_bytes_injective(a: u16, b: u16)
    requires
        u16_bytes(a) == u16_bytes(b),
    ensures
        a == b,
{
    assert(u16_bytes(a)[0] == u16_bytes(b)[0]);
    assert(u16_bytes(a)[1] == u16_bytes(b)[1]);
}

/// A 32-bit number can be read back from its four bytes.
pub proof fn lemma_u32_bytes_injective(a: u32, b: u32)
    requires
        u32_bytes(a) == u32_bytes(b),
    ensures
        a == b,
{
    let (ah, al) = ((a / 0x1_0000) as u16, (a % 0x1_0000) as u16);
    let (bh, bl) = ((b / 0x1_0000) as u16, (b % 0x1_0000) as u16);
    assert(u32_bytes(a).subrange(0, 2) =~= u16_bytes(ah));
    assert(u32_bytes(b).subrange(0, 2) =~= u16_bytes(bh));
    assert(u32_bytes(a).subrange(2, 4) =~= u16_bytes(al));
    assert(u32_bytes(b).subrange(2, 4) =~= u16_bytes(bl));
    lemma_u16_bytes_injective(ah, bh);
    lemma_u16_bytes_injective(al, bl);
}

/// A 64-bit number can be read back from its eight bytes.
pub proof fn lemma_u64_bytes_injective(a: u64, b: u64)
    requires
        u64_bytes(a) == u64_bytes(b),
    ensures
        a == b,
{
    let (ah, al) = ((a / 0x1_0000_0000) as u32, (a % 0x1_0000_0000) as u32);
    let (bh, bl) = ((b / 0x1_0000_0000) as u32, (b % 0x1_0000_0000) as u32);
    assert(u64_bytes(a).subrange(0, 4) =~= u32_bytes(ah));
    assert(u64_bytes(b).subrange(0, 4) =~= u32_bytes(bh));
    assert(u64_bytes(a).subrange(4, 8) =~= u32_bytes(al));
    assert(u64_bytes(b).subrange(4, 8) =~= u32_bytes(bl));
    lemma_u32_bytes_injective(ah, bh);
    lemma_u32_bytes_injective(al, bl);
}

/// A tag and a number can be read back from their three bytes.
pub proof fn lemma_tagged_injective(tag_a: u8, a: u16, tag_b: u8, b: u16)
    requires
        tagged(tag_a, a) == tagged(tag_b, b),
    ensures
        tag_a == tag_b,
        a == b,
{
    assert(tagged(tag_a, a)[0] == tag_a);
    assert(tagged(tag_b, b)[0] == tag_b);
    assert(tagged(tag_a, a).subrange(1, 3) =~= u16_bytes(a));
    assert(tagged(tag_b, b).subrange(1, 3) =~= u16_bytes(b));
    lemma_u16_bytes_injective(a, b);
}

/// An optional glyph size can be read back from its three bytes.
pub proof fn lemma_size_bytes_injective(a: Option<u16>, b: Option<u16>)
    requires
        size_bytes(a) == size_bytes(b),
    ensures
        a == b,
{
    let (tag_a, x): (u8, u16) = match a {
        None => (0, 0),
        Some(size) => (1, size),
    };
    let (tag_b, y): (u8, u16) = match b {
        None => (0, 0),
        Some(size) => (1, size),
    };
    lemma_tagged_injective(tag_a, x, tag_b, y);
}

/// A sizing intent can be read back from its three bytes.
pub proof fn lemma_length_bytes_injective(a: Length, b: Length)
    requires
        length_bytes(a) == length_bytes(b),
    ensures
        a == b,
{
    let (tag_a, x): (u8, u16) = match a {
        Length::Fill => (0, 0),
        Length::FillPortion(portion) => (1, portion),
        Length::Shrink => (2, 0),
        Length::Fixed(units) => (3, units),
    };
    let (tag_b, y): (u8, u16) = match b {
        Length::Fill => (0, 0),
        Length::FillPortion(portion) => (1, portion),
        Length::Shrink => (2, 0),
        Length::Fixed(units) => (3, units),
    };
    lemma_tagged_injective(tag_a, x, tag_b, y);
}

/// A layout key can be read back from its bytes: two keys with the same
/// bytes are the same key.
pub proof fn lemma_key_bytes_injective(a: LayoutKeyView, b: LayoutKeyView)
    requires
        a.bytes() == b.bytes(),
    ensures
        a == b,
{
    let n = a.bytes().len() as int;
    assert(u64_bytes(a.marker).len() == 8 && u64_bytes(b.marker).len() == 8);
    assert(a.tail().len() == 10 && b.tail().len() == 10);
    assert(a.bytes().subrange(0, 8) =~= u64_bytes(a.marker));
    assert(b.bytes().subrange(0, 8) =~= u64_bytes(b.marker));
    lemma_u64_bytes_injective(a.marker, b.marker);

    assert(a.bytes().subrange(8, n - 10) =~= encode_utf8(a.content));
    assert(b.bytes().subrange(8, n - 10) =~= encode_utf8(b.content));
    encode_utf8_decode_utf8(a.content);
    encode_utf8_decode_utf8(b.content);
    assert(a.content == b.content);

    assert(a.bytes().subrange(n - 10, n) =~= a.tail());
    assert(b.bytes().subrange(n - 10, n) =~= b.tail());
    assert(a.tail().subrange(1, 4) =~= size_bytes(a.size));
    assert(b.tail().subrange(1, 4) =~= size_bytes(b.size));
    lemma_size_bytes_injective(a.size, b.size);
    assert(a.tail().subrange(4, 7) =~= length_bytes(a.width));
    assert(b.tail().subrange(4, 7) =~= length_bytes(b.width));
    lemma_length_bytes_injective(a.width, b.width);
    assert(a.tail().subrange(7, 10) =~= length_bytes(a.height));
    assert(b.tail().subrange(7, 10) =~= length_bytes(b.height));
    lemma_length_bytes_injective(a.height, b.height);
}

} // verus!
