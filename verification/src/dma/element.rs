//! Element types a DMA transfer can move, with their exact byte images.

use vstd::prelude::*;

verus! {

/// An element type a DMA transfer can move: a fixed-width value with an
/// exact little-endian byte image.
pub trait Element: Sized + Copy {
    /// Width of the element in bytes.
    spec fn size_spec() -> nat;

    /// The little-endian byte image.
    spec fn to_bytes_spec(self) -> Seq<u8>;

    /// The value a byte image denotes.
    spec fn from_bytes_spec(s: Seq<u8>) -> Self;

    fn size() -> (n: usize)
        ensures
            n == Self::size_spec(),
            1 <= n <= 8,
    ;

    fn to_bytes(self) -> (r: Vec<u8>)
        ensures
            r@ == self.to_bytes_spec(),
            r@.len() == Self::size_spec(),
    ;

    fn from_bytes(v: &Vec<u8>) -> (r: Self)
        requires
            v@.len() == Self::size_spec(),
        ensures
            r == Self::from_bytes_spec(v@),
    ;

    /// Decoding an element's own byte image gives the element back.
    proof fn lemma_round_trip(self)
        ensures
            Self::from_bytes_spec(self.to_bytes_spec()) == self,
    ;

    /// The byte image has exactly the element's width.
    proof fn lemma_size(self)
        ensures
            self.to_bytes_spec().len() == Self::size_spec(),
    ;
}

impl Element for u8 {
    open spec fn size_spec() -> nat {
        1
    }

    open spec fn to_bytes_spec(self) -> Seq<u8> {
        seq![self]
    }

    open spec fn from_bytes_spec(s: Seq<u8>) -> u8 {
        s[0]
    }

    fn size() -> (n: usize) {
        1
    }

    fn to_bytes(self) -> (r: Vec<u8>) {
        let mut r: Vec<u8> = Vec::new();
        r.push(self);
        assert(r@ =~= seq![self]);
        r
    }

    fn from_bytes(v: &Vec<u8>) -> (r: u8) {
        v[0]
    }

    proof fn lemma_round_trip(self) {
    }

    proof fn lemma_size(self) {
    }
}

impl Element for u16 {
    open spec fn size_spec() -> nat {
        2
    }

    open spec fn to_bytes_spec(self) -> Seq<u8> {
        seq![(self & 0xff) as u8, ((self >> 8) & 0xff) as u8]
    }

    open spec fn from_bytes_spec(s: Seq<u8>) -> u16 {
        ((s[0] as u16) | ((s[1] as u16) << 8)) as u16
    }

    fn size() -> (n: usize) {
        2
    }

    fn to_bytes(self) -> (r: Vec<u8>) {
        let mut r: Vec<u8> = Vec::new();
        r.push((self & 0xff) as u8);
        r.push(((self >> 8) & 0xff) as u8);
        assert(r@ =~= self.to_bytes_spec());
        r
    }

    fn from_bytes(v: &Vec<u8>) -> (r: u16) {
        (v[0] as u16) | ((v[1] as u16) << 8)
    }

    proof fn lemma_round_trip(self) {
        let x = self;
        assert((((x & 0xff) as u8 as u16) | ((((x >> 8) & 0xff) as u8 as u16) << 8)) == x)
            by (bit_vector);
    }

    proof fn lemma_size(self) {
    }
}

impl Element for u32 {
    open spec fn size_spec() -> nat {
        4
    }

    open spec fn to_bytes_spec(self) -> Seq<u8> {
        seq![
            (self & 0xff) as u8,
            ((self >> 8) & 0xff) as u8,
            ((self >> 16) & 0xff) as u8,
            ((self >> 24) & 0xff) as u8,
        ]
    }

    open spec fn from_bytes_spec(s: Seq<u8>) -> u32 {
        ((s[0] as u32) | ((s[1] as u32) << 8) | ((s[2] as u32) << 16) | ((s[3] as u32) << 24))
            as u32
    }

    fn size() -> (n: usize) {
        4
    }

    fn to_bytes(self) -> (r: Vec<u8>) {
        let mut r: Vec<u8> = Vec::new();
        r.push((self & 0xff) as u8);
        r.push(((self >> 8) & 0xff) as u8);
        r.push(((self >> 16) & 0xff) as u8);
        r.push(((self >> 24) & 0xff) as u8);
        assert(r@ =~= self.to_bytes_spec());
        r
    }

    fn from_bytes(v: &Vec<u8>) -> (r: u32) {
        (v[0] as u32) | ((v[1] as u32) << 8) | ((v[2] as u32) << 16) | ((v[3] as u32) << 24)
    }

    proof fn lemma_round_trip(self) {
        let x = self;
        assert((((x & 0xff) as u8 as u32) | ((((x >> 8) & 0xff) as u8 as u32) << 8) | ((((x >> 16)
            & 0xff) as u8 as u32) << 16) | ((((x >> 24) & 0xff) as u8 as u32) << 24)) == x)
            by (bit_vector);
    }

    proof fn lemma_size(self) {
    }
}

impl Element for u64 {
    open spec fn size_spec() -> nat {
        8
    }

    open spec fn to_bytes_spec(self) -> Seq<u8> {
        seq![
            (self & 0xff) as u8,
            ((self >> 8) & 0xff) as u8,
            ((self >> 16) & 0xff) as u8,
            ((self >> 24) & 0xff) as u8,
            ((self >> 32) & 0xff) as u8,
            ((self >> 40) & 0xff) as u8,
            ((self >> 48) & 0xff) as u8,
            ((self >> 56) & 0xff) as u8,
        ]
    }

    open spec fn from_bytes_spec(s: Seq<u8>) -> u64 {
        ((s[0] as u64) | ((s[1] as u64) << 8) | ((s[2] as u64) << 16) | ((s[3] as u64) << 24) | ((
        s[4] as u64) << 32) | ((s[5] as u64) << 40) | ((s[6] as u64) << 48) | ((s[7] as u64) << 56))
            as u64
    }

    fn size() -> (n: usize) {
        8
    }

    fn to_bytes(self) -> (r: Vec<u8>) {
        let mut r: Vec<u8> = Vec::new();
        r.push((self & 0xff) as u8);
        r.push(((self >> 8) & 0xff) as u8);
        r.push(((self >> 16) & 0xff) as u8);
        r.push(((self >> 24) & 0xff) as u8);
        r.push(((self >> 32) & 0xff) as u8);
        r.push(((self >> 40) & 0xff) as u8);
        r.push(((self >> 48) & 0xff) as u8);
        r.push(((self >> 56) & 0xff) as u8);
        assert(r@ =~= self.to_bytes_spec());
        r
    }

    fn from_bytes(v: &Vec<u8>) -> (r: u64) {
        (v[0] as u64) | ((v[1] as u64) << 8) | ((v[2] as u64) << 16) | ((v[3] as u64) << 24) | ((
        v[4] as u64) << 32) | ((v[5] as u64) << 40) | ((v[6] as u64) << 48) | ((v[7] as u64) << 56)
    }

    proof fn lemma_round_trip(self) {
        let x = self;
        assert((((x & 0xff) as u8 as u64) | ((((x >> 8) & 0xff) as u8 as u64) << 8) | ((((x >> 16)
            & 0xff) as u8 as u64) << 16) | ((((x >> 24) & 0xff) as u8 as u64) << 24) | ((((x >> 32)
            & 0xff) as u8 as u64) << 32) | ((((x >> 40) & 0xff) as u8 as u64) << 40) | ((((x >> 48)
            & 0xff) as u8 as u64) << 48) | ((((x >> 56) & 0xff) as u8 as u64) << 56)) == x)
            by (bit_vector);
    }

    proof fn lemma_size(self) {
    }
}

impl Element for i32 {
    open spec fn size_spec() -> nat {
        4
    }

    open spec fn to_bytes_spec(self) -> Seq<u8> {
        <u32 as Element>::to_bytes_spec(self as u32)
    }

    open spec fn from_bytes_spec(s: Seq<u8>) -> i32 {
        <u32 as Element>::from_bytes_spec(s) as i32
    }

    fn size() -> (n: usize) {
        4
    }

    fn to_bytes(self) -> (r: Vec<u8>) {
        (self as u32).to_bytes()
    }

    fn from_bytes(v: &Vec<u8>) -> (r: i32) {
        u32::from_bytes(v) as i32
    }

    proof fn lemma_round_trip(self) {
        let u: u32 = self as u32;
        u.lemma_round_trip();
        assert((self as u32) as i32 == self) by (bit_vector);
    }

    proof fn lemma_size(self) {
    }
}

} // verus!
