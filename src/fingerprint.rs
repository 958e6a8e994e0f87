use vstd::prelude::*;

verus! {

/// The CRC-32 checksum of `data`.
pub uninterp spec fn crc32_of(data: Seq<u8>) -> u32;

/// The bytes fed so far to a CRC-32 computation.
pub uninterp spec fn crc32_fed(h: crc32fast::Hasher) -> Seq<u8>;

/// The 64-byte BLAKE2b-512 digest of `data`.
pub uninterp spec fn blake2b512_of(data: Seq<u8>) -> Seq<u8>;

#[verifier::external_type_specification]
#[verifier::external_body]
pub struct ExCrc32Hasher(crc32fast::Hasher);

/// Relies on crc32fast's `Hasher::new`: a computation that has been fed nothing.
pub assume_specification[ crc32fast::Hasher::new ]() -> (h: crc32fast::Hasher)
    ensures
        crc32_fed(h) == Seq::<u8>::empty(),
;

/// Relies on crc32fast's `Hasher::update`: the bytes are appended to the input.
pub assume_specification[ crc32fast::Hasher::update ](h: &mut crc32fast::Hasher, buf: &[u8])
    ensures
        crc32_fed(*final(h)) == crc32_fed(*old(h)) + buf@,
;

/// Relies on crc32fast's `Hasher::finalize`: the checksum of all bytes fed.
pub assume_specification[ crc32fast::Hasher::finalize ](h: crc32fast::Hasher) -> (r: u32)
    ensures
        r == crc32_of(crc32_fed(h)),
;

/// A BLAKE2b-512 computation fed chunk by chunk; its result is the lowercase
/// hex text that `calculate_blake2b512` gives for the whole content. The hasher
/// is held opaquely: Verus cannot declare the generic type behind `Blake2b512`.
#[verifier::external_body]
pub struct Blake2b512Stream {
    hasher: blake2::Blake2b512,
}

/// The bytes fed so far to a BLAKE2b-512 stream.
pub uninterp spec fn blake2b512_fed(s: Blake2b512Stream) -> Seq<u8>;

/// Relies on blake2's `Digest::new` for `Blake2b512`: a computation fed nothing.
#[verifier::external_body]
fn blake2b512_new() -> (s: Blake2b512Stream)
    ensures
        blake2b512_fed(s) == Seq::<u8>::empty(),
{
    Blake2b512Stream { hasher: <blake2::Blake2b512 as blake2::Digest>::new() }
}

/// Relies on blake2's `Digest::update`: the bytes are appended to the input.
#[verifier::external_body]
fn blake2b512_update(s: &mut Blake2b512Stream, data: &[u8])
    ensures
        blake2b512_fed(*final(s)) == blake2b512_fed(*old(s)) + data@,
{
    blake2::Digest::update(&mut s.hasher, data)
}

/// Relies on blake2's `Digest::finalize`: the digest of all bytes fed, 64 bytes long.
#[verifier::external_body]
fn blake2b512_finalize(s: Blake2b512Stream) -> (r: Vec<u8>)
    ensures
        r@ == blake2b512_of(blake2b512_fed(s)),
        r@.len() == 64,
{
    blake2::Digest::finalize(s.hasher).to_vec()
}

/// Relies on hex::encode: two lowercase hex digits for each byte, high half first.
#[verifier::external_body]
fn hex_encode(data: &[u8]) -> (r: String)
    ensures
        r@ == hex_lower(data@),
{
    hex::encode(data)
}

pub open spec fn hex_digit(n: int) -> char {
    seq!['0', '1', '2', '3', '4', '5', '6', '7', '8', '9', 'a', 'b', 'c', 'd', 'e', 'f'][n]
}

/// Lowercase hexadecimal text of a byte sequence, two digits per byte.
pub open spec fn hex_lower(b: Seq<u8>) -> Seq<char> {
    Seq::new(
        2 * b.len(),
        |i: int|
            if i % 2 == 0 {
                hex_digit(b[i / 2] as int / 16)
            } else {
                hex_digit(b[i / 2] as int % 16)
            },
    )
}

/// The fast fingerprint (CRC-32) of a whole content.
pub fn calculate_crc32(content: &[u8]) -> (r: u32)
    ensures
        r == crc32_of(content@),
{
    let mut hasher = crc32fast::Hasher::new();
    hasher.update(content);
    proof {
        assert(Seq::<u8>::empty() + content@ =~= content@);
    }
    hasher.finalize()
}

/// The cryptographic fingerprint of a content: its BLAKE2b-512 digest as
/// 128 lowercase hex digits.
pub fn calculate_blake2b512(content: &[u8]) -> (r: String)
    ensures
        r@ == hex_lower(blake2b512_of(content@)),
        r@.len() == 128,
{
    let mut stream = Blake2b512Stream::new();
    stream.update(content);
    proof {
        assert(Seq::<u8>::empty() + content@ =~= content@);
    }
    stream.finalize()
}

/// A CRC-32 computation fed chunk by chunk, so that a file never has to be
/// held in memory whole.
pub struct Crc32Stream {
    hasher: crc32fast::Hasher,
}

impl Crc32Stream {
    /// The bytes fed so far, all chunks in order.
    pub closed spec fn fed(&self) -> Seq<u8> {
        crc32_fed(self.hasher)
    }

    pub fn new() -> (s: Crc32Stream)
        ensures
            s.fed() == Seq::<u8>::empty(),
    {
        Crc32Stream { hasher: crc32fast::Hasher::new() }
    }

    pub fn update(&mut self, chunk: &[u8])
        ensures
            final(self).fed() == old(self).fed() + chunk@,
    {
        self.hasher.update(chunk);
    }

    /// The checksum of everything fed: the same as `calculate_crc32` on the
    /// whole content.
    pub fn finalize(self) -> (r: u32)
        ensures
            r == crc32_of(self.fed()),
    {
        self.hasher.finalize()
    }
}

impl Blake2b512Stream {
    /// The bytes fed so far, all chunks in order.
    pub open spec fn fed(&self) -> Seq<u8> {
        blake2b512_fed(*self)
    }

    pub fn new() -> (s: Blake2b512Stream)
        ensures
            s.fed() == Seq::<u8>::empty(),
    {
        blake2b512_new()
    }

    pub fn update(&mut self, chunk: &[u8])
        ensures
            final(self).fed() == old(self).fed() + chunk@,
    {
        blake2b512_update(self, chunk);
    }

    pub fn finalize(self) -> (r: String)
        ensures
            r@ == hex_lower(blake2b512_of(self.fed())),
            r@.len() == 128,
    {
        let digest = blake2b512_finalize(self);
        hex_encode(digest.as_slice())
    }
}

} // verus!
