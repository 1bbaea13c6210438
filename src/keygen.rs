use bytes::Bytes;
use rand_xorshift::XorShiftRng;
use vstd::prelude::*;

verus! {

#[verifier::external_type_specification]
#[verifier::external_body]
pub struct ExXorShiftRng(XorShiftRng);

#[verifier::external_type_specification]
#[verifier::external_body]
pub struct ExBytes(Bytes);

/// The bytes held by an immutable `Bytes` buffer.
pub uninterp spec fn bytes_content(b: Bytes) -> Seq<u8>;

/// Relies on rand's `SeedableRng::from_entropy` for `XorShiftRng`: a fresh
/// generator seeded from the operating system, so that no two generators share
/// their state.
#[verifier::external_body]
pub(crate) fn seeded_rng() -> (r: XorShiftRng) {
    <XorShiftRng as rand::SeedableRng>::from_entropy()
}

/// Relies on rand's `RngCore::fill_bytes`: overwrites the buffer in place with
/// random bytes, keeping its length.
#[verifier::external_body]
pub(crate) fn fill_random(rng: &mut XorShiftRng, buf: &mut Vec<u8>)
    ensures
        final(buf)@.len() == old(buf)@.len(),
{
    rand::RngCore::fill_bytes(rng, buf.as_mut_slice())
}

/// Relies on `Bytes::from(Vec<u8>)`: the buffer is handed over without copy
/// and the `Bytes` holds exactly its bytes.
#[verifier::external_body]
pub(crate) fn freeze(v: Vec<u8>) -> (r: Bytes)
    ensures
        bytes_content(r) == v@,
{
    Bytes::from(v)
}

/// A buffer of `len` zero bytes, to be overwritten.
pub fn zeroed(len: usize) -> (r: Vec<u8>)
    ensures
        r@ == Seq::new(len as nat, |i: int| 0u8),
{
    let mut v: Vec<u8> = Vec::with_capacity(len);
    let mut i: usize = 0;
    while i < len
        invariant
            i <= len,
            v@ == Seq::new(i as nat, |j: int| 0u8),
        decreases len - i,
    {
        v.push(0u8);
        i = i + 1;
        assert(v@ =~= Seq::new(i as nat, |j: int| 0u8));
    }
    v
}

/// `len` random bytes drawn from `rng`.
pub(crate) fn random_bytes(rng: &mut XorShiftRng, len: usize) -> (r: Vec<u8>)
    ensures
        r@.len() == len,
{
    let mut buf = zeroed(len);
    fill_random(rng, &mut buf);
    buf
}

/// A source of synthetic keys for one writer task.
pub trait KeyGenerator {
    /// Length of every key this generator produces.
    spec fn key_len(&self) -> nat;

    /// Produces the next key: a fresh buffer of exactly `key_len` bytes.
    fn next_key(&mut self) -> (r: Bytes)
        ensures
            bytes_content(r).len() == old(self).key_len(),
            final(self).key_len() == old(self).key_len(),
    ;
}

/// Keys of a fixed length, filled with uniformly random bytes from a generator
/// that belongs to this instance alone. Duplicates are possible.
pub struct RandomKeyGenerator {
    key_bytes: usize,
    rng: XorShiftRng,
}

impl RandomKeyGenerator {
    pub fn new(key_bytes: usize) -> (r: RandomKeyGenerator)
        ensures
            r.key_len() == key_bytes,
    {
        RandomKeyGenerator { key_bytes, rng: seeded_rng() }
    }
}

impl KeyGenerator for RandomKeyGenerator {
    closed spec fn key_len(&self) -> nat {
        self.key_bytes as nat
    }

    fn next_key(&mut self) -> (r: Bytes) {
        let buf = random_bytes(&mut self.rng, self.key_bytes);
        freeze(buf)
    }
}

/// The key distributions a run can be configured with.
#[derive(Debug, Clone, Copy, PartialEq, Eq)]
pub enum KeyDistribution {
    Random,
}

/// A key generator of any configured distribution.
pub enum DistKeyGenerator {
    Random(RandomKeyGenerator),
}

impl KeyGenerator for DistKeyGenerator {
    closed spec fn key_len(&self) -> nat {
        match self {
            DistKeyGenerator::Random(g) => g.key_len(),
        }
    }

    fn next_key(&mut self) -> (r: Bytes) {
        match self {
            DistKeyGenerator::Random(g) => g.next_key(),
        }
    }
}

/// Makes one fresh key generator per writer task: generators are never shared.
#[derive(Debug, Clone, Copy, PartialEq, Eq)]
pub struct KeyGenSupplier {
    pub distribution: KeyDistribution,
    pub key_len: usize,
}

impl KeyGenSupplier {
    pub fn new(distribution: KeyDistribution, key_len: usize) -> (r: KeyGenSupplier)
        ensures
            r.distribution == distribution,
            r.key_len == key_len,
    {
        KeyGenSupplier { distribution, key_len }
    }

    pub fn supply(&self) -> (r: DistKeyGenerator)
        ensures
            r.key_len() == self.key_len,
    {
        match self.distribution {
            KeyDistribution::Random => DistKeyGenerator::Random(RandomKeyGenerator::new(self.key_len)),
        }
    }
}

} // verus!
