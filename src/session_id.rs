use rand::rngs::StdRng;
use rand::{Rng, SeedableRng};
use sha2::Digest;
use vstd::prelude::*;

verus! {

/// Number of characters in a session identifier: one SHA-256 digest in hex.
pub const SESSION_ID_LEN: usize = 64;

/// The sixteen lowercase hexadecimal digits, in value order.
pub open spec fn lower_hex_digits() -> Seq<char> {
    seq!['0', '1', '2', '3', '4', '5', '6', '7', '8', '9', 'a', 'b', 'c', 'd', 'e', 'f']
}

/// Lowercase hexadecimal rendering of a byte string, high nibble first.
pub open spec fn hex_of(b: Seq<u8>) -> Seq<char>
    decreases b.len(),
{
    if b.len() == 0 {
        Seq::empty()
    } else {
        hex_of(b.drop_last()) + seq![
            lower_hex_digits()[(b.last() / 16) as int],
            lower_hex_digits()[(b.last() % 16) as int],
        ]
    }
}

/// A well-formed session identifier: 64 lowercase hexadecimal characters.
pub open spec fn is_session_id(s: Seq<char>) -> bool {
    &&& s.len() == SESSION_ID_LEN
    &&& forall|i: int| 0 <= i < s.len() ==> lower_hex_digits().contains(#[trigger] s[i])
}

/// Little-endian bytes of `x`, `n` of them.
pub open spec fn le_bytes(x: nat, n: nat) -> Seq<u8>
    decreases n,
{
    if n == 0 {
        Seq::empty()
    } else {
        seq![(x % 256) as u8] + le_bytes(x / 256, (n - 1) as nat)
    }
}

/// The bytes a session identifier is digested from: the timestamp and the
/// call counter, eight little-endian bytes each, then the random bytes.
pub open spec fn id_material_of(timestamp_nanos: u64, counter: u64, random: Seq<u8>) -> Seq<u8> {
    le_bytes(timestamp_nanos as nat, 8) + le_bytes(counter as nat, 8) + random
}

/// What sha2's SHA-256 returns for a byte string.
pub uninterp spec fn sha256_of(data: Seq<u8>) -> Seq<u8>;

/// Relies on sha2::Sha256::digest: the SHA-256 digest of `data`, which is
/// 32 bytes long.
#[verifier::external_body]
fn sha256(data: &[u8]) -> (r: Vec<u8>)
    ensures
        r@ == sha256_of(data@),
        r@.len() == 32,
{
    sha2::Sha256::digest(data).to_vec()
}

/// Relies on hex::encode: two lowercase hexadecimal digits per byte, high
/// nibble first.
#[verifier::external_body]
fn to_hex(b: &[u8]) -> (r: String)
    ensures
        r@ == hex_of(b@),
{
    hex::encode(b)
}

#[verifier::external_type_specification]
#[verifier::external_body]
pub struct ExStdRng(StdRng);

/// Relies on getrandom::fill: on success the buffer of `len` bytes was
/// filled from the operating system's entropy source; its error becomes
/// `None`.
#[verifier::external_body]
fn os_entropy(len: usize) -> (r: Option<Vec<u8>>)
    ensures
        r matches Some(v) ==> v@.len() == len,
{
    let mut buf = vec![0u8; len];
    match getrandom::fill(&mut buf) {
        Ok(()) => Some(buf),
        Err(_) => None,
    }
}

/// Relies on rand's SeedableRng::from_seed for StdRng: a generator whose
/// whole output is determined by the 32-byte seed.
#[verifier::external_body]
fn seeded_rng(seed: &[u8]) -> (r: StdRng)
    requires
        seed@.len() == 32,
{
    let mut s = [0u8; 32];
    s.copy_from_slice(seed);
    StdRng::from_seed(s)
}

/// Relies on rand::Rng::fill for a byte slice: `len` bytes drawn from the
/// generator.
#[verifier::external_body]
fn random_bytes(rng: &mut StdRng, len: usize) -> (r: Vec<u8>)
    ensures
        r@.len() == len,
{
    let mut buf = vec![0u8; len];
    rng.fill(&mut buf[..]);
    buf
}

/// The operating system could not supply entropy to seed the generator.
#[derive(Debug, Clone, Copy, PartialEq, Eq, Structural)]
pub struct EntropyUnavailable;

/// Appends the `n` little-endian bytes of `x` to `out`.
fn push_le_bytes(out: &mut Vec<u8>, x: u64, n: usize)
    requires
        n <= 8,
    ensures
        final(out)@ == old(out)@ + le_bytes(x as nat, n as nat),
{
    let mut v: u64 = x;
    let mut i: usize = 0;
    while i < n
        invariant
            i <= n,
            old(out)@ + le_bytes(x as nat, n as nat) == out@ + le_bytes(v as nat, (n - i) as nat),
        decreases n - i,
    {
        let ghost before = out@;
        let ghost old_v = v;
        let ghost rest = (n - i - 1) as nat;
        let byte = (v % 256) as u8;
        assert(le_bytes(v as nat, (n - i) as nat) == seq![byte] + le_bytes(v as nat / 256, rest));
        out.push(byte);
        v = v / 256;
        i = i + 1;
        assert(out@ + le_bytes(v as nat, (n - i) as nat) =~= before + (seq![byte] + le_bytes(
            old_v as nat / 256,
            rest,
        )));
    }
}

/// The bytes a session identifier is digested from.
pub fn id_material(timestamp_nanos: u64, counter: u64, random: &[u8]) -> (r: Vec<u8>)
    ensures
        r@ == id_material_of(timestamp_nanos, counter, random@),
{
    let mut out: Vec<u8> = Vec::new();
    push_le_bytes(&mut out, timestamp_nanos, 8);
    push_le_bytes(&mut out, counter, 8);
    let mut i: usize = 0;
    while i < random.len()
        invariant
            i <= random@.len(),
            out@ == le_bytes(timestamp_nanos as nat, 8) + le_bytes(counter as nat, 8)
                + random@.subrange(0, i as int),
        decreases random@.len() - i,
    {
        out.push(random[i]);
        i = i + 1;
        assert(random@.subrange(0, i as int) =~= random@.subrange(0, i - 1) + seq![random@[i - 1]]);
    }
    assert(random@.subrange(0, random@.len() as int) =~= random@);
    out
}

/// The hex rendering of a byte string is twice as long and uses only
/// lowercase hexadecimal digits.
pub proof fn lemma_hex_of_shape(b: Seq<u8>)
    ensures
        hex_of(b).len() == 2 * b.len(),
        forall|i: int| 0 <= i < hex_of(b).len() ==> lower_hex_digits().contains(#[trigger] hex_of(b)[i]),
    decreases b.len(),
{
    if b.len() > 0 {
        lemma_hex_of_shape(b.drop_last());
        let prefix = hex_of(b.drop_last());
        let hi = lower_hex_digits()[(b.last() / 16) as int];
        let lo = lower_hex_digits()[(b.last() % 16) as int];
        assert(lower_hex_digits().contains(hi)) by {
            assert(lower_hex_digits()[(b.last() / 16) as int] == hi);
        }
        assert(lower_hex_digits().contains(lo)) by {
            assert(lower_hex_digits()[(b.last() % 16) as int] == lo);
        }
        assert forall|i: int| 0 <= i < hex_of(b).len() implies lower_hex_digits().contains(
            #[trigger] hex_of(b)[i],
        ) by {
            if i < prefix.len() {
                assert(hex_of(b)[i] == prefix[i]);
            } else if i == prefix.len() {
                assert(hex_of(b)[i] == hi);
            } else {
                assert(hex_of(b)[i] == lo);
            }
        }
    }
}

/// Renders the digest of `material` as a session identifier.
pub fn render_id(material: &[u8]) -> (r: String)
    ensures
        r@ == hex_of(sha256_of(material@)),
        is_session_id(r@),
{
    let digest = sha256(material);
    let r = to_hex(digest.as_slice());
    proof {
        lemma_hex_of_shape(digest@);
    }
    r
}

/// Source of unguessable session identifiers.
///
/// Seeded once from the clock, the process identifier and the operating
/// system's entropy; each identifier digests a fresh timestamp, a call
/// counter and fresh random bytes.
pub struct SecureSessionIdGenerator {
    rng: StdRng,
    counter: u64,
}

impl SecureSessionIdGenerator {
    /// Number of identifiers generated so far, modulo 2^64.
    pub closed spec fn spec_counter(&self) -> u64 {
        self.counter
    }

    /// Builds a generator seeded from the digest of `timestamp_nanos`,
    /// `process_id` and 32 bytes of operating-system entropy. Fails only
    /// when that entropy cannot be had.
    pub fn new(timestamp_nanos: u64, process_id: u64) -> (r: Result<Self, EntropyUnavailable>)
        ensures
            r matches Ok(g) ==> g.spec_counter() == 0,
    {
        let entropy = match os_entropy(32) {
            Some(bytes) => bytes,
            None => {
                return Err(EntropyUnavailable);
            },
        };
        let seed_material = id_material(timestamp_nanos, process_id, entropy.as_slice());
        let seed = sha256(seed_material.as_slice());
        let rng = seeded_rng(seed.as_slice());
        Ok(SecureSessionIdGenerator { rng, counter: 0 })
    }

    /// Produces the next identifier: the lowercase hex SHA-256 digest of
    /// `timestamp_nanos`, the incremented counter and 32 fresh random bytes.
    pub fn generate(&mut self, timestamp_nanos: u64) -> (r: String)
        ensures
            final(self).spec_counter() == (old(self).spec_counter() as nat + 1) % 0x1_0000_0000_0000_0000,
            exists|random: Seq<u8>|
                random.len() == 32 && r@ == hex_of(
                    sha256_of(id_material_of(timestamp_nanos, final(self).spec_counter(), random)),
                ),
            is_session_id(r@),
    {
        self.counter = self.counter.wrapping_add(1);
        let random = random_bytes(&mut self.rng, 32);
        let material = id_material(timestamp_nanos, self.counter, random.as_slice());
        render_id(material.as_slice())
    }
}

/// Draws the next session identifier from `generator`; see
/// [`SecureSessionIdGenerator::generate`].
pub fn generate_secure_session_id(generator: &mut SecureSessionIdGenerator, timestamp_nanos: u64) -> (r: String)
    ensures
        final(generator).spec_counter() == (old(generator).spec_counter() as nat + 1) % 0x1_0000_0000_0000_0000,
        exists|random: Seq<u8>|
            random.len() == 32 && r@ == hex_of(
                sha256_of(id_material_of(timestamp_nanos, final(generator).spec_counter(), random)),
            ),
        is_session_id(r@),
{
    generator.generate(timestamp_nanos)
}

} // verus!
