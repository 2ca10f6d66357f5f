//! One-way password hashing with secure erasure of the plaintext.
//!
//! A `Secret` wraps the standard encoded form of a salted, memory-hard
//! digest.  It is never constructed from plaintext except through `hash`,
//! which also overwrites the supplied plaintext buffer with zeros before it
//! returns, and it is never convertible back.  The derivation itself is done
//! by an outside crate; its results are named by the uninterpreted functions
//! below, and everything the library claims about them is proved from the
//! contracts of the trusted wrappers in this file.

use vstd::prelude::*;

verus! {

/// The encoded text that the outside hasher produces for a plaintext, a
/// salt, and the four cost parameters.  It depends on its arguments alone.
pub uninterp spec fn argon2_encoded(
    pwd: Seq<u8>,
    salt: Seq<u8>,
    mem_cost: u32,
    time_cost: u32,
    lanes: u32,
    hash_length: u32,
) -> Seq<char>;

/// What verification of a candidate against encoded text yields: `None`
/// when the text cannot be decoded, otherwise `Some` of whether the
/// candidate matches.  It depends on its arguments alone.
pub uninterp spec fn argon2_verified(encoded: Seq<char>, pwd: Seq<u8>) -> Option<bool>;

#[verifier::external_type_specification]
#[verifier::external_body]
pub struct ExArgon2Error(argon2::Error);

/// An infrastructure failure of the credential subsystem, carrying the
/// opaque error of the outside hasher.
#[derive(Debug)]
pub struct Failure {
    pub cause: argon2::Error,
}

/// The process-wide hash configuration: constructed once at startup and
/// passed by reference wherever hashing occurs.
#[derive(Debug, Clone, Copy, PartialEq, Eq, Structural)]
pub struct HashConfig {
    /// Memory cost in kibibytes.
    pub mem_cost: u32,
    /// Number of passes.
    pub time_cost: u32,
    /// Degree of parallelism.
    pub lanes: u32,
    /// Length of the digest in bytes.
    pub hash_length: u32,
}

impl HashConfig {
    /// The documented bounds within which the outside hasher accepts a
    /// configuration.
    pub open spec fn wf(self) -> bool {
        &&& 1 <= self.lanes <= 0xFFFFFF
        &&& 8 <= self.mem_cost <= 0x20_0000
        &&& self.mem_cost >= 8 * self.lanes
        &&& 1 <= self.time_cost
        &&& 4 <= self.hash_length
    }

    /// The configuration the service runs with: Argon2id-class derivation
    /// tuned to tens of milliseconds on commodity hardware.
    pub fn standard() -> (r: HashConfig)
        ensures
            r == (HashConfig { mem_cost: 65536, time_cost: 10, lanes: 4, hash_length: 64 }),
            r.wf(),
    {
        HashConfig { mem_cost: 65536, time_cost: 10, lanes: 4, hash_length: 64 }
    }
}

/// Relies on argon2::hash_encoded: derives the Argon2id digest of `pwd`
/// under `salt` and the given costs and returns the standard encoded form.
/// The result depends on the arguments alone; the call succeeds whenever
/// the parameters lie within the crate's documented bounds, and text it
/// produced verifies as a match for the password it was produced from.
#[verifier::external_body]
fn argon2_hash(pwd: &Vec<u8>, salt: &Vec<u8>, cfg: &HashConfig) -> (r: Result<
    String,
    argon2::Error,
>)
    ensures
        cfg.wf() && pwd@.len() <= 0xFFFF_FFFF && salt@.len() == 64 ==> r is Ok,
        r matches Ok(s) ==> s@ == argon2_encoded(
            pwd@,
            salt@,
            cfg.mem_cost,
            cfg.time_cost,
            cfg.lanes,
            cfg.hash_length,
        ),
        r matches Ok(s) ==> argon2_verified(s@, pwd@) == Some(true),
{
    argon2::hash_encoded(
        pwd.as_slice(),
        salt.as_slice(),
        &argon2::Config {
            ad: &[],
            hash_length: cfg.hash_length,
            lanes: cfg.lanes,
            mem_cost: cfg.mem_cost,
            secret: &[],
            thread_mode: argon2::ThreadMode::Parallel,
            time_cost: cfg.time_cost,
            variant: argon2::Variant::Argon2id,
            version: argon2::Version::Version13,
        },
    )
}

/// Relies on argon2::verify_encoded: decodes the encoded text, re-derives
/// the digest for the candidate with the decoded parameters and compares in
/// constant time.  It errs exactly when the text cannot be decoded or
/// carries parameters outside the documented bounds, and the result depends
/// on the arguments alone.
#[verifier::external_body]
fn argon2_check(encoded: &String, pwd: &Vec<u8>) -> (r: Result<bool, argon2::Error>)
    ensures
        r is Ok <==> argon2_verified(encoded@, pwd@) is Some,
        r matches Ok(b) ==> Some(b) == argon2_verified(encoded@, pwd@),
{
    argon2::verify_encoded(encoded.as_str(), pwd.as_slice())
}

/// Relies on rand::fill: overwrites the buffer with output of the
/// thread-local cryptographically secure generator.  Nothing is assumed of
/// the bytes; only the length is known to be preserved.
#[verifier::external_body]
fn fill_random(buf: &mut Vec<u8>)
    ensures
        final(buf)@.len() == old(buf)@.len(),
{
    rand::fill(buf.as_mut_slice());
}

/// Relies on the std documentation of String::into_bytes: the returned
/// vector holds the UTF-8 bytes of the string, without copying them.
pub assume_specification[ String::into_bytes ](s: String) -> (r: Vec<u8>)
    ensures
        r@ == vstd::utf8::encode_utf8(s@),
;

/// An opaque, one-way, salted hash of a credential.
pub struct Secret {
    encoded: String,
}

impl View for Secret {
    type V = Seq<char>;

    closed spec fn view(&self) -> Seq<char> {
        self.encoded@
    }
}

impl Clone for Secret {
    fn clone(&self) -> (r: Self)
        ensures
            r == *self,
    {
        Secret { encoded: self.encoded.clone() }
    }
}

impl Secret {
    /// Hashes the plaintext under a fresh 64-byte random salt and erases
    /// the plaintext: when the call returns, every byte of `plaintext` has
    /// been overwritten with zero.  The returned secret verifies against
    /// the plaintext that was handed in.
    pub fn hash(plaintext: &mut Vec<u8>, cfg: &HashConfig) -> (r: Secret)
        requires
            cfg.wf(),
            old(plaintext)@.len() <= 0xFFFF_FFFF,
        ensures
            final(plaintext)@.len() == old(plaintext)@.len(),
            forall|i: int| 0 <= i < final(plaintext)@.len() ==> final(plaintext)@[i] == 0,
            argon2_verified(r@, old(plaintext)@) == Some(true),
            exists|salt: Seq<u8>|
                salt.len() == 64 && r@ == argon2_encoded(
                    old(plaintext)@,
                    salt,
                    cfg.mem_cost,
                    cfg.time_cost,
                    cfg.lanes,
                    cfg.hash_length,
                ),
    {
        let mut salt: Vec<u8> = Vec::new();
        let mut k: usize = 0;
        while k < 64
            invariant
                salt@.len() == k,
                k <= 64,
            decreases 64 - k,
        {
            salt.push(0u8);
            k = k + 1;
        }
        fill_random(&mut salt);
        let encoded = match argon2_hash(plaintext, &salt, cfg) {
            Ok(s) => s,
            Err(_) => {
                proof {
                    assert(false);
                }
                unreached()
            },
        };
        let n = plaintext.len();
        let mut i: usize = 0;
        while i < n
            invariant
                plaintext@.len() == n,
                i <= n,
                forall|j: int| 0 <= j < i ==> plaintext@[j] == 0,
            decreases n - i,
        {
            plaintext[i] = 0;
            i = i + 1;
        }
        Secret { encoded }
    }

    /// Checks a candidate against the stored encoding: `Ok(true)` exactly
    /// when the candidate matches, and an infrastructure failure when the
    /// stored encoding cannot even be decoded.
    pub fn verify(&self, given: &Vec<u8>) -> (r: Result<bool, Failure>)
        ensures
            r is Ok <==> argon2_verified(self@, given@) is Some,
            r matches Ok(b) ==> Some(b) == argon2_verified(self@, given@),
    {
        match argon2_check(&self.encoded, given) {
            Ok(b) => Ok(b),
            Err(e) => Err(Failure { cause: e }),
        }
    }

    /// Wraps encoded text as read back from the store.
    pub fn from_encoded(encoded: String) -> (r: Secret)
        ensures
            r@ == encoded@,
    {
        Secret { encoded }
    }

    /// The stored encoded form, for persisting.
    pub fn encoded(&self) -> (r: &String)
        ensures
            r@ == self@,
    {
        &self.encoded
    }
}

} // verus!
