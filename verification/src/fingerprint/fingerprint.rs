//! The build fingerprint that a mobile client proves itself with: three
//! SHA-256 digests over the hashes of the application's signing certificate,
//! its code and its native library, salted with the session's seed and the
//! device's identifier.
use vstd::prelude::*;
use sha2::{Digest, Sha256};
use vstd::string::StringSliceAdditionalSpecFns;

verus! {

/// The hashes that identify one build of the Android application.
#[derive(Debug, Clone)]
pub struct ApkBuildFingerprint {
    pub signature_scheme: String,
    pub certificate_count: i64,
    pub certificate_meta_sha256: String,
    pub certificate_sha256: Vec<String>,
    pub dex_meta_sha256: String,
    pub so_meta_sha256_arm64_v8a: Option<String>,
    /// The hash of the native library for each processor architecture.
    pub so_meta_sha256: Vec<(String, String)>,
    pub build_number: i64,
}

/// The model of a build fingerprint.
pub struct ApkBuildFingerprintView {
    pub signature_scheme: Seq<char>,
    pub certificate_count: int,
    pub certificate_meta_sha256: Seq<char>,
    pub certificate_sha256: Seq<Seq<char>>,
    pub dex_meta_sha256: Seq<char>,
    pub so_meta_sha256_arm64_v8a: Option<Seq<char>>,
    pub so_meta_sha256: Map<Seq<char>, Seq<char>>,
    pub build_number: int,
}

/// The map that a sequence of pairs stands for: a later pair of a key
/// replaces an earlier one.
pub open spec fn pairs_map(s: Seq<(String, String)>) -> Map<Seq<char>, Seq<char>>
    decreases s.len(),
{
    if s.len() == 0 {
        Map::empty()
    } else {
        pairs_map(s.drop_last()).insert(s.last().0@, s.last().1@)
    }
}

impl View for ApkBuildFingerprint {
    type V = ApkBuildFingerprintView;

    open spec fn view(&self) -> ApkBuildFingerprintView {
        ApkBuildFingerprintView {
            signature_scheme: self.signature_scheme@,
            certificate_count: self.certificate_count as int,
            certificate_meta_sha256: self.certificate_meta_sha256@,
            certificate_sha256: self.certificate_sha256@.map_values(|s: String| s@),
            dex_meta_sha256: self.dex_meta_sha256@,
            so_meta_sha256_arm64_v8a: match self.so_meta_sha256_arm64_v8a {
                Some(s) => Some(s@),
                None => None,
            },
            so_meta_sha256: pairs_map(self.so_meta_sha256@),
            build_number: self.build_number as int,
        }
    }
}

/// The value of a hexadecimal digit.
pub open spec fn hex_digit_value(c: char) -> Option<u8> {
    if '0' <= c <= '9' {
        Some((c as u8 - '0' as u8) as u8)
    } else if 'a' <= c <= 'f' {
        Some((c as u8 - 'a' as u8 + 10) as u8)
    } else if 'A' <= c <= 'F' {
        Some((c as u8 - 'A' as u8 + 10) as u8)
    } else {
        None
    }
}

/// The bytes that a hexadecimal text stands for: two digits, upper or lower
/// case, per byte, the first one the high half. Nothing when the text has an
/// odd length or a character that is not a digit.
pub open spec fn hex_decode_spec(s: Seq<char>) -> Option<Seq<u8>> {
    if s.len() % 2 == 0 && forall|i: int| 0 <= i < s.len() ==> #[trigger] hex_digit_value(s[i]) is Some {
        Some(
            Seq::new(
                s.len() / 2,
                |i: int|
                    (hex_digit_value(s[2 * i])->0 * 16 + hex_digit_value(s[2 * i + 1])->0) as u8,
            ),
        )
    } else {
        None
    }
}

/// The SHA-256 digest of a byte sequence.
pub uninterp spec fn sha256_spec(data: Seq<u8>) -> Seq<u8>;

/// The eight bytes of `x` in two's complement, most significant first.
pub open spec fn be_bytes_spec(x: i64) -> Seq<u8> {
    let u = x as u64;
    seq![
        (u >> 56u64) as u8,
        (u >> 48u64) as u8,
        (u >> 40u64) as u8,
        (u >> 32u64) as u8,
        (u >> 24u64) as u8,
        (u >> 16u64) as u8,
        (u >> 8u64) as u8,
        u as u8,
    ]
}

/// The architecture whose native library counts when none is named.
pub open spec fn default_arch() -> Seq<char> {
    "arm64-v8a"@
}

/// The fingerprint of `data` for a device and a seed: the digests of the
/// certificate, code and library hashes, each followed by the seed and the
/// device identifier, one after the other. Nothing when the architecture has
/// no library hash or a hash is not hexadecimal.
pub open spec fn fingerprint_spec(
    data: ApkBuildFingerprintView,
    device: Seq<u8>,
    seed: i64,
    arch: Seq<char>,
) -> Option<Seq<u8>> {
    if !data.so_meta_sha256.contains_key(arch) {
        None
    } else {
        match (
            hex_decode_spec(data.certificate_meta_sha256),
            hex_decode_spec(data.dex_meta_sha256),
            hex_decode_spec(data.so_meta_sha256[arch]),
        ) {
            (Some(cert), Some(dex), Some(so)) => {
                let salt = be_bytes_spec(seed) + device;
                Some(sha256_spec(cert + salt) + sha256_spec(dex + salt) + sha256_spec(so + salt))
            },
            _ => None,
        }
    }
}

/// `hex::decode`: the bytes of a hexadecimal text, or nothing where the crate
/// reports an error (an odd length or a character that is not a digit). The
/// contract restates the crate's documented decoding.
#[verifier::external_body]
fn hex_decode(s: &str) -> (res: Option<Vec<u8>>)
    ensures
        match res {
            Some(v) => hex_decode_spec(s@) == Some(v@),
            None => hex_decode_spec(s@) is None,
        },
{
    hex::decode(s).ok()
}

/// `Sha256::digest` from `sha2`: the 32-byte SHA-256 digest of `data`. What
/// the bytes are is named, not stated.
#[verifier::external_body]
fn sha256(data: &[u8]) -> (res: Vec<u8>)
    ensures
        res@ == sha256_spec(data@),
        res@.len() == 32,
{
    Sha256::digest(data).to_vec()
}

/// The eight bytes of `x` in two's complement, most significant first.
pub fn be_bytes(x: i64) -> (res: Vec<u8>)
    ensures
        res@ == be_bytes_spec(x),
{
    let u = x as u64;
    let mut v: Vec<u8> = Vec::new();
    v.push((u >> 56u64) as u8);
    v.push((u >> 48u64) as u8);
    v.push((u >> 40u64) as u8);
    v.push((u >> 32u64) as u8);
    v.push((u >> 24u64) as u8);
    v.push((u >> 16u64) as u8);
    v.push((u >> 8u64) as u8);
    v.push(u as u8);
    assert(v@ =~= be_bytes_spec(x));
    v
}

/// `a` followed by `b`.
pub fn concat_bytes(a: &[u8], b: &[u8]) -> (res: Vec<u8>)
    ensures
        res@ == a@ + b@,
{
    let mut v: Vec<u8> = Vec::new();
    for i in 0..a.len()
        invariant
            v@ == a@.take(i as int),
    {
        v.push(a[i]);
        assert(v@ =~= a@.take(i + 1));
    }
    for i in 0..b.len()
        invariant
            v@ == a@ + b@.take(i as int),
            a@.take(a@.len() as int) == a@,
    {
        v.push(b[i]);
        assert(v@ =~= a@ + b@.take(i + 1));
    }
    assert(a@.take(a@.len() as int) =~= a@);
    assert(b@.take(b@.len() as int) =~= b@);
    v
}

/// The value that `key` has among `pairs`: that of its last pair.
pub fn lookup_pair<'a>(pairs: &'a Vec<(String, String)>, key: &str) -> (res: Option<&'a String>)
    ensures
        match res {
            Some(v) => pairs_map(pairs@).contains_key(key@) && pairs_map(pairs@)[key@] == v@,
            None => !pairs_map(pairs@).contains_key(key@),
        },
{
    let k = key.to_owned();
    let mut i: usize = pairs.len();
    assert(pairs@.take(i as int) =~= pairs@);
    while i > 0
        invariant
            i <= pairs@.len(),
            k@ == key@,
            pairs_map(pairs@).contains_key(key@) == pairs_map(pairs@.take(i as int)).contains_key(key@),
            pairs_map(pairs@).contains_key(key@) ==> pairs_map(pairs@)[key@] == pairs_map(
                pairs@.take(i as int),
            )[key@],
        decreases i,
    {
        let t = Ghost(pairs@.take(i as int));
        assert(t@.drop_last() =~= pairs@.take(i - 1));
        assert(t@.last() == pairs@[i - 1]);
        i = i - 1;
        if pairs[i].0 == k {
            return Some(&pairs[i].1);
        }
    }
    None
}

/// Computes build fingerprints for one build.
pub struct FingerprintGenerator {
    pub data: ApkBuildFingerprint,
}

impl FingerprintGenerator {
    /// A generator for the given build.
    pub fn new(version_data: ApkBuildFingerprint) -> (res: FingerprintGenerator)
        ensures
            res.data == version_data,
    {
        FingerprintGenerator { data: version_data }
    }

    /// The fingerprint of the build for `device_id` and `calls_seed`, with the
    /// native library of `arch` (of `arm64-v8a` when none is named): nothing
    /// when that library has no hash or a hash is not hexadecimal.
    pub fn generate_fingerprint(&self, device_id: &str, calls_seed: i64, arch: Option<&str>) -> (res: Option<Vec<u8>>)
        ensures
            match res {
                Some(v) => fingerprint_spec(
                    self.data@,
                    device_id.spec_bytes(),
                    calls_seed,
                    match arch {
                        Some(a) => a@,
                        None => default_arch(),
                    },
                ) == Some(v@),
                None => fingerprint_spec(
                    self.data@,
                    device_id.spec_bytes(),
                    calls_seed,
                    match arch {
                        Some(a) => a@,
                        None => default_arch(),
                    },
                ) is None,
            },
            res matches Some(v) ==> v@.len() == 96,
    {
        let arch = match arch {
            Some(a) => a,
            None => "arm64-v8a",
        };
        let so_hash_hex = match lookup_pair(&self.data.so_meta_sha256, arch) {
            Some(h) => h,
            None => return None,
        };
        let seed_bytes = be_bytes(calls_seed);
        let device_bytes = device_id.as_bytes();
        let cert_meta_bytes = match hex_decode(self.data.certificate_meta_sha256.as_str()) {
            Some(b) => b,
            None => return None,
        };
        let dex_meta_bytes = match hex_decode(self.data.dex_meta_sha256.as_str()) {
            Some(b) => b,
            None => return None,
        };
        let so_meta_bytes = match hex_decode(so_hash_hex.as_str()) {
            Some(b) => b,
            None => return None,
        };
        let salt = concat_bytes(seed_bytes.as_slice(), device_bytes);
        let h1 = sha256(concat_bytes(cert_meta_bytes.as_slice(), salt.as_slice()).as_slice());
        let h2 = sha256(concat_bytes(dex_meta_bytes.as_slice(), salt.as_slice()).as_slice());
        let h3 = sha256(concat_bytes(so_meta_bytes.as_slice(), salt.as_slice()).as_slice());
        let h12 = concat_bytes(h1.as_slice(), h2.as_slice());
        let result = concat_bytes(h12.as_slice(), h3.as_slice());
        Some(result)
    }
}

/// The eight bytes of a seed, read back most significant first, give the
/// seed again (as its 64-bit two's complement).
pub proof fn lemma_be_bytes_read_back(x: i64)
    ensures
        be_bytes_spec(x).len() == 8,
        ({
            let b = be_bytes_spec(x);
            ((b[0] as u64) << 56u64) | ((b[1] as u64) << 48u64) | ((b[2] as u64) << 40u64) | ((b[3] as u64)
                << 32u64) | ((b[4] as u64) << 24u64) | ((b[5] as u64) << 16u64) | ((b[6] as u64) << 8u64) | (
            b[7] as u64) == x as u64
        }),
{
    let u = x as u64;
    assert(((((u >> 56u64) as u8) as u64) << 56u64) | ((((u >> 48u64) as u8) as u64) << 48u64) | ((((u
        >> 40u64) as u8) as u64) << 40u64) | ((((u >> 32u64) as u8) as u64) << 32u64) | ((((u >> 24u64) as u8)
        as u64) << 24u64) | ((((u >> 16u64) as u8) as u64) << 16u64) | ((((u >> 8u64) as u8) as u64) << 8u64)
        | ((u as u8) as u64) == u) by (bit_vector);
}

/// The hexadecimal digit of `n` (below 16), lower or upper case.
pub open spec fn hex_digit_char(n: u8, upper: bool) -> char {
    if n < 10 {
        ((48 + n) as u8) as char
    } else if upper {
        ((55 + n) as u8) as char
    } else {
        ((87 + n) as u8) as char
    }
}

/// Decoding reads back what hexadecimal writes: the two digits of any byte,
/// high half first, in either case, decode to that byte; and any digit that
/// decodes stands for a value below 16.
pub proof fn lemma_hex_round_trip(b: u8, upper: bool)
    ensures
        hex_decode_spec(seq![hex_digit_char(b / 16, upper), hex_digit_char(b % 16, upper)]) == Some(seq![b]),
        forall|c: char| #[trigger] hex_digit_value(c) matches Some(v) ==> v < 16,
{
    let hi = b / 16;
    let lo = b % 16;
    assert(hex_digit_value(hex_digit_char(hi, upper)) == Some(hi));
    assert(hex_digit_value(hex_digit_char(lo, upper)) == Some(lo));
    let s = seq![hex_digit_char(hi, upper), hex_digit_char(lo, upper)];
    assert(s[0] == hex_digit_char(hi, upper) && s[1] == hex_digit_char(lo, upper));
    assert((hi * 16 + lo) as u8 == b);
    assert(hex_decode_spec(s)->0 =~= seq![b]);
}

} // verus!
