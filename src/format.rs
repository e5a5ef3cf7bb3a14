//! The twelve EXIF value encodings and the decoding of one value.
use vstd::prelude::*;
use crate::bytes::{
    i16_of, i32_of, i8_of, read_u16, read_u32, read_u64, to_i16, to_i32, to_i8, u16_val, u32_val,
    u64_val,
};

verus! {

/// Largest run of `BYTE`/`SBYTE` components kept as an array; longer runs are
/// carried as Base64 text.
pub const INLINE_BYTES_MAX: usize = 120;

/// Number of format codes; a code at or above it is illegal.
pub const NUM_FORMAT_CODES: u16 = 13;

/// Value encodings, in the order of their numeric codes.
#[allow(non_camel_case_types)]
#[derive(Clone, Copy, Debug, PartialEq, Eq, Structural)]
pub enum FMT {
    NONE,
    BYTE,
    STRING,
    USHORT,
    ULONG,
    URATIONAL,
    SBYTE,
    UNDEFINED,
    SSHORT,
    SLONG,
    SRATIONAL,
    SINGLE,
    DOUBLE,
    NUM_FORMATS,
}

/// The encoding that a numeric code names; codes from 13 on map to `NUM_FORMATS`.
pub open spec fn fmt_of(code: int) -> FMT {
    if code == 0 {
        FMT::NONE
    } else if code == 1 {
        FMT::BYTE
    } else if code == 2 {
        FMT::STRING
    } else if code == 3 {
        FMT::USHORT
    } else if code == 4 {
        FMT::ULONG
    } else if code == 5 {
        FMT::URATIONAL
    } else if code == 6 {
        FMT::SBYTE
    } else if code == 7 {
        FMT::UNDEFINED
    } else if code == 8 {
        FMT::SSHORT
    } else if code == 9 {
        FMT::SLONG
    } else if code == 10 {
        FMT::SRATIONAL
    } else if code == 11 {
        FMT::SINGLE
    } else if code == 12 {
        FMT::DOUBLE
    } else {
        FMT::NUM_FORMATS
    }
}

/// Bytes taken by one component of each encoding.
pub open spec fn width(f: FMT) -> nat {
    match f {
        FMT::BYTE | FMT::STRING | FMT::SBYTE | FMT::UNDEFINED => 1,
        FMT::USHORT | FMT::SSHORT => 2,
        FMT::ULONG | FMT::SLONG | FMT::SINGLE => 4,
        FMT::URATIONAL | FMT::SRATIONAL | FMT::DOUBLE => 8,
        FMT::NONE | FMT::NUM_FORMATS => 0,
    }
}

impl FMT {
    /// Maps a numeric format code to its encoding.
    pub fn from(v: u16) -> (r: FMT)
        ensures
            r == fmt_of(v as int),
    {
        match v {
            0 => FMT::NONE,
            1 => FMT::BYTE,
            2 => FMT::STRING,
            3 => FMT::USHORT,
            4 => FMT::ULONG,
            5 => FMT::URATIONAL,
            6 => FMT::SBYTE,
            7 => FMT::UNDEFINED,
            8 => FMT::SSHORT,
            9 => FMT::SLONG,
            10 => FMT::SRATIONAL,
            11 => FMT::SINGLE,
            12 => FMT::DOUBLE,
            _ => FMT::NUM_FORMATS,
        }
    }

    /// Bytes taken by one component of this encoding.
    pub fn bytes_per_component(&self) -> (r: usize)
        ensures
            r as nat == width(*self),
    {
        match self {
            FMT::BYTE | FMT::STRING | FMT::SBYTE | FMT::UNDEFINED => 1,
            FMT::USHORT | FMT::SSHORT => 2,
            FMT::ULONG | FMT::SLONG | FMT::SINGLE => 4,
            FMT::URATIONAL | FMT::SRATIONAL | FMT::DOUBLE => 8,
            FMT::NONE | FMT::NUM_FORMATS => 0,
        }
    }
}

/// Text of a byte string decoded as UTF-8, invalid sequences replaced.
pub uninterp spec fn utf8_lossy(b: Seq<u8>) -> Seq<char>;

/// Standard-alphabet, padded Base64 text of a byte string.
pub uninterp spec fn base64_of(b: Seq<u8>) -> Seq<char>;

/// Relies on `String::from_utf8_lossy`: the text depends on the bytes alone.
#[verifier::external_body]
fn lossy_text(b: &[u8]) -> (r: String)
    ensures
        r@ == utf8_lossy(b@),
{
    String::from_utf8_lossy(b).into_owned()
}

/// Relies on base64's `Engine::encode` with the `STANDARD` engine, which
/// panics only when the encoded length overflows `usize` and pads its output
/// to four characters for each started group of three bytes.
#[verifier::external_body]
fn base64_text(b: &[u8]) -> (r: String)
    requires
        b@.len() <= usize::MAX / 2,
    ensures
        r@ == base64_of(b@),
        r@.len() == 4 * ((b@.len() + 2) / 3),
{
    base64::Engine::encode(&base64::engine::general_purpose::STANDARD, b)
}

/// A decoded value. Floating-point values are kept as their bit patterns.
#[derive(Debug)]
pub enum ExifValue {
    Text(String),
    Bytes(Vec<u8>),
    SignedBytes(Vec<i8>),
    Base64(String),
    UShort(u16),
    SShort(i16),
    ULong(u32),
    SLong(i32),
    URational(Vec<(u32, u32)>),
    SRational(Vec<(i32, i32)>),
    Single(u32),
    Double(u64),
    /// A numeric encoding with zero components.
    Missing,
}

/// What a decoded value holds.
pub enum ValueView {
    Text(Seq<char>),
    Bytes(Seq<u8>),
    SignedBytes(Seq<int>),
    Base64(Seq<char>),
    UShort(int),
    SShort(int),
    ULong(int),
    SLong(int),
    URational(Seq<(int, int)>),
    SRational(Seq<(int, int)>),
    Single(int),
    Double(int),
    Missing,
}

impl View for ExifValue {
    type V = ValueView;

    open spec fn view(&self) -> ValueView {
        match self {
            ExifValue::Text(s) => ValueView::Text(s@),
            ExifValue::Bytes(v) => ValueView::Bytes(v@),
            ExifValue::SignedBytes(v) => ValueView::SignedBytes(v@.map_values(|x: i8| x as int)),
            ExifValue::Base64(s) => ValueView::Base64(s@),
            ExifValue::UShort(x) => ValueView::UShort(*x as int),
            ExifValue::SShort(x) => ValueView::SShort(*x as int),
            ExifValue::ULong(x) => ValueView::ULong(*x as int),
            ExifValue::SLong(x) => ValueView::SLong(*x as int),
            ExifValue::URational(v) => ValueView::URational(
                v@.map_values(|p: (u32, u32)| (p.0 as int, p.1 as int)),
            ),
            ExifValue::SRational(v) => ValueView::SRational(
                v@.map_values(|p: (i32, i32)| (p.0 as int, p.1 as int)),
            ),
            ExifValue::Single(x) => ValueView::Single(*x as int),
            ExifValue::Double(x) => ValueView::Double(*x as int),
            ExifValue::Missing => ValueView::Missing,
        }
    }
}

/// The bytes of `s` before its first NUL (all of `s` when it has none).
pub open spec fn until_nul(s: Seq<u8>) -> Seq<u8>
    decreases s.len(),
{
    if s.len() == 0 {
        s
    } else if s[0] == 0 {
        Seq::empty()
    } else {
        seq![s[0]] + until_nul(s.drop_first())
    }
}

/// The `count` rationals at `p`: numerator then denominator, unsigned.
pub open spec fn urationals(b: Seq<u8>, m: bool, p: int, count: nat) -> Seq<(int, int)> {
    Seq::new(count, |k: int| (u32_val(b, p + 8 * k, m), u32_val(b, p + 8 * k + 4, m)))
}

/// The `count` rationals at `p`, each half read as a signed 32-bit value.
pub open spec fn srationals(b: Seq<u8>, m: bool, p: int, count: nat) -> Seq<(int, int)> {
    Seq::new(
        count,
        |k: int| (i32_of(u32_val(b, p + 8 * k, m)), i32_of(u32_val(b, p + 8 * k + 4, m))),
    )
}

/// The value of `count` components of encoding `f` stored at `p` in `b`.
/// Numeric scalars keep their first component; rationals keep all of them.
pub open spec fn decoded_value(b: Seq<u8>, m: bool, f: FMT, p: int, count: nat) -> ValueView {
    let n = count * width(f);
    let raw = b.subrange(p, p + n);
    match f {
        FMT::STRING | FMT::UNDEFINED => ValueView::Text(utf8_lossy(until_nul(raw))),
        FMT::BYTE => if n <= INLINE_BYTES_MAX {
            ValueView::Bytes(raw)
        } else {
            ValueView::Base64(base64_of(raw))
        },
        FMT::SBYTE => if n <= INLINE_BYTES_MAX {
            ValueView::SignedBytes(raw.map_values(|x: u8| i8_of(x as int)))
        } else {
            ValueView::Base64(base64_of(raw))
        },
        FMT::URATIONAL => ValueView::URational(urationals(b, m, p, count)),
        FMT::SRATIONAL => ValueView::SRational(srationals(b, m, p, count)),
        _ => if count == 0 {
            ValueView::Missing
        } else {
            match f {
                FMT::USHORT => ValueView::UShort(u16_val(b, p, m)),
                FMT::SSHORT => ValueView::SShort(i16_of(u16_val(b, p, m))),
                FMT::ULONG => ValueView::ULong(u32_val(b, p, m)),
                FMT::SLONG => ValueView::SLong(i32_of(u32_val(b, p, m))),
                FMT::SINGLE => ValueView::Single(u32_val(b, p, m)),
                FMT::DOUBLE => ValueView::Double(u64_val(b, p, m)),
                _ => ValueView::Missing,
            }
        },
    }
}

proof fn lemma_until_nul(s: Seq<u8>, k: int)
    requires
        0 <= k <= s.len(),
        forall|j: int| 0 <= j < k ==> s[j] != 0,
        k == s.len() || s[k] == 0,
    ensures
        until_nul(s) == s.subrange(0, k),
    decreases s.len(),
{
    if s.len() == 0 {
        assert(s.subrange(0, k) =~= s);
    } else if s[0] == 0 {
        assert(s.subrange(0, k) =~= Seq::<u8>::empty());
    } else {
        let t = s.drop_first();
        lemma_until_nul(t, k - 1);
        assert(seq![s[0]] + t.subrange(0, k - 1) =~= s.subrange(0, k));
    }
}

/// Copies `len` bytes of `b` starting at `start`.
pub fn copy_bytes(b: &[u8], start: usize, len: usize) -> (r: Vec<u8>)
    requires
        start + len <= b@.len(),
    ensures
        r@ == b@.subrange(start as int, start + len),
{
    let blen: usize = b.len();
    let mut out: Vec<u8> = Vec::new();
    let mut i: usize = 0;
    while i < len
        invariant
            blen == b@.len(),
            i <= len,
            start + len <= b@.len(),
            out@ == b@.subrange(start as int, start + i),
        decreases len - i,
    {
        out.push(b[start + i]);
        i = i + 1;
        assert(out@ =~= b@.subrange(start as int, start + i));
    }
    out
}

fn decode_text(b: &[u8], p: usize, n: usize) -> (r: String)
    requires
        p + n <= b@.len(),
    ensures
        r@ == utf8_lossy(until_nul(b@.subrange(p as int, p + n))),
{
    let blen: usize = b.len();
    let mut k: usize = 0;
    while k < n && b[p + k] != 0
        invariant
            blen == b@.len(),
            k <= n,
            p + n <= b@.len(),
            forall|j: int| 0 <= j < k ==> #[trigger] b@[p + j] != 0,
        decreases n - k,
    {
        k = k + 1;
    }
    let ghost raw = b@.subrange(p as int, p + n);
    proof {
        assert forall|j: int| 0 <= j < k implies raw[j] != 0 by {
            assert(raw[j] == b@[p + j]);
        }
        lemma_until_nul(raw, k as int);
        assert(raw.subrange(0, k as int) =~= b@.subrange(p as int, p + k));
    }
    let kept = copy_bytes(b, p, k);
    lossy_text(kept.as_slice())
}

fn decode_signed_bytes(b: &[u8], p: usize, n: usize) -> (r: Vec<i8>)
    requires
        p + n <= b@.len(),
    ensures
        r@.map_values(|x: i8| x as int) == b@.subrange(p as int, p + n).map_values(
            |x: u8| i8_of(x as int),
        ),
{
    let blen: usize = b.len();
    let mut out: Vec<i8> = Vec::new();
    let mut i: usize = 0;
    while i < n
        invariant
            blen == b@.len(),
            i <= n,
            p + n <= b@.len(),
            out@.len() == i,
            forall|j: int| 0 <= j < i ==> out@[j] as int == i8_of(b@[p + j] as int),
        decreases n - i,
    {
        out.push(to_i8(b[p + i]));
        i = i + 1;
    }
    assert(out@.map_values(|x: i8| x as int) =~= b@.subrange(p as int, p + n).map_values(
        |x: u8| i8_of(x as int),
    ));
    out
}

fn decode_urationals(b: &[u8], m: bool, p: usize, count: usize) -> (r: Vec<(u32, u32)>)
    requires
        p + 8 * count <= b@.len(),
    ensures
        r@.map_values(|q: (u32, u32)| (q.0 as int, q.1 as int)) == urationals(
            b@,
            m,
            p as int,
            count as nat,
        ),
{
    let blen: usize = b.len();
    let mut out: Vec<(u32, u32)> = Vec::new();
    let mut k: usize = 0;
    while k < count
        invariant
            blen == b@.len(),
            k <= count,
            p + 8 * count <= b@.len(),
            out@.len() == k,
            forall|j: int|
                0 <= j < k ==> out@[j].0 as int == u32_val(b@, p + 8 * j, m) && out@[j].1 as int
                    == u32_val(b@, p + 8 * j + 4, m),
        decreases count - k,
    {
        let num = read_u32(b, p + 8 * k, m);
        let den = read_u32(b, p + 8 * k + 4, m);
        out.push((num, den));
        k = k + 1;
    }
    assert(out@.map_values(|q: (u32, u32)| (q.0 as int, q.1 as int)) =~= urationals(
        b@,
        m,
        p as int,
        count as nat,
    ));
    out
}

fn decode_srationals(b: &[u8], m: bool, p: usize, count: usize) -> (r: Vec<(i32, i32)>)
    requires
        p + 8 * count <= b@.len(),
    ensures
        r@.map_values(|q: (i32, i32)| (q.0 as int, q.1 as int)) == srationals(
            b@,
            m,
            p as int,
            count as nat,
        ),
{
    let blen: usize = b.len();
    let mut out: Vec<(i32, i32)> = Vec::new();
    let mut k: usize = 0;
    while k < count
        invariant
            blen == b@.len(),
            k <= count,
            p + 8 * count <= b@.len(),
            out@.len() == k,
            forall|j: int|
                0 <= j < k ==> out@[j].0 as int == i32_of(u32_val(b@, p + 8 * j, m))
                    && out@[j].1 as int == i32_of(u32_val(b@, p + 8 * j + 4, m)),
        decreases count - k,
    {
        let num = to_i32(read_u32(b, p + 8 * k, m));
        let den = to_i32(read_u32(b, p + 8 * k + 4, m));
        out.push((num, den));
        k = k + 1;
    }
    assert(out@.map_values(|q: (i32, i32)| (q.0 as int, q.1 as int)) =~= srationals(
        b@,
        m,
        p as int,
        count as nat,
    ));
    out
}

/// Decodes `count` components of encoding `f` stored at `p`.
pub fn decode_value(b: &[u8], m: bool, f: FMT, p: usize, count: u32) -> (r: ExifValue)
    requires
        f != FMT::NUM_FORMATS,
        p + count * width(f) <= b@.len(),
        b@.len() <= usize::MAX / 2,
    ensures
        r@ == decoded_value(b@, m, f, p as int, count as nat),
{
    let c = count as usize;
    let w = f.bytes_per_component();
    let n: usize = c * w;
    match f {
        FMT::STRING | FMT::UNDEFINED => ExifValue::Text(decode_text(b, p, n)),
        FMT::BYTE => {
            let raw = copy_bytes(b, p, n);
            if n <= INLINE_BYTES_MAX {
                ExifValue::Bytes(raw)
            } else {
                ExifValue::Base64(base64_text(raw.as_slice()))
            }
        },
        FMT::SBYTE => {
            if n <= INLINE_BYTES_MAX {
                ExifValue::SignedBytes(decode_signed_bytes(b, p, n))
            } else {
                let raw = copy_bytes(b, p, n);
                ExifValue::Base64(base64_text(raw.as_slice()))
            }
        },
        FMT::URATIONAL => ExifValue::URational(decode_urationals(b, m, p, c)),
        FMT::SRATIONAL => ExifValue::SRational(decode_srationals(b, m, p, c)),
        _ => {
            if c == 0 {
                ExifValue::Missing
            } else {
                match f {
                    FMT::USHORT => ExifValue::UShort(read_u16(b, p, m)),
                    FMT::SSHORT => ExifValue::SShort(to_i16(read_u16(b, p, m))),
                    FMT::ULONG => ExifValue::ULong(read_u32(b, p, m)),
                    FMT::SLONG => ExifValue::SLong(to_i32(read_u32(b, p, m))),
                    FMT::SINGLE => ExifValue::Single(read_u32(b, p, m)),
                    FMT::DOUBLE => ExifValue::Double(read_u64(b, p, m)),
                    _ => ExifValue::Missing,
                }
            }
        },
    }
}

/// The encodings of one integer component.
pub open spec fn is_int_format(f: FMT) -> bool {
    match f {
        FMT::BYTE | FMT::SBYTE | FMT::USHORT | FMT::SSHORT | FMT::ULONG | FMT::SLONG => true,
        _ => false,
    }
}

/// The integer that a thumbnail pointer tag of encoding `f` holds at `p`;
/// non-integer encodings give 0.
pub open spec fn stored_int(b: Seq<u8>, m: bool, f: FMT, p: int) -> int {
    match f {
        FMT::BYTE => b[p] as int,
        FMT::SBYTE => i8_of(b[p] as int),
        FMT::USHORT => u16_val(b, p, m),
        FMT::SSHORT => i16_of(u16_val(b, p, m)),
        FMT::ULONG => u32_val(b, p, m),
        FMT::SLONG => i32_of(u32_val(b, p, m)),
        _ => 0,
    }
}

/// Reads the integer of [`stored_int`].
pub fn int_value(b: &[u8], m: bool, f: FMT, p: usize) -> (r: i64)
    requires
        is_int_format(f) ==> p + width(f) <= b@.len(),
    ensures
        r as int == stored_int(b@, m, f, p as int),
{
    match f {
        FMT::BYTE => b[p] as i64,
        FMT::SBYTE => to_i8(b[p]) as i64,
        FMT::USHORT => read_u16(b, p, m) as i64,
        FMT::SSHORT => to_i16(read_u16(b, p, m)) as i64,
        FMT::ULONG => read_u32(b, p, m) as i64,
        FMT::SLONG => to_i32(read_u32(b, p, m)) as i64,
        _ => 0,
    }
}

} // verus!
