use vstd::prelude::*;
use vstd::string::StringExecFns;
use vstd::utf8::*;

verus! {

/// Examines the bytes at position `i` and returns the width in bytes of the
/// well-formed UTF-8 scalar encoding that begins there, or 0 when the bytes
/// at `i` do not begin a well-formed scalar (bad leading byte, missing or
/// malformed continuation bytes, overlong encoding, surrogate, or a value
/// beyond the last Unicode scalar).
fn check_first_scalar(bytes: &[u8], i: usize) -> (w: usize)
    requires
        i < bytes@.len(),
    ensures
        ({
            let rest = bytes@.subrange(i as int, bytes@.len() as int);
            &&& (w == 0 ==> !valid_first_scalar(rest))
            &&& (w != 0 ==> valid_first_scalar(rest) && length_of_first_scalar(rest) == w && i + w
                <= bytes@.len())
        }),
{
    let ghost rest = bytes@.subrange(i as int, bytes@.len() as int);
    let n = bytes.len();
    let b0 = bytes[i];
    proof {
        assert(rest[0] == b0);
    }
    if b0 <= 0x7f {
        proof {
            assert(b0 & 0x7f == b0) by (bit_vector)
                requires
                    b0 <= 0x7f,
            ;
            assert(valid_first_scalar(rest));
        }
        1
    } else if 0xc0 <= b0 && b0 <= 0xdf {
        if i + 1 >= n {
            return 0;
        }
        let b1 = bytes[i + 1];
        proof {
            assert(rest[1] == b1);
        }
        if !(0x80 <= b1 && b1 <= 0xbf) {
            return 0;
        }
        let cp: u32 = (((b0 & 0x1f) as u32) << 6u32) | ((b1 & 0x3f) as u32);
        proof {
            assert(cp == decode_first_codepoint(rest));
        }
        if cp < 0x80 {
            return 0;
        }
        if 0xd800 <= cp && cp <= 0xdfff {
            return 0;
        }
        2
    } else if 0xe0 <= b0 && b0 <= 0xef {
        if i + 1 >= n {
            return 0;
        }
        if i + 2 >= n {
            return 0;
        }
        let b1 = bytes[i + 1];
        let b2 = bytes[i + 2];
        proof {
            assert(rest[1] == b1);
            assert(rest[2] == b2);
        }
        if !(0x80 <= b1 && b1 <= 0xbf) {
            return 0;
        }
        if !(0x80 <= b2 && b2 <= 0xbf) {
            return 0;
        }
        let cp: u32 = (((b0 & 0x0f) as u32) << 12u32) | (((b1 & 0x3f) as u32) << 6u32) | ((b2
            & 0x3f) as u32);
        proof {
            assert(cp == decode_first_codepoint(rest));
        }
        if cp < 0x800 {
            return 0;
        }
        if 0xd800 <= cp && cp <= 0xdfff {
            return 0;
        }
        3
    } else if 0xf0 <= b0 && b0 <= 0xf7 {
        if i + 1 >= n {
            return 0;
        }
        if i + 2 >= n {
            return 0;
        }
        if i + 3 >= n {
            return 0;
        }
        let b1 = bytes[i + 1];
        let b2 = bytes[i + 2];
        let b3 = bytes[i + 3];
        proof {
            assert(rest[1] == b1);
            assert(rest[2] == b2);
            assert(rest[3] == b3);
        }
        if !(0x80 <= b1 && b1 <= 0xbf) {
            return 0;
        }
        if !(0x80 <= b2 && b2 <= 0xbf) {
            return 0;
        }
        if !(0x80 <= b3 && b3 <= 0xbf) {
            return 0;
        }
        let cp: u32 = (((b0 & 0x07) as u32) << 18u32) | (((b1 & 0x3f) as u32) << 12u32) | (((b2
            & 0x3f) as u32) << 6u32) | ((b3 & 0x3f) as u32);
        proof {
            assert(cp == decode_first_codepoint(rest));
        }
        if !(0x10000 <= cp && cp <= 0x10ffff) {
            return 0;
        }
        4
    } else {
        proof {
            assert(!valid_leading_and_continuation_bytes_first_codepoint(rest));
        }
        0
    }
}

/// True exactly when the bytes are a valid UTF-8 encoding of a sequence of
/// Unicode scalars.  This is how the supervisor classifies each line the
/// child writes: lines that fail the check are kept verbatim but flagged as
/// malformed text.
pub fn utf8_check(bytes: &[u8]) -> (ok: bool)
    ensures
        ok == valid_utf8(bytes@),
{
    let n = bytes.len();
    let mut i: usize = 0;
    proof {
        assert(bytes@.subrange(0, n as int) =~= bytes@);
    }
    while i < n
        invariant
            i <= n,
            n == bytes@.len(),
            valid_utf8(bytes@) == valid_utf8(bytes@.subrange(i as int, n as int)),
        decreases n - i,
    {
        let ghost rest = bytes@.subrange(i as int, n as int);
        let w = check_first_scalar(bytes, i);
        if w == 0 {
            proof {
                assert(rest.len() > 0);
                assert(!valid_utf8(rest));
            }
            return false;
        }
        proof {
            assert(pop_first_scalar(rest) =~= bytes@.subrange(i as int + w as int, n as int));
            assert(valid_utf8(rest) == valid_utf8(bytes@.subrange(i as int + w as int, n as int)));
        }
        i = i + w;
    }
    proof {
        assert(bytes@.subrange(n as int, n as int) =~= Seq::<u8>::empty());
    }
    true
}

/// The greeting the host's invoke handler answers with.
pub fn greet(name: &str) -> (r: String)
    ensures
        r@ == "Hello, "@ + name@ + "! You've been greeted from Rust!"@,
{
    let mut s = String::from_str("Hello, ");
    s.append(name);
    s.append("! You've been greeted from Rust!");
    s
}

/// The platform-conditional file name of the backend executable: on the
/// Windows family the base name carries an `.exe` suffix, elsewhere it is
/// used as given.
pub fn executable_file_name(base: &str, windows_family: bool) -> (r: String)
    ensures
        windows_family ==> r@ == base@ + ".exe"@,
        !windows_family ==> r@ == base@,
{
    let mut s = String::from_str(base);
    if windows_family {
        s.append(".exe");
    }
    s
}

} // verus!
