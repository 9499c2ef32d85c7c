//! Framing of the metadata document and of decimal header values.
//!
//! Each info upload carries a fixed-shape JSON object with the camera's
//! device path, name, constant driver and trigger-scheme labels, and the
//! capture resolution. The document is framed here byte by byte, with the
//! free-form text fields JSON-escaped; the HTTP transport that carries it is
//! outside this crate.

use vstd::prelude::*;
use vstd::string::{StrSliceExecFns, StringSliceAdditionalSpecFns};
use vstd::utf8::encode_utf8;
use crate::config::Camera;

verus! {

/// ASCII double quote.
pub const QUOTE: u8 = 34;

/// ASCII backslash.
pub const BACKSLASH: u8 = 92;

/// ASCII digit zero.
pub const DIGIT_ZERO: u8 = 48;

/// ASCII lower-case letter a.
pub const LETTER_A: u8 = 97;

/// ASCII lower-case letter u.
pub const LETTER_U: u8 = 117;

/// The lower-case hexadecimal digit for a nibble.
pub open spec fn hex_digit(n: u8) -> u8 {
    if n < 10 {
        (DIGIT_ZERO + n) as u8
    } else {
        (LETTER_A + (n - 10)) as u8
    }
}

/// JSON escaping of one byte of UTF-8 text: quote and backslash get a
/// backslash escape, control bytes a six-byte unicode escape, and every other
/// byte passes through unchanged (all bytes of a multi-byte character are at
/// least 0x80, so escaping at byte level leaves them intact).
pub open spec fn escape_byte(b: u8) -> Seq<u8> {
    if b == QUOTE {
        seq![BACKSLASH, QUOTE]
    } else if b == BACKSLASH {
        seq![BACKSLASH, BACKSLASH]
    } else if b < 0x20 {
        seq![BACKSLASH, LETTER_U, DIGIT_ZERO, DIGIT_ZERO, hex_digit(b / 16), hex_digit(b % 16)]
    } else {
        seq![b]
    }
}

/// JSON escaping of a byte sequence of UTF-8 text.
pub open spec fn json_escape(s: Seq<u8>) -> Seq<u8>
    decreases s.len(),
{
    if s.len() == 0 {
        seq![]
    } else {
        json_escape(s.drop_last()) + escape_byte(s.last())
    }
}

/// The decimal digits of `n`, most significant first.
pub open spec fn dec_digits(n: nat) -> Seq<u8>
    decreases n,
{
    if n < 10 {
        seq![(DIGIT_ZERO + n) as u8]
    } else {
        dec_digits(n / 10) + seq![(DIGIT_ZERO + n % 10) as u8]
    }
}

/// The metadata document for one camera: a fixed-shape JSON object carrying
/// the device path, the camera name, constant driver and trigger-scheme
/// labels, and the capture resolution.
pub open spec fn spec_info_payload(cam: Camera) -> Seq<u8> {
    "{\"config\":{\"path\":\"".spec_bytes() + json_escape(encode_utf8(cam.device@))
        + "\",\"name\":\"".spec_bytes() + json_escape(encode_utf8(cam.name@))
        + "\",\"driver\":\"V4L2\",\"trigger_scheme\":\"THIRTY_SEC\",\"resolution\":{\"width\":".spec_bytes()
        + dec_digits(cam.resolutionx as nat) + ",\"height\":".spec_bytes() + dec_digits(
        cam.resolutiony as nat,
    ) + "}}}".spec_bytes()
}

/// The lower-case hexadecimal digit for a nibble.
fn hex_digit_exec(n: u8) -> (r: u8)
    requires
        n < 16,
    ensures
        r == hex_digit(n),
{
    if n < 10 {
        DIGIT_ZERO + n
    } else {
        LETTER_A + (n - 10)
    }
}

/// Append the UTF-8 bytes of one piece of the payload skeleton.
fn push_str_bytes(out: &mut Vec<u8>, s: &str)
    ensures
        final(out)@ == old(out)@ + s.spec_bytes(),
{
    let mut bytes = s.as_bytes_vec();
    out.append(&mut bytes);
}

/// Append the JSON-escaped UTF-8 bytes of a free-form text field.
fn push_escaped(out: &mut Vec<u8>, s: &str)
    ensures
        final(out)@ == old(out)@ + json_escape(s.spec_bytes()),
{
    let bytes = s.as_bytes_vec();
    let mut i: usize = 0;
    while i < bytes.len()
        invariant
            i <= bytes@.len(),
            out@ == old(out)@ + json_escape(bytes@.subrange(0, i as int)),
        decreases bytes@.len() - i,
    {
        let b = bytes[i];
        if b == QUOTE {
            out.push(BACKSLASH);
            out.push(QUOTE);
        } else if b == BACKSLASH {
            out.push(BACKSLASH);
            out.push(BACKSLASH);
        } else if b < 0x20 {
            out.push(BACKSLASH);
            out.push(LETTER_U);
            out.push(DIGIT_ZERO);
            out.push(DIGIT_ZERO);
            out.push(hex_digit_exec(b / 16));
            out.push(hex_digit_exec(b % 16));
        } else {
            out.push(b);
        }
        i += 1;
        proof {
            assert(bytes@.subrange(0, i as int).drop_last() =~= bytes@.subrange(0, i - 1));
            assert(bytes@.subrange(0, i as int).last() == bytes@[i - 1]);
            assert(out@ =~= old(out)@ + json_escape(bytes@.subrange(0, i as int)));
        }
    }
    proof {
        assert(bytes@.subrange(0, bytes@.len() as int) =~= bytes@);
    }
}

/// Append the decimal digits of `n`, most significant first.
pub fn push_decimal(out: &mut Vec<u8>, n: u64)
    ensures
        final(out)@ == old(out)@ + dec_digits(n as nat),
    decreases n,
{
    if n < 10 {
        out.push(DIGIT_ZERO + (n as u8));
        proof {
            assert(out@ =~= old(out)@ + dec_digits(n as nat));
        }
    } else {
        push_decimal(out, n / 10);
        out.push(DIGIT_ZERO + ((n % 10) as u8));
        proof {
            assert(out@ =~= old(out)@ + dec_digits(n as nat));
        }
    }
}

/// The decimal text of a number, as bytes; the image upload states its body
/// length this way in a header.
pub fn decimal_bytes(n: u64) -> (r: Vec<u8>)
    ensures
        r@ == dec_digits(n as nat),
{
    let mut out: Vec<u8> = Vec::new();
    push_decimal(&mut out, n);
    proof {
        assert(out@ =~= dec_digits(n as nat));
    }
    out
}

/// Build the metadata JSON document for one camera.
pub fn info_payload(cam: &Camera) -> (r: Vec<u8>)
    ensures
        r@ == spec_info_payload(*cam),
{
    let mut out: Vec<u8> = Vec::new();
    push_str_bytes(&mut out, "{\"config\":{\"path\":\"");
    push_escaped(&mut out, cam.device.as_str());
    push_str_bytes(&mut out, "\",\"name\":\"");
    push_escaped(&mut out, cam.name.as_str());
    push_str_bytes(
        &mut out,
        "\",\"driver\":\"V4L2\",\"trigger_scheme\":\"THIRTY_SEC\",\"resolution\":{\"width\":",
    );
    push_decimal(&mut out, cam.resolutionx as u64);
    push_str_bytes(&mut out, ",\"height\":");
    push_decimal(&mut out, cam.resolutiony as u64);
    push_str_bytes(&mut out, "}}}");
    proof {
        assert(out@ =~= spec_info_payload(*cam));
    }
    out
}

} // verus!
