use vstd::prelude::*;
use crate::job::ExtractError;

verus! {

/// Bytes allocated beyond the declared output length when the native codec
/// runs: the codec writes past the logical end of its output, so this margin
/// is a memory-safety requirement, not a tuning knob.
pub const DECODE_SLACK: usize = 64;

/// The big-endian 32-bit value stored at `s[i..i + 4]`.
pub open spec fn be32_at(s: Seq<u8>, i: int) -> int {
    s[i] * 16777216 + s[i + 1] * 65536 + s[i + 2] * 256 + s[i + 3]
}

/// A payload carries the structured header when it is longer than 16 bytes
/// and starts with four zero bytes.
pub open spec fn has_header_marker(s: Seq<u8>) -> bool {
    s.len() > 16 && s[0] == 0 && s[1] == 0 && s[2] == 0 && s[3] == 0
}

/// The entry's real content: a payload without the marker as it is; with the
/// marker, what follows the two length-prefixed fields after it, or `None`
/// where those fields run past the end.
pub open spec fn header_skipped(s: Seq<u8>) -> Option<Seq<u8>> {
    if !has_header_marker(s) {
        Some(s)
    } else {
        let second = 8 + be32_at(s, 4);
        if second + 4 > s.len() {
            None
        } else {
            let start = second + 4 + be32_at(s, second);
            if start > s.len() {
                None
            } else {
                Some(s.subrange(start, s.len() as int))
            }
        }
    }
}

/// What the dispatcher makes of the native codec's answer: `code` is the
/// codec's signed result and `out` the buffer it wrote.
pub open spec fn decoded_content(out: Seq<u8>, code: int, file_size: nat) -> Result<
    Seq<u8>,
    ExtractError,
> {
    if code < 0 {
        Err(ExtractError::DecompressFailed(code as i64))
    } else if code != file_size {
        Err(ExtractError::SizeMismatch { expected: file_size as u64, actual: code as u64 })
    } else {
        match header_skipped(out.take(file_size as int)) {
            Some(t) => Ok(t),
            None => Err(ExtractError::MalformedHeader),
        }
    }
}

fn read_be32(data: &Vec<u8>, i: usize) -> (r: u64)
    requires
        i + 4 <= data@.len(),
    ensures
        r == be32_at(data@, i as int),
{
    let len = data.len();
    assert(i + 3 < len);
    (data[i] as u64) * 16777216 + (data[i + 1] as u64) * 65536 + (data[i + 2] as u64) * 256
        + (data[i + 3] as u64)
}

fn copy_tail(data: &Vec<u8>, start: usize) -> (r: Vec<u8>)
    requires
        start <= data@.len(),
    ensures
        r@ == data@.subrange(start as int, data@.len() as int),
{
    let mut r: Vec<u8> = Vec::with_capacity(data.len() - start);
    let mut i: usize = start;
    while i < data.len()
        invariant
            start <= i <= data@.len(),
            r@ == data@.subrange(start as int, i as int),
        decreases data@.len() - i,
    {
        r.push(data[i]);
        i = i + 1;
        assert(r@ =~= data@.subrange(start as int, i as int));
    }
    r
}

/// Strips the structured header that some archive families put before an
/// entry's content. A payload without the leading zero marker comes back
/// unchanged; one whose length fields run past its end is refused.
pub fn skip_header(data: Vec<u8>) -> (r: Result<Vec<u8>, ExtractError>)
    ensures
        match header_skipped(data@) {
            Some(t) => r matches Ok(v) && v@ == t,
            None => r == Err::<Vec<u8>, ExtractError>(ExtractError::MalformedHeader),
        },
{
    let len = data.len();
    if !(len > 16 && data[0] == 0 && data[1] == 0 && data[2] == 0 && data[3] == 0) {
        return Ok(data);
    }
    let second: u64 = 8 + read_be32(&data, 4);
    if second + 4 > len as u64 {
        return Err(ExtractError::MalformedHeader);
    }
    let start: u64 = second + 4 + read_be32(&data, second as usize);
    if start > len as u64 {
        return Err(ExtractError::MalformedHeader);
    }
    Ok(copy_tail(&data, start as usize))
}

/// A zeroed output buffer for the native codec: the declared size plus the
/// slack the codec may write into. `None` where that length does not fit.
pub fn decode_buffer(file_size: usize) -> (r: Option<Vec<u8>>)
    ensures
        file_size + DECODE_SLACK <= usize::MAX ==> (r matches Some(b) && b@ == Seq::new(
            (file_size + DECODE_SLACK) as nat,
            |i: int| 0u8,
        )),
        file_size + DECODE_SLACK > usize::MAX ==> r is None,
{
    if file_size > usize::MAX - DECODE_SLACK {
        return None;
    }
    let b: Vec<u8> = vec![0u8; file_size + DECODE_SLACK];
    assert(b@ =~= Seq::new((file_size + DECODE_SLACK) as nat, |i: int| 0u8));
    Some(b)
}

/// Checks the native codec's answer against the declared size: a negative
/// result is `DecompressFailed`, another length is `SizeMismatch`; otherwise
/// the buffer is cut to the declared size and its header, if any, skipped.
pub fn finish_decode(out: Vec<u8>, code: i64, file_size: usize) -> (r: Result<
    Vec<u8>,
    ExtractError,
>)
    requires
        out@.len() >= file_size,
    ensures
        match decoded_content(out@, code as int, file_size as nat) {
            Ok(t) => r matches Ok(v) && v@ == t,
            Err(e) => r == Err::<Vec<u8>, ExtractError>(e),
        },
{
    if code < 0 {
        return Err(ExtractError::DecompressFailed(code));
    }
    if code as u64 != file_size as u64 {
        return Err(ExtractError::SizeMismatch { expected: file_size as u64, actual: code as u64 });
    }
    let ghost whole = out@;
    let mut out = out;
    out.truncate(file_size);
    assert(out@ =~= whole.take(file_size as int));
    skip_header(out)
}

/// A payload that does not start with four zero bytes is left as it is by
/// the header skip, so skipping again changes nothing.
pub proof fn lemma_header_skip_idempotent(s: Seq<u8>)
    requires
        !(s.len() >= 4 && s[0] == 0 && s[1] == 0 && s[2] == 0 && s[3] == 0),
    ensures
        header_skipped(s) == Some(s),
        header_skipped(header_skipped(s)->0) == header_skipped(s),
{
}

/// A decoded entry is accepted only when the codec produced exactly the
/// declared number of bytes; any other non-negative length is a
/// `SizeMismatch` naming both lengths, never a truncated or padded result.
pub proof fn lemma_decoded_length_exact(out: Seq<u8>, code: int, file_size: nat)
    requires
        out.len() >= file_size,
        code >= 0,
        code <= u64::MAX,
        file_size <= u64::MAX,
    ensures
        decoded_content(out, code, file_size) is Ok ==> code == file_size,
        code != file_size ==> decoded_content(out, code, file_size) == Err::<Seq<u8>, ExtractError>(
            ExtractError::SizeMismatch { expected: file_size as u64, actual: code as u64 },
        ),
        code == file_size && !has_header_marker(out.take(file_size as int)) ==> decoded_content(
            out,
            code,
            file_size,
        ) == Ok::<Seq<u8>, ExtractError>(out.take(file_size as int)),
{
}

/// What zlib decoding of a buffer yields, `None` where the buffer is not a
/// valid zlib stream.
pub uninterp spec fn zlib_inflated(data: Seq<u8>) -> Option<Seq<u8>>;

/// Relies on `zune_inflate::DeflateDecoder::decode_zlib` with default
/// options: the output is a function of the input alone, and an input
/// shorter than the zlib header plus a deflate block (6 bytes) is refused.
/// The error text is the decoder error's debug rendering.
#[verifier::external_body]
fn zlib_decode(data: &[u8]) -> (r: Result<Vec<u8>, String>)
    ensures
        match zlib_inflated(data@) {
            Some(v) => r matches Ok(o) && o@ == v,
            None => r is Err,
        },
        data@.len() < 6 ==> r is Err,
{
    match zune_inflate::DeflateDecoder::new(data).decode_zlib() {
        Ok(v) => Ok(v),
        Err(e) => Err(format!("{:?}", e)),
    }
}

/// Inflates a zlib-wrapped deflate buffer.
pub fn inflate(buffer: Vec<u8>) -> (r: Result<Vec<u8>, String>)
    ensures
        match zlib_inflated(buffer@) {
            Some(v) => r matches Ok(o) && o@ == v,
            None => r is Err,
        },
        buffer@.len() < 6 ==> r is Err,
{
    zlib_decode(buffer.as_slice())
}

} // verus!
