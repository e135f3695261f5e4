//! The preamble of a native dump: a format label closed by a zero byte, the
//! identifier width in four bytes and the creation time in eight, both
//! most significant byte first.

use vstd::prelude::*;
use vstd::slice::slice_subrange;
use crate::errors::{Failure, HprofSlurpError};
use crate::text::{lossy_text, utf8_lossy};

verus! {

/// Length of the preamble region of a native dump. What follows it is
/// stream content.
pub const FILE_HEADER_LENGTH: usize = 31;

/// The decoded preamble of a native dump.
#[derive(Debug, PartialEq, Eq)]
pub struct FileHeader {
    /// The format label, as text.
    pub format: String,
    /// Width of an object identifier, in bytes.
    pub size_pointers: u32,
    /// Creation time of the dump.
    pub timestamp: u64,
}

/// A preamble as plain values.
pub struct HeaderView {
    pub format: Seq<char>,
    pub size_pointers: nat,
    pub timestamp: nat,
}

impl View for FileHeader {
    type V = HeaderView;

    open spec fn view(&self) -> HeaderView {
        HeaderView {
            format: self.format@,
            size_pointers: self.size_pointers as nat,
            timestamp: self.timestamp as nat,
        }
    }
}

/// The number of bytes before the first zero byte; the whole length if
/// there is none.
pub open spec fn label_len(bytes: Seq<u8>) -> nat
    decreases bytes.len(),
{
    if bytes.len() == 0 || bytes[0] == 0 {
        0
    } else {
        1 + label_len(bytes.drop_first())
    }
}

/// The number that `bytes` spell, most significant byte first.
pub open spec fn be_value(bytes: Seq<u8>) -> nat
    decreases bytes.len(),
{
    if bytes.len() == 0 {
        0
    } else {
        (be_value(bytes.drop_last()) * 256 + bytes.last()) as nat
    }
}

/// Bytes that the two numbers of a preamble take.
pub open spec fn numbers_len() -> nat {
    12
}

/// Whether `bytes` begin with a whole preamble: a label with its closing
/// zero byte and twelve bytes behind it.
pub open spec fn has_header(bytes: Seq<u8>) -> bool {
    label_len(bytes) + 1 + numbers_len() <= bytes.len()
}

/// The preamble that `bytes` begin with.
pub open spec fn decoded_header(bytes: Seq<u8>) -> HeaderView
    recommends
        has_header(bytes),
{
    let n = label_len(bytes) as int;
    HeaderView {
        format: lossy_text(bytes.subrange(0, n)),
        size_pointers: be_value(bytes.subrange(n + 1, n + 5)),
        timestamp: be_value(bytes.subrange(n + 5, n + 13)),
    }
}

/// The bytes behind the preamble that `bytes` begin with.
pub open spec fn header_rest(bytes: Seq<u8>) -> Seq<u8>
    recommends
        has_header(bytes),
{
    bytes.subrange((label_len(bytes) + 1 + numbers_len()) as int, bytes.len() as int)
}

/// What validating a preamble region gives: the decoded preamble if the
/// identifier width is 8 and nothing is left over.
pub open spec fn validated_header(bytes: Seq<u8>) -> Result<HeaderView, Failure> {
    if !has_header(bytes) {
        Err(Failure::InvalidHprofFile { message: "incomplete file header"@ })
    } else if decoded_header(bytes).size_pointers != 4 && decoded_header(bytes).size_pointers
        != 8 {
        Err(Failure::InvalidIdSize)
    } else if decoded_header(bytes).size_pointers == 4 {
        Err(
            Failure::UnsupportedIdSize {
                message: "32 bits heap dumps are not supported yet"@,
            },
        )
    } else if header_rest(bytes).len() != 0 {
        Err(Failure::InvalidHeaderSize)
    } else {
        Ok(decoded_header(bytes))
    }
}

/// `label_len` is the place of the first zero byte.
proof fn lemma_label_len(bytes: Seq<u8>, n: int)
    requires
        0 <= n <= bytes.len(),
        forall|i: int| 0 <= i < n ==> bytes[i] != 0,
        n < bytes.len() ==> bytes[n] == 0,
    ensures
        label_len(bytes) == n,
    decreases n,
{
    if n > 0 {
        let rest = bytes.drop_first();
        assert forall|i: int| 0 <= i < n - 1 implies rest[i] != 0 by {
            assert(rest[i] == bytes[i + 1]);
        }
        lemma_label_len(rest, n - 1);
    }
}

/// The number that the bytes of `bytes` from `from` up to `to` spell, most
/// significant byte first.
fn read_be(bytes: &[u8], from: usize, to: usize) -> (value: u64)
    requires
        from <= to <= bytes@.len(),
        to - from <= 8,
    ensures
        value == be_value(bytes@.subrange(from as int, to as int)),
        to - from <= 4 ==> value <= u32::MAX,
{
    let mut value: u64 = 0;
    let mut i: usize = from;
    while i < to
        invariant
            from <= i <= to <= bytes@.len(),
            to - from <= 8,
            value == be_value(bytes@.subrange(from as int, i as int)),
            value < pow256((i - from) as nat),
        decreases to - i,
    {
        proof {
            let next = bytes@.subrange(from as int, i + 1);
            assert(next.drop_last() =~= bytes@.subrange(from as int, i as int));
            lemma_pow256_bounds((i - from) as nat);
        }
        value = value * 256 + bytes[i] as u64;
        i += 1;
    }
    proof {
        lemma_pow256_bounds((to - from) as nat);
    }
    value
}

/// 256 to the power of `n`.
spec fn pow256(n: nat) -> nat
    decreases n,
{
    if n == 0 {
        1
    } else {
        256 * pow256((n - 1) as nat)
    }
}

/// The powers of 256 that fit eight bytes.
proof fn lemma_pow256_bounds(n: nat)
    requires
        n <= 8,
    ensures
        pow256(n + 1) == 256 * pow256(n),
        n <= 7 ==> pow256(n + 1) <= 0x1_0000_0000_0000_0000,
        n <= 4 ==> pow256(n) <= 0x1_0000_0000,
        pow256(n) >= 1,
{
    reveal_with_fuel(pow256, 10);
}

/// Decodes the preamble that `bytes` begin with and gives the bytes behind
/// it, or `None` if `bytes` hold no whole preamble.
pub fn parse_file_header(bytes: &[u8]) -> (parsed: Option<(&[u8], FileHeader)>)
    ensures
        parsed is Some <==> has_header(bytes@),
        parsed matches Some((rest, header)) ==> rest@ == header_rest(bytes@) && header@
            == decoded_header(bytes@),
{
    let mut n: usize = 0;
    while n < bytes.len() && bytes[n] != 0
        invariant
            n <= bytes.len(),
            forall|i: int| 0 <= i < n ==> bytes@[i] != 0,
        decreases bytes.len() - n,
    {
        n += 1;
    }
    proof {
        lemma_label_len(bytes@, n as int);
    }
    if bytes.len() - n < 13 {
        return None;
    }
    let format = utf8_lossy(slice_subrange(bytes, 0, n));
    let size_pointers = read_be(bytes, n + 1, n + 5) as u32;
    let timestamp = read_be(bytes, n + 5, n + 13);
    let rest = slice_subrange(bytes, n + 13, bytes.len());
    Some((rest, FileHeader { format, size_pointers, timestamp }))
}

/// Decodes and validates the preamble region of a native dump. Only a
/// preamble with identifier width 8 and nothing left over is accepted.
pub fn slurp_header(header_bytes: &[u8]) -> (result: Result<FileHeader, HprofSlurpError>)
    ensures
        match result {
            Ok(header) => validated_header(header_bytes@) == Ok::<HeaderView, Failure>(header@),
            Err(error) => validated_header(header_bytes@) == Err::<HeaderView, Failure>(error@),
        },
{
    let (rest, header) = match parse_file_header(header_bytes) {
        Some(parsed) => parsed,
        None => {
            return Err(
                HprofSlurpError::InvalidHprofFile { message: "incomplete file header".to_string() },
            );
        },
    };
    let id_size = header.size_pointers;
    if id_size != 4 && id_size != 8 {
        return Err(HprofSlurpError::InvalidIdSize);
    }
    if id_size == 4 {
        return Err(
            HprofSlurpError::UnsupportedIdSize {
                message: "32 bits heap dumps are not supported yet".to_string(),
            },
        );
    }
    if rest.len() != 0 {
        return Err(HprofSlurpError::InvalidHeaderSize);
    }
    Ok(header)
}

/// Of a region that holds a whole preamble: a width other than 4 and 8 is
/// an invalid identifier size, width 4 an unsupported one, and width 8
/// goes on: the preamble is accepted unless bytes are left over.
pub proof fn law_identifier_width(bytes: Seq<u8>)
    requires
        has_header(bytes),
    ensures
        ({
            let width = decoded_header(bytes).size_pointers;
            &&& width != 4 && width != 8 ==> validated_header(bytes) == Err::<HeaderView, Failure>(
                Failure::InvalidIdSize,
            )
            &&& width == 4 ==> validated_header(bytes) == Err::<HeaderView, Failure>(
                Failure::UnsupportedIdSize {
                    message: "32 bits heap dumps are not supported yet"@,
                },
            )
            &&& width == 8 ==> validated_header(bytes) == (if header_rest(bytes).len() == 0 {
                Ok::<HeaderView, Failure>(decoded_header(bytes))
            } else {
                Err::<HeaderView, Failure>(Failure::InvalidHeaderSize)
            })
        }),
{
}

} // verus!
