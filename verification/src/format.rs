//! Recognising the format of a dump from its first bytes.

use vstd::prelude::*;
use vstd::string::*;
use crate::errors::{Failure, HprofSlurpError};

verus! {

/// The three on-disk formats that are told apart.
#[derive(Debug, Clone, Copy, PartialEq, Eq, Structural)]
pub enum DumpFormat {
    /// The native binary format, ingested by the streaming pipeline.
    Hprof,
    /// A portable heap dump, handed to the external helper.
    Phd,
    /// A core image, handed to the external helper.
    OpenJ9Core,
}

/// The bytes of an ASCII text.
pub open spec fn ascii_bytes(text: Seq<char>) -> Seq<u8> {
    Seq::new(text.len(), |i: int| text[i] as u8)
}

/// The four bytes that open an ELF image.
pub open spec fn elf_magic() -> Seq<u8> {
    seq![0x7Fu8, 0x45u8, 0x4Cu8, 0x46u8]
}

/// The name that a portable heap dump carries behind its length prefix.
pub open spec fn phd_name() -> Seq<u8> {
    ascii_bytes("portable heap dump"@)
}

/// The text that opens a native binary dump.
pub open spec fn hprof_prefix() -> Seq<u8> {
    ascii_bytes("JAVA PROFILE"@)
}

/// The number that two bytes spell, most significant first.
pub open spec fn be_u16(hi: u8, lo: u8) -> int {
    hi * 256 + lo
}

/// `buf` opens with a big-endian 16-bit length, holds that many bytes
/// behind it, and those bytes are the portable heap dump name.
pub open spec fn has_phd_signature(buf: Seq<u8>) -> bool {
    &&& buf.len() >= 2
    &&& buf.len() >= 2 + be_u16(buf[0], buf[1])
    &&& buf.subrange(2, 2 + be_u16(buf[0], buf[1])) == phd_name()
}

/// The format that the first bytes of an input announce, if any. The ELF
/// magic is looked for first, then the length-prefixed name, then the
/// native prefix.
pub open spec fn sniffed_format(buf: Seq<u8>) -> Option<DumpFormat> {
    if elf_magic().is_prefix_of(buf) {
        Some(DumpFormat::OpenJ9Core)
    } else if has_phd_signature(buf) {
        Some(DumpFormat::Phd)
    } else if hprof_prefix().is_prefix_of(buf) {
        Some(DumpFormat::Hprof)
    } else {
        None
    }
}

/// Whether `buf` holds `pat` at `offset`. Every index is checked against
/// the length of `buf` first.
pub fn holds_at(buf: &[u8], offset: usize, pat: &[u8]) -> (found: bool)
    ensures
        found <==> (offset + pat@.len() <= buf@.len() && buf@.subrange(
            offset as int,
            offset + pat@.len(),
        ) == pat@),
{
    if offset > buf.len() || pat.len() > buf.len() - offset {
        return false;
    }
    let mut i: usize = 0;
    while i < pat.len()
        invariant
            offset + pat.len() <= buf.len(),
            i <= pat.len(),
            forall|j: int| 0 <= j < i ==> buf@[offset + j] == pat@[j],
        decreases pat.len() - i,
    {
        if buf[offset + i] != pat[i] {
            assert(buf@.subrange(offset as int, offset + pat@.len())[i as int] != pat@[i as int]);
            return false;
        }
        i += 1;
    }
    assert(buf@.subrange(offset as int, offset + pat@.len()) =~= pat@);
    true
}

/// Classifies an input by its first bytes.
pub fn detect_dump_format(buf: &[u8]) -> (result: Result<DumpFormat, HprofSlurpError>)
    ensures
        match sniffed_format(buf@) {
            Some(format) => result == Ok::<DumpFormat, HprofSlurpError>(format),
            None => result matches Err(error) && error@ == (Failure::UnsupportedDumpFormat {
                message: "Unrecognized heap dump signature"@,
            }),
        },
{
    let magic: [u8; 4] = [0x7F, 0x45, 0x4C, 0x46];
    assert(magic@ =~= elf_magic());
    if holds_at(buf, 0, magic.as_slice()) {
        return Ok(DumpFormat::OpenJ9Core);
    }
    let name = "portable heap dump";
    let prefix = "JAVA PROFILE";
    proof {
        reveal_strlit("portable heap dump");
        reveal_strlit("JAVA PROFILE");
        is_ascii_spec_bytes(name);
        is_ascii_spec_bytes(prefix);
    }
    if buf.len() >= 2 {
        let name_len: usize = (buf[0] as usize) * 256 + (buf[1] as usize);
        if name_len == name.as_bytes().len() && holds_at(buf, 2, name.as_bytes()) {
            return Ok(DumpFormat::Phd);
        }
    }
    if holds_at(buf, 0, prefix.as_bytes()) {
        return Ok(DumpFormat::Hprof);
    }
    Err(
        HprofSlurpError::UnsupportedDumpFormat {
            message: "Unrecognized heap dump signature".to_string(),
        },
    )
}

} // verus!
