use vstd::prelude::*;
use crate::acpi::{le32, le64, spec_le32, spec_le64};
use crate::error::Error;

verus! {

/// Size of the header of a 64-bit ELF file.
pub const ELF_HEADER_LEN: usize = 64;

/// Size of a program header of a 64-bit ELF file.
pub const PROGRAM_HEADER_LEN: usize = 56;

/// Offset of the entry point in the header.
pub const ELF_OFFSET_ENTRY: usize = 24;

/// Offset of the offset of the program headers in the header.
pub const ELF_OFFSET_PHOFF: usize = 32;

/// Offset of the size of a program header in the header.
pub const ELF_OFFSET_PHENTSIZE: usize = 54;

/// Offset of the number of program headers in the header.
pub const ELF_OFFSET_PHNUM: usize = 56;

/// Type of a program header whose segment is loaded.
pub const PT_LOAD: u32 = 1;

/// A part of an ELF file that is copied into memory.
#[derive(Debug, Copy, Clone, PartialEq, Eq, Structural)]
pub struct Segment {
    /// Where the bytes of the segment start in the file.
    pub offset: u64,
    /// The address to which they are copied.
    pub vaddr: u64,
    /// How many bytes are copied.
    pub filesz: u64,
    /// How many bytes the segment has in memory: those that are not copied
    /// are zero.
    pub memsz: u64,
}

/// What is needed of an ELF file to run it.
#[derive(Debug, PartialEq, Eq)]
pub struct Elf {
    /// The address at which the program starts.
    pub entry: u64,
    /// The segments to load, in the order of their program headers.
    pub segments: Vec<Segment>,
}

/// The little-endian 16-bit number at offset `off` of `s`.
pub open spec fn spec_le16(s: Seq<u8>, off: int) -> int {
    s[off] as int + s[off + 1] as int * 256
}

/// Reads the little-endian 16-bit number at offset `off`.
pub fn le16(data: &[u8], off: usize) -> (r: u16)
    requires
        off + 2 <= data@.len(),
    ensures
        r == spec_le16(data@, off as int),
{
    let lo: u16 = data[off] as u16;
    let hi: u16 = data[off + 1] as u16;
    lo + hi * 256
}

/// The message of the error reported for a file that is no 64-bit
/// little-endian ELF file.
pub open spec fn not_elf_message() -> Seq<char> {
    "Not a 64-bit little-endian ELF file"@
}

/// The message of the error reported for an ELF file whose program headers
/// or segments do not lie within it.
pub open spec fn broken_elf_message() -> Seq<char> {
    "ELF file is cut off"@
}

/// Whether `file` starts with the header of a 64-bit little-endian ELF
/// file.
pub open spec fn has_elf_header(file: Seq<u8>) -> bool {
    &&& file.len() >= ELF_HEADER_LEN
    &&& file[0] == 0x7f
    &&& file[1] == 0x45
    &&& file[2] == 0x4c
    &&& file[3] == 0x46
    &&& file[4] == 2
    &&& file[5] == 1
}

/// Where the program headers of `file` start.
pub open spec fn spec_phoff(file: Seq<u8>) -> int {
    spec_le64(file, ELF_OFFSET_PHOFF as int)
}

/// How many program headers `file` has.
pub open spec fn spec_phnum(file: Seq<u8>) -> int {
    spec_le16(file, ELF_OFFSET_PHNUM as int)
}

/// Where program header `i` of `file` starts.
pub open spec fn spec_ph_at(file: Seq<u8>, i: int) -> int {
    spec_phoff(file) + PROGRAM_HEADER_LEN * i
}

/// Whether the program headers of `file` have the size that is expected
/// and lie within the file.
pub open spec fn has_program_headers(file: Seq<u8>) -> bool {
    &&& spec_le16(file, ELF_OFFSET_PHENTSIZE as int) == PROGRAM_HEADER_LEN
    &&& spec_phoff(file) + PROGRAM_HEADER_LEN * spec_phnum(file) <= file.len()
}

/// Whether program header `i` of `file` has a segment that is loaded.
pub open spec fn is_load(file: Seq<u8>, i: int) -> bool {
    spec_le32(file, spec_ph_at(file, i)) == PT_LOAD
}

/// The segment of program header `i` of `file`.
pub open spec fn spec_segment(file: Seq<u8>, i: int) -> Segment {
    Segment {
        offset: spec_le64(file, spec_ph_at(file, i) + 8) as u64,
        vaddr: spec_le64(file, spec_ph_at(file, i) + 16) as u64,
        filesz: spec_le64(file, spec_ph_at(file, i) + 32) as u64,
        memsz: spec_le64(file, spec_ph_at(file, i) + 40) as u64,
    }
}

/// Whether the bytes of the segment lie within a file of `len` bytes, and
/// the segment has room for them in memory, which ends within the address
/// space.
pub open spec fn segment_fits(s: Segment, len: int) -> bool {
    s.offset + s.filesz <= len && s.filesz <= s.memsz && s.vaddr + s.memsz <= u64::MAX
}

/// Whether each of the first `n` program headers of `file` that is loaded
/// has a segment that fits.
pub open spec fn segments_fit(file: Seq<u8>, n: int) -> bool {
    forall|i: int| 0 <= i < n && is_load(file, i) ==> segment_fits(
        #[trigger] spec_segment(file, i),
        file.len() as int,
    )
}

/// The segments of the first `n` program headers of `file` that are
/// loaded, in their order.
pub open spec fn load_segments(file: Seq<u8>, n: int) -> Seq<Segment>
    decreases n,
{
    if n <= 0 {
        Seq::empty()
    } else if is_load(file, n - 1) {
        load_segments(file, n - 1).push(spec_segment(file, n - 1))
    } else {
        load_segments(file, n - 1)
    }
}

impl Elf {
    /// Whether every segment can be copied out of a file of `len` bytes.
    pub open spec fn wf(&self, len: int) -> bool {
        forall|i: int|
            0 <= i < self.segments@.len() ==> segment_fits(#[trigger] self.segments@[i], len)
    }

    /// Reads what is needed of the ELF file `file` to run it: its entry
    /// point and the segments to load. A file that is no 64-bit
    /// little-endian ELF file is rejected, and so is one whose program
    /// headers or segments do not lie within it.
    pub fn parse(file: &[u8]) -> (r: Result<Elf, Error>)
        ensures
            !has_elf_header(file@) ==> (r matches Err(Error::Failed(m)) && m@ == not_elf_message()),
            has_elf_header(file@) && !(has_program_headers(file@) && segments_fit(
                file@,
                spec_phnum(file@),
            )) ==> (r matches Err(Error::Failed(m)) && m@ == broken_elf_message()),
            has_elf_header(file@) && has_program_headers(file@) && segments_fit(
                file@,
                spec_phnum(file@),
            ) ==> (r matches Ok(elf) && elf.entry == spec_le64(file@, ELF_OFFSET_ENTRY as int)
                && elf.segments@ == load_segments(file@, spec_phnum(file@)) && elf.wf(
                file@.len() as int,
            )),
    {
        let len = file.len();
        if len < ELF_HEADER_LEN || file[0] != 0x7f || file[1] != 0x45 || file[2] != 0x4c || file[3]
            != 0x46 || file[4] != 2 || file[5] != 1 {
            return Err(Error::Failed("Not a 64-bit little-endian ELF file"));
        }
        let entry = le64(file, ELF_OFFSET_ENTRY);
        let phoff = le64(file, ELF_OFFSET_PHOFF);
        let phentsize = le16(file, ELF_OFFSET_PHENTSIZE);
        let phnum = le16(file, ELF_OFFSET_PHNUM);
        if phentsize as usize != PROGRAM_HEADER_LEN {
            return Err(Error::Failed("ELF file is cut off"));
        }
        let span: u64 = (PROGRAM_HEADER_LEN as u64) * (phnum as u64);
        if phoff > len as u64 || span > len as u64 - phoff {
            return Err(Error::Failed("ELF file is cut off"));
        }
        let mut segments: Vec<Segment> = Vec::new();
        let mut i: u16 = 0;
        while i < phnum
            invariant
                i <= phnum,
                len == file@.len(),
                phoff == spec_phoff(file@),
                phnum == spec_phnum(file@),
                has_elf_header(file@),
                has_program_headers(file@),
                segments@ == load_segments(file@, i as int),
                segments_fit(file@, i as int),
                forall|k: int|
                    0 <= k < segments@.len() ==> segment_fits(
                        #[trigger] segments@[k],
                        file@.len() as int,
                    ),
            decreases phnum - i,
        {
            let at: usize = (phoff + (PROGRAM_HEADER_LEN as u64) * (i as u64)) as usize;
            assert(at == spec_ph_at(file@, i as int));
            assert(at + PROGRAM_HEADER_LEN <= len) by (nonlinear_arith)
                requires
                    at == phoff + 56 * i,
                    phoff + 56 * phnum <= len,
                    i < phnum,
            ;
            if le32(file, at) == PT_LOAD {
                let s = Segment {
                    offset: le64(file, at + 8),
                    vaddr: le64(file, at + 16),
                    filesz: le64(file, at + 32),
                    memsz: le64(file, at + 40),
                };
                assert(s == spec_segment(file@, i as int));
                if s.offset > len as u64 || s.filesz > len as u64 - s.offset || s.filesz > s.memsz
                    || s.memsz > u64::MAX - s.vaddr {
                    assert(!segment_fits(spec_segment(file@, i as int), file@.len() as int));
                    return Err(Error::Failed("ELF file is cut off"));
                }
                segments.push(s);
            }
            i = i + 1;
        }
        Ok(Elf { entry, segments })
    }
}

} // verus!
