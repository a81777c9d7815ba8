//! Executable images: what the loader reads from an ELF file, and where the
//! bytes of its loadable segments belong.
//!
//! The file is parsed by `goblin`. The loader works on [`Image`], which holds
//! the few header fields and the program headers that it looks at.

use vstd::prelude::*;

verus! {

/// The machine number of RISC-V in an ELF header.
pub const EM_RISCV: u16 = 243;

/// The type of an executable file in an ELF header.
pub const ET_EXEC: u16 = 2;

/// The type of a loadable segment in a program header.
pub const PT_LOAD: u32 = 1;

/// One program header: a range of the file and the range of memory that it
/// is loaded to.
#[derive(Copy, Clone, Debug, PartialEq, Eq, Structural)]
pub struct Segment {
    /// The segment's type (`p_type`).
    pub kind: u32,
    /// Where the segment's bytes start in the file (`p_offset`).
    pub offset: u64,
    /// How many bytes of the file belong to the segment (`p_filesz`).
    pub file_size: u64,
    /// The address that the segment is loaded to (`p_vaddr`).
    pub address: u64,
    /// How many bytes the segment takes in memory (`p_memsz`).
    pub memory_size: u64,
}

/// What a parsed ELF file says of itself and of its segments.
#[derive(Clone, Debug)]
pub struct Image {
    /// The architecture (`e_machine`).
    pub machine: u16,
    /// The object file type (`e_type`).
    pub kind: u16,
    /// Whether the file is of the 64-bit class.
    pub is_64: bool,
    /// The entry point.
    pub entry: u64,
    /// The program headers, in the order of the file.
    pub segments: Vec<Segment>,
}

/// An [`Image`] as a mathematical value.
pub struct ImageView {
    pub machine: u16,
    pub kind: u16,
    pub is_64: bool,
    pub entry: u64,
    pub segments: Seq<Segment>,
}

impl View for Image {
    type V = ImageView;

    open spec fn view(&self) -> ImageView {
        ImageView {
            machine: self.machine,
            kind: self.kind,
            is_64: self.is_64,
            entry: self.entry,
            segments: self.segments@,
        }
    }
}

impl Segment {
    /// A program header with the given fields.
    pub fn new(kind: u32, offset: u64, file_size: u64, address: u64, memory_size: u64) -> (segment:
        Self)
        ensures
            segment == (Segment { kind, offset, file_size, address, memory_size }),
    {
        Segment { kind, offset, file_size, address, memory_size }
    }

    /// Whether the segment is to be loaded.
    pub open spec fn loadable(self) -> bool {
        self.kind == PT_LOAD
    }

    /// The number of bytes of memory that loading the segment touches: its
    /// size in memory, or its size in the file where that is larger.
    pub open spec fn extent(self) -> int {
        if self.file_size > self.memory_size {
            self.file_size as int
        } else {
            self.memory_size as int
        }
    }

    /// Whether the segment lies inside a memory of `size` bytes.
    pub open spec fn fits(self, size: nat) -> bool {
        self.address + self.extent() <= size
    }

    /// Whether a file of `len` bytes holds the bytes of the segment.
    pub open spec fn present(self, len: nat) -> bool {
        self.offset + self.file_size <= len
    }

    /// The memory after the segment is loaded: its range is zeroed, and the
    /// file's bytes are copied to its start.
    pub open spec fn place(self, memory: Seq<u8>, file: Seq<u8>) -> Seq<u8> {
        Seq::new(
            memory.len(),
            |i: int|
                if self.address <= i < self.address + self.file_size {
                    file[self.offset + (i - self.address)]
                } else if self.address <= i < self.address + self.memory_size {
                    0u8
                } else {
                    memory[i]
                },
        )
    }
}

/// The error type of `goblin`.
#[verifier::external_type_specification]
#[verifier::external_body]
pub struct ExGoblinError(goblin::error::Error);

/// What `goblin::elf::Elf::parse` makes of a file: the header fields and
/// program headers of the ELF file that it parsed, or `None` where it
/// reported an error.
pub uninterp spec fn elf_image(file: Seq<u8>) -> Option<ImageView>;

/// Parses `file` as an ELF file.
///
/// This calls `goblin::elf::Elf::parse` and copies the fields that the
/// loader reads out of its result: `e_machine` and `e_type` of the header,
/// `is_64`, `entry`, and of each program header `p_type`, `p_offset`,
/// `p_filesz`, `p_vaddr` and `p_memsz`. The contract gives the outcome its
/// name, [`elf_image`]: the result is a function of the file's bytes alone.
#[verifier::external_body]
pub(crate) fn parse(file: &[u8]) -> (r: Result<Image, goblin::error::Error>)
    ensures
        r matches Ok(image) ==> elf_image(file@) == Some(image@),
        r is Err ==> elf_image(file@) is None,
{
    let elf = goblin::elf::Elf::parse(file)?;
    let segments = elf.program_headers.iter().map(
        |h| Segment::new(h.p_type, h.p_offset, h.p_filesz, h.p_vaddr, h.p_memsz),
    ).collect();
    Ok(Image {
        machine: elf.header.e_machine,
        kind: elf.header.e_type,
        is_64: elf.is_64,
        entry: elf.entry,
        segments,
    })
}

} // verus!
