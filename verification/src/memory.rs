//! The simulated machine's memory: a flat array of bytes, addressed from zero,
//! with little-endian halfword and word accesses.

use crate::alu;
use crate::elf::{elf_image, parse, Image, ImageView, Segment, EM_RISCV, ET_EXEC, PT_LOAD};
use vstd::prelude::*;

verus! {

/// Why a program could not be loaded.
#[derive(Copy, Clone, Debug, PartialEq, Eq, Structural)]
pub enum ProgramError {
    /// A loadable segment does not fit into the memory.
    OutOfMemory,
    /// The file is no 32-bit RISC-V executable.
    UnsupportedBinary,
    /// The file is no well-formed ELF file, or a loadable segment names
    /// bytes that the file does not have.
    Malformed,
}

/// Whether an access of `width` bytes at `address` lies inside a memory of
/// `size` bytes.
pub open spec fn in_bounds(size: nat, address: u32, width: nat) -> bool {
    address + width <= size
}

/// The little-endian halfword held by the two bytes at `address`.
pub open spec fn halfword_at(bytes: Seq<u8>, address: int) -> u16 {
    (bytes[address] + 0x100 * bytes[address + 1]) as u16
}

/// The little-endian word held by the four bytes at `address`.
pub open spec fn word_at(bytes: Seq<u8>, address: int) -> u32 {
    (bytes[address] + 0x100 * bytes[address + 1] + 0x1_0000 * bytes[address + 2] + 0x100_0000
        * bytes[address + 3]) as u32
}

/// Byte `k` of `value`, counted from the least significant one.
pub open spec fn le_byte(value: u32, k: nat) -> u8 {
    if k == 0 {
        (value % 0x100) as u8
    } else if k == 1 {
        (value / 0x100 % 0x100) as u8
    } else if k == 2 {
        (value / 0x1_0000 % 0x100) as u8
    } else {
        (value / 0x100_0000 % 0x100) as u8
    }
}

/// `bytes` after a little-endian store of the halfword `value` at `address`.
pub open spec fn with_halfword(bytes: Seq<u8>, address: int, value: u16) -> Seq<u8> {
    bytes.update(address, le_byte(value as u32, 0)).update(address + 1, le_byte(value as u32, 1))
}

/// `bytes` after a little-endian store of the word `value` at `address`.
pub open spec fn with_word(bytes: Seq<u8>, address: int, value: u32) -> Seq<u8> {
    bytes.update(address, le_byte(value, 0)).update(address + 1, le_byte(value, 1)).update(
        address + 2,
        le_byte(value, 2),
    ).update(address + 3, le_byte(value, 3))
}

/// An access is in bounds exactly when its address is at most `size - width`:
/// from `size - width + 1` on, every access fails.
pub proof fn lemma_bounds(size: nat, address: u32, width: nat)
    ensures
        address <= size - width ==> in_bounds(size, address, width),
        address >= size - width + 1 ==> !in_bounds(size, address, width),
{
}

/// A byte that was stored is the byte that is read back, and no other byte
/// changes.
pub proof fn lemma_byte_round_trip(bytes: Seq<u8>, address: int, value: u8, other: int)
    requires
        0 <= address < bytes.len(),
    ensures
        bytes.update(address, value)[address] == value,
        0 <= other < bytes.len() && other != address ==> bytes.update(address, value)[other]
            == bytes[other],
{
}

/// A halfword that was stored is the halfword that is read back; its low byte
/// lies at the lower address.
pub proof fn lemma_halfword_round_trip(bytes: Seq<u8>, address: int, value: u16)
    requires
        0 <= address,
        address + 2 <= bytes.len(),
    ensures
        halfword_at(with_halfword(bytes, address, value), address) == value,
        with_halfword(bytes, address, value)[address] == value % 0x100,
        with_halfword(bytes, address, value)[address + 1] == value / 0x100,
        with_halfword(bytes, address, value).len() == bytes.len(),
{
}

/// A word that was stored is the word that is read back; its bytes lie in
/// memory from the least significant one up, and each half of it reads back as
/// a halfword.
pub proof fn lemma_word_round_trip(bytes: Seq<u8>, address: int, value: u32)
    requires
        0 <= address,
        address + 4 <= bytes.len(),
    ensures
        word_at(with_word(bytes, address, value), address) == value,
        forall|k: nat| k < 4 ==> with_word(bytes, address, value)[address + k] == le_byte(value, k),
        halfword_at(with_word(bytes, address, value), address) == value % 0x1_0000,
        halfword_at(with_word(bytes, address, value), address + 2) == value / 0x1_0000,
        with_word(bytes, address, value).len() == bytes.len(),
{
}

/// Bytes and halfwords that were stored one by one read back as the word they
/// spell in little-endian order.
pub proof fn lemma_word_from_parts(bytes: Seq<u8>, address: int, value: u32)
    requires
        0 <= address,
        address + 4 <= bytes.len(),
    ensures
        with_halfword(
            with_halfword(bytes, address, (value % 0x1_0000) as u16),
            address + 2,
            (value / 0x1_0000) as u16,
        ) == with_word(bytes, address, value),
        word_at(bytes, address) == halfword_at(bytes, address) + 0x1_0000 * halfword_at(
            bytes,
            address + 2,
        ),
{
    let low = (value % 0x1_0000) as u16;
    let high = (value / 0x1_0000) as u16;
    assert(with_halfword(with_halfword(bytes, address, low), address + 2, high) =~= with_word(
        bytes,
        address,
        value,
    ));
}

/// What stands in the way of loading `segment` into a memory of `size` bytes
/// from a file of `len` bytes, if anything does.
pub open spec fn segment_fault(segment: Segment, size: nat, len: nat) -> Option<ProgramError> {
    if !segment.fits(size) {
        Some(ProgramError::OutOfMemory)
    } else if !segment.present(len) {
        Some(ProgramError::Malformed)
    } else {
        None
    }
}

/// The memory after the loadable ones among `segments` are loaded in order,
/// up to the first that cannot be, and what stood in its way.
pub open spec fn load_segments(memory: Seq<u8>, segments: Seq<Segment>, file: Seq<u8>) -> (
    Seq<u8>,
    Option<ProgramError>,
)
    decreases segments.len(),
{
    if segments.len() == 0 {
        (memory, None)
    } else if !segments[0].loadable() {
        load_segments(memory, segments.drop_first(), file)
    } else {
        match segment_fault(segments[0], memory.len(), file.len()) {
            Some(error) => (memory, Some(error)),
            None => load_segments(segments[0].place(memory, file), segments.drop_first(), file),
        }
    }
}

/// Loading a parsed image: the memory afterwards, and the entry point or the
/// error. Only a 32-bit RISC-V executable is loaded. The entry point is the
/// low word of the one in the header.
pub open spec fn load_image(memory: Seq<u8>, image: ImageView, file: Seq<u8>) -> (
    Seq<u8>,
    Result<u32, ProgramError>,
) {
    if image.machine != EM_RISCV || image.kind != ET_EXEC || image.is_64 {
        (memory, Err(ProgramError::UnsupportedBinary))
    } else {
        let (loaded, fault) = load_segments(memory, image.segments, file);
        match fault {
            Some(error) => (loaded, Err(error)),
            None => (loaded, Ok((image.entry % 0x1_0000_0000) as u32)),
        }
    }
}

/// Loading a program from the bytes of its file: a file that does not parse
/// is malformed and leaves the memory as it is.
pub open spec fn load_program(memory: Seq<u8>, file: Seq<u8>) -> (
    Seq<u8>,
    Result<u32, ProgramError>,
) {
    match elf_image(file) {
        None => (memory, Err(ProgramError::Malformed)),
        Some(image) => load_image(memory, image, file),
    }
}

/// Loading changes no byte outside the segment, and leaves the memory's size.
pub proof fn lemma_place_frame(segment: Segment, memory: Seq<u8>, file: Seq<u8>, i: int)
    requires
        0 <= i < memory.len(),
        !(segment.address <= i < segment.address + segment.extent()),
    ensures
        segment.place(memory, file).len() == memory.len(),
        segment.place(memory, file)[i] == memory[i],
{
}

/// Loading segments leaves the memory's size, and changes no byte that lies
/// outside every loadable segment.
pub proof fn lemma_load_segments_frame(
    memory: Seq<u8>,
    segments: Seq<Segment>,
    file: Seq<u8>,
    i: int,
)
    requires
        0 <= i < memory.len(),
        forall|k: int|
            0 <= k < segments.len() && (#[trigger] segments[k]).loadable() ==> !(segments[k].address
                <= i < segments[k].address + segments[k].extent()),
    ensures
        load_segments(memory, segments, file).0.len() == memory.len(),
        load_segments(memory, segments, file).0[i] == memory[i],
    decreases segments.len(),
{
    if segments.len() > 0 {
        let rest = segments.drop_first();
        assert forall|k: int| 0 <= k < rest.len() && (#[trigger] rest[k]).loadable() implies !(
        rest[k].address <= i < rest[k].address + rest[k].extent()) by {
            assert(rest[k] == segments[k + 1]);
        }
        if !segments[0].loadable() {
            lemma_load_segments_frame(memory, rest, file, i);
        } else if segment_fault(segments[0], memory.len(), file.len()) is None {
            lemma_place_frame(segments[0], memory, file, i);
            lemma_load_segments_frame(segments[0].place(memory, file), rest, file, i);
        }
    }
}

/// A memory of fixed size. Its view is the sequence of its bytes.
#[derive(Debug)]
pub struct Memory {
    memory: Vec<u8>,
}

impl View for Memory {
    type V = Seq<u8>;

    closed spec fn view(&self) -> Seq<u8> {
        self.memory@
    }
}

impl Clone for Memory {
    fn clone(&self) -> (copy: Self)
        ensures
            copy@ == self@,
    {
        proof {
            use_type_invariant(self);
        }
        Self { memory: self.memory.clone() }
    }
}

impl Memory {
    #[verifier::type_invariant]
    spec fn addressable(self) -> bool {
        self.memory@.len() <= u32::MAX
    }

    /// A memory of `size` bytes, all zero.
    pub fn new(size: u32) -> (memory: Self)
        ensures
            memory@ == Seq::new(size as nat, |i: int| 0u8),
    {
        let memory = Self { memory: vec![0u8; size as usize] };
        assert(memory@ =~= Seq::new(size as nat, |i: int| 0u8));
        memory
    }

    /// The number of bytes.
    pub fn size(&self) -> (size: u32)
        ensures
            size == self@.len(),
    {
        proof {
            use_type_invariant(self);
        }
        self.memory.len() as u32
    }

    /// Whether an access of `width` bytes at `address` lies inside the memory.
    pub fn in_bounds(&self, address: u32, width: u32) -> (inside: bool)
        ensures
            inside == in_bounds(self@.len(), address, width as nat),
    {
        address as u64 + width as u64 <= self.size() as u64
    }

    /// Loads one loadable segment: zeroes what the file leaves open of its
    /// range, and copies the file's bytes to its start.
    fn load_segment(&mut self, segment: &Segment, file: &[u8]) -> (r: Result<(), ProgramError>)
        ensures
            match segment_fault(*segment, old(self)@.len(), file@.len()) {
                Some(error) => r == Err::<(), ProgramError>(error) && final(self)@ == old(self)@,
                None => r == Ok::<(), ProgramError>(()) && final(self)@ == segment.place(
                    old(self)@,
                    file@,
                ),
            },
    {
        proof {
            use_type_invariant(&*self);
        }
        let size = self.size() as u64;
        let extent = if segment.file_size > segment.memory_size {
            segment.file_size
        } else {
            segment.memory_size
        };
        if segment.address > size || extent > size - segment.address {
            return Err(ProgramError::OutOfMemory);
        }
        let len = file.len() as u64;
        if segment.offset > len || segment.file_size > len - segment.offset {
            return Err(ProgramError::Malformed);
        }
        let ghost before = self@;
        let mut i: u64 = segment.file_size;
        while i < segment.memory_size
            invariant
                segment.file_size <= i <= extent,
                segment.memory_size <= extent,
                segment.address + extent <= size,
                size == before.len(),
                self@.len() == before.len(),
                forall|k: int|
                    0 <= k < before.len() ==> self@[k] == if segment.address + segment.file_size
                        <= k < segment.address + i {
                        0u8
                    } else {
                        before[k]
                    },
            decreases segment.memory_size - i,
        {
            proof {
                use_type_invariant(&*self);
            }
            self.memory[(segment.address + i) as usize] = 0;
            i += 1;
        }
        let mut j: u64 = 0;
        while j < segment.file_size
            invariant
                j <= segment.file_size <= extent,
                segment.memory_size <= extent,
                segment.address + extent <= size,
                size == before.len(),
                segment.offset + segment.file_size <= len,
                len == file@.len(),
                self@.len() == before.len(),
                forall|k: int|
                    0 <= k < before.len() ==> self@[k] == if segment.address <= k < segment.address
                        + j {
                        file@[segment.offset + (k - segment.address)]
                    } else if segment.address + segment.file_size <= k < segment.address
                        + segment.memory_size {
                        0u8
                    } else {
                        before[k]
                    },
            decreases segment.file_size - j,
        {
            proof {
                use_type_invariant(&*self);
            }
            self.memory[(segment.address + j) as usize] = file[(segment.offset + j) as usize];
            j += 1;
        }
        assert(self@ =~= segment.place(before, file@));
        Ok(())
    }

    /// Loads a parsed image: checks that it is a 32-bit RISC-V executable,
    /// loads its loadable segments in order, and returns the entry point.
    /// `file` holds the bytes that the image was parsed from. The first
    /// segment that does not fit ends the loading; the segments before it
    /// stay loaded.
    pub fn load_image(&mut self, image: &Image, file: &[u8]) -> (r: Result<u32, ProgramError>)
        ensures
            (final(self)@, r) == load_image(old(self)@, image@, file@),
            final(self)@.len() == old(self)@.len(),
    {
        if image.machine != EM_RISCV || image.kind != ET_EXEC || image.is_64 {
            return Err(ProgramError::UnsupportedBinary);
        }
        let ghost before = self@;
        let mut index: usize = 0;
        assert(image@.segments.skip(0) =~= image@.segments);
        while index < image.segments.len()
            invariant
                index <= image.segments.len(),
                before == old(self)@,
                !(image.machine != EM_RISCV || image.kind != ET_EXEC || image.is_64),
                self@.len() == before.len(),
                load_segments(before, image@.segments, file@) == load_segments(
                    self@,
                    image@.segments.skip(index as int),
                    file@,
                ),
            decreases image.segments.len() - index,
        {
            let ghost rest = image@.segments.skip(index as int);
            assert(rest[0] == image@.segments[index as int]);
            assert(rest.drop_first() =~= image@.segments.skip(index + 1));
            let segment = &image.segments[index];
            if segment.kind == PT_LOAD {
                match self.load_segment(segment, file) {
                    Ok(()) => {},
                    Err(error) => {
                        return Err(error);
                    },
                }
            }
            index += 1;
        }
        assert(image@.segments.skip(index as int).len() == 0);
        Ok(alu::low_word(image.entry))
    }

    /// Loads the program in `program`, the bytes of an ELF file, and returns
    /// its entry point.
    pub fn load_program(&mut self, program: &[u8]) -> (r: Result<u32, ProgramError>)
        ensures
            (final(self)@, r) == load_program(old(self)@, program@),
            final(self)@.len() == old(self)@.len(),
    {
        match parse(program) {
            Ok(image) => self.load_image(&image, program),
            Err(_) => Err(ProgramError::Malformed),
        }
    }

    /// The byte at `address`.
    pub fn read_byte(&self, address: u32) -> (value: u8)
        requires
            in_bounds(self@.len(), address, 1),
        ensures
            value == self@[address as int],
    {
        self.memory[address as usize]
    }

    /// The little-endian halfword at `address`.
    pub fn read_halfword(&self, address: u32) -> (value: u16)
        requires
            in_bounds(self@.len(), address, 2),
        ensures
            value == halfword_at(self@, address as int),
    {
        proof {
            use_type_invariant(self);
        }
        let addr = address as usize;
        self.memory[addr] as u16 + 0x100 * (self.memory[addr + 1] as u16)
    }

    /// The little-endian word at `address`.
    pub fn read_word(&self, address: u32) -> (value: u32)
        requires
            in_bounds(self@.len(), address, 4),
        ensures
            value == word_at(self@, address as int),
    {
        proof {
            use_type_invariant(self);
        }
        let addr = address as usize;
        self.memory[addr] as u32 + 0x100 * (self.memory[addr + 1] as u32) + 0x1_0000 * (
        self.memory[addr + 2] as u32) + 0x100_0000 * (self.memory[addr + 3] as u32)
    }

    /// Stores `value` at `address`.
    pub fn write_byte(&mut self, address: u32, value: u8)
        requires
            in_bounds(old(self)@.len(), address, 1),
        ensures
            final(self)@ == old(self)@.update(address as int, value),
    {
        proof {
            use_type_invariant(&*self);
        }
        self.memory[address as usize] = value;
    }

    /// Stores `value` at `address`, low byte first.
    pub fn write_halfword(&mut self, address: u32, value: u16)
        requires
            in_bounds(old(self)@.len(), address, 2),
        ensures
            final(self)@ == with_halfword(old(self)@, address as int, value),
    {
        proof {
            use_type_invariant(&*self);
        }
        let addr = address as usize;
        self.memory[addr] = (value % 0x100) as u8;
        self.memory[addr + 1] = (value / 0x100) as u8;
    }

    /// Stores `value` at `address`, least significant byte first.
    pub fn write_word(&mut self, address: u32, value: u32)
        requires
            in_bounds(old(self)@.len(), address, 4),
        ensures
            final(self)@ == with_word(old(self)@, address as int, value),
    {
        proof {
            use_type_invariant(&*self);
        }
        let addr = address as usize;
        self.memory[addr] = (value % 0x100) as u8;
        self.memory[addr + 1] = (value / 0x100 % 0x100) as u8;
        self.memory[addr + 2] = (value / 0x1_0000 % 0x100) as u8;
        self.memory[addr + 3] = (value / 0x100_0000) as u8;
    }
}

} // verus!
