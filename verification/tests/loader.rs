use yars_lib::elf::{Image, Segment};
use yars_lib::memory::{Memory, ProgramError};
use yars_lib::processor::ProcessorError;
use yars_lib::register::IntRegister;
use yars_lib::simulator::Simulator;

const PT_LOAD: u32 = 1;
const PT_NOTE: u32 = 4;

struct Header {
    kind: u32,
    offset: u32,
    address: u32,
    file_size: u32,
    memory_size: u32,
}

fn elf32(machine: u16, kind: u16, entry: u32, headers: &[Header], body: &[u8]) -> Vec<u8> {
    let mut file = vec![0x7F, b'E', b'L', b'F', 1, 1, 1, 0, 0, 0, 0, 0, 0, 0, 0, 0];
    file.extend_from_slice(&kind.to_le_bytes());
    file.extend_from_slice(&machine.to_le_bytes());
    file.extend_from_slice(&1u32.to_le_bytes());
    file.extend_from_slice(&entry.to_le_bytes());
    file.extend_from_slice(&52u32.to_le_bytes());
    file.extend_from_slice(&0u32.to_le_bytes());
    file.extend_from_slice(&0u32.to_le_bytes());
    file.extend_from_slice(&52u16.to_le_bytes());
    file.extend_from_slice(&32u16.to_le_bytes());
    file.extend_from_slice(&(headers.len() as u16).to_le_bytes());
    file.extend_from_slice(&40u16.to_le_bytes());
    file.extend_from_slice(&0u16.to_le_bytes());
    file.extend_from_slice(&0u16.to_le_bytes());
    assert_eq!(file.len(), 52);
    for header in headers {
        for field in [
            header.kind,
            header.offset,
            header.address,
            header.address,
            header.file_size,
            header.memory_size,
            7,
            4,
        ] {
            file.extend_from_slice(&field.to_le_bytes());
        }
    }
    file.extend_from_slice(body);
    file
}

fn elf64(machine: u16, kind: u16, entry: u64) -> Vec<u8> {
    let mut file = vec![0x7F, b'E', b'L', b'F', 2, 1, 1, 0, 0, 0, 0, 0, 0, 0, 0, 0];
    file.extend_from_slice(&kind.to_le_bytes());
    file.extend_from_slice(&machine.to_le_bytes());
    file.extend_from_slice(&1u32.to_le_bytes());
    file.extend_from_slice(&entry.to_le_bytes());
    file.extend_from_slice(&0u64.to_le_bytes());
    file.extend_from_slice(&0u64.to_le_bytes());
    file.extend_from_slice(&0u32.to_le_bytes());
    file.extend_from_slice(&64u16.to_le_bytes());
    file.extend_from_slice(&56u16.to_le_bytes());
    file.extend_from_slice(&0u16.to_le_bytes());
    file.extend_from_slice(&64u16.to_le_bytes());
    file.extend_from_slice(&0u16.to_le_bytes());
    file.extend_from_slice(&0u16.to_le_bytes());
    assert_eq!(file.len(), 64);
    file
}

fn filled(size: u32, byte: u8) -> Memory {
    let mut memory = Memory::new(size);
    for address in 0..size {
        memory.write_byte(address, byte);
    }
    memory
}

fn bytes(memory: &Memory) -> Vec<u8> {
    (0..memory.size()).map(|address| memory.read_byte(address)).collect()
}

fn program_words(words: &[u32]) -> Vec<u8> {
    words.iter().flat_map(|word| word.to_le_bytes()).collect()
}

#[test]
fn loads_the_file_bytes_and_zeroes_the_rest_of_the_segment() {
    let one = Header { kind: PT_LOAD, offset: 84, address: 8, file_size: 4, memory_size: 10 };
    let file = elf32(243, 2, 8, &[one], &[0xA1, 0xA2, 0xA3, 0xA4, 0xA5]);
    let mut memory = filled(24, 0xEE);
    assert_eq!(memory.load_program(&file), Ok(8));
    let mut expected = vec![0xEE; 24];
    expected[8..12].copy_from_slice(&[0xA1, 0xA2, 0xA3, 0xA4]);
    expected[12..18].copy_from_slice(&[0; 6]);
    assert_eq!(bytes(&memory), expected);
}

#[test]
fn loads_segments_in_the_order_of_the_file() {
    let first = Header { kind: PT_LOAD, offset: 148, address: 0, file_size: 4, memory_size: 8 };
    let note = Header { kind: PT_NOTE, offset: 0, address: 0, file_size: 9999, memory_size: 9999 };
    let second = Header { kind: PT_LOAD, offset: 150, address: 4, file_size: 3, memory_size: 3 };
    let file = elf32(243, 2, 0x1234_5678, &[first, note, second], &[1, 2, 3, 4, 5]);
    let mut memory = filled(16, 0xEE);
    assert_eq!(memory.load_program(&file), Ok(0x1234_5678));
    assert_eq!(
        bytes(&memory),
        vec![1, 2, 3, 4, 3, 4, 5, 0, 0xEE, 0xEE, 0xEE, 0xEE, 0xEE, 0xEE, 0xEE, 0xEE]
    );
}

#[test]
fn a_segment_may_end_with_the_memory() {
    let one = Header { kind: PT_LOAD, offset: 84, address: 12, file_size: 4, memory_size: 4 };
    let file = elf32(243, 2, 12, &[one], &[9, 8, 7, 6]);
    let mut memory = Memory::new(16);
    assert_eq!(memory.load_program(&file), Ok(12));
    assert_eq!(memory.read_word(12), 0x06070809);
    let mut memory = Memory::new(15);
    assert_eq!(memory.load_program(&file), Err(ProgramError::OutOfMemory));
    assert_eq!(bytes(&memory), vec![0; 15]);
}

#[test]
fn a_segment_past_the_memory_is_out_of_memory() {
    for (address, file_size, memory_size) in
        [(16u32, 0u32, 1u32), (0, 0, 17), (13, 4, 4), (0xFFFF_FFFF, 0, 2), (17, 0, 0), (8, 9, 2)]
    {
        let one = Header { kind: PT_LOAD, offset: 84, address, file_size, memory_size };
        let file = elf32(243, 2, 0, &[one], &[0x55; 16]);
        let mut memory = filled(16, 0xEE);
        assert_eq!(memory.load_program(&file), Err(ProgramError::OutOfMemory));
        assert_eq!(bytes(&memory), vec![0xEE; 16]);
    }
}

#[test]
fn segments_before_the_one_that_does_not_fit_stay_loaded() {
    let first = Header { kind: PT_LOAD, offset: 116, address: 0, file_size: 2, memory_size: 2 };
    let second = Header { kind: PT_LOAD, offset: 116, address: 6, file_size: 2, memory_size: 3 };
    let file = elf32(243, 2, 0, &[first, second], &[0x11, 0x22]);
    let mut memory = filled(8, 0xEE);
    assert_eq!(memory.load_program(&file), Err(ProgramError::OutOfMemory));
    assert_eq!(bytes(&memory), vec![0x11, 0x22, 0xEE, 0xEE, 0xEE, 0xEE, 0xEE, 0xEE]);
}

#[test]
fn a_segment_whose_bytes_the_file_lacks_is_malformed() {
    let one = Header { kind: PT_LOAD, offset: 84, address: 0, file_size: 5, memory_size: 5 };
    let file = elf32(243, 2, 0, &[one], &[1, 2, 3, 4]);
    let mut memory = filled(8, 0xEE);
    assert_eq!(memory.load_program(&file), Err(ProgramError::Malformed));
    assert_eq!(bytes(&memory), vec![0xEE; 8]);
    let far = Header { kind: PT_LOAD, offset: 0xFFFF_FFFF, address: 0, file_size: 1, memory_size: 1 };
    let file = elf32(243, 2, 0, &[far], &[1, 2, 3, 4]);
    assert_eq!(memory.load_program(&file), Err(ProgramError::Malformed));
}

#[test]
fn a_larger_size_in_the_file_than_in_memory_copies_the_file_bytes() {
    let one = Header { kind: PT_LOAD, offset: 84, address: 2, file_size: 4, memory_size: 1 };
    let file = elf32(243, 2, 0, &[one], &[1, 2, 3, 4]);
    let mut memory = filled(8, 0xEE);
    assert_eq!(memory.load_program(&file), Ok(0));
    assert_eq!(bytes(&memory), vec![0xEE, 0xEE, 1, 2, 3, 4, 0xEE, 0xEE]);
}

#[test]
fn what_is_no_elf_file_is_malformed() {
    let good = elf32(243, 2, 0, &[], &[]);
    let mut memory = filled(8, 0xEE);
    assert_eq!(memory.load_program(&good), Ok(0));
    let mut bad_magic = good.clone();
    bad_magic[1] = b'F';
    let mut bad_class = good.clone();
    bad_class[4] = 3;
    let mut lost_headers = good.clone();
    lost_headers[44] = 200;
    for file in [&b""[..], &b"\x7FELF"[..], &good[..20], &bad_magic, &bad_class, &lost_headers, &[0u8; 64][..]] {
        assert_eq!(memory.load_program(file), Err(ProgramError::Malformed));
    }
    assert_eq!(bytes(&memory), vec![0xEE; 8]);
}

#[test]
fn other_machines_types_and_classes_are_unsupported() {
    let one = Header { kind: PT_LOAD, offset: 84, address: 0, file_size: 4, memory_size: 4 };
    let mut memory = filled(8, 0xEE);
    for (machine, kind) in [(62u16, 2u16), (3, 2), (0, 2), (243, 3), (243, 1), (243, 0), (242, 2)] {
        let file = elf32(machine, kind, 0, &[Header { ..one }], &[1, 2, 3, 4]);
        assert_eq!(memory.load_program(&file), Err(ProgramError::UnsupportedBinary));
    }
    assert_eq!(memory.load_program(&elf64(243, 2, 0)), Err(ProgramError::UnsupportedBinary));
    assert_eq!(memory.load_program(&elf64(62, 2, 0)), Err(ProgramError::UnsupportedBinary));
    assert_eq!(bytes(&memory), vec![0xEE; 8]);
    let one = Header { kind: PT_LOAD, offset: 84, address: 100, file_size: 4, memory_size: 4 };
    let file = elf32(3, 2, 0, &[one], &[1, 2, 3, 4]);
    assert_eq!(memory.load_program(&file), Err(ProgramError::UnsupportedBinary));
}

#[test]
fn load_image_works_on_what_it_is_given() {
    let file = [10u8, 11, 12, 13, 14, 15];
    let image = Image {
        machine: 243,
        kind: 2,
        is_64: false,
        entry: 0x1_0000_0042,
        segments: vec![
            Segment::new(7, 0, u64::MAX, u64::MAX, u64::MAX),
            Segment::new(PT_LOAD, 2, 3, 1, 5),
            Segment { kind: PT_LOAD, offset: 6, file_size: 0, address: 8, memory_size: 0 },
        ],
    };
    let mut memory = filled(8, 0xEE);
    assert_eq!(memory.load_image(&image, &file), Ok(0x42));
    assert_eq!(bytes(&memory), vec![0xEE, 12, 13, 14, 0, 0, 0xEE, 0xEE]);
    let wide = Image { is_64: true, ..image.clone() };
    assert_eq!(memory.load_image(&wide, &file), Err(ProgramError::UnsupportedBinary));
    let overflowing = Image {
        segments: vec![Segment::new(PT_LOAD, 0, 0, u64::MAX, u64::MAX)],
        ..image.clone()
    };
    assert_eq!(memory.load_image(&overflowing, &file), Err(ProgramError::OutOfMemory));
    let absent = Image {
        segments: vec![Segment::new(PT_LOAD, u64::MAX, u64::MAX, 0, 0)],
        ..image.clone()
    };
    assert_eq!(memory.load_image(&absent, &file), Err(ProgramError::OutOfMemory));
    let absent = Image { segments: vec![Segment::new(PT_LOAD, u64::MAX, 2, 0, 4)], ..image };
    assert_eq!(memory.load_image(&absent, &file), Err(ProgramError::Malformed));
}

#[test]
fn a_simulator_starts_at_the_entry_point() {
    let code = program_words(&[0x00100073, 0x00500093, 0x00000073]);
    let one = Header { kind: PT_LOAD, offset: 84, address: 0x40, file_size: 12, memory_size: 12 };
    let file = elf32(243, 2, 0x44, &[one], &code);
    let mut sim = Simulator::new(&file, 256, None, None).unwrap();
    assert_eq!(sim.processor().pc(), 0x44);
    assert_eq!(sim.processor().registers().read(IntRegister::SP), 255);
    assert_eq!(sim.cycles(), 0);
    assert_eq!(sim.processor().memory().size(), 256);
    assert_eq!(sim.processor().memory().read_word(0x44), 0x00500093);
    assert_eq!(sim.processor().memory().read_word(0), 0);
    assert_eq!(sim.run(), Ok(()));
    assert_eq!(sim.processor().registers().read(IntRegister::RA), 5);
    assert_eq!(sim.processor().pc(), 0x48);
    assert_eq!(sim.cycles(), 2);
    assert_eq!(sim.take_log(), "");
}

#[test]
fn a_simulator_can_start_elsewhere_and_keep_a_log() {
    let code = program_words(&[0x00100073, 0x00500093, 0x00000073]);
    let one = Header { kind: PT_LOAD, offset: 84, address: 0x40, file_size: 12, memory_size: 12 };
    let file = elf32(243, 2, 0x44, &[one], &code);
    let mut sim = Simulator::new(&file, 256, Some(0x40), Some(String::new())).unwrap();
    assert_eq!(sim.processor().pc(), 0x40);
    assert_eq!(sim.step(), Err(ProcessorError::Ebreak));
    assert_eq!(sim.cycles(), 1);
    let mut sim = Simulator::new(&file, 256, Some(0x44), Some(String::new())).unwrap();
    assert_eq!(sim.run(), Ok(()));
    assert_eq!(
        sim.take_log(),
        "[PC=00000044] [00500093] [x01=00000005] [x00=00000000] [x05=00000000] addi    ra, zero, 5\n"
    );
}

#[test]
fn a_simulator_is_not_made_of_a_program_that_does_not_load() {
    let one = Header { kind: PT_LOAD, offset: 84, address: 0x40, file_size: 4, memory_size: 4 };
    let file = elf32(243, 2, 0x40, &[one], &[0x73, 0, 0, 0]);
    assert_eq!(Simulator::new(&file, 0x43, None, None).err(), Some(ProgramError::OutOfMemory));
    assert!(Simulator::new(&file, 0x44, None, None).is_ok());
    assert_eq!(Simulator::new(&file[..86], 0x44, None, None).err(), Some(ProgramError::Malformed));
    assert_eq!(Simulator::new(b"no program", 64, None, None).err(), Some(ProgramError::Malformed));
    assert_eq!(
        Simulator::new(&elf64(243, 2, 0), 64, None, None).err(),
        Some(ProgramError::UnsupportedBinary)
    );
}
