use cpu_core::machine::{MAX_PROGRAM_LEN, PROGRAM_ORIGIN, RESET_VECTOR};
use cpu_core::{CpuError, CPU};

#[test]
fn test_0xa9_lda_is_loading_accumulator() {
    let mut cpu = CPU::new();
    cpu.load_and_run(vec![0xa9, 0x05, 0x00]).unwrap();
    assert_eq!(cpu.register_a, 5);
    assert!(cpu.processor_status & 0b0000_0010 == 0);
    assert!(cpu.processor_status & 0b1000_0000 == 0);
}

#[test]
fn test_0xa9_lda_zero_flag() {
    let mut cpu = CPU::new();
    cpu.load_and_run(vec![0xa9, 0x00, 0x00]).unwrap();
    assert_eq!(cpu.register_a, 0);
    assert!(cpu.processor_status & 0b0000_0010 == 0b10);
}

#[test]
fn test_0xa9_lda_negative_flag() {
    let mut cpu = CPU::new();
    cpu.load_and_run(vec![0xa9, 0xff, 0x00]).unwrap();
    assert!(cpu.processor_status & 0b1000_0000 == 0b1000_0000);
}

#[test]
fn test_0xaa_tax_is_moving_from_a_to_x() {
    let mut cpu = CPU::new();
    cpu.load_and_run(vec![0xa9, 0x05, 0xaa, 0x00]).unwrap();
    assert_eq!(cpu.register_x, 5);
}

#[test]
fn test_inx_overflow() {
    let mut cpu = CPU::new();
    cpu.register_x = 0xff;
    cpu.load_and_run(vec![0xa9, 0xff, 0xaa, 0xe8, 0x00]).unwrap();

    assert_eq!(cpu.register_x, 0)
}

#[test]
fn lda_sets_accumulator_and_flags_for_every_byte() {
    for v in 0..=255u8 {
        let mut cpu = CPU::new();
        assert_eq!(cpu.load_and_run(vec![0xa9, v, 0x00]), Ok(()));
        assert_eq!(cpu.register_a, v);
        assert_eq!(cpu.zero_flag(), v == 0);
        assert_eq!(cpu.negative_flag(), v & 0x80 != 0);
    }
}

#[test]
fn inx_wraps_to_zero_and_sets_zero_flag() {
    let mut cpu = CPU::new();
    cpu.load_and_run(vec![0xa9, 0xff, 0xaa, 0xe8, 0x00]).unwrap();
    assert_eq!(cpu.register_x, 0);
    assert!(cpu.zero_flag());
    assert!(!cpu.negative_flag());
}

#[test]
fn inx_counts_up_and_sets_negative_flag() {
    let mut cpu = CPU::new();
    cpu.load_and_run(vec![0xa9, 0x7f, 0xaa, 0xe8, 0xe8, 0x00]).unwrap();
    assert_eq!(cpu.register_x, 0x81);
    assert!(!cpu.zero_flag());
    assert!(cpu.negative_flag());
}

#[test]
fn halt_ignores_the_bytes_after_it() {
    let mut cpu = CPU::new();
    assert_eq!(cpu.load_and_run(vec![0xa9, 0x05, 0x00, 0xa9, 0x07, 0xff]), Ok(()));
    assert_eq!(cpu.register_a, 5);
    assert_eq!(cpu.program_counter, 0x8003);
}

#[test]
fn halt_first_leaves_registers_cleared() {
    let mut cpu = CPU::new();
    assert_eq!(cpu.load_and_run(vec![0x00, 0x02]), Ok(()));
    assert_eq!(cpu.register_a, 0);
    assert_eq!(cpu.program_counter, 0x8001);
}

#[test]
fn reset_after_load_points_at_origin() {
    let mut cpu = CPU::new();
    cpu.program_counter = 0x1234;
    cpu.register_a = 9;
    cpu.register_x = 8;
    cpu.register_y = 7;
    cpu.processor_status = 0xff;
    assert_eq!(cpu.load(vec![0xe8]), Ok(()));
    cpu.reset();
    assert_eq!(cpu.program_counter, PROGRAM_ORIGIN);
    assert_eq!(cpu.program_counter, 0x8000);
    assert_eq!(cpu.register_a, 0);
    assert_eq!(cpu.register_x, 0);
    assert_eq!(cpu.processor_status, 0);
    assert_eq!(cpu.register_y, 7);
}

#[test]
fn load_writes_program_and_reset_vector() {
    let mut cpu = CPU::new();
    assert_eq!(cpu.load(vec![0xa9, 0x42]), Ok(()));
    assert_eq!(cpu.memory_read(0x8000), Ok(0xa9));
    assert_eq!(cpu.memory_read(0x8001), Ok(0x42));
    assert_eq!(cpu.memory_read(0x8002), Ok(0x00));
    assert_eq!(cpu.memory_read(RESET_VECTOR), Ok(0x00));
    assert_eq!(cpu.memory_read(RESET_VECTOR + 1), Ok(0x80));
    assert_eq!(cpu.memory_read_u16(RESET_VECTOR), Ok(0x8000));
}

#[test]
fn unknown_opcode_faults_with_opcode_and_address() {
    let mut cpu = CPU::new();
    assert_eq!(
        cpu.load_and_run(vec![0x02]),
        Err(CpuError::UnimplementedOpcode { opcode: 0x02, address: 0x8000 })
    );
    let mut cpu = CPU::new();
    assert_eq!(
        cpu.load_and_run(vec![0xa9, 0x01, 0xff, 0x00]),
        Err(CpuError::UnimplementedOpcode { opcode: 0xff, address: 0x8002 })
    );
    assert_eq!(cpu.register_a, 1);
}

#[test]
fn oversized_program_is_refused() {
    let mut cpu = CPU::new();
    assert_eq!(
        cpu.load(vec![0xe8; MAX_PROGRAM_LEN + 1]),
        Err(CpuError::ProgramTooLarge { length: 0x8000 })
    );
    assert_eq!(cpu.memory_read(0x8000), Ok(0x00));
    assert_eq!(
        cpu.load_and_run(vec![0xe8; 0x8000]),
        Err(CpuError::ProgramTooLarge { length: 0x8000 })
    );
}

#[test]
fn largest_program_fits() {
    let mut cpu = CPU::new();
    assert_eq!(MAX_PROGRAM_LEN, 0x7fff);
    assert_eq!(cpu.load(vec![0xe8; MAX_PROGRAM_LEN]), Ok(()));
    assert_eq!(cpu.memory_read(0xfffe), Ok(0xe8));
    assert_eq!(cpu.memory_read_u16(RESET_VECTOR), Ok(0x8000));
}

#[test]
fn running_off_the_end_of_memory_faults() {
    let mut cpu = CPU::new();
    assert_eq!(cpu.memory_write(0xfffe, 0xe8), Ok(()));
    cpu.program_counter = 0xfffe;
    assert_eq!(cpu.execute(), Err(CpuError::AddressOutOfRange { address: 0xffff }));
    assert_eq!(cpu.register_x, 1);

    let mut cpu = CPU::new();
    assert_eq!(cpu.memory_write(0xfffe, 0xa9), Ok(()));
    cpu.program_counter = 0xfffe;
    assert_eq!(cpu.execute(), Err(CpuError::AddressOutOfRange { address: 0xffff }));
}

#[test]
fn memory_edges_are_reported() {
    let mut cpu = CPU::new();
    assert_eq!(cpu.memory_read(0xffff), Err(CpuError::AddressOutOfRange { address: 0xffff }));
    assert_eq!(cpu.memory_write(0xffff, 1), Err(CpuError::AddressOutOfRange { address: 0xffff }));
    assert_eq!(cpu.memory_read_u16(0xfffe), Err(CpuError::AddressOutOfRange { address: 0xffff }));
    assert_eq!(cpu.memory_read_u16(0xffff), Err(CpuError::AddressOutOfRange { address: 0xffff }));
    assert_eq!(
        cpu.memory_write_u16(0xfffe, 0xabcd),
        Err(CpuError::AddressOutOfRange { address: 0xffff })
    );
    assert_eq!(cpu.memory_read(0xfffe), Ok(0x00));
}

#[test]
fn words_are_little_endian() {
    let mut cpu = CPU::new();
    assert_eq!(cpu.memory_write_u16(0x0010, 0x1234), Ok(()));
    assert_eq!(cpu.memory_read(0x0010), Ok(0x34));
    assert_eq!(cpu.memory_read(0x0011), Ok(0x12));
    assert_eq!(cpu.memory_read_u16(0x0010), Ok(0x1234));
    assert_eq!(cpu.memory_write_u16(0xfffd, 0xbeef), Ok(()));
    assert_eq!(cpu.memory_read_u16(0xfffd), Ok(0xbeef));
}

#[test]
fn flag_update_keeps_reserved_bits() {
    let mut cpu = CPU::new();
    assert_eq!(cpu.memory_write(0x0000, 0xa9), Ok(()));
    assert_eq!(cpu.memory_write(0x0001, 0x80), Ok(()));
    cpu.processor_status = 0b0100_0011;
    assert_eq!(cpu.execute(), Ok(()));
    assert_eq!(cpu.processor_status, 0b1100_0001);
    assert_eq!(cpu.program_counter, 3);
}
