use i8080::cpu::{Cpu, Interruptable};
use i8080::flags::{ConditionFlags, Flag};
use i8080::memory::Memory;
use i8080::{Error, Intel8080};

fn system_with_program(at: u16, program: &[u8]) -> Intel8080 {
    let mut system = Intel8080::default();
    assert!(system.memory.load(program, at).is_ok());
    system.cpu.pc = at;
    system
}

#[test]
fn reset_state() {
    let cpu = Cpu::default();
    assert_eq!(cpu.pc, 0);
    assert_eq!(cpu.sp, 0);
    assert_eq!(cpu.a, 0);
    assert_eq!(cpu.condition_flags.bits(), 0x02);
    assert_eq!(cpu.interruptable, Interruptable::Disabled);
    assert!(!cpu.is_halted);
}

#[test]
fn flags_byte_layout() {
    let mut flags = ConditionFlags::default();
    assert_eq!(flags.bits(), 0x02);
    flags.insert(ConditionFlags::SIGN);
    flags.insert(ConditionFlags::ZERO);
    flags.insert(ConditionFlags::AUX_CARRY);
    flags.insert(ConditionFlags::PARITY);
    flags.insert(ConditionFlags::CARRY);
    assert_eq!(flags.bits(), 0xD7);
    flags.toggle(Flag::Carry);
    assert!(!flags.contains(Flag::Carry));
    flags.set(Flag::Zero, false);
    assert_eq!(flags.bits(), 0x96);
    assert_eq!(ConditionFlags::from_bits_truncate(0x28).bits(), 0x02);
    assert_eq!(ConditionFlags::from_bits_truncate(0x41), {
        let mut f = ConditionFlags::new();
        f.insert(Flag::Zero);
        f.insert(Flag::Carry);
        f
    });
}

#[test]
fn new_loads_images_in_sequence() {
    let system = Intel8080::new(&[vec![1, 2, 3], vec![4, 5]], 0x100).unwrap();
    assert_eq!(system.cpu.pc, 0x100);
    assert_eq!(system.cpu.condition_flags.bits(), 0x02);
    let loaded: Vec<u8> = (0x100..0x105).map(|a| system.memory.read(a)).collect();
    assert_eq!(loaded, vec![1, 2, 3, 4, 5]);
    assert_eq!(system.memory.read(0x105), 0);
}

#[test]
fn load_up_to_the_last_byte_wraps_the_next_address() {
    let mut memory = Memory::new();
    assert_eq!(memory.load(&[9, 8], 0xFFFE), Ok(0));
    assert_eq!(memory.read(0xFFFF), 8);
    assert_eq!(memory.load(&[], 0xFFFF), Ok(0xFFFF));
    assert_eq!(memory.load(&[1, 2, 3], 5), Ok(8));
}

#[test]
fn too_large_image_is_refused() {
    let mut memory = Memory::new();
    assert_eq!(
        memory.load(&[1, 2, 3], 0xFFFE),
        Err(Error::TooLargeFile { index: 0, size: 3, start_address: 0xFFFE })
    );
    assert_eq!(memory.read(0xFFFE), 0);

    let result = memory.load_files(&[vec![7; 0x10], vec![1; 0xFF00]], 0x100);
    assert_eq!(
        result,
        Err(Error::TooLargeFile { index: 1, size: 0xFF00, start_address: 0x110 })
    );
    assert_eq!(memory.read(0x10F), 7);
    assert_eq!(memory.read(0x110), 0);

    assert!(matches!(
        Intel8080::new(&[vec![0; 0x10000]], 1),
        Err(Error::TooLargeFile { index: 0, size: 0x10000, start_address: 1 })
    ));
}

#[test]
fn halted_cpu_refuses_to_step() {
    let mut system = system_with_program(0, &[0x76, 0x00]); // HLT
    assert_eq!(system.fetch_execute_instruction(), Ok(([0x76, 0, 0], 7)));
    assert!(system.cpu.is_halted);
    assert_eq!(system.fetch_execute_instruction(), Err(Error::Halted));
    assert_eq!(system.cpu.pc, 1);
}

#[test]
fn interrupt_needs_enabled_latch() {
    let mut system = Intel8080::default();
    assert_eq!(system.interrupt([0xFF, 0, 0]), Err(Error::InterruptNotEnabled));
    assert_eq!(system.cpu.pc, 0);
}

#[test]
fn ei_takes_effect_after_the_next_instruction() {
    // EI; NOP; HLT
    let mut system = system_with_program(0x100, &[0xFB, 0x00, 0x76]);
    system.cpu.sp = 0x2000;
    assert_eq!(system.fetch_execute_instruction(), Ok(([0xFB, 0, 0], 4)));
    assert_eq!(system.cpu.interruptable, Interruptable::Enabling);
    assert_eq!(system.interrupt([0xCF, 0, 0]), Err(Error::InterruptNotEnabled));
    assert_eq!(system.fetch_execute_instruction(), Ok(([0x00, 0, 0], 4)));
    assert_eq!(system.cpu.interruptable, Interruptable::Enabled);
    assert_eq!(system.fetch_execute_instruction(), Ok(([0x76, 0, 0], 7)));
    assert!(system.cpu.is_halted);
    // RST 1 escapes the halt.
    assert_eq!(system.interrupt([0xCF, 0, 0]), Ok(11));
    assert!(!system.cpu.is_halted);
    assert_eq!(system.cpu.interruptable, Interruptable::Disabled);
    assert_eq!(system.cpu.pc, 0x0008);
    assert_eq!(system.cpu.sp, 0x1FFE);
    assert_eq!(system.memory.read(0x1FFE), 0x03);
    assert_eq!(system.memory.read(0x1FFF), 0x01);
}

#[test]
fn two_ei_in_a_row_enable_after_the_second() {
    let mut system = system_with_program(0, &[0xFB, 0xFB, 0xF3]); // EI; EI; DI
    system.fetch_execute_instruction().unwrap();
    assert_eq!(system.cpu.interruptable, Interruptable::Enabling);
    system.fetch_execute_instruction().unwrap();
    assert_eq!(system.cpu.interruptable, Interruptable::Enabled);
    system.fetch_execute_instruction().unwrap();
    assert_eq!(system.cpu.interruptable, Interruptable::Disabled);
}

#[test]
fn undocumented_opcodes_alias_documented_ones() {
    // 0x08 NOP; 0xCB JMP 0010H
    let mut system = system_with_program(0, &[0x08, 0xCB, 0x10, 0x00]);
    system.cpu.sp = 0x100;
    assert_eq!(system.fetch_execute_instruction(), Ok(([0x08, 0, 0], 4)));
    assert_eq!(system.fetch_execute_instruction(), Ok(([0xCB, 0x10, 0x00], 10)));
    assert_eq!(system.cpu.pc, 0x10);
    // 0xDD CALL 0020H at 0x10; 0xD9 RET at 0x20
    system.memory.write(0x10, 0xDD);
    system.memory.write(0x11, 0x20);
    system.memory.write(0x12, 0x00);
    system.memory.write(0x20, 0xD9);
    assert_eq!(system.fetch_execute_instruction(), Ok(([0xDD, 0x20, 0x00], 17)));
    assert_eq!(system.cpu.pc, 0x20);
    assert_eq!(system.fetch_execute_instruction(), Ok(([0xD9, 0, 0], 10)));
    assert_eq!(system.cpu.pc, 0x13);
    assert_eq!(system.cpu.sp, 0x100);
}

#[test]
fn conditional_timing() {
    let mut system = system_with_program(0, &[0xC4, 0x00, 0x10]); // CNZ 1000H
    system.cpu.sp = 0x100;
    system.cpu.condition_flags.insert(ConditionFlags::ZERO);
    assert_eq!(system.fetch_execute_instruction(), Ok(([0xC4, 0x00, 0x10], 11)));
    assert_eq!(system.cpu.pc, 3);
    system.cpu.pc = 0;
    system.cpu.condition_flags.remove(ConditionFlags::ZERO);
    assert_eq!(system.fetch_execute_instruction(), Ok(([0xC4, 0x00, 0x10], 17)));
    assert_eq!(system.cpu.pc, 0x1000);

    system.memory.write(0x1000, 0xC8); // RZ
    assert_eq!(system.fetch_execute_instruction(), Ok(([0xC8, 0, 0], 5)));
    assert_eq!(system.cpu.pc, 0x1001);
    system.cpu.pc = 0x1000;
    system.cpu.condition_flags.insert(ConditionFlags::ZERO);
    assert_eq!(system.fetch_execute_instruction(), Ok(([0xC8, 0, 0], 11)));
    assert_eq!(system.cpu.pc, 3);

    system.cpu.condition_flags.insert(ConditionFlags::PARITY);
    assert_eq!(system.cpu.execute_instruction([0xE2, 0x34, 0x12], &mut system.memory), 10); // JPO
    assert_eq!(system.cpu.pc, 3);
    assert_eq!(system.cpu.execute_instruction([0xEA, 0x34, 0x12], &mut system.memory), 10); // JPE
    assert_eq!(system.cpu.pc, 0x1234);
}

#[test]
fn and_sets_aux_carry_from_bit_three() {
    let mut system = Intel8080::default();
    system.cpu.a = 0x08;
    system.cpu.b = 0x00;
    system.cpu.condition_flags.insert(ConditionFlags::CARRY);
    system.cpu.execute_instruction([0xA0, 0, 0], &mut system.memory); // ANA B
    assert_eq!(system.cpu.a, 0);
    assert!(system.cpu.condition_flags.contains(ConditionFlags::AUX_CARRY));
    assert!(!system.cpu.condition_flags.contains(ConditionFlags::CARRY));
    assert!(system.cpu.condition_flags.contains(ConditionFlags::ZERO));
    system.cpu.a = 0xF0;
    system.cpu.execute_instruction([0xE6, 0x3C, 0], &mut system.memory); // ANI 3CH
    assert_eq!(system.cpu.a, 0x30);
    assert!(system.cpu.condition_flags.contains(ConditionFlags::AUX_CARRY));
    system.cpu.execute_instruction([0xEE, 0x30, 0], &mut system.memory); // XRI 30H
    assert_eq!(system.cpu.a, 0);
    assert!(!system.cpu.condition_flags.contains(ConditionFlags::AUX_CARRY));
}

#[test]
fn add_with_carry_sets_flags() {
    let mut system = Intel8080::default();
    system.cpu.a = 0x3D;
    system.cpu.condition_flags.insert(ConditionFlags::CARRY);
    system.cpu.execute_instruction([0xCE, 0x42, 0], &mut system.memory); // ACI 42H
    assert_eq!(system.cpu.a, 0x80);
    assert!(!system.cpu.condition_flags.contains(ConditionFlags::CARRY));
    assert!(system.cpu.condition_flags.contains(ConditionFlags::AUX_CARRY));
    assert!(system.cpu.condition_flags.contains(ConditionFlags::SIGN));
    system.cpu.c = 0x80;
    system.cpu.execute_instruction([0x81, 0, 0], &mut system.memory); // ADD C
    assert_eq!(system.cpu.a, 0);
    assert!(system.cpu.condition_flags.contains(ConditionFlags::CARRY));
    assert!(system.cpu.condition_flags.contains(ConditionFlags::ZERO));
}

#[test]
fn double_add_sets_only_carry() {
    let mut system = Intel8080::default();
    system.cpu.h = 0xFF;
    system.cpu.l = 0xFF;
    system.cpu.b = 0x00;
    system.cpu.c = 0x02;
    let states = system.cpu.execute_instruction([0x09, 0, 0], &mut system.memory); // DAD B
    assert_eq!(states, 10);
    assert_eq!((system.cpu.h, system.cpu.l), (0x00, 0x01));
    assert!(system.cpu.condition_flags.contains(ConditionFlags::CARRY));
    assert!(!system.cpu.condition_flags.contains(ConditionFlags::ZERO));
}

#[test]
fn pair_increment_and_load() {
    let mut system = Intel8080::default();
    system.cpu.execute_instruction([0x01, 0xFF, 0x12], &mut system.memory); // LXI B
    assert_eq!((system.cpu.b, system.cpu.c), (0x12, 0xFF));
    system.cpu.execute_instruction([0x03, 0, 0], &mut system.memory); // INX B
    assert_eq!((system.cpu.b, system.cpu.c), (0x13, 0x00));
    system.cpu.execute_instruction([0x3B, 0, 0], &mut system.memory); // DCX SP
    assert_eq!(system.cpu.sp, 0xFFFF);
    system.cpu.execute_instruction([0x31, 0x00, 0x80], &mut system.memory); // LXI SP
    assert_eq!(system.cpu.sp, 0x8000);
}

#[test]
fn rotates() {
    let mut system = Intel8080::default();
    system.cpu.a = 0x80;
    system.cpu.execute_instruction([0x07, 0, 0], &mut system.memory); // RLC
    assert_eq!(system.cpu.a, 0x01);
    assert!(system.cpu.condition_flags.contains(ConditionFlags::CARRY));
    system.cpu.execute_instruction([0x0F, 0, 0], &mut system.memory); // RRC
    assert_eq!(system.cpu.a, 0x80);
    assert!(system.cpu.condition_flags.contains(ConditionFlags::CARRY));
    system.cpu.condition_flags.remove(ConditionFlags::CARRY);
    system.cpu.execute_instruction([0x17, 0, 0], &mut system.memory); // RAL
    assert_eq!(system.cpu.a, 0x00);
    assert!(system.cpu.condition_flags.contains(ConditionFlags::CARRY));
    system.cpu.execute_instruction([0x1F, 0, 0], &mut system.memory); // RAR
    assert_eq!(system.cpu.a, 0x80);
    assert!(!system.cpu.condition_flags.contains(ConditionFlags::CARRY));
    system.cpu.execute_instruction([0x2F, 0, 0], &mut system.memory); // CMA
    assert_eq!(system.cpu.a, 0x7F);
    system.cpu.execute_instruction([0x37, 0, 0], &mut system.memory); // STC
    assert!(system.cpu.condition_flags.contains(ConditionFlags::CARRY));
    system.cpu.execute_instruction([0x3F, 0, 0], &mut system.memory); // CMC
    assert!(!system.cpu.condition_flags.contains(ConditionFlags::CARRY));
}

#[test]
fn memory_transfers() {
    let mut system = Intel8080::default();
    system.cpu.h = 0xAB;
    system.cpu.l = 0xCD;
    assert_eq!(system.cpu.execute_instruction([0x22, 0xFF, 0xFF], &mut system.memory), 16); // SHLD
    assert_eq!(system.memory.read(0xFFFF), 0xCD);
    assert_eq!(system.memory.read(0x0000), 0xAB);
    system.cpu.h = 0;
    system.cpu.l = 0;
    system.cpu.execute_instruction([0x2A, 0xFF, 0xFF], &mut system.memory); // LHLD
    assert_eq!((system.cpu.h, system.cpu.l), (0xAB, 0xCD));

    system.cpu.a = 0x5E;
    assert_eq!(system.cpu.execute_instruction([0x32, 0x00, 0x40], &mut system.memory), 13); // STA
    assert_eq!(system.memory.read(0x4000), 0x5E);
    system.cpu.a = 0;
    system.cpu.d = 0x40;
    system.cpu.e = 0x00;
    system.cpu.execute_instruction([0x1A, 0, 0], &mut system.memory); // LDAX D
    assert_eq!(system.cpu.a, 0x5E);

    system.cpu.sp = 0x4000;
    system.memory.write(0x4001, 0x77);
    assert_eq!(system.cpu.execute_instruction([0xE3, 0, 0], &mut system.memory), 18); // XTHL
    assert_eq!((system.cpu.h, system.cpu.l), (0x77, 0x5E));
    assert_eq!(system.memory.read(0x4000), 0xCD);
    assert_eq!(system.memory.read(0x4001), 0xAB);

    assert_eq!(system.cpu.execute_instruction([0x7E, 0, 0], &mut system.memory), 7); // MOV A,M
    assert_eq!(system.memory.read(0x775E), 0);
    assert_eq!(system.cpu.a, 0);
    assert_eq!(system.cpu.execute_instruction([0x40, 0, 0], &mut system.memory), 5); // MOV B,B
    assert_eq!(system.cpu.execute_instruction([0xF9, 0, 0], &mut system.memory), 5); // SPHL
    assert_eq!(system.cpu.sp, 0x775E);
    assert_eq!(system.cpu.execute_instruction([0xE9, 0, 0], &mut system.memory), 5); // PCHL
    assert_eq!(system.cpu.pc, 0x775E);
}

#[test]
fn input_and_output_change_nothing() {
    let mut system = Intel8080::default();
    system.cpu.a = 0x42;
    let before = system.cpu;
    assert_eq!(system.cpu.execute_instruction([0xDB, 0x10, 0], &mut system.memory), 10);
    assert_eq!(system.cpu.execute_instruction([0xD3, 0x10, 0], &mut system.memory), 10);
    assert_eq!(system.cpu, before);
}

// A small CP/M program run through the BDOS trampoline at 0x0005.
#[test]
fn bdos_program_prints_its_message() {
    let program: Vec<u8> = vec![
        0x11, 0x12, 0x01, // LXI D, 0112H
        0x0E, 0x09, // MVI C, 9
        0xCD, 0x05, 0x00, // CALL 0005H
        0x1E, b'!', // MVI E, '!'
        0x0E, 0x02, // MVI C, 2
        0xCD, 0x05, 0x00, // CALL 0005H
        0xC3, 0x00, 0x00, // JMP 0000H
        b'H', b'E', b'L', b'L', b'O', b',', b' ', b'8', b'0', b'8', b'0', b'$',
    ];
    let mut system = Intel8080::new(&[program], 0x100).unwrap();
    system.memory.write(0x0005, 0xC9); // RET
    system.cpu.sp = 0xF000;
    let mut output = Vec::new();
    let mut steps = 0;
    loop {
        match system.cpu.pc {
            0x0000 => break,
            0x0005 => match system.cpu.c {
                0x02 => output.push(system.cpu.e),
                0x09 => {
                    let mut address = u16::from_le_bytes([system.cpu.e, system.cpu.d]);
                    while system.memory.read(address) != b'$' {
                        output.push(system.memory.read(address));
                        address = address.wrapping_add(1);
                    }
                }
                other => panic!("BDOS function {:#04X}", other),
            },
            _ => (),
        }
        system.fetch_execute_instruction().unwrap();
        steps += 1;
        assert!(steps < 100);
    }
    assert_eq!(output, b"HELLO, 8080!");
    assert_eq!(system.cpu.sp, 0xF000);
}
