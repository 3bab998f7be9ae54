use chip8::{Cpu, Memory, Platform, CHAR_SIZE, PROGRAM_START_ADDRESS};

#[test]
fn test_sne() {
    let mut cpu = Cpu::new();

    cpu.sne();

    assert_eq!(cpu.pc, 0x202);
}

#[test]
fn test_op_00e0() {
    let mut cpu = Cpu::new();
    let mut mem = Memory::new();

    cpu.op_00e0(&mut mem);

    assert_eq!(mem.video, [0; 2048]);
}

#[test]
fn cpu_test_00e0() {
    let mut mem = Memory::new();
    mem.video.fill(1);
    let mut cpu = Cpu::new();

    cpu.op_00e0(&mut mem);

    assert!(mem.video.iter().all(|&x| x == 0));
}

#[test]
fn cpu_test_00ee() {
    let mut cpu = Cpu::new();
    cpu.sp = 1;
    let return_addr = 0x500;
    cpu.stack[0] = return_addr;

    cpu.op_00ee();

    assert_eq!(0, cpu.sp);
    assert_eq!(return_addr + 2, cpu.pc);
}

#[test]
fn cpu_test_1nnn() {
    let mut cpu = Cpu::new();

    cpu.op_1nnn(0x1222);

    assert_eq!(0x1222, cpu.pc);
}

#[test]
fn cpu_test_2nnn() {
    let mut cpu = Cpu::new();
    cpu.sp = 0xE;

    cpu.op_2nnn(0x2111);

    assert_eq!(0xF, cpu.sp);
    assert_eq!(PROGRAM_START_ADDRESS, cpu.stack[cpu.sp as usize - 1]);
    assert_eq!(0x2111, cpu.pc);
}

#[test]
fn cpu_test_3xkk() {
    // Test skip case
    let mut cpu = Cpu::new();
    let x = 0xE;
    let nn = 0xFF;
    let mut starting_pc = cpu.pc;
    cpu.registers[x] = nn;

    cpu.op_3xkk(x, nn);
    assert_eq!(starting_pc + 4, cpu.pc); // Should skip (PC+4)

    // Test no skip case
    cpu = Cpu::new();
    starting_pc = cpu.pc;
    cpu.registers[x] = nn - 1;

    cpu.op_3xkk(x, nn);
    assert_eq!(starting_pc + 2, cpu.pc); // Should not skip (PC+2)
}

#[test]
fn cpu_test_4xkk() {
    // Test skip case
    let mut cpu = Cpu::new();
    let x = 0xE;
    let nn = 0xFF;
    let mut starting_pc = cpu.pc;
    cpu.registers[x] = nn - 1;

    cpu.op_4xkk(x, nn);
    assert_eq!(starting_pc + 4, cpu.pc); // Should skip (PC+4)

    // Test no skip case
    cpu = Cpu::new();
    starting_pc = cpu.pc;
    cpu.registers[x] = nn;

    cpu.op_4xkk(x, nn);
    assert_eq!(starting_pc + 2, cpu.pc); // Should not skip (PC+2)
}

#[test]
fn cpu_test_5xy0() {
    // Test skip case
    let mut cpu = Cpu::new();
    let x = 0xD;
    let y = 0xE;
    let nn = 0xFF;
    let mut starting_pc = cpu.pc;
    cpu.registers[x] = nn;
    cpu.registers[y] = nn;

    cpu.op_5xy0(x, y);
    assert_eq!(starting_pc + 4, cpu.pc); // Should skip (PC+4)

    // Test no skip case
    cpu = Cpu::new();
    starting_pc = cpu.pc;
    cpu.registers[x] = nn;
    cpu.registers[y] = nn - 1;

    cpu.op_5xy0(x, y);
    assert_eq!(starting_pc + 2, cpu.pc); // Should not skip (PC+2)
}

#[test]
fn cpu_test_6xkk() {
    let mut cpu = Cpu::new();
    let x = 0xD;
    let nn = 0xFF;
    cpu.registers[x] = nn;

    cpu.op_6xkk(x, nn);

    assert_eq!(nn, cpu.registers[x]);
}

#[test]
fn cpu_test_7xkk() {
    let mut cpu = Cpu::new();
    let x = 0xD;
    let nn = 0xA;
    cpu.registers[x] = 0xE2;
    let expected = cpu.registers[x].wrapping_add(nn);

    cpu.op_7xkk(x, nn);

    assert_eq!(expected, cpu.registers[x]);
}

#[test]
fn cpu_test_8xy0() {
    let mut cpu = Cpu::new();
    let x = 0xD;
    let y = 0xE;
    cpu.registers[y] = 0x1;

    cpu.op_8xy0(x, y);

    assert_eq!(cpu.registers[x], cpu.registers[y]);
}

#[test]
fn cpu_test_8xy1() {
    let mut cpu = Cpu::new();
    let platform = Platform::default();
    let x = 0xD;
    let y = 0xE;
    cpu.registers[x] = 0x8;
    cpu.registers[y] = 0xA;
    let expected = cpu.registers[x] | cpu.registers[y];

    cpu.op_8xy1(&platform, x, y);

    assert_eq!(expected, cpu.registers[x]);
}

#[test]
fn cpu_test_8xy2() {
    let mut cpu = Cpu::new();
    let platform = Platform::default();
    let x = 0xD;
    let y = 0xE;
    cpu.registers[x] = 0x8;
    cpu.registers[y] = 0xA;
    let expected = cpu.registers[x] & cpu.registers[y];

    cpu.op_8xy2(&platform, x, y);

    assert_eq!(expected, cpu.registers[x]);
}

#[test]
fn cpu_test_8xy3() {
    let mut cpu = Cpu::new();
    let platform = Platform::default();
    let x = 0xD;
    let y = 0xE;
    cpu.registers[x] = 0x8;
    cpu.registers[y] = 0xA;
    let expected = cpu.registers[x] ^ cpu.registers[y];

    cpu.op_8xy3(&platform, x, y);

    assert_eq!(expected, cpu.registers[x]);
}

#[test]
fn cpu_test_8xy4() {
    let mut cpu = Cpu::new();
    let x = 0xD;
    let y = 0xE;
    cpu.registers[x] = 0xF;
    cpu.registers[y] = 0xF;
    let (expected_result, expected_vf) = cpu.registers[x].overflowing_add(cpu.registers[y]);

    cpu.op_8xy4(x, y);

    assert_eq!(expected_result, cpu.registers[x]);
    assert_eq!(expected_vf as u8, cpu.registers[0xF]);
}

#[test]
fn cpu_test_8xy5() {
    let mut cpu = Cpu::new();
    let x = 0xD;
    let y = 0xE;
    cpu.registers[x] = 0xF;
    cpu.registers[y] = 0xA;
    let (expected_result, did_borrow) = cpu.registers[x].overflowing_sub(cpu.registers[y]);
    let expected_vf = !did_borrow as u8;

    cpu.op_8xy5(x, y);

    assert_eq!(expected_result, cpu.registers[x]);
    assert_eq!(expected_vf, cpu.registers[0xF]);
}

#[test]
fn cpu_test_8xy6() {
    let mut cpu = Cpu::new();
    let platform = Platform::default();
    let x = 0xD;
    cpu.registers[x] = 0xF;
    let expected_result = cpu.registers[x] >> 1;
    let expected_vf = cpu.registers[x] & 1;

    cpu.op_8xy6(&platform, x, x);

    assert_eq!(expected_result, cpu.registers[x]);
    assert_eq!(expected_vf, cpu.registers[0xF]);
}

#[test]
fn cpu_test_8xy7() {
    let mut cpu = Cpu::new();
    let x = 0xD;
    let y = 0xE;
    cpu.registers[x] = 0xA;
    cpu.registers[y] = 0xF;
    let (expected_result, did_borrow) = cpu.registers[y].overflowing_sub(cpu.registers[x]);
    let expected_vf = !did_borrow as u8;

    cpu.op_8xy7(x, y);

    assert_eq!(expected_result, cpu.registers[x]);
    assert_eq!(expected_vf, cpu.registers[0xF]);
}

#[test]
fn cpu_test_8xye() {
    let mut cpu = Cpu::new();
    let platform = Platform::default();
    let x = 0xD;
    cpu.registers[x] = 0xF;
    let expected_result = cpu.registers[x] << 1;
    let expected_vf = (cpu.registers[x] & 0x80) >> 7;

    cpu.op_8xye(&platform, x, x);

    assert_eq!(expected_result, cpu.registers[x]);
    assert_eq!(expected_vf, cpu.registers[0xF]);
}

#[test]
fn cpu_test_9xy0() {
    // Skip case
    let mut cpu = Cpu::new();
    let x = 0xD;
    let y = 0xE;
    let mut starting_pc = cpu.pc;
    cpu.registers[x] = 0x5;
    cpu.registers[y] = 0x6;

    cpu.op_9xy0(x, y);
    assert_eq!(starting_pc + 4, cpu.pc); // Should skip (PC+4)

    // No skip case
    cpu = Cpu::new();
    starting_pc = cpu.pc;
    cpu.registers[x] = 0x5;
    cpu.registers[y] = 0x5;

    cpu.op_9xy0(x, y);
    assert_eq!(starting_pc + 2, cpu.pc); // Should not skip (PC+2)
}

#[test]
fn cpu_test_annn() {
    let mut cpu = Cpu::new();
    let nnn = 0x100;

    cpu.op_annn(nnn);

    assert_eq!(nnn, cpu.i);
}

#[test]
fn cpu_test_bnnn() {
    let mut cpu = Cpu::new();
    let platform = Platform::default();
    let nnn = 0x200;
    cpu.registers[0] = 0x5;
    let expected = nnn + cpu.registers[0] as u16;

    cpu.op_bnnn(&platform, nnn);

    assert_eq!(expected, cpu.pc); // Jump target
}

#[test]
fn cpu_test_cxkk() {
    let mut cpu = Cpu::new();
    let mut mem = Memory::new();
    let x = 0xD;
    let nn = 0xE;
    cpu.registers[x] = nn;

    cpu.op_cxkk(&mut mem, x, nn);

    assert_ne!(nn, cpu.registers[x]);
}

#[test]
fn cpu_test_op_dxyn() {
    let mut cpu = Cpu::new();
    let platform = Platform::default();
    let mut mem = Memory::new();
    cpu.i = 0x200;
    mem.ram[cpu.i as usize] = 0x1;
    mem.video[0x7] = 0x1;

    cpu.op_dxyn(&mut mem, &platform, 0, 0, 1);

    assert_eq!(0x0, mem.video[0x7]);
    assert_eq!(0x1, cpu.registers[0xF]);
}

#[test]
fn cpu_test_ex9e() {
    // Skip case
    let mut cpu = Cpu::new();
    let mut mem = Memory::new();
    let x = 0xD;
    let mut starting_pc = cpu.pc;

    cpu.registers[x] = 0x5;
    mem.keypad[0x5] = true;
    cpu.op_ex9e(&mem, x);

    assert_eq!(starting_pc + 4, cpu.pc); // Should skip (PC+4)

    // No skip case
    cpu = Cpu::new();
    mem = Memory::new();
    starting_pc = cpu.pc;

    cpu.registers[x] = 0x5;
    cpu.op_ex9e(&mem, x);

    assert_eq!(starting_pc + 2, cpu.pc); // Should not skip (PC+2)
}

#[test]
fn cpu_test_exa1() {
    // Skip case
    let mut cpu = Cpu::new();
    let mut mem = Memory::new();
    let x = 0xD;
    let mut starting_pc = cpu.pc;
    cpu.registers[x] = 0x5;

    cpu.op_exa1(&mem, x);
    assert_eq!(starting_pc + 4, cpu.pc); // Should skip (PC+4)

    // No skip case
    cpu = Cpu::new();
    mem = Memory::new();
    starting_pc = cpu.pc;
    cpu.registers[x] = 0x5;
    mem.keypad[0x5] = true;

    cpu.op_exa1(&mem, x);
    assert_eq!(starting_pc + 2, cpu.pc); // Should not skip (PC+2)
}

#[test]
fn cpu_test_fx07() {
    let mut cpu = Cpu::new();
    let x = 0xD;
    cpu.registers[x] = 0x1;
    cpu.dt = 0xF;

    cpu.op_fx07(x);

    assert_eq!(cpu.registers[x], cpu.dt);
}

#[test]
fn cpu_test_fx0a() {
    let mut cpu = Cpu::new();
    let mut mem = Memory::new();
    let x = 0xD;
    let starting_pc = cpu.pc;
    mem.keypad[5] = true;

    cpu.op_fx0a(&mem, x);

    assert_eq!(5, cpu.registers[x]); // Register set to pressed key
    assert_eq!(starting_pc + 2, cpu.pc); // PC incremented
}

#[test]
fn cpu_test_fx15() {
    let mut cpu = Cpu::new();
    let x = 0xD;
    cpu.registers[x] = 0x11;
    cpu.dt = 0x12;

    cpu.op_fx15(x);

    assert_eq!(cpu.dt, cpu.registers[x]);
}

#[test]
fn cpu_test_fx18() {
    let mut cpu = Cpu::new();
    let x = 0xD;
    cpu.registers[x] = 0x11;
    cpu.st = 0x12;

    cpu.op_fx18(x);

    assert_eq!(cpu.st, cpu.registers[x]);
}

#[test]
fn cpu_test_fx1e() {
    let mut cpu = Cpu::new();
    let x = 0xD;
    cpu.registers[x] = 0x11;
    cpu.i = 0x12;
    let expected = cpu.registers[x] as u16 + cpu.i;

    cpu.op_fx1e(x);

    assert_eq!(expected, cpu.i);
}

#[test]
fn cpu_test_fx29() {
    let mut cpu = Cpu::new();
    let x = 0xD;
    cpu.registers[x] = 0x11;
    cpu.i = 0x12;
    let expected = cpu.registers[x] as u16 * CHAR_SIZE as u16;

    cpu.op_fx29(x);

    assert_eq!(expected, cpu.i);
}

#[test]
fn cpu_test_fx33() {
    let mut cpu = Cpu::new();
    let mut mem = Memory::new();
    let x = 0xD;
    cpu.registers[x] = 0xFF;
    cpu.i = 0xFF;
    let mut result = cpu.registers[x];
    let expected1 = result % 10;
    result /= 10;
    let expected2 = result % 10;
    result /= 10;
    let expected3 = result % 10;

    cpu.op_fx33(&mut mem, x);

    assert_eq!(expected1, mem.ram[cpu.i as usize + 2]);
    assert_eq!(expected2, mem.ram[cpu.i as usize + 1]);
    assert_eq!(expected3, mem.ram[cpu.i as usize]);
}

#[test]
fn cpu_test_fx55() {
    let mut cpu = Cpu::new();
    let platform = Platform::default();
    let mut mem = Memory::new();
    let x = 0x2;
    let expected = 0xEF;
    for offset in 0..=x {
        cpu.registers[offset] = expected;
    }

    cpu.op_fx55(&mut mem, &platform, x);

    assert_eq!(expected, mem.ram[cpu.i as usize]);
    assert_eq!(expected, mem.ram[cpu.i as usize + 1]);
    assert_eq!(expected, mem.ram[cpu.i as usize + 2]);
}

#[test]
fn cpu_test_fx65() {
    let mut cpu = Cpu::new();
    let platform = Platform::default();
    let mut mem = Memory::new();
    let x = 0x2;
    let expected = 0xEF;
    for offset in 0..=x {
        mem.ram[cpu.i as usize + offset] = expected;
    }

    cpu.op_fx65(&mem, &platform, x);

    assert_eq!(expected, cpu.registers[0]);
    assert_eq!(expected, cpu.registers[1]);
    assert_eq!(expected, cpu.registers[2]);
}
