use dmgcore::cpu::CPU;
use dmgcore::memory::AddressSpace;
use dmgcore::opcodes::get_instr;

fn cpu_bus() -> (CPU, AddressSpace) {
    (CPU::new(), AddressSpace::new())
}

#[test]
fn add_a_b_sets_all_flags() {
    // ADD A,B with A=0x3A, B=0xC6: result 0x00, Z=1 N=0 H=1 C=1.
    let (mut cpu, mut mem) = cpu_bus();
    cpu.registers.A = 0x3A;
    cpu.registers.B = 0xC6;
    let dict = get_instr(0x80);
    let _ = cpu.execute(0x80, dict, &mut mem);
    assert_eq!(cpu.registers.A, 0x00);
    assert!(cpu.registers.read_Z());
    assert!(!cpu.registers.read_N());
    assert!(cpu.registers.read_H());
    assert!(cpu.registers.read_C());
}

#[test]
fn add_hl_bc_flags() {
    // ADD HL,BC with HL=0x8A23, BC=0x0605: HL=0x9028, N=0 H=1 C=0, Z kept.
    let (mut cpu, mut mem) = cpu_bus();
    cpu.registers.set_HL(0x8A23);
    cpu.registers.set_BC(0x0605);
    cpu.registers.set_Z();
    let dict = get_instr(0x09);
    let _ = cpu.execute(0x09, dict, &mut mem);
    assert_eq!(cpu.registers.HL(), 0x9028);
    assert!(!cpu.registers.read_N());
    assert!(cpu.registers.read_H());
    assert!(!cpu.registers.read_C());
    assert!(cpu.registers.read_Z());
}

#[test]
fn daa_after_add_a_a() {
    // ADD A,A with A=0x45 gives 0x8A; DAA corrects to 0x90 with C=0.
    let (mut cpu, mut mem) = cpu_bus();
    cpu.registers.A = 0x45;
    let _ = cpu.execute(0x87, get_instr(0x87), &mut mem);
    assert_eq!(cpu.registers.A, 0x8A);
    let _ = cpu.execute(0x27, get_instr(0x27), &mut mem);
    assert_eq!(cpu.registers.A, 0x90);
    assert!(!cpu.registers.read_C());
}

#[test]
fn daa_leaves_valid_bcd_alone() {
    let (mut cpu, mut mem) = cpu_bus();
    cpu.registers.A = 0x99;
    cpu.registers.clear_N();
    cpu.registers.clear_H();
    cpu.registers.clear_C();
    let _ = cpu.execute(0x27, get_instr(0x27), &mut mem);
    assert_eq!(cpu.registers.A, 0x99);
}

#[test]
fn loads_move_value_and_keep_flags() {
    // LD D,B copies B and leaves every flag alone.
    let (mut cpu, mut mem) = cpu_bus();
    cpu.registers.B = 0x7E;
    cpu.registers.set_Z();
    cpu.registers.set_C();
    let _ = cpu.execute(0x50, get_instr(0x50), &mut mem);
    assert_eq!(cpu.registers.D, 0x7E);
    assert_eq!(cpu.registers.B, 0x7E);
    assert!(cpu.registers.read_Z());
    assert!(cpu.registers.read_C());
    assert!(!cpu.registers.read_N());
}

#[test]
fn push_pop_round_trip_bc() {
    let (mut cpu, mut mem) = cpu_bus();
    cpu.registers.SP = 0xD000;
    cpu.push_stack(0xBEEF, &mut mem);
    assert_eq!(cpu.registers.SP, 0xCFFE);
    let v = cpu.pop_stack(&mem);
    assert_eq!(v, 0xBEEF);
    assert_eq!(cpu.registers.SP, 0xD000);
}

#[test]
fn pop_af_masks_low_nibble() {
    // PUSH BC; POP AF: AF reads back with its low nibble cleared.
    let (mut cpu, mut mem) = cpu_bus();
    cpu.registers.SP = 0xD000;
    cpu.registers.set_BC(0x12FF);
    let _ = cpu.execute(0xC5, get_instr(0xC5), &mut mem);
    let _ = cpu.execute(0xF1, get_instr(0xF1), &mut mem);
    assert_eq!(cpu.registers.AF(), 0x12F0);
}

#[test]
fn sub_and_compare_flags() {
    let (mut cpu, mut mem) = cpu_bus();
    cpu.registers.A = 0x10;
    cpu.registers.B = 0x20;
    let _ = cpu.execute(0x90, get_instr(0x90), &mut mem);
    assert_eq!(cpu.registers.A, 0xF0);
    assert!(cpu.registers.read_C());
    assert!(cpu.registers.read_N());
    // CP A leaves A and sets Z.
    let _ = cpu.execute(0xBF, get_instr(0xBF), &mut mem);
    assert_eq!(cpu.registers.A, 0xF0);
    assert!(cpu.registers.read_Z());
}

#[test]
fn cb_rotate_and_bit_ops() {
    let (mut cpu, mut mem) = cpu_bus();
    cpu.registers.B = 0x81;
    // RLC B: 0x81 -> 0x03, C=1.
    let _ = cpu.execute(0xCB00, get_instr(0xCB00), &mut mem);
    assert_eq!(cpu.registers.B, 0x03);
    assert!(cpu.registers.read_C());
    // SWAP B: 0x03 -> 0x30, C cleared.
    let _ = cpu.execute(0xCB30, get_instr(0xCB30), &mut mem);
    assert_eq!(cpu.registers.B, 0x30);
    assert!(!cpu.registers.read_C());
    // BIT 5,B: set, so Z=0.
    let _ = cpu.execute(0xCB68, get_instr(0xCB68), &mut mem);
    assert!(!cpu.registers.read_Z());
    // RES 5,B then SET 0,B.
    let _ = cpu.execute(0xCBA8, get_instr(0xCBA8), &mut mem);
    assert_eq!(cpu.registers.B, 0x10);
    let _ = cpu.execute(0xCBC0, get_instr(0xCBC0), &mut mem);
    assert_eq!(cpu.registers.B, 0x11);
}

#[test]
fn jumps_and_calls_use_the_stack() {
    let (mut cpu, mut mem) = cpu_bus();
    cpu.registers.SP = 0xD000;
    cpu.registers.write_PC(0xC000);
    // CALL 0x1234 with operand bytes at PC.
    mem.unlock_vram();
    mem.write(0xC000, 0x34);
    mem.write(0xC001, 0x12);
    let _ = cpu.execute(0xCD, get_instr(0xCD), &mut mem);
    assert_eq!(cpu.registers.PC(), 0x1234);
    // RET restores the address after the operands.
    let _ = cpu.execute(0xC9, get_instr(0xC9), &mut mem);
    assert_eq!(cpu.registers.PC(), 0xC002);
    assert_eq!(cpu.registers.SP, 0xD000);
}

#[test]
fn conditional_jump_cycle_counts() {
    let (mut cpu, mut mem) = cpu_bus();
    let dict = get_instr(0x20);
    // JR NZ taken costs 12, not taken 8; execute returns the remainder
    // after the 8 already charged for the two fetched bytes.
    cpu.registers.clear_Z();
    cpu.registers.write_PC(0xC010);
    let taken = cpu.execute(0x20, dict, &mut mem);
    assert_eq!(taken, 12 - 8);
    cpu.registers.set_Z();
    cpu.registers.write_PC(0xC010);
    let skipped = cpu.execute(0x20, dict, &mut mem);
    assert_eq!(skipped, 8 - 8);
}

#[test]
fn opcode_table_spot_checks() {
    assert_eq!(get_instr(0x00).length, 1);
    assert_eq!(get_instr(0x00).cycles_taken, 4);
    assert_eq!(get_instr(0xCD).length, 3);
    assert_eq!(get_instr(0xCD).cycles_taken, 24);
    assert_eq!(get_instr(0xC4).cycles_not_taken, 12);
    assert_eq!(get_instr(0x36).cycles_taken, 12);
    // BIT 0,(HL) costs 12; RES 0,(HL) costs 16.
    assert_eq!(get_instr(0xCB46).cycles_taken, 12);
    assert_eq!(get_instr(0xCB86).cycles_taken, 16);
    assert_eq!(get_instr(0xCB46).length, 2);
}

#[test]
fn halt_reexecutes_until_woken() {
    let (mut cpu, mut mem) = cpu_bus();
    cpu.registers.write_PC(0xC000);
    mem.write(0xC000, 0x76);
    let b = cpu.fetch(&mem);
    let (dict, op) = cpu.decode(b, &mem);
    let _ = cpu.execute(op, dict, &mut mem);
    assert!(cpu.is_halted());
    // PC points back at the HALT byte.
    assert_eq!(cpu.registers.PC(), 0xC000);
    cpu.quit_halt();
    assert!(!cpu.is_halted());
    assert_eq!(cpu.registers.PC(), 0xC001);
}
