use nes_emu::bus::Bus;
use nes_emu::cpu::StepResult;
use nes_emu::cpu::CPU;
use nes_emu::rom::Rom;
use nes_emu::trace::trace;

fn test_rom() -> Rom {
    let mut raw = vec![0x4e, 0x45, 0x53, 0x1a, 0x02, 0x01, 0x31, 0, 0, 0, 0, 0, 0, 0, 0, 0];
    raw.extend(vec![1; 2 * 16384]);
    raw.extend(vec![2; 8192]);
    Rom::new(&raw).unwrap()
}

fn run_traced(cpu: &mut CPU) -> Vec<String> {
    let mut result: Vec<String> = vec![];
    loop {
        result.push(trace(cpu));
        match cpu.step() {
            Ok(StepResult::Break) => break,
            Ok(_) => {}
            Err(e) => panic!("{:?}", e),
        }
    }
    result
}

#[test]
fn test_format_trace() {
    let mut bus = Bus::new_with_rom(test_rom());
    bus.memory_write_u8(100, 0xa2);
    bus.memory_write_u8(101, 0x01);
    bus.memory_write_u8(102, 0xca);
    bus.memory_write_u8(103, 0x88);
    bus.memory_write_u8(104, 0x00);

    let mut cpu = CPU::new(bus);
    cpu.reg_pc = 0x64;
    cpu.reg_a = 1;
    cpu.reg_x = 2;
    cpu.reg_y = 3;
    let result = run_traced(&mut cpu);
    assert_eq!("0064  A2 01     LDX #$01                        A:01 X:02 Y:03 P:24 SP:FD", result[0]);
    assert_eq!("0066  CA        DEX                             A:01 X:01 Y:03 P:24 SP:FD", result[1]);
    assert_eq!("0067  88        DEY                             A:01 X:00 Y:03 P:26 SP:FD", result[2]);
}

#[test]
fn test_format_mem_access() {
    let mut bus = Bus::new_with_rom(test_rom());
    // ORA ($33), Y
    bus.memory_write_u8(100, 0x11);
    bus.memory_write_u8(101, 0x33);

    // data
    bus.memory_write_u8(0x33, 00);
    bus.memory_write_u8(0x34, 04);

    // target cell
    bus.memory_write_u8(0x400, 0xAA);

    let mut cpu = CPU::new(bus);
    cpu.reg_pc = 0x64;
    cpu.reg_y = 0;
    let result = run_traced(&mut cpu);
    assert_eq!("0064  11 33     ORA ($33),Y = 0400 @ 0400 = AA  A:00 X:00 Y:00 P:24 SP:FD", result[0]);
}

#[test]
fn trace_jmp_absolute_line() {
    let mut bus = Bus::new();
    bus.memory_write_u8(0x10, 0x4c);
    bus.memory_write_u8(0x11, 0xf5);
    bus.memory_write_u8(0x12, 0x05);
    let mut cpu = CPU::new(bus);
    cpu.reg_pc = 0x10;
    assert_eq!(trace(&mut cpu), "0010  4C F5 05  JMP $05F5                       A:00 X:00 Y:00 P:24 SP:FD");
}

#[test]
fn trace_undocumented_and_accumulator_forms() {
    let mut bus = Bus::new();
    bus.memory_write_u8(0x10, 0x0a);
    bus.memory_write_u8(0x11, 0xa7);
    bus.memory_write_u8(0x12, 0x20);
    bus.memory_write_u8(0x20, 0x5a);
    let mut cpu = CPU::new(bus);
    cpu.reg_pc = 0x10;
    assert_eq!(trace(&mut cpu), "0010  0A        ASL A                           A:00 X:00 Y:00 P:24 SP:FD");
    cpu.reg_pc = 0x11;
    assert_eq!(trace(&mut cpu), "0011  A7 20    *LAX $20 = 5A                    A:00 X:00 Y:00 P:24 SP:FD");
}

#[test]
fn trace_first_line_from_c000() {
    let mut raw = vec![0x4e, 0x45, 0x53, 0x1a, 0x01, 0x01, 0x00, 0, 0, 0, 0, 0, 0, 0, 0, 0];
    let mut prg = vec![0u8; 16384];
    prg[0] = 0x4c;
    prg[1] = 0xf5;
    prg[2] = 0xc5;
    raw.extend(prg);
    raw.extend(vec![0u8; 8192]);
    let mut cpu = CPU::new(Bus::new_with_rom(Rom::new(&raw).unwrap()));
    cpu.reset();
    cpu.reg_pc = 0xc000;
    assert_eq!(trace(&mut cpu), "C000  4C F5 C5  JMP $C5F5                       A:00 X:00 Y:00 P:24 SP:FD");
    assert_eq!(cpu.step(), Ok(StepResult::Continue));
    assert_eq!(cpu.reg_pc, 0xc5f5);
}
