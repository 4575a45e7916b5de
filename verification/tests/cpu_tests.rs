use minicpu::cpu::Cpu;

#[test]
fn test_add_y_x() {
    let mut cpu: Cpu = Cpu::new();
    cpu.set_register(0, 3);
    cpu.set_register(1, 4);
    cpu.write_memory(0, 0x10);
    cpu.write_memory(1, 0x12);
    cpu.write_memory(2, 0x00);

    let _ = cpu.run();

    assert_eq!(cpu.get_value_at_register(2), 7);
}

#[test]
fn test_add_x() {
    let mut cpu: Cpu = Cpu::new();
    cpu.set_register(0, 3);
    cpu.write_memory(0, 0x20);
    cpu.write_memory(1, 0xF0);

    let _ = cpu.run();

    assert_eq!(cpu.get_value_at_register(0), 18);
}

#[test]
fn test_or_y_x() {
    let mut cpu: Cpu = Cpu::new();
    cpu.set_register(0, 0b0010);
    cpu.set_register(1, 0b1010);
    cpu.write_memory(0, 0x30);
    cpu.write_memory(1, 0x12);
    cpu.write_memory(2, 0x00);

    let _ = cpu.run();

    assert_eq!(cpu.get_value_at_register(2), 0b1010);
}

#[test]
fn test_or_x() {
    let mut cpu: Cpu = Cpu::new();
    cpu.set_register(0, 0b0010);
    cpu.write_memory(0, 0x40);
    cpu.write_memory(1, 0xF2);
    cpu.write_memory(2, 0x00);

    let _ = cpu.run();

    assert_eq!(cpu.get_value_at_register(2), 0b1111);
}

#[test]
fn test_and_y_x() {
    let mut cpu: Cpu = Cpu::new();
    cpu.set_register(0, 0b0010);
    cpu.set_register(1, 0b1010);
    cpu.write_memory(0, 0x50);
    cpu.write_memory(1, 0x12);
    cpu.write_memory(2, 0x00);

    let _ = cpu.run();

    assert_eq!(cpu.get_value_at_register(2), 0b0010);
}

#[test]
fn test_and_x() {
    let mut cpu: Cpu = Cpu::new();
    cpu.set_register(0, 0b1010);
    cpu.write_memory(0, 0x60);
    cpu.write_memory(1, 0xF2);
    cpu.write_memory(2, 0x00);

    let _ = cpu.run();

    assert_eq!(cpu.get_value_at_register(2), 0b1010);
}

#[test]
fn test_mov_y_x() {
    let mut cpu: Cpu = Cpu::new();
    cpu.set_register(0, 0b0010);
    cpu.set_register(1, 0b1010);
    cpu.write_memory(0, 0x70);
    cpu.write_memory(1, 0x1F);
    cpu.write_memory(2, 0x00);

    let _ = cpu.run();

    assert_eq!(cpu.get_value_at_register(0), 0b1010);
}

#[test]
fn test_mov_x() {
    let mut cpu: Cpu = Cpu::new();
    cpu.set_register(0, 0b1010);
    cpu.write_memory(0, 0x80);
    cpu.write_memory(1, 0xF2);
    cpu.write_memory(2, 0x00);

    let _ = cpu.run();

    assert_eq!(cpu.get_value_at_register(0), 0b1111);
}

#[test]
fn test_jump() {
    let mut cpu: Cpu = Cpu::new();
    cpu.write_memory(0, 0x90);
    cpu.write_memory(1, 0x26);
    cpu.write_memory(0x26, 0x30);

    let _ = cpu.run();

    assert_eq!(cpu.get_program_counter(), 0x28);
}

#[test]
fn test_fn_call_and_ret() {
    let mut cpu: Cpu = Cpu::new();
    cpu.set_register(0, 3);
    cpu.set_register(1, 4);

    // Call function at address 0x100
    cpu.write_memory(0, 0x01);
    cpu.write_memory(1, 0x11);
    cpu.write_memory(2, 0xA1);
    cpu.write_memory(3, 0x00);

    // terminate
    cpu.write_memory(4, 0x00);
    cpu.write_memory(5, 0x00);

    // fn to add registers 0 and 1 loaded into hex address 0x100 in memory
    cpu.write_memory(0x100, 0x10);
    cpu.write_memory(0x101, 0x12);
    cpu.write_memory(0x102, 0xB0);
    cpu.write_memory(0x103, 0x00);

    let _ = cpu.run();

    assert_eq!(cpu.get_value_at_register(2), 7);
    assert_eq!(cpu.get_program_counter(), 4);
}
