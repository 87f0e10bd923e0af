use nes::joypad::JoypadButton;
use nes::bus::Bus;
use nes::cartridge::Cartridge;
use nes::cpu::CPU;

#[test]
fn test_mem_read_write() {
    let mut bus = Bus::new(Cartridge::new_dummy());
    bus.cpu_write(0x0000, 0xFF);
    assert_eq!(bus.cpu_read(0x0000), 0xFF);
    assert_eq!(bus.cpu_read(0x0800), 0xFF);
    assert_eq!(bus.cpu_read(0x1000), 0xFF);
    assert_eq!(bus.cpu_read(0x1800), 0xFF);
}

// PRG-ROM writes are claimed by the cartridge and discarded.
#[test]
fn test_rom_writes_discarded() {
    let cart = Cartridge::new_from_program(vec![0x42]);
    let mut bus = Bus::new(cart);
    assert_eq!(bus.cpu_read(0x8000), 0x42);
    bus.cpu_write(0x8000, 0x99);
    assert_eq!(bus.cpu_read(0x8000), 0x42);
}

// Reads from unmapped addresses (the APU stub among them) return 0.
#[test]
fn test_unmapped_reads_zero() {
    let mut bus = Bus::new(Cartridge::new_dummy());
    assert_eq!(bus.cpu_read(0x4000), 0);
    assert_eq!(bus.cpu_read(0x4015), 0);
    assert_eq!(bus.cpu_read(0x5000), 0);
}

// The joypad ports route through the bus: strobe then read the A button.
#[test]
fn test_joypad_through_bus() {
    let mut bus = Bus::new(Cartridge::new_dummy());
    bus.joypad1.set(JoypadButton::ButtonA);
    bus.joypad1.set(JoypadButton::Start);
    bus.cpu_write(0x4016, 1);
    bus.cpu_write(0x4016, 0);
    let bits: Vec<u8> = (0..8).map(|_| bus.cpu_read(0x4016)).collect();
    assert_eq!(bits, vec![1, 0, 0, 1, 0, 0, 0, 0]);
}

// OAM DMA: writing a page number to $4014 copies 256 bytes of CPU memory
// into the PPU's OAM while the CPU is suspended, in 513 or 514 CPU cycles.
#[test]
fn test_oam_dma_copies_a_page() {
    let cart = Cartridge::new_from_program(vec![0xea; 16]);
    let bus = Bus::new(cart);
    let mut cpu = CPU::new(bus);
    cpu.reset();
    cpu.pc = 0x8000;

    for i in 0..256u16 {
        cpu.bus.cpu_write(0x0200 + i, i as u8);
    }
    cpu.bus.cpu_write(0x4014, 0x02);
    assert!(cpu.bus.dma_transfer);

    let pc_at_start = cpu.pc;
    let mut cpu_cycles_suspended = 0u32;
    while cpu.bus.dma_transfer {
        // drive the machine at PPU pace, as the run loop does
        let t = cpu.bus.total_system_cycles;
        cpu.step();
        if t % 3 == 0 {
            cpu_cycles_suspended += 1;
        }
        assert_eq!(cpu.pc, pc_at_start, "the CPU must not run during DMA");
    }
    for i in 0..256usize {
        assert_eq!(cpu.bus.ppu.oam_data[i], i as u8);
    }
    // a possible idle cycle, then 256 read/write pairs
    assert!(cpu_cycles_suspended == 513 || cpu_cycles_suspended == 514);
}

// An NMI edge reported by step() appears exactly when the PPU enters
// vertical blank with NMI generation enabled.
#[test]
fn test_step_reports_vblank_edge() {
    let mut image = vec![0xea; 0x4000]; // NOPs everywhere
    image[0x3ffc] = 0x00;
    image[0x3ffd] = 0x80;
    let cart = Cartridge::new_from_program(image);
    let bus = Bus::new(cart);
    let mut cpu = CPU::new(bus);
    cpu.reset();
    cpu.bus.ppu.write_ctrl_reg(0b1000_0000);

    let mut edges = 0u32;
    // two frames of PPU ticks
    for _ in 0..(262 * 341 * 2) {
        if cpu.step() {
            edges += 1;
            assert_eq!(cpu.bus.ppu.scanlines, 241);
        }
    }
    assert_eq!(edges, 2);
}

// A tiny program executed through the real clock: the CPU runs one cycle for
// every three PPU cycles and its stores land in RAM.
#[test]
fn test_clocked_program_execution() {
    // LDA #$42; STA $0200; INX; JMP $8005 (spin)
    let program = vec![0xa9, 0x42, 0x8d, 0x00, 0x02, 0xe8, 0x4c, 0x05, 0x80];
    let cart = Cartridge::new_from_program(program);
    let bus = Bus::new(cart);
    let mut cpu = CPU::new(bus);
    cpu.reset();
    cpu.pc = 0x8000;
    cpu.cycles = 0;
    for _ in 0..300 {
        cpu.step();
    }
    assert_eq!(cpu.bus.cpu_read(0x0200), 0x42);
    assert_eq!(cpu.acc, 0x42);
    assert!(cpu.reg_x >= 1);
    // the spin loop holds the program counter inside $8005..$8008
    assert!(0x8005 <= cpu.pc && cpu.pc <= 0x8008);
}
