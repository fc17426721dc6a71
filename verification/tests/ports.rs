use kernel_core::cpu;
use kernel_core::cpu::Cpu;
use kernel_core::cpu::Registers;
use kernel_core::cpu::Width;
use kernel_core::interrupts::Idt;
use kernel_core::pic;
use kernel_core::pit;

fn writes_of(cpu: &Cpu) -> Vec<(u16, u32)> {
    cpu.writes.iter().map(|w| (w.port, w.value)).collect()
}

#[test]
fn out8_logs_the_write_and_the_settle_delay() {
    let mut cpu = Cpu::new();
    cpu::out8(&mut cpu, 0x43, 0x36);
    assert_eq!(writes_of(&cpu), vec![(0x43, 0x36), (0x80, 0)]);
    assert_eq!(cpu.writes[0].width, Width::Bits8);
    // issued before sti: the log records the cleared interrupt flag
    assert!(!cpu.writes[0].ints_enabled);
    cpu::sti(&mut cpu);
    cpu::out8(&mut cpu, 0x43, 0x36);
    assert!(cpu.writes[2].ints_enabled);
}

#[test]
fn out32_logs_the_write_and_the_settle_delay() {
    let mut cpu = Cpu::new();
    cpu::out32(&mut cpu, 0xCF8, 0x8000_0000);
    assert_eq!(writes_of(&cpu), vec![(0xCF8, 0x8000_0000), (0x80, 0)]);
    assert_eq!(cpu.writes[0].width, Width::Bits32);
    assert_eq!(cpu.writes[1].width, Width::Bits8);
}

#[test]
fn iowait_writes_the_diagnostic_port() {
    let mut cpu = Cpu::new();
    cpu::iowait(&mut cpu);
    assert_eq!(writes_of(&cpu), vec![(0x80, 0)]);
}

#[test]
fn interrupt_flag_toggles() {
    let mut cpu = Cpu::new();
    assert!(!cpu.ints_enabled);
    cpu::sti(&mut cpu);
    assert!(cpu.ints_enabled);
    cpu::cli(&mut cpu);
    assert!(!cpu.ints_enabled);
    assert!(cpu.writes.is_empty());
}

#[test]
fn default_registers_are_zeroed() {
    let r = Registers::default();
    assert_eq!((r.ax, r.bx, r.cx, r.dx), (0, 0, 0, 0));
    assert_eq!((r.di, r.si, r.sp, r.bp), (0, 0, 0, 0));
}

#[test]
fn pic_init_issues_the_documented_sequence() {
    let mut cpu = Cpu::new();
    let pic = pic::init(&mut cpu);

    let expected: Vec<(u16, u32)> = vec![
        (0x20, 0x11), // start the initialization sequence on the master
        (0xA0, 0x11), // and on the slave
        (0x21, 0x20), // master vectors start at 0x20
        (0xA1, 0x28), // slave vectors start at 0x28
        (0x21, 0x04), // the slave cascades into line 2
        (0xA1, 0x02), // the slave's cascade identity
        (0x21, 0x01), // 8086 mode
        (0xA1, 0x01),
        (0x21, 0xFB), // mask all but the cascade line
        (0xA1, 0xFF), // mask every slave line
    ];
    let logged = writes_of(&cpu);
    assert_eq!(logged.len(), 20);
    for (i, (port, value)) in expected.iter().enumerate() {
        assert_eq!(logged[2 * i], (*port, *value));
        assert_eq!(logged[2 * i + 1], (0x80, 0));
    }

    // the whole command sequence ran with interrupts disabled
    assert!(cpu.writes.iter().all(|w| !w.ints_enabled));
    assert!(cpu.ints_enabled);
    assert_eq!(pic.master_mask, 0b1111_1011);
    assert_eq!(pic.slave_mask, 0xFF);
}

#[test]
fn unmask_clears_one_master_line() {
    let mut cpu = Cpu::new();
    let mut pic = pic::init(&mut cpu);
    let before = cpu.writes.len();

    pic::unmask(&mut pic, &mut cpu, 1);
    assert_eq!(pic.master_mask, 0b1111_1001);
    assert_eq!(pic.slave_mask, 0xFF);
    assert_eq!(writes_of(&cpu)[before..], [(0x21, 0b1111_1001), (0x80, 0)]);
    // the read-modify-write ran with interrupts disabled
    assert!(cpu.writes[before..].iter().all(|w| !w.ints_enabled));
}

#[test]
fn unmask_clears_one_slave_line() {
    let mut cpu = Cpu::new();
    let mut pic = pic::init(&mut cpu);
    let before = cpu.writes.len();

    pic::unmask(&mut pic, &mut cpu, 11);
    assert_eq!(pic.master_mask, 0b1111_1011);
    assert_eq!(pic.slave_mask, 0b1111_0111);
    assert_eq!(writes_of(&cpu)[before..], [(0xA1, 0b1111_0111), (0x80, 0)]);
}

#[test]
fn end_of_interrupt_reaches_both_controllers() {
    let mut cpu = Cpu::new();
    pic::end_of_interrupt(&mut cpu);
    assert_eq!(writes_of(&cpu), vec![(0x20, 0x20), (0x80, 0), (0xA0, 0x20), (0x80, 0)]);
}

#[test]
fn pit_init_programs_command_divisor_vector_and_mask() {
    let mut cpu = Cpu::new();
    let mut idt = Idt::init(1, 2);
    let mut pic = pic::init(&mut cpu);
    let before = cpu.writes.len();

    let pit = pit::init(&mut cpu, &mut idt, &mut pic, 1000, 0x00AB_CDEF);

    // 1193182 / 1000 = 1193 = 0x04A9
    let expected: Vec<(u16, u32)> = vec![
        (0x43, 0x36),
        (0x40, 0xA9),
        (0x40, 0x04),
        (0x21, 0b1111_1010),
    ];
    let logged = writes_of(&cpu);
    for (i, (port, value)) in expected.iter().enumerate() {
        assert_eq!(logged[before + 2 * i], (*port, *value));
        assert_eq!(logged[before + 2 * i + 1], (0x80, 0));
    }

    // the command, divisor and mask writes all ran with interrupts
    // disabled
    assert!(cpu.writes[before..].iter().all(|w| !w.ints_enabled));
    assert_eq!(pit.ticks, 0);
    assert_eq!(pic.master_mask, 0b1111_1010);
    assert_eq!(idt.entries[0x20].isr_low, 0xCDEF);
    assert_eq!(idt.entries[0x20].isr_high, 0x00AB);
    assert!(cpu.ints_enabled);
}

#[test]
fn pit_divisor_saturates_at_the_counter_width() {
    let mut cpu = Cpu::new();
    let mut idt = Idt::init(1, 2);
    let mut pic = pic::init(&mut cpu);
    let before = cpu.writes.len();

    pit::init(&mut cpu, &mut idt, &mut pic, 1, 0);

    let logged = writes_of(&cpu);
    assert_eq!(logged[before + 2], (0x40, 0xFF));
    assert_eq!(logged[before + 4], (0x40, 0xFF));
}

#[test]
fn sleep_advances_the_tick_count_and_acknowledges_each_tick() {
    let mut cpu = Cpu::new();
    let mut pit = pit::Pit { ticks: 5 };

    pit::sleep_ms(&mut pit, &mut cpu, 3);
    assert_eq!(pit.ticks, 8);
    // one end-of-interrupt, four port writes, per serviced tick
    assert_eq!(cpu.writes.len(), 12);

    pit::sleep_ms(&mut pit, &mut cpu, 0);
    assert_eq!(pit.ticks, 8);
    assert_eq!(cpu.writes.len(), 12);
}

#[test]
fn timer_handler_counts_and_acknowledges() {
    let mut cpu = Cpu::new();
    let mut pit = pit::Pit { ticks: 41 };
    pit::isr(&mut pit, &mut cpu);
    assert_eq!(pit.ticks, 42);
    assert_eq!(writes_of(&cpu), vec![(0x20, 0x20), (0x80, 0), (0xA0, 0x20), (0x80, 0)]);

    let mut wrapping = pit::Pit { ticks: u64::MAX };
    pit::isr(&mut wrapping, &mut cpu);
    assert_eq!(wrapping.ticks, 0);
}
