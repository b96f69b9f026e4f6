use emu6502::clock::Clock;
use emu6502::Clockable;
use fake_clock::FakeClock;

#[derive(Debug)]
struct FakeClockable {
    cycles: usize,
}

impl Clockable for FakeClockable {
    fn get_cycles(&self) -> usize {
        return self.cycles;
    }

    fn step(&mut self) -> usize {
        self.cycles = self.cycles.wrapping_add(2);
        return 5;
    }
}

#[test]
fn clock_initial_state() {
    let fake_clockable = FakeClockable { cycles: 0 };

    let mut clock = Clock::init(fake_clockable, 1, 1);
    let mut prev_cycle_time = FakeClock::now();
    assert_eq!(0, clock.cpu.get_cycles(), "get_cycles");
    assert_eq!(1, clock.last_cycle_count, "last_cycle_count");
    assert_eq!(0, prev_cycle_time.elapsed().as_nanos(), "prev_cycle_time");

    FakeClock::advance_time(1);

    assert_eq!(1000000, prev_cycle_time.elapsed().as_nanos(), "prev_cycle_time");

    for _a in 0..clock.step_chunk {
        if clock.tick(prev_cycle_time.elapsed().as_nanos()) {
            prev_cycle_time = FakeClock::now();
        }
    }

    assert_eq!(2, clock.cpu.get_cycles(), "get_cycles");
    assert_eq!(5, clock.last_cycle_count, "last_cycle_count");
    assert_eq!(0, prev_cycle_time.elapsed().as_nanos(), "prev_cycle_time");
}

#[test]
fn clock_waits_until_due() {
    let mut clock = Clock::init(FakeClockable { cycles: 0 }, 2, 1);
    assert_eq!(500, clock.nano_per_cycle);
    assert!(!clock.tick(500));
    assert_eq!(0, clock.cpu.get_cycles());
    assert!(clock.tick(501));
    assert_eq!(2, clock.cpu.get_cycles());
    assert!(!clock.due(2500));
    assert!(clock.due(2501));
}
