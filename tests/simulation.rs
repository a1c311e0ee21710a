use modbus_plc::plc::{
    coil_values, holding_values, tick_width_ms, PlcAction, Simulation, FAST_TICK_MS,
    NORMAL_TICK_MS,
};
use modbus_plc::storage::{new_registers, read_coils, read_holdings};

fn low_active(coils: &[bool], low: usize) -> Vec<usize> {
    (0..low).filter(|&i| coils[i]).collect()
}

fn high_level(coils: &[bool], low: usize) -> usize {
    coils[low..].iter().take_while(|&&c| c).count()
}

#[test]
fn coil_waves_at_chosen_ticks() {
    let c0 = coil_values(20, 0);
    assert_eq!(low_active(&c0, 6), vec![0]);
    assert_eq!(high_level(&c0, 6), 0);
    let c7 = coil_values(20, 7);
    assert_eq!(low_active(&c7, 6), vec![3]);
    assert_eq!(high_level(&c7, 6), 7);
    assert!(c7[6..13].iter().all(|&c| c));
    assert!(c7[13..].iter().all(|&c| !c));
    let c14 = coil_values(20, 14);
    assert_eq!(high_level(&c14, 6), 14);
    let c15 = coil_values(20, 15);
    assert_eq!(high_level(&c15, 6), 13);
}

#[test]
fn coil_waves_are_periodic() {
    for counter in 0..100 {
        let now = coil_values(20, counter);
        let low_later = coil_values(20, counter + 10);
        let high_later = coil_values(20, counter + 28);
        assert_eq!(low_active(&now, 6), low_active(&low_later, 6));
        assert_eq!(high_level(&now, 6), high_level(&high_later, 6));
        assert_eq!(low_active(&now, 6).len(), 1);
    }
}

#[test]
fn smallest_coil_bank_with_a_wave() {
    // six coils: a low segment of two, whose wave has period two
    assert_eq!(coil_values(6, 0), vec![true, false, false, false, false, false]);
    assert_eq!(coil_values(6, 1), vec![false, true, true, false, false, false]);
    assert_eq!(coil_values(6, 2), vec![true, false, true, true, false, false]);
    assert_eq!(coil_values(6, 8), vec![true, false, false, false, false, false]);
}

#[test]
fn holdings_count_at_harmonic_rates() {
    assert_eq!(holding_values(5, 12), vec![12, 6, 4, 3, 2]);
    assert_eq!(holding_values(5, 70000), vec![4464, 35000, 23333, 17500, 14000]);
    assert_eq!(holding_values(0, 3), Vec::<u16>::new());
}

#[test]
fn tick_width_follows_the_switch() {
    assert_eq!(tick_width_ms(true), FAST_TICK_MS);
    assert_eq!(tick_width_ms(false), NORMAL_TICK_MS);
    assert_eq!(tick_width_ms(false), 100);
}

#[test]
fn ticks_fall_due_in_a_new_bucket() {
    let sim = Simulation::new(100, 1000);
    assert!(!sim.is_due(1000));
    assert!(!sim.is_due(1099));
    assert!(sim.is_due(1100));
    assert!(sim.is_due(900));
}

#[test]
fn a_tick_writes_both_banks_and_counts() {
    let mut regs = new_registers();
    let mut sim = Simulation::new(1, 0);
    for t in 1..=8u64 {
        sim.tick(&mut regs, t);
    }
    assert_eq!(sim.counter(), 8);
    assert!(!sim.is_due(8));
    assert_eq!(read_holdings(&regs, 0, 5).unwrap(), vec![7, 3, 2, 1, 1]);
    assert_eq!(read_coils(&regs, 0, 20).unwrap(), coil_values(20, 7));
}

#[test]
fn simulation_poll_stops_first_then_ticks_when_due() {
    let sim = Simulation::new(100, 1000);
    assert_eq!(sim.poll(true, 5000), PlcAction::Stop);
    assert_eq!(sim.poll(true, 1000), PlcAction::Stop);
    assert_eq!(sim.poll(false, 1050), PlcAction::Wait);
    assert_eq!(sim.poll(false, 1200), PlcAction::Tick);
}

#[test]
fn skipped_tick_is_not_retried_in_its_bucket() {
    let mut sim = Simulation::new(100, 1000);
    assert_eq!(sim.poll(false, 1120), PlcAction::Tick);
    sim.skip(1120);
    assert_eq!(sim.counter(), 0);
    assert_eq!(sim.poll(false, 1150), PlcAction::Wait);
    assert_eq!(sim.poll(false, 1200), PlcAction::Tick);
}

#[test]
fn waves_of_the_twenty_coil_bank_over_a_period() {
    let low: Vec<usize> = (0..=10).map(|k| low_active(&coil_values(20, k), 6)[0]).collect();
    assert_eq!(low, vec![0, 1, 2, 3, 4, 5, 4, 3, 2, 1, 0]);
    let high: Vec<usize> = (0..=28).map(|k| high_level(&coil_values(20, k), 6)).collect();
    let mut expected: Vec<usize> = (0..=14).collect();
    expected.extend((0..14).rev());
    assert_eq!(high, expected);
}
