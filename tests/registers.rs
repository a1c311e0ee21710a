use modbus_plc::storage::{
    init_registers, new_registers, read_coil, read_coils, read_holding, read_holdings,
    write_coil, write_coils, write_holding, write_holdings, RegisterError, COIL_COUNT,
    HOLDING_COUNT,
};

#[test]
fn new_registers_are_cleared() {
    let regs = new_registers();
    assert_eq!(read_coils(&regs, 0, 20).unwrap(), vec![false; COIL_COUNT]);
    assert_eq!(read_holdings(&regs, 0, 5).unwrap(), vec![0u16; HOLDING_COUNT]);
}

#[test]
fn init_registers_announce_bank_sizes() {
    let regs = init_registers();
    assert_eq!(read_holdings(&regs, 0, 5).unwrap(), vec![20, 0, 0, 5, 0]);
}

#[test]
fn holding_write_then_read_returns_written_values() {
    let mut regs = new_registers();
    write_holdings(&mut regs, 0, &[20, 0, 0, 5]).unwrap();
    assert_eq!(read_holdings(&regs, 0, 4).unwrap(), vec![20, 0, 0, 5]);
}

#[test]
fn read_coil_past_bank_is_illegal_address() {
    let regs = new_registers();
    assert_eq!(read_coils(&regs, 25, 1), Err(RegisterError::OutOfRange));
    assert_eq!(read_coil(&regs, 25), Err(RegisterError::OutOfRange));
}

#[test]
fn bulk_coil_write_is_read_back_and_neighbours_kept() {
    let mut regs = new_registers();
    write_coil(&mut regs, 2, true).unwrap();
    write_coils(&mut regs, 5, &[true, false, true]).unwrap();
    assert_eq!(read_coils(&regs, 5, 3).unwrap(), vec![true, false, true]);
    assert_eq!(read_coils(&regs, 1, 4).unwrap(), vec![false, true, false, false]);
    assert_eq!(read_coil(&regs, 7), Ok(true));
}

#[test]
fn single_holding_write_is_read_back() {
    let mut regs = new_registers();
    write_holding(&mut regs, 4, 777).unwrap();
    assert_eq!(read_holding(&regs, 4), Ok(777));
    assert_eq!(read_holdings(&regs, 3, 2).unwrap(), vec![0, 777]);
}

#[test]
fn ranges_reaching_the_bank_end_are_accepted() {
    let regs = new_registers();
    assert_eq!(read_coils(&regs, 19, 1).unwrap(), vec![false]);
    assert_eq!(read_holdings(&regs, 5, 0).unwrap(), Vec::<u16>::new());
}

#[test]
fn out_of_range_reads_fail_without_wrapping() {
    let regs = new_registers();
    assert_eq!(read_holdings(&regs, 4, 2), Err(RegisterError::OutOfRange));
    assert_eq!(read_holdings(&regs, 65535, 65535), Err(RegisterError::OutOfRange));
    assert_eq!(read_coils(&regs, 0, 21), Err(RegisterError::OutOfRange));
    assert_eq!(read_holding(&regs, 5), Err(RegisterError::OutOfRange));
}

#[test]
fn out_of_range_writes_change_nothing() {
    let mut regs = init_registers();
    assert_eq!(write_holdings(&mut regs, 3, &[9, 9, 9]), Err(RegisterError::OutOfRange));
    assert_eq!(write_coils(&mut regs, 18, &[true, true, true]), Err(RegisterError::OutOfRange));
    assert_eq!(write_coil(&mut regs, 20, true), Err(RegisterError::OutOfRange));
    assert_eq!(write_holding(&mut regs, 5, 1), Err(RegisterError::OutOfRange));
    assert_eq!(read_holdings(&regs, 0, 5).unwrap(), vec![20, 0, 0, 5, 0]);
    assert_eq!(read_coils(&regs, 0, 20).unwrap(), vec![false; 20]);
}
