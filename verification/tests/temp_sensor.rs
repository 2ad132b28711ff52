use vorago_reb1::bus::{BusOp, BusTransport};
use vorago_reb1::sim::{SIM_READ_FAULT, SIM_WRITE_FAULT, SimBus};
use vorago_reb1::temp_sensor::{ADT75_I2C_ADDR, Adt75TempSensor, RegAddresses};

#[test]
fn register_address_bytes() {
    assert_eq!(RegAddresses::Temperature.address_byte(), 0x00);
    assert_eq!(RegAddresses::Configuration.address_byte(), 0x01);
    assert_eq!(RegAddresses::THystSetpoint.address_byte(), 0x02);
    assert_eq!(RegAddresses::TOsSetPoint.address_byte(), 0x03);
    assert_eq!(RegAddresses::OneShot.address_byte(), 0x04);
    assert_eq!(ADT75_I2C_ADDR, 0b1001000);
}

#[test]
fn construction_selects_temperature() {
    let bus = SimBus::new(vec![0x19, 0x00]);
    let client = Adt75TempSensor::new(bus, None).unwrap();
    assert_eq!(client.selected_reg(), RegAddresses::Temperature);
    assert_eq!(client.device_address(), 0b1001000);
    assert_eq!(client.bus().op_count(), 1);
    assert_eq!(client.bus().write_count(), 1);
    let bus = client.release();
    match &bus.ops()[0] {
        BusOp::Write { addr, data } => {
            assert_eq!(*addr, ADT75_I2C_ADDR);
            assert_eq!(data.as_slice(), &[0x00]);
        }
        other => panic!("expected the select write, got {:?}", other),
    }
}

#[test]
fn construction_fails_when_the_select_write_fails() {
    let mut bus = SimBus::new(vec![0x19, 0x00]);
    bus.set_fail_writes(true);
    let err = match Adt75TempSensor::new(bus, None) {
        Err(e) => e,
        Ok(_) => panic!("construction should fail with the bus"),
    };
    assert_eq!(err.code, SIM_WRITE_FAULT);
}

#[test]
fn address_override_is_used_on_the_wire() {
    let bus = SimBus::new(vec![0x19, 0x00]);
    let client = Adt75TempSensor::new(bus, Some(0x49)).unwrap();
    assert_eq!(client.device_address(), 0x49);
    let bus = client.release();
    match &bus.ops()[0] {
        BusOp::Write { addr, .. } => assert_eq!(*addr, 0x49),
        other => panic!("expected the select write, got {:?}", other),
    }
}

#[test]
fn idempotent_selection() {
    let bus = SimBus::new(vec![]);
    let mut client = Adt75TempSensor::new(bus, None).unwrap();
    // Temperature is already selected from construction: both calls are
    // free of bus traffic.
    client.select_reg(RegAddresses::Temperature).unwrap();
    client.select_reg(RegAddresses::Temperature).unwrap();
    assert_eq!(client.bus().write_count(), 1);
    // Selecting Configuration twice issues exactly one write in total.
    client.select_reg(RegAddresses::Configuration).unwrap();
    client.select_reg(RegAddresses::Configuration).unwrap();
    assert_eq!(client.bus().write_count(), 2);
    assert_eq!(client.selected_reg(), RegAddresses::Configuration);
    let bus = client.release();
    match &bus.ops()[1] {
        BusOp::Write { addr, data } => {
            assert_eq!(*addr, ADT75_I2C_ADDR);
            assert_eq!(data.as_slice(), &[0x01]);
        }
        other => panic!("expected the select write, got {:?}", other),
    }
}

#[test]
fn failed_select_does_not_corrupt_state() {
    let bus = SimBus::new(vec![]);
    let mut client = Adt75TempSensor::new(bus, None).unwrap();
    client.bus_mut().set_fail_writes(true);
    let err = client.select_reg(RegAddresses::Configuration).unwrap_err();
    assert_eq!(err.code, SIM_WRITE_FAULT);
    // The failed attempt reached the wire but the tracked selection did
    // not move.
    assert_eq!(client.selected_reg(), RegAddresses::Temperature);
    assert_eq!(client.bus().write_count(), 2);
    // A repeated selection retries the write rather than skipping it.
    client.bus_mut().set_fail_writes(false);
    client.select_reg(RegAddresses::Configuration).unwrap();
    assert_eq!(client.selected_reg(), RegAddresses::Configuration);
    assert_eq!(client.bus().write_count(), 3);
}

#[test]
fn end_to_end_read() {
    let bus = SimBus::new(vec![0x19, 0x00]);
    let mut client = Adt75TempSensor::new(bus, None).unwrap();
    let t = client.read_temperature().unwrap();
    assert_eq!(t.sixteenths, 400);
    assert_eq!(t.sixteenths as f32 / 16.0, 25.0);
    // One write (from construction; the read's select was skipped) and one
    // read.
    assert_eq!(client.bus().op_count(), 2);
    assert_eq!(client.bus().write_count(), 1);
    let bus = client.release();
    match &bus.ops()[1] {
        BusOp::Read { addr, len, data } => {
            assert_eq!(*addr, ADT75_I2C_ADDR);
            assert_eq!(*len, 2);
            assert_eq!(data.as_slice(), &[0x19, 0x00]);
        }
        other => panic!("expected the sample read, got {:?}", other),
    }
}

#[test]
fn read_reselects_after_another_register() {
    let bus = SimBus::new(vec![0xE7, 0x00]);
    let mut client = Adt75TempSensor::new(bus, None).unwrap();
    client.select_reg(RegAddresses::Configuration).unwrap();
    let t = client.read_temperature().unwrap();
    assert_eq!(t.sixteenths, -400);
    assert_eq!(t.sixteenths as f32 / 16.0, -25.0);
    assert_eq!(client.selected_reg(), RegAddresses::Temperature);
    // Construction write, Configuration select, Temperature re-select,
    // then the read.
    assert_eq!(client.bus().op_count(), 4);
    assert_eq!(client.bus().write_count(), 3);
}

#[test]
fn failed_read_is_reported_and_logged() {
    let bus = SimBus::new(vec![0x19, 0x00]);
    let mut client = Adt75TempSensor::new(bus, None).unwrap();
    client.bus_mut().set_fail_reads(true);
    let err = client.read_temperature().unwrap_err();
    assert_eq!(err.code, SIM_READ_FAULT);
    assert_eq!(client.selected_reg(), RegAddresses::Temperature);
    assert_eq!(client.bus().op_count(), 2);
    match &client.bus().ops()[1] {
        BusOp::Read { data, .. } => assert!(data.is_empty()),
        other => panic!("expected the failed read, got {:?}", other),
    }
}

#[test]
fn short_response_fails_the_read() {
    let bus = SimBus::new(vec![0x19]);
    let mut client = Adt75TempSensor::new(bus, None).unwrap();
    let err = client.read_temperature().unwrap_err();
    assert_eq!(err.code, SIM_READ_FAULT);
}

#[test]
fn failed_select_during_read_leaves_selection() {
    let bus = SimBus::new(vec![0x19, 0x00]);
    let mut client = Adt75TempSensor::new(bus, None).unwrap();
    client.select_reg(RegAddresses::OneShot).unwrap();
    client.bus_mut().set_fail_writes(true);
    let err = client.read_temperature().unwrap_err();
    assert_eq!(err.code, SIM_WRITE_FAULT);
    // The re-select failed, so the device still serves the old register.
    assert_eq!(client.selected_reg(), RegAddresses::OneShot);
    // Construction, OneShot select, failed Temperature select; no read.
    assert_eq!(client.bus().op_count(), 3);
    assert_eq!(client.bus().write_count(), 3);
}

#[test]
fn sim_bus_logs_direct_traffic() {
    let mut bus = SimBus::new(vec![0xAB, 0xCD, 0xEF]);
    bus.write(0x10, &vec![1, 2, 3]).unwrap();
    let got = bus.read(0x11, 2).unwrap();
    assert_eq!(got.as_slice(), &[0xAB, 0xCD]);
    assert_eq!(bus.op_count(), 2);
    assert_eq!(bus.write_count(), 1);
    match &bus.ops()[0] {
        BusOp::Write { addr, data } => {
            assert_eq!(*addr, 0x10);
            assert_eq!(data.as_slice(), &[1, 2, 3]);
        }
        other => panic!("expected the write, got {:?}", other),
    }
}
