use stm32_lessons::i2c::{
    eeprom_write_frame, own_address_field, write_address_byte, I2cMaster, I2cSlave, MasterFlags,
    SlaveFlags, I2C_SLAVE_ADDRESS, PAYLOAD_LEN,
};

fn tx_empty() -> MasterFlags {
    MasterFlags { start_sent: false, address_acked: false, stop_pending: false, tx_empty: true }
}

#[test]
fn address_bytes() {
    assert_eq!(write_address_byte(I2C_SLAVE_ADDRESS), 0b1010_1010);
    assert_eq!(write_address_byte(0x7F), 0xFE);
    assert_eq!(own_address_field(I2C_SLAVE_ADDRESS), 0b1010_1010);
    assert_eq!(own_address_field(0x7F), 0xFE);
}

#[test]
fn master_sends_address_then_payload_then_stop() {
    let mut master = I2cMaster::new();
    let start = master.on_event(MasterFlags {
        start_sent: true,
        address_acked: false,
        stop_pending: false,
        tx_empty: false,
    });
    assert_eq!(start.send_address, Some(0b1010_1010));
    assert_eq!(start.send_data, None);
    assert!(start.handled);
    let acked = master.on_event(MasterFlags {
        start_sent: false,
        address_acked: true,
        stop_pending: false,
        tx_empty: true,
    });
    assert!(acked.clear_address);
    assert_eq!(acked.send_data, Some(1));
    let mut sent = vec![1u8];
    for i in 1..PAYLOAD_LEN {
        let actions = master.on_event(tx_empty());
        sent.push(actions.send_data.unwrap());
        assert_eq!(actions.request_stop, i == PAYLOAD_LEN - 1);
    }
    assert_eq!(sent, vec![1, 2, 3, 4, 5, 6, 7, 8, 9]);
    let waiting = master.on_event(MasterFlags {
        start_sent: false,
        address_acked: false,
        stop_pending: true,
        tx_empty: true,
    });
    assert!(waiting.wait_for_stop);
    assert_eq!(waiting.send_data, None);
    let none = master.on_event(MasterFlags {
        start_sent: false,
        address_acked: false,
        stop_pending: false,
        tx_empty: false,
    });
    assert!(!none.handled);
}

#[test]
fn slave_stores_bytes_and_reports_on_stop() {
    let mut slave = I2cSlave::new();
    let matched = slave.on_event(SlaveFlags { address_matched: true, stop_detected: false }, None);
    assert!(matched.clear_address && matched.handled && matched.report.is_none());
    for byte in 1..=9u8 {
        let a = slave.on_event(SlaveFlags { address_matched: false, stop_detected: false }, Some(byte));
        assert_eq!(a.stored, Some(byte));
    }
    assert_eq!(slave.received_len(), 9);
    let stop = slave.on_event(SlaveFlags { address_matched: false, stop_detected: true }, None);
    assert_eq!(stop.report, Some(vec![1, 2, 3, 4, 5, 6, 7, 8, 9]));
    // The buffer is kept after the STOP.
    assert_eq!(slave.received_len(), 9);
    let idle = slave.on_event(SlaveFlags { address_matched: false, stop_detected: false }, None);
    assert!(!idle.handled);
}

#[test]
fn eeprom_frame_is_address_then_data() {
    assert_eq!(eeprom_write_frame(0, b"hello"), vec![0, b'h', b'e', b'l', b'l', b'o']);
    assert_eq!(eeprom_write_frame(0x10, &[]), vec![0x10]);
}

#[test]
fn whole_transfer_writes_address_then_payload_and_nothing_after_stop() {
    let mut master = I2cMaster::new();
    let mut writes = vec![];
    let mut stop_pending = false;
    let start = MasterFlags { start_sent: true, address_acked: false, stop_pending, tx_empty: false };
    let mut events = vec![start];
    events.push(MasterFlags { start_sent: false, address_acked: true, stop_pending, tx_empty: true });
    for _ in 0..12 {
        events.push(tx_empty());
    }
    for mut flags in events {
        flags.stop_pending = stop_pending;
        let actions = master.on_event(flags);
        writes.extend(actions.send_address);
        writes.extend(actions.send_data);
        if actions.request_stop {
            stop_pending = true;
        }
    }
    assert_eq!(writes, vec![0xAA, 1, 2, 3, 4, 5, 6, 7, 8, 9]);
    assert_eq!(master.sent_count(), PAYLOAD_LEN);
}
