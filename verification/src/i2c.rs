//! The I2C lessons: the event handlers of the interrupt-driven master (I2C1) that sends a
//! fixed list of bytes to the slave (I2C3), the slave that stores what it receives, and
//! the framing of the EEPROM write.

use vstd::prelude::*;

verus! {

/// The 7-bit address the slave answers to.
pub const I2C_SLAVE_ADDRESS: u8 = 0b1010101;

/// Number of bytes the master sends.
pub const PAYLOAD_LEN: usize = 9;

/// Size of the slave's receive buffer.
pub const RECEIVE_BUF_LEN: usize = 16;

/// The byte that addresses the 7-bit address `address` for a write: the address shifted
/// up by one bit, with the read/write bit (bit 0) clear.
pub fn write_address_byte(address: u8) -> (byte: u8)
    ensures
        byte == (address as int * 2) % 256,
        byte % 2 == 0,
{
    assert(((address << 1u8) & !(1u8 << 0u8)) == (address as int * 2) % 256) by (bit_vector);
    (address << 1) & !(1 << 0)
}

/// The ADD field of the own-address register OAR1 for the 7-bit address `address` (bits
/// 1..8 hold the address).
pub fn own_address_field(address: u8) -> (field: u16)
    ensures
        field == address as int * 2,
{
    assert(((address as u16) << 1u16) == (address as u16) * 2) by (bit_vector)
        requires
            address < 256,
    ;
    (address as u16) << 1
}

/// The bytes the master sends: 1, 2, ..., 9.
pub open spec fn payload_spec() -> Seq<u8> {
    Seq::new(PAYLOAD_LEN as nat, |i: int| (i + 1) as u8)
}

/// The status the master's event handler reads.
#[derive(Clone, Copy, Debug)]
pub struct MasterFlags {
    /// SB: the START condition went out.
    pub start_sent: bool,
    /// ADDR: the slave acknowledged its address.
    pub address_acked: bool,
    /// CR1.STOP: a STOP condition has been requested and is not yet on the bus.
    pub stop_pending: bool,
    /// TxE: the data register is empty.
    pub tx_empty: bool,
}

/// The byte an optional write puts on the bus, if any.
pub open spec fn option_bytes(byte: Option<u8>) -> Seq<u8> {
    match byte {
        Some(b) => seq![b],
        None => Seq::empty(),
    }
}

/// Whether the master's handler writes a data byte for these flags: the data register is
/// empty and no STOP is pending.
pub open spec fn sends_data(flags: MasterFlags) -> bool {
    !flags.stop_pending && flags.tx_empty
}

/// The address byte the master writes after a START: the slave's address for a write.
pub open spec fn address_byte() -> u8 {
    ((I2C_SLAVE_ADDRESS as int * 2) % 256) as u8
}

/// The bytes the master's handler writes to the data register for `flags`, with `sent`
/// bytes of the list already sent: the address byte after a START, then the next byte of
/// the list when it writes data.
pub open spec fn event_writes(sent: nat, flags: MasterFlags) -> Seq<u8> {
    (if flags.start_sent {
        seq![address_byte()]
    } else {
        Seq::<u8>::empty()
    }) + (if sends_data(flags) {
        seq![payload_spec()[sent as int]]
    } else {
        Seq::<u8>::empty()
    })
}

/// Number of bytes of the list sent after the handler runs for `flags`.
pub open spec fn sent_after(sent: nat, flags: MasterFlags) -> nat {
    if sends_data(flags) {
        sent + 1
    } else {
        sent
    }
}

/// Whether the handler requests the STOP: it writes the last byte of the list.
pub open spec fn stop_requested(sent: nat, flags: MasterFlags) -> bool {
    sends_data(flags) && sent == PAYLOAD_LEN - 1
}

/// Number of events in a run that write a data byte.
pub open spec fn data_events(events: Seq<MasterFlags>) -> nat
    decreases events.len(),
{
    if events.len() == 0 {
        0
    } else {
        (if sends_data(events[0]) {
            1nat
        } else {
            0nat
        }) + data_events(events.drop_first())
    }
}

/// The bytes the master writes to the data register over a run of events, starting with
/// `sent` bytes of the list already sent.
pub open spec fn transfer_writes(sent: nat, events: Seq<MasterFlags>) -> Seq<u8>
    decreases events.len(),
{
    if events.len() == 0 {
        Seq::empty()
    } else {
        event_writes(sent, events[0]) + transfer_writes(
            sent_after(sent, events[0]),
            events.drop_first(),
        )
    }
}

/// The events of one transfer as the bus presents them to the master: the first is the
/// START (with the data register not yet empty), no other START follows, and a STOP is
/// pending at exactly the events that come after the last byte of the list was written.
pub open spec fn is_transfer(events: Seq<MasterFlags>) -> bool {
    &&& events.len() >= 1
    &&& events[0].start_sent
    &&& !sends_data(events[0])
    &&& forall|i: int| 1 <= i < events.len() ==> !(#[trigger] events[i]).start_sent
    &&& forall|i: int|
        0 <= i < events.len() ==> (#[trigger] events[i]).stop_pending == (data_events(
            events.take(i),
        ) >= PAYLOAD_LEN)
}

proof fn lemma_data_events_take(events: Seq<MasterFlags>, i: int)
    requires
        events.len() >= 1,
        0 <= i < events.len(),
    ensures
        data_events(events.take(i + 1)) == (if sends_data(events[0]) {
            1nat
        } else {
            0nat
        }) + data_events(events.drop_first().take(i)),
{
    let t = events.take(i + 1);
    assert(t.drop_first() =~= events.drop_first().take(i));
    assert(t[0] == events[0]);
}

proof fn lemma_transfer_suffix(sent: nat, events: Seq<MasterFlags>)
    requires
        sent <= PAYLOAD_LEN,
        forall|i: int| 0 <= i < events.len() ==> !(#[trigger] events[i]).start_sent,
        forall|i: int|
            0 <= i < events.len() ==> (#[trigger] events[i]).stop_pending == (sent + data_events(
                events.take(i),
            ) >= PAYLOAD_LEN),
    ensures
        sent + data_events(events) <= PAYLOAD_LEN,
        transfer_writes(sent, events) == payload_spec().subrange(
            sent as int,
            (sent + data_events(events)) as int,
        ),
        forall|i: int|
            0 <= i < events.len() && sends_data(#[trigger] events[i]) ==> sent + data_events(
                events.take(i),
            ) < PAYLOAD_LEN,
    decreases events.len(),
{
    if events.len() == 0 {
        assert(payload_spec().subrange(sent as int, sent as int) =~= Seq::<u8>::empty());
    } else {
        let first = events[0];
        let rest = events.drop_first();
        let next = sent_after(sent, first);
        assert(events.take(0) =~= Seq::<MasterFlags>::empty());
        assert(first.stop_pending == (sent >= PAYLOAD_LEN));
        assert forall|i: int| 0 <= i < rest.len() implies (#[trigger] rest[i]).stop_pending == (
        next + data_events(rest.take(i)) >= PAYLOAD_LEN) by {
            lemma_data_events_take(events, i);
            assert(rest[i] == events[i + 1]);
        }
        assert forall|i: int| 0 <= i < rest.len() implies !(#[trigger] rest[i]).start_sent by {
            assert(rest[i] == events[i + 1]);
        }
        if sends_data(first) {
            assert(sent < PAYLOAD_LEN);
        }
        lemma_transfer_suffix(next, rest);
        assert forall|i: int|
            0 <= i < events.len() && sends_data(#[trigger] events[i]) implies sent + data_events(
            events.take(i),
        ) < PAYLOAD_LEN by {
            if i > 0 {
                lemma_data_events_take(events, i - 1);
                assert(rest[i - 1] == events[i]);
                assert(events.take(i) == events.take((i - 1) + 1));
            }
        }
        if sends_data(first) {
            assert(event_writes(sent, first) =~= seq![payload_spec()[sent as int]]);
            assert(payload_spec().subrange(sent as int, (sent + data_events(events)) as int)
                =~= seq![payload_spec()[sent as int]] + payload_spec().subrange(
                (sent + 1) as int,
                (sent + 1 + data_events(rest)) as int,
            ));
        } else {
            assert(event_writes(sent, first) =~= Seq::<u8>::empty());
            assert(transfer_writes(sent, events) =~= transfer_writes(sent, rest));
        }
    }
}

/// A whole transfer: the master writes the address byte first and then the bytes of the
/// list once each and in order, never more than the list, and nothing after the byte that
/// requests the STOP; every handler call meets its precondition. When the STOP has been
/// requested, the bytes written are exactly the address byte and the whole list.
pub proof fn lemma_master_transfer(events: Seq<MasterFlags>)
    requires
        is_transfer(events),
    ensures
        data_events(events) <= PAYLOAD_LEN,
        transfer_writes(0, events) == seq![address_byte()] + payload_spec().take(
            data_events(events) as int,
        ),
        forall|i: int|
            0 <= i < events.len() && sends_data(#[trigger] events[i]) ==> data_events(
                events.take(i),
            ) < PAYLOAD_LEN,
        data_events(events) == PAYLOAD_LEN ==> transfer_writes(0, events) == seq![
            address_byte(),
        ] + payload_spec(),
{
    let first = events[0];
    let rest = events.drop_first();
    assert forall|i: int| 0 <= i < rest.len() implies (#[trigger] rest[i]).stop_pending == (0
        + data_events(rest.take(i)) >= PAYLOAD_LEN) by {
        lemma_data_events_take(events, i);
        assert(rest[i] == events[i + 1]);
    }
    assert forall|i: int| 0 <= i < rest.len() implies !(#[trigger] rest[i]).start_sent by {
        assert(rest[i] == events[i + 1]);
    }
    lemma_transfer_suffix(0, rest);
    assert(event_writes(0, first) =~= seq![address_byte()]);
    assert(payload_spec().subrange(0, data_events(rest) as int) =~= payload_spec().take(
        data_events(rest) as int,
    ));
    assert forall|i: int|
        0 <= i < events.len() && sends_data(#[trigger] events[i]) implies data_events(
        events.take(i),
    ) < PAYLOAD_LEN by {
        if i > 0 {
            lemma_data_events_take(events, i - 1);
            assert(rest[i - 1] == events[i]);
            assert(events.take(i) == events.take((i - 1) + 1));
        }
    }
    assert(payload_spec().take(PAYLOAD_LEN as int) =~= payload_spec());
}

/// What the master's event handler does, in this order.
#[derive(Debug)]
pub struct MasterActions {
    /// Write this address byte to the data register (after reading SR1).
    pub send_address: Option<u8>,
    /// Clear ADDR by reading SR1 and then SR2.
    pub clear_address: bool,
    /// Only wait for the requested STOP to settle.
    pub wait_for_stop: bool,
    /// Write this byte to the data register.
    pub send_data: Option<u8>,
    /// Request the STOP condition: the byte sent is the last one.
    pub request_stop: bool,
    /// Whether any of the events was recognised.
    pub handled: bool,
}

/// The sending side: the list of bytes and how many of them went out.
pub struct I2cMaster {
    payload: Vec<u8>,
    index: usize,
}

impl I2cMaster {
    /// The list to send is [`payload_spec`] and `index` bytes of it went out.
    pub closed spec fn wf(&self) -> bool {
        &&& self.payload@ == payload_spec()
        &&& self.index <= PAYLOAD_LEN
    }

    /// Number of bytes sent so far.
    pub closed spec fn sent(&self) -> nat {
        self.index as nat
    }

    /// A master that has sent nothing yet.
    pub fn new() -> (master: Self)
        ensures
            master.wf(),
            master.sent() == 0,
    {
        let payload = vec![0x01, 0x02, 0x03, 0x04, 0x5, 0x6, 0x7, 0x8, 0x9];
        proof {
            assert(payload@ =~= payload_spec());
        }
        I2cMaster { payload, index: 0 }
    }

    /// Number of bytes sent so far.
    pub fn sent_count(&self) -> (count: usize)
        requires
            self.wf(),
        ensures
            count == self.sent(),
            count <= PAYLOAD_LEN,
    {
        self.index
    }

    /// Handles one event interrupt of the master.
    ///
    /// A START that went out is answered with the slave's address for a write; an
    /// acknowledged address is cleared; then, unless a STOP is pending, an empty data
    /// register gets the next byte of the list, and the last byte also requests the STOP.
    pub fn on_event(&mut self, flags: MasterFlags) -> (actions: MasterActions)
        requires
            old(self).wf(),
            sends_data(flags) ==> old(self).sent() < PAYLOAD_LEN,
        ensures
            final(self).wf(),
            flags.start_sent ==> actions.send_address == Some(address_byte()),
            !flags.start_sent ==> actions.send_address is None,
            option_bytes(actions.send_address) + option_bytes(actions.send_data) == event_writes(
                old(self).sent(),
                flags,
            ),
            actions.request_stop == stop_requested(old(self).sent(), flags),
            final(self).sent() == sent_after(old(self).sent(), flags),
            actions.clear_address == flags.address_acked,
            actions.wait_for_stop == flags.stop_pending,
            sends_data(flags) ==> {
                &&& actions.send_data == Some(payload_spec()[old(self).sent() as int])
                &&& actions.request_stop == (old(self).sent() == PAYLOAD_LEN - 1)
                &&& final(self).sent() == old(self).sent() + 1
            },
            !sends_data(flags) ==> {
                &&& actions.send_data == None::<u8>
                &&& !actions.request_stop
                &&& final(self).sent() == old(self).sent()
            },
            actions.handled == (flags.start_sent || flags.address_acked || flags.stop_pending
                || flags.tx_empty),
    {
        let mut handled = false;
        let mut send_address: Option<u8> = None;
        if flags.start_sent {
            send_address = Some(write_address_byte(I2C_SLAVE_ADDRESS));
            handled = true;
        }
        let clear_address = flags.address_acked;
        if flags.address_acked {
            handled = true;
        }
        let mut send_data: Option<u8> = None;
        let mut request_stop = false;
        if flags.stop_pending {
            handled = true;
        } else if flags.tx_empty {
            let index: usize = self.index;
            let byte: u8 = self.payload[index];
            send_data = Some(byte);
            if index == self.payload.len() - 1 {
                request_stop = true;
            }
            self.index = index + 1;
            handled = true;
        }
        MasterActions {
            send_address,
            clear_address,
            wait_for_stop: flags.stop_pending,
            send_data,
            request_stop,
            handled,
        }
    }
}

/// The status the slave's event handler reads.
#[derive(Clone, Copy, Debug)]
pub struct SlaveFlags {
    /// ADDR: the slave's own address was received.
    pub address_matched: bool,
    /// STOPF: a STOP condition was detected.
    pub stop_detected: bool,
}

/// What the slave's event handler does, in this order.
#[derive(Debug)]
pub struct SlaveActions {
    /// Clear ADDR by reading SR1 and then SR2 (the address is then acknowledged).
    pub clear_address: bool,
    /// The byte stored in the receive buffer.
    pub stored: Option<u8>,
    /// Clear STOPF and show everything received so far.
    pub report: Option<Vec<u8>>,
    /// Whether any of the events was recognised.
    pub handled: bool,
}

/// The receiving side: a buffer of [`RECEIVE_BUF_LEN`] bytes filled from the start.
pub struct I2cSlave {
    buf: Vec<u8>,
    index: usize,
}

impl I2cSlave {
    /// The buffer has its fixed size and the filled part fits in it.
    pub closed spec fn wf(&self) -> bool {
        &&& self.buf@.len() == RECEIVE_BUF_LEN
        &&& self.index <= RECEIVE_BUF_LEN
    }

    /// The bytes received so far, in order.
    pub closed spec fn received(&self) -> Seq<u8> {
        self.buf@.subrange(0, self.index as int)
    }

    /// A slave that has received nothing.
    pub fn new() -> (slave: Self)
        ensures
            slave.wf(),
            slave.received() == Seq::<u8>::empty(),
    {
        let buf = vec![0u8; RECEIVE_BUF_LEN];
        let slave = I2cSlave { buf, index: 0 };
        proof {
            assert(slave.received() =~= Seq::<u8>::empty());
        }
        slave
    }

    /// Number of bytes received so far.
    pub fn received_len(&self) -> (len: usize)
        requires
            self.wf(),
        ensures
            len == self.received().len(),
    {
        self.index
    }

    /// Handles one event interrupt of the slave; `data` is the byte read from the data
    /// register when RxNE was set.
    ///
    /// An address match is acknowledged, a received byte is appended to the buffer, and a
    /// STOP shows all bytes received so far (the buffer is not emptied).
    pub fn on_event(&mut self, flags: SlaveFlags, data: Option<u8>) -> (actions: SlaveActions)
        requires
            old(self).wf(),
            data is Some ==> old(self).received().len() < RECEIVE_BUF_LEN,
        ensures
            final(self).wf(),
            actions.clear_address == flags.address_matched,
            actions.stored == data,
            final(self).received() == match data {
                Some(byte) => old(self).received().push(byte),
                None => old(self).received(),
            },
            flags.stop_detected ==> (actions.report matches Some(shown) && shown@
                == final(self).received()),
            !flags.stop_detected ==> actions.report is None,
            actions.handled == (flags.address_matched || data is Some || flags.stop_detected),
    {
        let mut handled = false;
        if flags.address_matched {
            handled = true;
        }
        if let Some(byte) = data {
            let ghost before = self.received();
            let index: usize = self.index;
            self.buf.set(index, byte);
            self.index = index + 1;
            proof {
                assert(self.received() =~= before.push(byte));
            }
            handled = true;
        }
        let mut report: Option<Vec<u8>> = None;
        if flags.stop_detected {
            let mut shown: Vec<u8> = Vec::new();
            let mut i: usize = 0;
            while i < self.index
                invariant
                    self.wf(),
                    i <= self.index,
                    shown@ == self.received().subrange(0, i as int),
                decreases self.index - i,
            {
                shown.push(self.buf[i]);
                i = i + 1;
                proof {
                    assert(self.received().subrange(0, i as int) =~= self.received().subrange(
                        0,
                        i - 1,
                    ).push(self.buf@[i - 1]));
                }
            }
            proof {
                assert(self.received().subrange(0, i as int) =~= self.received());
            }
            report = Some(shown);
            handled = true;
        }
        SlaveActions { clear_address: flags.address_matched, stored: data, report, handled }
    }
}

/// The bytes the EEPROM lesson writes in one transfer: the memory address, then the data.
pub fn eeprom_write_frame(memory_address: u8, data: &[u8]) -> (frame: Vec<u8>)
    ensures
        frame@ == seq![memory_address] + data@,
{
    let mut frame: Vec<u8> = Vec::new();
    frame.push(memory_address);
    crate::text::extend_bytes(&mut frame, data);
    frame
}

} // verus!
