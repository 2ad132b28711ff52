//! Client for the on-board ADT75 temperature sensor.
//!
//! The device exposes five one-byte-addressed registers behind a fixed bus
//! address. Reads are served from whichever register was last selected, so
//! the client tracks the selection and writes a select command only when
//! the target register differs — and records a new selection only once the
//! bus confirms the write, so a fault never leaves the tracking ahead of
//! the device.

use vstd::prelude::*;

use crate::bus::{BusError, BusOpView, BusTransport, op_data};
use crate::decoder::{TemperatureReading, decode_temperature, spec_decode_bytes};

verus! {

/// The sensor's fixed 7-bit bus address.
pub const ADT75_I2C_ADDR: u8 = 0b1001000;

/// The five registers of the device.
#[derive(Clone, Copy, Debug, PartialEq, Eq, Structural)]
pub enum RegAddresses {
    Temperature,
    Configuration,
    THystSetpoint,
    TOsSetPoint,
    OneShot,
}

impl RegAddresses {
    /// The register's one-byte address on the device.
    pub open spec fn spec_address_byte(self) -> u8 {
        match self {
            RegAddresses::Temperature => 0x00,
            RegAddresses::Configuration => 0x01,
            RegAddresses::THystSetpoint => 0x02,
            RegAddresses::TOsSetPoint => 0x03,
            RegAddresses::OneShot => 0x04,
        }
    }

    /// The register's one-byte address on the device.
    pub fn address_byte(self) -> (b: u8)
        ensures
            b == self.spec_address_byte(),
    {
        match self {
            RegAddresses::Temperature => 0x00,
            RegAddresses::Configuration => 0x01,
            RegAddresses::THystSetpoint => 0x02,
            RegAddresses::TOsSetPoint => 0x03,
            RegAddresses::OneShot => 0x04,
        }
    }
}

/// The bus address used by a client: the override it was built with, or
/// the device's fixed address.
pub open spec fn resolved_device_addr(address_override: Option<u8>) -> u8 {
    match address_override {
        Some(a) => a,
        None => ADT75_I2C_ADDR,
    }
}

/// The write that selects `target` on the device at `addr`: one byte, the
/// register's address.
pub open spec fn select_write_op(addr: u8, target: RegAddresses) -> BusOpView {
    BusOpView::Write { addr, data: seq![target.spec_address_byte()] }
}

/// The bus traffic a selection of `target` causes when `current` is the
/// register selected so far: nothing when they agree, else the one select
/// write.
pub open spec fn select_traffic(addr: u8, current: RegAddresses, target: RegAddresses) -> Seq<
    BusOpView,
> {
    if target == current {
        Seq::<BusOpView>::empty()
    } else {
        seq![select_write_op(addr, target)]
    }
}

/// The read that fetches a temperature sample: two bytes from the device
/// at `addr`, of which `data` came back.
pub open spec fn temp_read_op(addr: u8, data: Seq<u8>) -> BusOpView {
    BusOpView::Read { addr, len: 2, data }
}

/// Selecting a register twice in a row costs one select write at most: a
/// selection never issues more than one write, and once `target` is the
/// selected register, selecting it again adds no traffic at all.
pub proof fn lemma_select_idempotent(addr: u8, current: RegAddresses, target: RegAddresses)
    ensures
        select_traffic(addr, current, target).len() <= 1,
        select_traffic(addr, target, target) == Seq::<BusOpView>::empty(),
        select_traffic(addr, current, target) + select_traffic(addr, target, target)
            == select_traffic(addr, current, target),
{
    assert(select_traffic(addr, current, target) + select_traffic(addr, target, target)
        =~= select_traffic(addr, current, target));
}

/// While `target` has not become the selected register — in particular
/// after a select write the bus failed — selecting it again issues the
/// select write again rather than skipping it.
pub proof fn lemma_unchanged_selection_retries(addr: u8, current: RegAddresses, target: RegAddresses)
    requires
        current != target,
    ensures
        select_traffic(addr, current, target).len() == 1,
        select_traffic(addr, current, target)[0] == select_write_op(addr, target),
{
}

/// Client for the ADT75: owns its bus transport and tracks which register
/// the device is serving reads from.
pub struct Adt75TempSensor<B: BusTransport> {
    bus: B,
    addr: u8,
    current_reg: RegAddresses,
}

impl<B: BusTransport> Adt75TempSensor<B> {
    /// The owned bus transport.
    pub closed spec fn spec_bus(&self) -> B {
        self.bus
    }

    /// The operations this client's bus has attempted, oldest first.
    pub open spec fn history(&self) -> Seq<BusOpView> {
        self.spec_bus().history()
    }

    /// The bus address the client talks to.
    pub closed spec fn device_addr(&self) -> u8 {
        self.addr
    }

    /// The register the device was last successfully told to select.
    pub closed spec fn current(&self) -> RegAddresses {
        self.current_reg
    }

    /// Builds a client over `bus` and performs the initial selection of the
    /// temperature register, so that a fresh client can read at once. Fails
    /// with the bus fault, and without yielding a client, when that select
    /// write fails.
    pub fn new(bus: B, address_override: Option<u8>) -> (r: Result<Self, BusError>)
        ensures
            r matches Ok(client) ==> {
                &&& client.device_addr() == resolved_device_addr(address_override)
                &&& client.current() == RegAddresses::Temperature
                &&& client.history() == bus.history().push(
                    select_write_op(
                        resolved_device_addr(address_override),
                        RegAddresses::Temperature,
                    ),
                )
            },
    {
        let addr = match address_override {
            Some(a) => a,
            None => ADT75_I2C_ADDR,
        };
        let mut bus = bus;
        let mut cmd: Vec<u8> = Vec::new();
        cmd.push(RegAddresses::Temperature.address_byte());
        proof {
            assert(cmd@ =~= seq![RegAddresses::Temperature.spec_address_byte()]);
        }
        match bus.write(addr, &cmd) {
            Ok(_) => Ok(Adt75TempSensor { bus, addr, current_reg: RegAddresses::Temperature }),
            Err(e) => Err(e),
        }
    }

    /// Makes `reg` the register the device serves reads from. When `reg`
    /// is already selected this is free of bus traffic and cannot fail;
    /// otherwise the one select write is issued, and only its success
    /// moves the tracked selection, so a fault leaves the client consistent
    /// with the last selection the device confirmed.
    pub fn select_reg(&mut self, reg: RegAddresses) -> (r: Result<(), BusError>)
        ensures
            final(self).device_addr() == old(self).device_addr(),
            final(self).history() == old(self).history() + select_traffic(
                old(self).device_addr(),
                old(self).current(),
                reg,
            ),
            r is Ok ==> final(self).current() == reg,
            r is Err ==> final(self).current() == old(self).current() && old(self).current() != reg,
            old(self).current() == reg ==> r is Ok,
    {
        if reg != self.current_reg {
            let mut cmd: Vec<u8> = Vec::new();
            cmd.push(reg.address_byte());
            proof {
                assert(cmd@ =~= seq![reg.spec_address_byte()]);
            }
            let wrote = self.bus.write(self.addr, &cmd);
            proof {
                assert(old(self).history().push(
                    select_write_op(old(self).device_addr(), reg),
                ) =~= old(self).history() + select_traffic(
                    old(self).device_addr(),
                    old(self).current(),
                    reg,
                ));
            }
            match wrote {
                Ok(_) => {
                    self.current_reg = reg;
                    Ok(())
                },
                Err(e) => Err(e),
            }
        } else {
            proof {
                assert(old(self).history() + select_traffic(
                    old(self).device_addr(),
                    old(self).current(),
                    reg,
                ) =~= old(self).history());
            }
            Ok(())
        }
    }

    /// Reads the temperature: selects the temperature register if some
    /// other register is selected (at most one select attempt), reads the
    /// two-byte sample, and decodes it. The result is exactly the decoding
    /// of the bytes the bus handed back, recorded in the last history
    /// entry. A fault of either bus operation is returned as is, after the
    /// traffic attempted so far; the tracked selection still reflects only
    /// confirmed select writes.
    pub fn read_temperature(&mut self) -> (r: Result<TemperatureReading, BusError>)
        ensures
            final(self).device_addr() == old(self).device_addr(),
            ({
                let traffic = select_traffic(
                    old(self).device_addr(),
                    old(self).current(),
                    RegAddresses::Temperature,
                );
                match r {
                    Ok(t) => {
                        let data = op_data(final(self).history().last());
                        &&& final(self).current() == RegAddresses::Temperature
                        &&& data.len() == 2
                        &&& final(self).history() == (old(self).history() + traffic).push(
                            temp_read_op(old(self).device_addr(), data),
                        )
                        &&& t.sixteenths == spec_decode_bytes(data[0], data[1])
                    },
                    Err(_) => {
                        ||| {
                            &&& old(self).current() != RegAddresses::Temperature
                            &&& final(self).current() == old(self).current()
                            &&& final(self).history() == old(self).history() + traffic
                        }
                        ||| {
                            &&& final(self).current() == RegAddresses::Temperature
                            &&& final(self).history() == (old(self).history() + traffic).push(
                                temp_read_op(old(self).device_addr(), Seq::<u8>::empty()),
                            )
                        }
                    },
                }
            }),
    {
        if self.current_reg != RegAddresses::Temperature {
            match self.select_reg(RegAddresses::Temperature) {
                Ok(_) => {},
                Err(e) => {
                    return Err(e);
                },
            }
        }
        let got = self.bus.read(self.addr, 2);
        match got {
            Ok(bytes) => {
                let t = decode_temperature(bytes[0], bytes[1]);
                Ok(t)
            },
            Err(e) => Err(e),
        }
    }

    /// The register the device was last successfully told to select.
    pub fn selected_reg(&self) -> (reg: RegAddresses)
        ensures
            reg == self.current(),
    {
        self.current_reg
    }

    /// The bus address the client talks to.
    pub fn device_address(&self) -> (a: u8)
        ensures
            a == self.device_addr(),
    {
        self.addr
    }

    /// A borrow of the owned bus transport.
    pub fn bus(&self) -> (bus: &B)
        ensures
            *bus == self.spec_bus(),
    {
        &self.bus
    }

    /// A mutable borrow of the owned bus transport, for adjusting a
    /// transport (a simulated one, say) between calls. The tracked
    /// selection and the device address are untouched.
    pub fn bus_mut(&mut self) -> (bus: &mut B)
        ensures
            *bus == old(self).spec_bus(),
            final(self).spec_bus() == *final(bus),
            final(self).current() == old(self).current(),
            final(self).device_addr() == old(self).device_addr(),
    {
        &mut self.bus
    }

    /// Consumes the client and releases its bus transport.
    pub fn release(self) -> (bus: B)
        ensures
            bus == self.spec_bus(),
    {
        self.bus
    }
}

} // verus!
