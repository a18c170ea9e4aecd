//! One battery on the shared bus: the transactions that read it and the
//! meaning of their replies.

use vstd::prelude::*;
use crate::error::Error;
use crate::reading::{Reading, decoded};
use crate::register::{Quantity, hundredth, level_scale, register_of, tenth, thousandth};
use crate::word::{combine_words, combined, signed16, swapped, to_signed16};

verus! {

/// Line speed of the battery's RS-485 port, in baud.
pub const BAUD_RATE: u32 = 9600;

/// Time allowed for opening the serial port, in milliseconds.
pub const OPEN_TIMEOUT_MS: u64 = 400;

/// Time allowed for one register read, in milliseconds.
pub const REQUEST_TIMEOUT_MS: u64 = 200;

/// One bus transaction: make `slave` the active device, then read `count`
/// holding registers from `address` on. Nothing else may use the bus between
/// the two halves.
#[derive(Clone, Copy, Debug, PartialEq, Eq, Structural)]
pub struct Request {
    pub slave: u8,
    pub address: u16,
    pub count: u16,
}

/// How a transaction ended on the bus.
#[derive(Debug, PartialEq, Eq)]
pub enum Outcome {
    /// The device answered with these words, in the order they were sent.
    Words(Vec<u16>),
    /// The transport failed; the platform classified the failure.
    Fault(std::io::ErrorKind),
    /// No answer came within the time allowed.
    Elapsed,
}

/// The words of a transaction, or why there are none.
pub type Reply = Result<Vec<u16>, Error>;

/// The reply that an outcome amounts to.
pub open spec fn reply_of(outcome: Outcome) -> Reply {
    match outcome {
        Outcome::Words(words) => Ok(words),
        Outcome::Fault(kind) => Err(Error::Io(kind)),
        Outcome::Elapsed => Err(Error::Timeout),
    }
}

/// The transaction that reads quantity `q` from the battery at `slave`.
pub open spec fn request_for(slave: u8, q: Quantity) -> Request {
    Request { slave, address: register_of(q).address, count: register_of(q).words }
}

/// A reply carries as many words as the read asked for, if it carries any.
pub open spec fn reply_fits(reply: Reply, count: int) -> bool {
    reply matches Ok(words) ==> words.len() == count
}

/// What a reply to the read of `q` means: the reading, or the reply's error.
pub open spec fn quantity_of(q: Quantity, reply: Reply) -> Result<Reading, Error> {
    match reply {
        Ok(words) => Ok(decoded(register_of(q), words@)),
        Err(e) => Err(e),
    }
}

impl Outcome {
    /// Turns the outcome of a transaction into a reply: the words as they
    /// came, `Error::Io` for a transport failure, `Error::Timeout` when the
    /// time ran out.
    pub fn into_reply(self) -> (reply: Reply)
        ensures
            reply == reply_of(self),
    {
        match self {
            Outcome::Words(words) => Ok(words),
            Outcome::Fault(kind) => Err(Error::Io(kind)),
            Outcome::Elapsed => Err(Error::Timeout),
        }
    }
}

/// A battery on the bus, known by its slave address.
#[derive(Clone, Copy, Debug, PartialEq, Eq, Structural)]
pub struct Battery {
    pub addr: u8,
}

impl Battery {
    /// The battery that answers at slave address `addr`.
    pub fn new(addr: u8) -> (battery: Battery)
        ensures
            battery.addr == addr,
    {
        Battery { addr }
    }

    /// The transaction that reads `size` holding registers of this battery
    /// from `addr` on.
    pub fn read_register(&self, addr: u16, size: u16) -> (request: Request)
        ensures
            request == (Request { slave: self.addr, address: addr, count: size }),
    {
        Request { slave: self.addr, address: addr, count: size }
    }

    /// The transaction that reads quantity `q` of this battery.
    pub fn request(&self, q: Quantity) -> (request: Request)
        ensures
            request == request_for(self.addr, q),
    {
        let reg = q.register();
        self.read_register(reg.address, reg.words)
    }

    /// The single word of a reply, unsigned.
    pub fn read_u16(reply: Reply) -> (r: Result<u16, Error>)
        requires
            reply_fits(reply, 1),
        ensures
            match reply {
                Ok(words) => r == Ok::<u16, Error>(words[0]),
                Err(e) => r == Err::<u16, Error>(e),
            },
    {
        match reply {
            Ok(words) => Ok(words[0]),
            Err(e) => Err(e),
        }
    }

    /// The single word of a reply, as a two's-complement number.
    pub fn read_i16(reply: Reply) -> (r: Result<i16, Error>)
        requires
            reply_fits(reply, 1),
        ensures
            match reply {
                Ok(words) => r matches Ok(v) && v == signed16(words[0]),
                Err(e) => r == Err::<i16, Error>(e),
            },
    {
        match reply {
            Ok(words) => Ok(to_signed16(words[0])),
            Err(e) => Err(e),
        }
    }

    /// The two words of a reply as one unsigned number; the first word holds
    /// the low half.
    pub fn read_u32(reply: Reply) -> (r: Result<u32, Error>)
        requires
            reply_fits(reply, 2),
        ensures
            match reply {
                Ok(words) => r matches Ok(v) && v == combined(words[0], words[1]),
                Err(e) => r == Err::<u32, Error>(e),
            },
    {
        match reply {
            Ok(words) => Ok(combine_words(words[0], words[1])),
            Err(e) => Err(e),
        }
    }

    /// Decodes the reply to the read of `q`. An error passes through
    /// unchanged.
    pub fn read(q: Quantity, reply: Reply) -> (r: Result<Reading, Error>)
        requires
            reply_fits(reply, register_of(q).words as int),
        ensures
            r == quantity_of(q, reply),
            r matches Ok(reading) ==> reading.well_formed(),
    {
        match reply {
            Ok(words) => Ok(q.register().decode(&words)),
            Err(e) => Err(e),
        }
    }
}

impl Battery {
    /// The battery current in A from the reply to its read: the word with its
    /// bytes exchanged, as a signed number of hundredths. Negative while
    /// discharging, positive while charging.
    pub fn current(reply: Reply) -> (r: Result<Reading, Error>)
        requires
            reply_fits(reply, 1),
        ensures
            r == quantity_of(Quantity::Current, reply),
            match reply {
                Ok(words) => r matches Ok(v) && v.raw == signed16(swapped(words[0]))
                    && v.scale == hundredth(),
                Err(e) => r == Err::<Reading, Error>(e),
            },
    {
        Battery::read(Quantity::Current, reply)
    }

    /// The battery voltage in V: the word as an unsigned number of tenths.
    pub fn voltage(reply: Reply) -> (r: Result<Reading, Error>)
        requires
            reply_fits(reply, 1),
        ensures
            r == quantity_of(Quantity::Voltage, reply),
            match reply {
                Ok(words) => r matches Ok(v) && v.raw == words[0]
                    && v.scale == tenth(),
                Err(e) => r == Err::<Reading, Error>(e),
            },
    {
        Battery::read(Quantity::Voltage, reply)
    }

    /// The estimated remaining charge in Ah: two words, low half first, as an
    /// unsigned number of thousandths.
    pub fn remaining_charge(reply: Reply) -> (r: Result<Reading, Error>)
        requires
            reply_fits(reply, 2),
        ensures
            r == quantity_of(Quantity::RemainingCharge, reply),
            match reply {
                Ok(words) => r matches Ok(v) && v.raw == combined(words[0], words[1])
                    && v.scale == thousandth(),
                Err(e) => r == Err::<Reading, Error>(e),
            },
    {
        Battery::read(Quantity::RemainingCharge, reply)
    }

    /// The capacity of the fully charged battery in Ah: two words, low half
    /// first, as an unsigned number of thousandths.
    pub fn capacity(reply: Reply) -> (r: Result<Reading, Error>)
        requires
            reply_fits(reply, 2),
        ensures
            r == quantity_of(Quantity::Capacity, reply),
            match reply {
                Ok(words) => r matches Ok(v) && v.raw == combined(words[0], words[1])
                    && v.scale == thousandth(),
                Err(e) => r == Err::<Reading, Error>(e),
            },
    {
        Battery::read(Quantity::Capacity, reply)
    }

    /// The voltage of cell 1 in V: the word as an unsigned number of tenths.
    pub fn cell_voltage_1(reply: Reply) -> (r: Result<Reading, Error>)
        requires
            reply_fits(reply, 1),
        ensures
            r == quantity_of(Quantity::CellVoltage1, reply),
            match reply {
                Ok(words) => r matches Ok(v) && v.raw == words[0]
                    && v.scale == tenth(),
                Err(e) => r == Err::<Reading, Error>(e),
            },
    {
        Battery::read(Quantity::CellVoltage1, reply)
    }

    /// The voltage of cell 2 in V: the word as an unsigned number of tenths.
    pub fn cell_voltage_2(reply: Reply) -> (r: Result<Reading, Error>)
        requires
            reply_fits(reply, 1),
        ensures
            r == quantity_of(Quantity::CellVoltage2, reply),
            match reply {
                Ok(words) => r matches Ok(v) && v.raw == words[0]
                    && v.scale == tenth(),
                Err(e) => r == Err::<Reading, Error>(e),
            },
    {
        Battery::read(Quantity::CellVoltage2, reply)
    }

    /// The voltage of cell 3 in V: the word as an unsigned number of tenths.
    pub fn cell_voltage_3(reply: Reply) -> (r: Result<Reading, Error>)
        requires
            reply_fits(reply, 1),
        ensures
            r == quantity_of(Quantity::CellVoltage3, reply),
            match reply {
                Ok(words) => r matches Ok(v) && v.raw == words[0]
                    && v.scale == tenth(),
                Err(e) => r == Err::<Reading, Error>(e),
            },
    {
        Battery::read(Quantity::CellVoltage3, reply)
    }

    /// The voltage of cell 4 in V: the word as an unsigned number of tenths.
    pub fn cell_voltage_4(reply: Reply) -> (r: Result<Reading, Error>)
        requires
            reply_fits(reply, 1),
        ensures
            r == quantity_of(Quantity::CellVoltage4, reply),
            match reply {
                Ok(words) => r matches Ok(v) && v.raw == words[0]
                    && v.scale == tenth(),
                Err(e) => r == Err::<Reading, Error>(e),
            },
    {
        Battery::read(Quantity::CellVoltage4, reply)
    }

    /// The temperature of cell 1 in degrees Celsius: the word as a signed
    /// number of tenths.
    pub fn cell_temp_1(reply: Reply) -> (r: Result<Reading, Error>)
        requires
            reply_fits(reply, 1),
        ensures
            r == quantity_of(Quantity::CellTemp1, reply),
            match reply {
                Ok(words) => r matches Ok(v) && v.raw == signed16(words[0])
                    && v.scale == tenth(),
                Err(e) => r == Err::<Reading, Error>(e),
            },
    {
        Battery::read(Quantity::CellTemp1, reply)
    }

    /// The temperature of cell 2 in degrees Celsius: the word as a signed
    /// number of tenths.
    pub fn cell_temp_2(reply: Reply) -> (r: Result<Reading, Error>)
        requires
            reply_fits(reply, 1),
        ensures
            r == quantity_of(Quantity::CellTemp2, reply),
            match reply {
                Ok(words) => r matches Ok(v) && v.raw == signed16(words[0])
                    && v.scale == tenth(),
                Err(e) => r == Err::<Reading, Error>(e),
            },
    {
        Battery::read(Quantity::CellTemp2, reply)
    }

    /// The temperature of cell 3 in degrees Celsius: the word as a signed
    /// number of tenths.
    pub fn cell_temp_3(reply: Reply) -> (r: Result<Reading, Error>)
        requires
            reply_fits(reply, 1),
        ensures
            r == quantity_of(Quantity::CellTemp3, reply),
            match reply {
                Ok(words) => r matches Ok(v) && v.raw == signed16(words[0])
                    && v.scale == tenth(),
                Err(e) => r == Err::<Reading, Error>(e),
            },
    {
        Battery::read(Quantity::CellTemp3, reply)
    }

    /// The temperature of cell 4 in degrees Celsius: the word as a signed
    /// number of tenths.
    pub fn cell_temp_4(reply: Reply) -> (r: Result<Reading, Error>)
        requires
            reply_fits(reply, 1),
        ensures
            r == quantity_of(Quantity::CellTemp4, reply),
            match reply {
                Ok(words) => r matches Ok(v) && v.raw == signed16(words[0])
                    && v.scale == tenth(),
                Err(e) => r == Err::<Reading, Error>(e),
            },
    {
        Battery::read(Quantity::CellTemp4, reply)
    }

    /// The heater level in percent: the word as an unsigned number of steps of
    /// 0.3922.
    pub fn heater_level(reply: Reply) -> (r: Result<Reading, Error>)
        requires
            reply_fits(reply, 1),
        ensures
            r == quantity_of(Quantity::HeaterLevel, reply),
            match reply {
                Ok(words) => r matches Ok(v) && v.raw == words[0]
                    && v.scale == level_scale(),
                Err(e) => r == Err::<Reading, Error>(e),
            },
    {
        Battery::read(Quantity::HeaterLevel, reply)
    }

    /// The cycle counter: the word as it came.
    pub fn cycle_number(reply: Reply) -> (r: Result<u16, Error>)
        requires
            reply_fits(reply, 1),
        ensures
            match reply {
                Ok(words) => r == Ok::<u16, Error>(words[0]),
                Err(e) => r == Err::<u16, Error>(e),
            },
            match quantity_of(Quantity::CycleNumber, reply) {
                Ok(v) => r matches Ok(n) && n == v.raw,
                Err(e) => r == Err::<u16, Error>(e),
            },
    {
        Battery::read_u16(reply)
    }
}

} // verus!
