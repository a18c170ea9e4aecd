//! Collecting a full snapshot: fourteen reads in a fixed order, all or
//! nothing.

use vstd::prelude::*;
use crate::battery::{Battery, Reply, Request, reply_fits, request_for};
use crate::error::Error;
use crate::reading::{Reading, decoded};
use crate::register::{Quantity, register_of};

verus! {

/// Number of reads that make up a snapshot.
pub const SNAPSHOT_READS: usize = 14;

/// All the quantities of a battery, each from a read of its own. The reads
/// follow one another on the bus, so the device may change between them.
#[derive(Clone, Copy, Debug, PartialEq, Eq, Structural)]
pub struct BatteryState {
    pub current: Reading,
    pub voltage: Reading,
    pub remaining_charge: Reading,
    pub capacity: Reading,
    pub cycle_number: u16,
    pub cell_voltage_1: Reading,
    pub cell_voltage_2: Reading,
    pub cell_voltage_3: Reading,
    pub cell_voltage_4: Reading,
    pub cell_temp_1: Reading,
    pub cell_temp_2: Reading,
    pub cell_temp_3: Reading,
    pub cell_temp_4: Reading,
    pub heater_level: Reading,
}

impl BatteryState {
    /// Every reading is one that register words can hold.
    pub open spec fn well_formed(self) -> bool {
        &&& self.current.well_formed()
        &&& self.voltage.well_formed()
        &&& self.remaining_charge.well_formed()
        &&& self.capacity.well_formed()
        &&& self.cell_voltage_1.well_formed()
        &&& self.cell_voltage_2.well_formed()
        &&& self.cell_voltage_3.well_formed()
        &&& self.cell_voltage_4.well_formed()
        &&& self.cell_temp_1.well_formed()
        &&& self.cell_temp_2.well_formed()
        &&& self.cell_temp_3.well_formed()
        &&& self.cell_temp_4.well_formed()
        &&& self.heater_level.well_formed()
    }
}

/// The quantity that the read number `i` of a snapshot asks for.
pub open spec fn nth_quantity(i: int) -> Quantity {
    if i == 0 {
        Quantity::Current
    } else if i == 1 {
        Quantity::Voltage
    } else if i == 2 {
        Quantity::RemainingCharge
    } else if i == 3 {
        Quantity::Capacity
    } else if i == 4 {
        Quantity::CellVoltage1
    } else if i == 5 {
        Quantity::CellVoltage2
    } else if i == 6 {
        Quantity::CellVoltage3
    } else if i == 7 {
        Quantity::CellVoltage4
    } else if i == 8 {
        Quantity::CycleNumber
    } else if i == 9 {
        Quantity::CellTemp1
    } else if i == 10 {
        Quantity::CellTemp2
    } else if i == 11 {
        Quantity::CellTemp3
    } else if i == 12 {
        Quantity::CellTemp4
    } else {
        Quantity::HeaterLevel
    }
}

/// The snapshot that fourteen readings, in the order of the reads, make up.
pub open spec fn snapshot_of(readings: Seq<Reading>) -> BatteryState
    recommends
        readings.len() == SNAPSHOT_READS,
{
    BatteryState {
        current: readings[0],
        voltage: readings[1],
        remaining_charge: readings[2],
        capacity: readings[3],
        cell_voltage_1: readings[4],
        cell_voltage_2: readings[5],
        cell_voltage_3: readings[6],
        cell_voltage_4: readings[7],
        cycle_number: readings[8].raw as u16,
        cell_temp_1: readings[9],
        cell_temp_2: readings[10],
        cell_temp_3: readings[11],
        cell_temp_4: readings[12],
        heater_level: readings[13],
    }
}

/// A reply as a value of the model: the words, or the error.
pub type Answer = Result<Seq<u16>, Error>;

/// The model of a reply.
pub open spec fn answer_of(reply: Reply) -> Answer {
    match reply {
        Ok(words) => Ok(words@),
        Err(e) => Err(e),
    }
}

/// Where the collection of a snapshot stands.
pub enum Stage {
    /// These readings are in, and the next read is due.
    Collecting(Seq<Reading>),
    /// All reads succeeded.
    Done(BatteryState),
    /// A read failed. Nothing of what was collected is kept.
    Failed(Error),
}

/// The stage after the answer to the read that was due. A failure ends the
/// collection at once; the fourteenth success completes it. A stage that is
/// done or failed has no read due and stays as it is.
pub open spec fn step(stage: Stage, answer: Answer) -> Stage {
    match stage {
        Stage::Collecting(readings) => match answer {
            Err(e) => Stage::Failed(e),
            Ok(words) => {
                let all = readings.push(
                    decoded(register_of(nth_quantity(readings.len() as int)), words),
                );
                if all.len() == SNAPSHOT_READS {
                    Stage::Done(snapshot_of(all))
                } else {
                    Stage::Collecting(all)
                }
            },
        },
        _ => stage,
    }
}

/// The stage that a sequence of answers leads to, from the start.
pub open spec fn run(answers: Seq<Answer>) -> Stage
    decreases answers.len(),
{
    if answers.len() == 0 {
        Stage::Collecting(Seq::empty())
    } else {
        step(run(answers.drop_last()), answers.last())
    }
}

/// The read that is due at a stage, if one is.
pub open spec fn due(slave: u8, stage: Stage) -> Option<Request> {
    match stage {
        Stage::Collecting(readings) => Some(
            request_for(slave, nth_quantity(readings.len() as int)),
        ),
        _ => None,
    }
}

/// The number of reads that were sent to the bus while `answers` came in:
/// one for each answer that found a read due.
pub open spec fn reads_sent(answers: Seq<Answer>) -> nat
    decreases answers.len(),
{
    if answers.len() == 0 {
        0
    } else if run(answers.drop_last()) is Collecting {
        reads_sent(answers.drop_last()) + 1
    } else {
        reads_sent(answers.drop_last())
    }
}

/// The quantity that read number `i` of a snapshot asks for.
pub fn quantity_at(i: usize) -> (q: Quantity)
    requires
        i < SNAPSHOT_READS,
    ensures
        q == nth_quantity(i as int),
{
    if i == 0 {
        Quantity::Current
    } else if i == 1 {
        Quantity::Voltage
    } else if i == 2 {
        Quantity::RemainingCharge
    } else if i == 3 {
        Quantity::Capacity
    } else if i == 4 {
        Quantity::CellVoltage1
    } else if i == 5 {
        Quantity::CellVoltage2
    } else if i == 6 {
        Quantity::CellVoltage3
    } else if i == 7 {
        Quantity::CellVoltage4
    } else if i == 8 {
        Quantity::CycleNumber
    } else if i == 9 {
        Quantity::CellTemp1
    } else if i == 10 {
        Quantity::CellTemp2
    } else if i == 11 {
        Quantity::CellTemp3
    } else if i == 12 {
        Quantity::CellTemp4
    } else {
        Quantity::HeaterLevel
    }
}

/// A snapshot in the making: the battery, and the readings that are in.
/// There is always a read due.
#[derive(Debug)]
pub struct ReadAll {
    battery: Battery,
    readings: Vec<Reading>,
}

/// What the answer to a read leads to.
#[derive(Debug)]
pub enum Progress {
    /// More reads are due.
    Pending(ReadAll),
    /// The snapshot is complete.
    Done(BatteryState),
    /// A read failed, and the collection is over.
    Failed(Error),
}

impl ReadAll {
    #[verifier::type_invariant]
    spec fn inv(self) -> bool {
        &&& self.readings@.len() < SNAPSHOT_READS
        &&& self.readings@.len() > 8 ==> 0 <= self.readings@[8].raw <= 0xffff
        &&& forall|i: int|
            0 <= i < self.readings@.len() ==> (#[trigger] self.readings@[i]).well_formed()
    }

    /// The battery that is being read.
    pub closed spec fn battery(self) -> Battery {
        self.battery
    }

    /// The readings that are in, in the order of the reads.
    pub closed spec fn collected(self) -> Seq<Reading> {
        self.readings@
    }

    /// The stage of the collection.
    pub open spec fn stage(self) -> Stage {
        Stage::Collecting(self.collected())
    }

    /// The quantity that the read now due asks for.
    pub open spec fn pending(self) -> Quantity {
        nth_quantity(self.collected().len() as int)
    }

    /// The read that is due now.
    pub fn request(&self) -> (request: Request)
        ensures
            self.collected().len() < SNAPSHOT_READS,
            request == request_for(self.battery().addr, self.pending()),
            Some(request) == due(self.battery().addr, self.stage()),
    {
        proof {
            use_type_invariant(self);
        }
        self.battery.request(quantity_at(self.readings.len()))
    }

    /// Takes the reply to the read that was due. An error ends the
    /// collection with that error; the reply to the last read completes the
    /// snapshot; any other reply leaves the next read due.
    pub fn advance(self, reply: Reply) -> (progress: Progress)
        requires
            reply_fits(reply, register_of(self.pending()).words as int),
        ensures
            progress.stage() == step(self.stage(), answer_of(reply)),
            progress matches Progress::Pending(next) ==> next.battery() == self.battery(),
            reply matches Err(e) ==> progress == Progress::Failed(e),
            progress matches Progress::Done(state) ==> state.well_formed(),
    {
        proof {
            use_type_invariant(&self);
        }
        let ReadAll { battery, mut readings } = self;
        match reply {
            Err(e) => Progress::Failed(e),
            Ok(words) => {
                let reading = quantity_at(readings.len()).register().decode(&words);
                readings.push(reading);
                if readings.len() == SNAPSHOT_READS {
                    assert(0 <= readings@[8].raw <= 0xffff);
                    Progress::Done(
                        BatteryState {
                            current: readings[0],
                            voltage: readings[1],
                            remaining_charge: readings[2],
                            capacity: readings[3],
                            cell_voltage_1: readings[4],
                            cell_voltage_2: readings[5],
                            cell_voltage_3: readings[6],
                            cell_voltage_4: readings[7],
                            cycle_number: readings[8].raw as u16,
                            cell_temp_1: readings[9],
                            cell_temp_2: readings[10],
                            cell_temp_3: readings[11],
                            cell_temp_4: readings[12],
                            heater_level: readings[13],
                        },
                    )
                } else {
                    Progress::Pending(ReadAll { battery, readings })
                }
            },
        }
    }
}

impl Progress {
    /// The stage that this progress stands for.
    pub open spec fn stage(self) -> Stage {
        match self {
            Progress::Pending(session) => session.stage(),
            Progress::Done(state) => Stage::Done(state),
            Progress::Failed(e) => Stage::Failed(e),
        }
    }
}

impl Battery {
    /// Begins the collection of a snapshot of this battery. Nothing is in
    /// yet, and the first read is due.
    pub fn read_all(&self) -> (session: ReadAll)
        ensures
            session.battery() == *self,
            session.collected() == Seq::<Reading>::empty(),
            session.stage() == run(Seq::<Answer>::empty()),
    {
        ReadAll { battery: *self, readings: Vec::new() }
    }
}

} // verus!
