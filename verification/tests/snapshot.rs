use renogy::snapshot::{quantity_at, SNAPSHOT_READS};
use renogy::{
    Battery, BatteryState, BusOp, Error, Outcome, Progress, Quantity, Reading, Request, Scale,
};
use std::collections::HashMap;

/// A bus with several slaves on it. It keeps what it was asked to do, can be
/// told to let one transaction run out of time, and answers a read from the
/// registers of the slave that was selected last.
struct FakeBus {
    registers: HashMap<(u8, u16), u16>,
    selected: Option<u8>,
    log: Vec<BusOp>,
    transactions: usize,
    time_out_at: Option<usize>,
    fault_at: Option<(usize, std::io::ErrorKind)>,
}

impl FakeBus {
    fn new() -> FakeBus {
        FakeBus {
            registers: HashMap::new(),
            selected: None,
            log: Vec::new(),
            transactions: 0,
            time_out_at: None,
            fault_at: None,
        }
    }

    fn with_battery(mut self, slave: u8, seed: u16) -> FakeBus {
        let mut address = 0x1380u16;
        while address < 0x1400 {
            let word = address.wrapping_mul(31).wrapping_add(seed.wrapping_mul(257));
            self.registers.insert((slave, address), word);
            address += 1;
        }
        self
    }

    fn set(&mut self, slave: u8, address: u16, word: u16) {
        self.registers.insert((slave, address), word);
    }

    fn transact(&mut self, request: Request) -> Outcome {
        let index = self.transactions;
        self.transactions += 1;
        let mut outcome = Outcome::Elapsed;
        for op in request.operations() {
            self.log.push(op);
            match op {
                BusOp::Select(slave) => self.selected = Some(slave),
                BusOp::ReadHolding { address, count } => {
                    outcome = match self.fault_at {
                        _ if self.time_out_at == Some(index) => Outcome::Elapsed,
                        Some((at, kind)) if at == index => Outcome::Fault(kind),
                        _ => self.answer(address, count),
                    };
                }
            }
        }
        outcome
    }

    fn answer(&self, address: u16, count: u16) -> Outcome {
        let slave = self.selected.unwrap();
        let mut words = Vec::new();
        for k in 0..count {
            words.push(self.registers[&(slave, address + k)]);
        }
        Outcome::Words(words)
    }
}

fn read_all(bus: &mut FakeBus, battery: &Battery) -> Result<BatteryState, Error> {
    let mut session = battery.read_all();
    loop {
        let outcome = bus.transact(session.request());
        match session.advance(outcome.into_reply()) {
            Progress::Pending(next) => session = next,
            Progress::Done(state) => return Ok(state),
            Progress::Failed(e) => return Err(e),
        }
    }
}

fn reading(raw: i64, scale: u16) -> Reading {
    Reading { raw, scale: Scale { ten_thousandths: scale } }
}

fn known_bus() -> FakeBus {
    let mut bus = FakeBus::new().with_battery(247, 3);
    bus.set(247, 0x13b2, 0x6400);
    bus.set(247, 0x13b3, 132);
    bus.set(247, 0x13b4, 0x2710);
    bus.set(247, 0x13b5, 0x0000);
    bus.set(247, 0x13b6, 0x86a0);
    bus.set(247, 0x13b7, 0x0001);
    bus.set(247, 0x13b8, 17);
    bus.set(247, 0x1389, 33);
    bus.set(247, 0x138a, 34);
    bus.set(247, 0x138b, 32);
    bus.set(247, 0x138c, 35);
    bus.set(247, 0x139a, 215);
    bus.set(247, 0x139b, 0xffff);
    bus.set(247, 0x139c, 0xff38);
    bus.set(247, 0x139d, 0);
    bus.set(247, 0x13ef, 255);
    bus
}

fn known_state() -> BatteryState {
    BatteryState {
        current: reading(100, 100),
        voltage: reading(132, 1000),
        remaining_charge: reading(10000, 10),
        capacity: reading(100000, 10),
        cycle_number: 17,
        cell_voltage_1: reading(33, 1000),
        cell_voltage_2: reading(34, 1000),
        cell_voltage_3: reading(32, 1000),
        cell_voltage_4: reading(35, 1000),
        cell_temp_1: reading(215, 1000),
        cell_temp_2: reading(-1, 1000),
        cell_temp_3: reading(-200, 1000),
        cell_temp_4: reading(0, 1000),
        heater_level: reading(255, 3922),
    }
}

#[test]
fn battery_keeps_its_address() {
    assert_eq!(Battery::new(240).addr, 240);
    assert_eq!(Battery::new(0).addr, 0);
    assert_eq!(Battery::new(255).addr, 255);
}

#[test]
fn read_register_builds_the_transaction() {
    let battery = Battery::new(246);
    assert_eq!(
        battery.read_register(0x13b4, 2),
        Request { slave: 246, address: 0x13b4, count: 2 }
    );
}

#[test]
fn request_follows_the_register_map() {
    let battery = Battery::new(247);
    assert_eq!(
        battery.request(Quantity::Current),
        Request { slave: 247, address: 0x13b2, count: 1 }
    );
    assert_eq!(
        battery.request(Quantity::Capacity),
        Request { slave: 247, address: 0x13b6, count: 2 }
    );
    assert_eq!(
        battery.request(Quantity::HeaterLevel),
        Request { slave: 247, address: 0x13ef, count: 1 }
    );
}

#[test]
fn operations_select_then_read() {
    let request = Request { slave: 240, address: 0x1389, count: 1 };
    assert_eq!(
        request.operations(),
        [BusOp::Select(240), BusOp::ReadHolding { address: 0x1389, count: 1 }]
    );
}

#[test]
fn reads_come_in_the_fixed_order() {
    let expected = [
        Quantity::Current,
        Quantity::Voltage,
        Quantity::RemainingCharge,
        Quantity::Capacity,
        Quantity::CellVoltage1,
        Quantity::CellVoltage2,
        Quantity::CellVoltage3,
        Quantity::CellVoltage4,
        Quantity::CycleNumber,
        Quantity::CellTemp1,
        Quantity::CellTemp2,
        Quantity::CellTemp3,
        Quantity::CellTemp4,
        Quantity::HeaterLevel,
    ];
    assert_eq!(SNAPSHOT_READS, 14);
    for (i, q) in expected.iter().enumerate() {
        assert_eq!(quantity_at(i), *q);
    }
    let mut bus = known_bus();
    let battery = Battery::new(247);
    read_all(&mut bus, &battery).unwrap();
    assert_eq!(bus.log.len(), 28);
    for (i, q) in expected.iter().enumerate() {
        let row = q.register();
        assert_eq!(bus.log[2 * i], BusOp::Select(247));
        assert_eq!(
            bus.log[2 * i + 1],
            BusOp::ReadHolding { address: row.address, count: row.words }
        );
    }
}

#[test]
fn snapshot_holds_every_quantity() {
    let mut bus = known_bus();
    let state = read_all(&mut bus, &Battery::new(247)).unwrap();
    assert_eq!(state, known_state());
    assert_eq!(bus.transactions, 14);
    assert_eq!(state.current.ten_thousandths(), 10000);
    assert_eq!(state.voltage.ten_thousandths(), 132000);
    assert_eq!(state.remaining_charge.ten_thousandths(), 100000);
    assert_eq!(state.capacity.ten_thousandths(), 1000000);
    assert_eq!(state.cell_temp_2.ten_thousandths(), -1000);
    assert_eq!(state.heater_level.ten_thousandths(), 1000110);
}

#[test]
fn first_reply_leaves_the_second_read_due() {
    let session = Battery::new(246).read_all();
    assert_eq!(session.request(), Request { slave: 246, address: 0x13b2, count: 1 });
    match session.advance(Ok(vec![0x6400])) {
        Progress::Pending(next) => {
            assert_eq!(next.request(), Request { slave: 246, address: 0x13b3, count: 1 });
        }
        other => panic!("unexpected {:?}", other),
    }
}

#[test]
fn read_all_is_idempotent_on_a_stable_device() {
    let mut bus = known_bus();
    let battery = Battery::new(247);
    let first = read_all(&mut bus, &battery).unwrap();
    let second = read_all(&mut bus, &battery).unwrap();
    let third = read_all(&mut bus, &battery).unwrap();
    assert_eq!(first, second);
    assert_eq!(second, third);
}

#[test]
fn snapshot_ignores_registers_outside_the_map() {
    let mut bus = known_bus();
    let battery = Battery::new(247);
    let first = read_all(&mut bus, &battery).unwrap();
    bus.set(247, 0x13b9, 0xdead);
    bus.set(247, 0x1388, 0xbeef);
    bus.set(247, 0x13f0, 0x1234);
    assert_eq!(read_all(&mut bus, &battery).unwrap(), first);
    bus.set(247, 0x13b3, 133);
    assert_ne!(read_all(&mut bus, &battery).unwrap(), first);
}

#[test]
fn timeout_on_any_read_fails_fast() {
    for i in 0..14 {
        let mut bus = known_bus();
        bus.time_out_at = Some(i);
        let result = read_all(&mut bus, &Battery::new(247));
        assert_eq!(result, Err(Error::Timeout));
        assert_eq!(bus.transactions, i + 1);
        assert_eq!(bus.log.len(), 2 * (i + 1));
    }
}

#[test]
fn transport_fault_on_any_read_fails_fast() {
    for i in 0..14 {
        let mut bus = known_bus();
        bus.fault_at = Some((i, std::io::ErrorKind::InvalidData));
        let result = read_all(&mut bus, &Battery::new(247));
        assert_eq!(result, Err(Error::Io(std::io::ErrorKind::InvalidData)));
        assert_eq!(bus.transactions, i + 1);
    }
}

#[test]
fn failed_read_of_the_first_quantity() {
    let session = Battery::new(240).read_all();
    match session.advance(Err(Error::Timeout)) {
        Progress::Failed(e) => assert_eq!(e, Error::Timeout),
        other => panic!("unexpected {:?}", other),
    }
}

#[test]
fn batteries_on_one_bus_get_their_own_answers() {
    let mut bus = FakeBus::new().with_battery(246, 1).with_battery(247, 2);
    let a = Battery::new(246);
    let b = Battery::new(247);
    // Each battery alone.
    let alone_a = read_all(&mut bus, &a).unwrap();
    let alone_b = read_all(&mut bus, &b).unwrap();
    assert_ne!(alone_a, alone_b);

    // Both at once, taking the bus in turns, one transaction at a time.
    bus.log.clear();
    let mut sessions = vec![Some(a.read_all()), Some(b.read_all())];
    let mut states: Vec<Option<BatteryState>> = vec![None, None];
    let mut turn = 0usize;
    let mut owners = Vec::new();
    while sessions.iter().any(|s| s.is_some()) {
        let who = turn % 2;
        turn += if turn % 3 == 0 { 2 } else { 1 };
        if let Some(session) = sessions[who].take() {
            let request = session.request();
            owners.push(request.slave);
            let outcome = bus.transact(request);
            match session.advance(outcome.into_reply()) {
                Progress::Pending(next) => sessions[who] = Some(next),
                Progress::Done(state) => states[who] = Some(state),
                Progress::Failed(e) => panic!("unexpected {:?}", e),
            }
        }
    }
    assert_eq!(states[0], Some(alone_a));
    assert_eq!(states[1], Some(alone_b));

    // Every read stands right behind the select of its own battery.
    assert_eq!(bus.log.len(), 56);
    for (i, op) in bus.log.iter().enumerate() {
        match op {
            BusOp::ReadHolding { .. } => {
                assert!(i % 2 == 1);
                assert_eq!(bus.log[i - 1], BusOp::Select(owners[i / 2]));
            }
            BusOp::Select(slave) => {
                assert!(i % 2 == 0);
                assert_eq!(*slave, owners[i / 2]);
            }
        }
    }
}
