//! The operations that a transaction puts on the shared bus.

use vstd::prelude::*;
use crate::battery::Request;

verus! {

/// One operation on the transaction engine that is bound to the serial line.
#[derive(Clone, Copy, Debug, PartialEq, Eq, Structural)]
pub enum BusOp {
    /// Make this slave the one that the next request addresses.
    Select(u8),
    /// Read `count` holding registers from `address` on, from the slave that
    /// is selected.
    ReadHolding { address: u16, count: u16 },
}

/// The operations of one transaction, in order: select the slave, then
/// read.
pub open spec fn operations_of(request: Request) -> Seq<BusOp> {
    seq![
        BusOp::Select(request.slave),
        BusOp::ReadHolding { address: request.address, count: request.count },
    ]
}

/// What the bus sees when the transactions run one after the other, each one
/// whole before the next begins.
pub open spec fn bus_log(requests: Seq<Request>) -> Seq<BusOp>
    decreases requests.len(),
{
    if requests.len() == 0 {
        Seq::empty()
    } else {
        bus_log(requests.drop_last()) + operations_of(requests.last())
    }
}

impl Request {
    /// The operations that carry out this transaction, in the order in which
    /// the bus must see them. Whoever runs them holds the bus from the first
    /// to the answer of the second.
    pub fn operations(&self) -> (ops: [BusOp; 2])
        ensures
            ops@ == operations_of(*self),
    {
        let ops = [
            BusOp::Select(self.slave),
            BusOp::ReadHolding { address: self.address, count: self.count },
        ];
        assert(ops@ =~= operations_of(*self));
        ops
    }
}

/// Transactions that run one after the other put two operations each on the
/// bus: at the even places the selects, at the odd places the reads, each
/// read right behind the select of its own transaction.
pub proof fn serial_log_shape(requests: Seq<Request>)
    ensures
        bus_log(requests).len() == 2 * requests.len(),
        forall|k: int|
            0 <= k < requests.len() ==> {
                &&& #[trigger] bus_log(requests)[2 * k] == BusOp::Select(requests[k].slave)
                &&& bus_log(requests)[2 * k + 1] == BusOp::ReadHolding {
                    address: requests[k].address,
                    count: requests[k].count,
                }
            },
    decreases requests.len(),
{
    if requests.len() > 0 {
        let before = requests.drop_last();
        serial_log_shape(before);
        let n = before.len() as int;
        assert forall|k: int| 0 <= k < requests.len() implies {
            &&& #[trigger] bus_log(requests)[2 * k] == BusOp::Select(requests[k].slave)
            &&& bus_log(requests)[2 * k + 1] == BusOp::ReadHolding {
                address: requests[k].address,
                count: requests[k].count,
            }
        } by {
            if k < n {
                assert(bus_log(before)[2 * k] == BusOp::Select(before[k].slave));
                assert(before[k] == requests[k]);
            } else {
                assert(requests[k] == requests.last());
            }
        }
    }
}

/// Whatever batteries the transactions belong to and in whatever order they
/// got the bus: as long as each runs whole, every read on the bus stands
/// right behind a select, and that select names the slave of the read's own
/// transaction. No read is answered by the slave of another battery.
pub proof fn read_follows_own_select(requests: Seq<Request>, i: int)
    requires
        0 <= i < bus_log(requests).len(),
        bus_log(requests)[i] is ReadHolding,
    ensures
        i % 2 == 1,
        bus_log(requests)[i - 1] == BusOp::Select(requests[i / 2].slave),
        bus_log(requests)[i] == (BusOp::ReadHolding {
            address: requests[i / 2].address,
            count: requests[i / 2].count,
        }),
{
    serial_log_shape(requests);
    let k = i / 2;
    assert(0 <= k < requests.len());
    assert(bus_log(requests)[2 * k] == BusOp::Select(requests[k].slave));
    if i % 2 == 0 {
        assert(i == 2 * k);
    } else {
        assert(i == 2 * k + 1);
    }
}

} // verus!
