//! Flow-controlled stream I/O planning.
//!
//! A stream write never blocks: it looks at the free space the transmit
//! FIFO reported, sends at most that many bytes in one burst, and returns
//! how many were sent — the caller loops on the remainder.  A stream read
//! mirrors it: with an empty receive FIFO the caller must suspend until the
//! interrupt line signals data, otherwise it drains at most the reported
//! fill level.  The planners here decide the transaction and the count; the
//! unverified shell performs the transaction and the wait.

use vstd::prelude::*;

use crate::bus::{
    burst_read_frame, burst_read_frame_spec, burst_write_frame, burst_write_frame_spec,
    read_frame_spec, BusOpModel,
};
use crate::codec::{control_byte_spec, Channel, Direction, RHR, THR, TXLVL};

verus! {

/// How many bytes a write may send: the request capped by the free space
/// the transmit FIFO reported.
pub open spec fn write_count_spec(space: u8, len: nat) -> nat {
    if len <= space as nat {
        len
    } else {
        space as nat
    }
}

/// How many bytes a read may drain: the request capped by the fill level
/// the receive FIFO reported.
pub open spec fn read_count_spec(available: u8, requested: nat) -> nat {
    if requested <= available as nat {
        requested
    } else {
        available as nat
    }
}

/// The decision of one flow-controlled write: how many bytes go out, and
/// the burst frame that carries them (`None` when nothing is to be sent).
#[derive(Debug)]
pub struct WritePlan {
    pub count: usize,
    pub frame: Option<Vec<u8>>,
}

/// Plans one flow-controlled write of `data`, given the free space the
/// transmit FIFO reported.  The first `count` bytes of `data`, and no
/// others, are placed in the burst frame, in order.
pub fn plan_write(channel: Channel, space: u8, data: &[u8]) -> (r: WritePlan)
    ensures
        r.count == write_count_spec(space, data@.len()),
        data@.len() == 0 ==> r.count == 0 && r.frame is None,
        (r.count == 0) == (r.frame is None),
        r.frame matches Some(frame) ==> frame@ == burst_write_frame_spec(
            THR,
            channel,
            data@,
            r.count as int,
        ),
{
    let len = data.len();
    let count = if len <= space as usize {
        len
    } else {
        space as usize
    };
    if count == 0 {
        WritePlan { count: 0, frame: None }
    } else {
        WritePlan { count, frame: Some(burst_write_frame(THR, channel, data, count)) }
    }
}

/// The transactions of one flow-controlled write: nothing at all for an
/// empty request; otherwise the level read, then — when any byte fits —
/// the burst write of the first `write_count_spec` bytes.
pub open spec fn write_trace_spec(c: Channel, space: u8, data: Seq<u8>) -> Seq<BusOpModel> {
    let count = write_count_spec(space, data.len());
    if data.len() == 0 {
        seq![]
    } else if count == 0 {
        seq![BusOpModel::Exchange(read_frame_spec(TXLVL, c))]
    } else {
        seq![
            BusOpModel::Exchange(read_frame_spec(TXLVL, c)),
            BusOpModel::Write(burst_write_frame_spec(THR, c, data, count as int)),
        ]
    }
}

/// Law: a write with empty input sends nothing and issues no bus
/// transaction at all.
pub proof fn lemma_write_empty_no_ops(c: Channel, space: u8, data: Seq<u8>)
    requires
        data.len() == 0,
    ensures
        write_count_spec(space, data.len()) == 0,
        write_trace_spec(c, space, data) =~= Seq::<BusOpModel>::empty(),
{
}

/// Law: when the transmit FIFO reports at least as much free space as the
/// request, the whole request is sent in one burst and the full requested
/// length is returned.
pub proof fn lemma_write_all_when_space(c: Channel, space: u8, data: Seq<u8>)
    requires
        data.len() <= space as nat,
    ensures
        write_count_spec(space, data.len()) == data.len(),
        data.len() > 0 ==> ({
            let trace = write_trace_spec(c, space, data);
            &&& trace.len() == 2
            &&& trace[1] == BusOpModel::Write(
                seq![control_byte_spec(c, THR, Direction::Write)] + data,
            )
        }),
{
    assert(data.take(data.len() as int) =~= data);
}

/// The decision of one flow-controlled read attempt.
#[derive(Debug)]
pub enum ReadPlan {
    /// The request was empty; nothing to do.
    Empty,
    /// The receive FIFO is empty: suspend until the interrupt line reports
    /// its active level, then read the fill level again.
    Wait,
    /// Drain `count` bytes with the burst-read `frame`; the response bytes
    /// after the control echo are the data.
    Drain { frame: Vec<u8>, count: usize },
}

/// Plans one flow-controlled read attempt, given the fill level the receive
/// FIFO reported.  A non-empty request never drains zero bytes: either the
/// caller must wait, or at least one byte comes out.
pub fn plan_read(channel: Channel, available: u8, requested: usize) -> (r: ReadPlan)
    ensures
        (r is Empty) == (requested == 0),
        (r is Wait) == (requested > 0 && available == 0),
        requested > 0 && available > 0 ==> ({
            &&& r matches ReadPlan::Drain { frame, count }
            &&& count == read_count_spec(available, requested as nat)
            &&& count > 0
            &&& frame@ == burst_read_frame_spec(RHR, channel, count as int)
        }),
{
    if requested == 0 {
        ReadPlan::Empty
    } else if available == 0 {
        ReadPlan::Wait
    } else {
        let count = if requested <= available as usize {
            requested
        } else {
            available as usize
        };
        ReadPlan::Drain { frame: burst_read_frame(RHR, channel, count), count }
    }
}

} // verus!
