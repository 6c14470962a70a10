//! What holds of every transfer: theorems over `TransferState`, the state
//! that the contracts of `Transfer` speak of.

use super::message::{AbortReason, DataTransfer};
use super::{Error, Response, TransferState};
use vstd::prelude::*;

verus! {

impl TransferState {
    /// The transfer after a run of data packets, taken one after the other.
    pub open spec fn after_all(self, dts: Seq<DataTransfer>) -> TransferState
        decreases dts.len(),
    {
        if dts.len() == 0 {
            self
        } else {
            self.after_all(dts.drop_last()).after(dts.last())
        }
    }

    /// What is answered to packet `i` of a run: the answer of the transfer
    /// that has taken the packets before it.
    pub open spec fn answer_at(self, dts: Seq<DataTransfer>, i: int) -> super::Outcome {
        self.after_all(dts.take(i)).answer(dts[i])
    }

    /// The buffer of a fresh transfer reaches the announced size, or grows.
    pub open spec fn holds_message(self) -> bool {
        self.growable || self.bytes.len() >= self.rts.total_size
    }

    /// The buffer can take the first `packets` packets.
    pub open spec fn holds_packets(self, packets: int) -> bool {
        self.growable || (packets <= self.windows() && (packets == self.rts.total_packets
            ==> self.bytes.len() >= self.rts.total_size))
    }
}

/// The packets of a run are numbered 1, 2, 3 and so on.
pub open spec fn in_order(dts: Seq<DataTransfer>) -> bool {
    forall|i: int| 0 <= i < dts.len() ==> (#[trigger] dts[i]).sequence == i + 1
}

/// The packets of a run carry `payload` in chunks of seven bytes. What
/// follows the payload in the last packet is padding and can be anything.
pub open spec fn carries(dts: Seq<DataTransfer>, payload: Seq<u8>) -> bool {
    forall|i: int, j: int|
        0 <= i < dts.len() && 0 <= j < 7 && 7 * i + j < payload.len() ==> (#[trigger] dts[i]).data@[j]
            == #[trigger] payload[7 * i + j]
}

/// A step keeps the invariant, the request and the kind of buffer, never
/// takes the count past the number of packets, and never leaves the aborted
/// state.
pub proof fn lemma_after_keeps_wf(s: TransferState, dt: DataTransfer)
    requires
        s.wf(),
    ensures
        s.after(dt).wf(),
        s.after(dt).rts == s.rts,
        s.after(dt).growable == s.growable,
        s.after(dt).received <= s.rts.total_packets,
        s.aborted ==> s.after(dt) == s,
        !s.growable ==> s.after(dt).bytes.len() == s.bytes.len(),
{
}

/// The same for a run of steps.
pub proof fn lemma_after_all_keeps_wf(s: TransferState, dts: Seq<DataTransfer>)
    requires
        s.wf(),
    ensures
        s.after_all(dts).wf(),
        s.after_all(dts).rts == s.rts,
        s.after_all(dts).growable == s.growable,
        s.after_all(dts).received <= s.rts.total_packets,
        s.aborted ==> s.after_all(dts) == s,
    decreases dts.len(),
{
    if dts.len() > 0 {
        lemma_after_all_keeps_wf(s, dts.drop_last());
        lemma_after_keeps_wf(s.after_all(dts.drop_last()), dts.last());
    }
}

/// A transfer is complete exactly when it has taken as many packets as the
/// request announced and was not aborted.
pub proof fn lemma_complete_iff_all_received(s: TransferState)
    requires
        s.wf(),
    ensures
        s.complete() <==> s.received == s.rts.total_packets && !s.aborted,
{
}

/// A packet whose number is not the count of packets taken plus one aborts
/// the transfer, with the sequence error and the abort frame for a bad
/// sequence number.
pub proof fn lemma_out_of_order_aborts(s: TransferState, dt: DataTransfer)
    requires
        !s.aborted,
        dt.sequence != s.received + 1,
    ensures
        s.after(dt).aborted,
        s.answer(dt) == Err::<Option<Response>, _>(
            (Error::Sequence, s.abort_frame(AbortReason::BadSequenceNumber)),
        ),
{
}

/// Once a transfer is aborted, whatever comes in, and however much of it,
/// it stays as it is and answers with the error of a previous abort.
pub proof fn lemma_abort_is_final(s: TransferState, dts: Seq<DataTransfer>, dt: DataTransfer)
    requires
        s.aborted,
    ensures
        s.after_all(dts) == s,
        s.after_all(dts).answer(dt) == Err::<Option<Response>, _>(
            (Error::PreviousAbort, s.abort_frame(AbortReason::UnexpectedDataTransfer)),
        ),
    decreases dts.len(),
{
    if dts.len() > 0 {
        lemma_abort_is_final(s, dts.drop_last(), dt);
    }
}

/// With a burst limit of `b` packets, a packet that is taken is answered
/// with the end of message acknowledge if it is the last, with a clear to
/// send for the packet after it if it is not the last and its number is a
/// multiple of `b`, and with nothing otherwise.
pub proof fn lemma_burst_cadence(s: TransferState, dt: DataTransfer, b: u8)
    requires
        s.wf(),
        !s.aborted,
        s.expects(dt.sequence),
        s.has_room(),
        s.rts.max_packets_per_response == Some(b),
        b != 0,
    ensures
        s.answer(dt) is Ok,
        s.answer(dt)->Ok_0 matches Some(Response::End(_)) <==> dt.sequence == s.rts.total_packets,
        s.answer(dt)->Ok_0 matches Some(Response::Cts(_)) <==> dt.sequence % b == 0 && dt.sequence
            != s.rts.total_packets,
        s.answer(dt)->Ok_0 matches Some(Response::Cts(cts)) ==> cts.next_sequence == dt.sequence + 1
            && cts.max_packets_per_response == Some(b) && cts.pgn == s.rts.pgn,
{
}

/// Without a burst limit no clear to send is ever answered: a packet that is
/// taken is answered with nothing, the last one with the end of message
/// acknowledge.
pub proof fn lemma_unlimited_never_clears(s: TransferState, dt: DataTransfer)
    requires
        s.rts.max_packets_per_response is None,
    ensures
        !(s.answer(dt) matches Ok(Some(Response::Cts(_)))),
        s.answer(dt) is Ok && dt.sequence != s.rts.total_packets ==> s.answer(dt)->Ok_0 is None,
{
}

/// A run of packets in order, on a buffer that can take them, is taken whole:
/// nothing aborts, the count is the length of the run, and each packet gets
/// the reply that its number calls for.
pub proof fn lemma_in_order_run_is_taken(s: TransferState, dts: Seq<DataTransfer>)
    requires
        s.wf(),
        s.received == 0,
        !s.aborted,
        in_order(dts),
        dts.len() <= s.rts.total_packets,
        s.holds_packets(dts.len() as int),
    ensures
        s.after_all(dts).wf(),
        !s.after_all(dts).aborted,
        s.after_all(dts).received == dts.len(),
        s.after_all(dts).rts == s.rts,
        s.after_all(dts).growable == s.growable,
        !s.growable ==> s.after_all(dts).bytes.len() == s.bytes.len(),
        s.after_all(dts).complete() <==> dts.len() == s.rts.total_packets,
        forall|i: int|
            0 <= i < dts.len() ==> #[trigger] s.answer_at(dts, i) == Ok::<_, (Error, super::ConnectionAbort)>(
                s.reply((i + 1) as u8),
            ),
    decreases dts.len(),
{
    if dts.len() > 0 {
        let n = dts.len() as int;
        let init = dts.drop_last();
        assert(in_order(init));
        lemma_in_order_run_is_taken(s, init);
        let prev = s.after_all(init);
        let dt = dts.last();
        assert(dt == dts[n - 1]);
        assert(prev.expects(dt.sequence));
        assert(prev.has_room());
        lemma_after_keeps_wf(prev, dt);
        assert(init =~= dts.take(n - 1));
        assert forall|i: int| 0 <= i < dts.len() implies #[trigger] s.answer_at(dts, i) == Ok::<
            _,
            (Error, super::ConnectionAbort),
        >(s.reply((i + 1) as u8)) by {
            if i < n - 1 {
                assert(dts.take(i) =~= init.take(i));
                assert(s.answer_at(init, i) == s.answer_at(dts, i));
            }
        }
    }
}

/// The happy path. A message of the announced size, cut into packets of
/// seven bytes and fed in order, is reassembled: after `n` packets the
/// buffer starts with the bytes that they carried, and once all packets are
/// in, and not before, the transfer is complete and its payload is the
/// message, the padding of the last packet left out.
pub proof fn lemma_in_order_run_reassembles(
    s: TransferState,
    payload: Seq<u8>,
    dts: Seq<DataTransfer>,
)
    requires
        s.wf(),
        s.received == 0,
        !s.aborted,
        s.holds_message(),
        payload.len() == s.rts.total_size,
        in_order(dts),
        carries(dts, payload),
        dts.len() <= s.rts.total_packets,
    ensures
        !s.after_all(dts).aborted,
        s.after_all(dts).received == dts.len(),
        s.after_all(dts).bytes.len() >= s.carried(dts.len() as int),
        s.after_all(dts).bytes.take(s.carried(dts.len() as int)) == payload.take(
            s.carried(dts.len() as int),
        ),
        s.after_all(dts).complete() <==> dts.len() == s.rts.total_packets,
        dts.len() == s.rts.total_packets ==> s.after_all(dts).payload() == payload,
    decreases dts.len(),
{
    let n = dts.len() as int;
    lemma_in_order_run_is_taken(s, dts);
    if n > 0 {
        let init = dts.drop_last();
        assert(in_order(init));
        assert(carries(init, payload));
        lemma_in_order_run_reassembles(s, payload, init);
        lemma_in_order_run_is_taken(s, init);
        let prev = s.after_all(init);
        let dt = dts.last();
        assert(dt == dts[n - 1]);
        let cur = s.after_all(dts);
        assert(cur == prev.after(dt));
        assert(prev.expects(dt.sequence));
        assert(prev.has_room());
        assert(cur.bytes == prev.stored(dt.data@));
        let before = s.carried(n - 1);
        let now = s.carried(n);
        assert(before == 7 * (n - 1));
        assert(cur.bytes.len() >= now);
        assert forall|j: int| 0 <= j < now implies cur.bytes[j] == payload[j] by {
            if j < before {
                assert(prev.bytes.take(before)[j] == payload.take(before)[j]);
            } else {
                assert(dts[n - 1].data@[j - 7 * (n - 1)] == payload[7 * (n - 1) + (j - 7 * (n
                    - 1))]);
            }
        }
        assert(cur.bytes.take(now) =~= payload.take(now));
        if n == s.rts.total_packets {
            assert(now == s.rts.total_size);
            assert(payload.take(now) =~= payload);
        }
    } else {
        assert(s.after_all(dts).bytes.take(0) =~= payload.take(0));
    }
}

/// A region with fewer windows of seven bytes than the request has packets
/// takes one packet for each window. The packet after them finds no room:
/// it is answered with the storage error and the abort frame with the custom
/// reason, and the transfer is aborted.
pub proof fn lemma_short_region_aborts(s: TransferState, dts: Seq<DataTransfer>)
    requires
        s.wf(),
        s.received == 0,
        !s.aborted,
        !s.growable,
        s.windows() < s.rts.total_packets,
        in_order(dts),
        dts.len() == s.windows() + 1,
    ensures
        forall|i: int| 0 <= i < s.windows() ==> (#[trigger] s.answer_at(dts, i)) is Ok,
        s.answer_at(dts, s.windows()) == Err::<Option<Response>, _>(
            (Error::StorageTooSmall, s.abort_frame(AbortReason::Custom)),
        ),
        s.after_all(dts).aborted,
{
    let w = s.windows();
    let init = dts.drop_last();
    assert(in_order(init));
    lemma_in_order_run_is_taken(s, init);
    assert(init =~= dts.take(w));
    let prev = s.after_all(init);
    assert(dts.last() == dts[w]);
    assert(prev.expects(dts[w].sequence));
    assert(!prev.has_room());
    assert forall|i: int| 0 <= i < w implies (#[trigger] s.answer_at(dts, i)) is Ok by {
        assert(dts.take(i) =~= init.take(i));
        assert(s.answer_at(init, i) == s.answer_at(dts, i));
    }
}

} // verus!
