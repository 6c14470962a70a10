//! Transport protocol (J1939-21): the receiving side of a multi-packet
//! transfer.

pub mod lemmas;
mod message;
mod storage;

pub use managed::ManagedSlice;
pub use message::{
    burst_of_wire, burst_wire, pgn_fits_wire, pgn_of_wire, pgn_wire, lemma_pgn_of_wire_round_trip,
    lemma_pgn_wire_round_trip,
    AbortReason, AbortSenderRole, ClearToSend, ConnectionAbort, DataTransfer, EndOfMessageAck,
    RequestToSend,
};
pub use storage::{storage_bytes, storage_owned};

use storage::{
    storage_as_slice, storage_extend, storage_from_vec, storage_is_owned, storage_len,
    storage_set, storage_truncate,
};
use vstd::prelude::*;
use vstd::slice::slice_subrange;
use vstd::std_specs::convert::FromSpecImpl;

verus! {

/// Why a transfer was given up.
#[derive(Debug, Clone, Copy, PartialEq, Eq, Structural)]
pub enum Error {
    /// The borrowed region has no room for the packet.
    StorageTooSmall,
    /// The packet is not the one that was due.
    Sequence,
    /// The transfer was aborted before this packet came.
    PreviousAbort,
}

/// A frame to send back to the sender of the data.
#[derive(Debug, Clone, Copy, PartialEq, Eq, Structural)]
pub enum Response {
    /// The next burst may be sent.
    Cts(ClearToSend),
    /// The whole message has arrived.
    End(EndOfMessageAck),
}

impl Response {
    /// The eight bytes of the frame that carries this response.
    pub open spec fn wire(self) -> Seq<u8> {
        match self {
            Response::Cts(cts) => cts.wire(),
            Response::End(end) => end.wire(),
        }
    }
}

impl From<&Response> for [u8; 8] {
    fn from(value: &Response) -> (r: Self)
        ensures
            r@ == value.wire(),
    {
        match value {
            Response::Cts(cts) => <[u8; 8]>::from(cts),
            Response::End(end) => <[u8; 8]>::from(end),
        }
    }
}

impl FromSpecImpl<&Response> for [u8; 8] {
    open spec fn obeys_from_spec() -> bool {
        true
    }

    open spec fn from_spec(value: &Response) -> [u8; 8] {
        match value {
            Response::Cts(cts) => <[u8; 8] as vstd::std_specs::convert::FromSpec<
                &ClearToSend,
            >>::from_spec(cts),
            Response::End(end) => <[u8; 8] as vstd::std_specs::convert::FromSpec<
                &EndOfMessageAck,
            >>::from_spec(end),
        }
    }
}

/// What `Transfer::next` hands back.
pub type Outcome = Result<Option<Response>, (Error, ConnectionAbort)>;

/// A transfer as contracts see it.
pub struct TransferState {
    /// The request that opened the transfer.
    pub rts: RequestToSend,
    /// How many packets have been taken.
    pub received: u8,
    /// What the buffer holds.
    pub bytes: Seq<u8>,
    /// Whether the buffer grows with the transfer, or is a region of fixed
    /// size.
    pub growable: bool,
    /// Whether the transfer was given up. Nothing leads back from there.
    pub aborted: bool,
}

impl TransferState {
    /// A transfer that has taken no packet yet.
    pub open spec fn start(rts: RequestToSend, bytes: Seq<u8>, growable: bool) -> Self {
        TransferState { rts, received: 0, bytes, growable, aborted: false }
    }

    /// How many bytes of the message the first `packets` packets carry.
    pub open spec fn carried(self, packets: int) -> int {
        if 7 * packets < self.rts.total_size {
            7 * packets
        } else {
            self.rts.total_size as int
        }
    }

    /// The number of seven-byte windows of the buffer, a shorter last one
    /// counted.
    pub open spec fn windows(self) -> int {
        (self.bytes.len() as int + 6) / 7
    }

    pub open spec fn wf(self) -> bool {
        &&& self.rts.wf()
        &&& self.received <= self.rts.total_packets
        &&& self.growable ==> self.bytes.len() == self.carried(self.received as int)
        &&& !self.growable && !self.aborted && self.received == self.rts.total_packets
            ==> self.bytes.len() >= self.rts.total_size
    }

    /// All packets were taken and the transfer was not given up since.
    pub open spec fn complete(self) -> bool {
        self.received >= self.rts.total_packets && !self.aborted
    }

    /// The reassembled message: the buffer up to the announced size.
    pub open spec fn payload(self) -> Seq<u8> {
        self.bytes.take(self.rts.total_size as int)
    }

    /// Whether `sequence` is the number of the packet that is due. On a
    /// transfer that has taken all its packets none is.
    pub open spec fn expects(self, sequence: u8) -> bool {
        self.received < self.rts.total_packets && sequence == self.received + 1
    }

    /// Whether the buffer can take the packet that is due. A growable one
    /// always can. A region can if the packet's window starts inside it and,
    /// for the last packet, if it reaches the announced size.
    pub open spec fn has_room(self) -> bool {
        self.growable || (7 * self.received < self.bytes.len() && (self.received + 1
            == self.rts.total_packets ==> self.bytes.len() >= self.rts.total_size))
    }

    /// The buffer after the packet that is due was stored. A growable one has
    /// the seven bytes appended and is cut at the announced size. A region has
    /// them written over its window, as far as the window reaches.
    pub open spec fn stored(self, data: Seq<u8>) -> Seq<u8> {
        if self.growable {
            let all = self.bytes + data;
            if all.len() > self.rts.total_size {
                all.take(self.rts.total_size as int)
            } else {
                all
            }
        } else {
            window_written(self.bytes, 7 * self.received, data)
        }
    }

    /// The abort frame that this receiver sends for `reason`.
    pub open spec fn abort_frame(self, reason: AbortReason) -> ConnectionAbort {
        ConnectionAbort { reason, sender_role: AbortSenderRole::Receiver, pgn: self.rts.pgn }
    }

    /// Whether a burst ends with packet `sequence`. A limit of zero never
    /// ends one.
    pub open spec fn burst_ends(self, sequence: u8) -> bool {
        self.rts.max_packets_per_response matches Some(b) && b != 0 && sequence % b == 0
    }

    /// What is answered to packet `sequence` once it was stored: the end of
    /// message acknowledge to the last one, a clear to send for the next
    /// burst where a burst ends, else nothing.
    pub open spec fn reply(self, sequence: u8) -> Option<Response> {
        if sequence == self.rts.total_packets {
            Some(
                Response::End(
                    EndOfMessageAck {
                        total_size: self.rts.total_size,
                        total_packets: self.rts.total_packets,
                        pgn: self.rts.pgn,
                    },
                ),
            )
        } else if self.burst_ends(sequence) {
            Some(
                Response::Cts(
                    ClearToSend {
                        max_packets_per_response: self.rts.max_packets_per_response,
                        next_sequence: (sequence + 1) as u8,
                        pgn: self.rts.pgn,
                    },
                ),
            )
        } else {
            None
        }
    }

    /// The transfer after a data packet came in.
    pub open spec fn after(self, dt: DataTransfer) -> Self {
        if self.aborted {
            self
        } else if !self.expects(dt.sequence) || !self.has_room() {
            TransferState { aborted: true, ..self }
        } else {
            TransferState {
                received: (self.received + 1) as u8,
                bytes: self.stored(dt.data@),
                ..self
            }
        }
    }

    /// What the receiver answers to a data packet.
    pub open spec fn answer(self, dt: DataTransfer) -> Outcome {
        if self.aborted {
            Err((Error::PreviousAbort, self.abort_frame(AbortReason::UnexpectedDataTransfer)))
        } else if !self.expects(dt.sequence) {
            Err((Error::Sequence, self.abort_frame(AbortReason::BadSequenceNumber)))
        } else if !self.has_room() {
            Err((Error::StorageTooSmall, self.abort_frame(AbortReason::Custom)))
        } else {
            Ok(self.reply(dt.sequence))
        }
    }
}

/// A region with seven bytes written at `start`, as far as the region
/// reaches.
pub open spec fn window_written(bytes: Seq<u8>, start: int, data: Seq<u8>) -> Seq<u8> {
    Seq::new(
        bytes.len(),
        |j: int|
            if start <= j < start + 7 {
                data[j - start]
            } else {
                bytes[j]
            },
    )
}

fn write_window(storage: &mut ManagedSlice<'_, u8>, start: usize, data: &[u8; 7])
    requires
        start < storage_bytes(*old(storage)).len(),
    ensures
        storage_owned(*final(storage)) == storage_owned(*old(storage)),
        storage_bytes(*final(storage)) == window_written(
            storage_bytes(*old(storage)),
            start as int,
            data@,
        ),
{
    let len = storage_len(storage);
    let mut i: usize = 0;
    while i < 7 && i < len - start
        invariant
            i <= 7,
            start < len,
            len == storage_bytes(*old(storage)).len(),
            storage_owned(*storage) == storage_owned(*old(storage)),
            storage_bytes(*storage) == Seq::new(
                len as nat,
                |j: int|
                    if start <= j < start + i {
                        data@[j - start]
                    } else {
                        storage_bytes(*old(storage))[j]
                    },
            ),
        decreases 7 - i,
    {
        storage_set(storage, start + i, data[i]);
        i += 1;
        assert(storage_bytes(*storage) =~= Seq::new(
            len as nat,
            |j: int|
                if start <= j < start + i {
                    data@[j - start]
                } else {
                    storage_bytes(*old(storage))[j]
                },
        ));
    }
    assert(storage_bytes(*storage) =~= window_written(
        storage_bytes(*old(storage)),
        start as int,
        data@,
    ));
}

/// An ongoing transport-protocol transfer.
#[derive(Debug)]
pub struct Transfer<'a> {
    rts: RequestToSend,
    rx_packets: u8,
    storage: ManagedSlice<'a, u8>,
    abort: bool,
}

impl<'a> View for Transfer<'a> {
    type V = TransferState;

    closed spec fn view(&self) -> TransferState {
        TransferState {
            rts: self.rts,
            received: self.rx_packets,
            bytes: storage_bytes(self.storage),
            growable: storage_owned(self.storage),
            aborted: self.abort,
        }
    }
}

impl<'a> Transfer<'a> {
    /// The invariant of a transfer: that of its state.
    pub open spec fn wf(&self) -> bool {
        self@.wf()
    }

    /// Create a new transfer from a RTS message received from the sender. Its
    /// buffer grows with the transfer.
    pub fn new(rts: RequestToSend) -> (r: Self)
        requires
            rts.wf(),
        ensures
            r.wf(),
            r@ == TransferState::start(rts, Seq::empty(), true),
    {
        Self { rts, rx_packets: 0, storage: storage_from_vec(Vec::new()), abort: false }
    }

    /// Create a new transfer from a RTS message received from the sender using provided storage.
    ///
    /// A borrowed region is written in place and never grows. An owned vector
    /// is emptied first and then grows with the transfer.
    pub fn new_with_storage(rts: RequestToSend, storage: ManagedSlice<'a, u8>) -> (r: Self)
        requires
            rts.wf(),
        ensures
            r.wf(),
            r@ == TransferState::start(
                rts,
                if storage_owned(storage) {
                    Seq::empty()
                } else {
                    storage_bytes(storage)
                },
                storage_owned(storage),
            ),
    {
        let mut storage = storage;
        if storage_is_owned(&storage) {
            storage_truncate(&mut storage, 0);
            assert(storage_bytes(storage) =~= Seq::<u8>::empty());
        }
        Self { rts, rx_packets: 0, storage, abort: false }
    }

    /// Return read-only access to the internal buffer.
    ///
    /// The message is handed out once the transfer is complete, and at no
    /// other time.
    pub fn finished(&self) -> (r: Option<&[u8]>)
        requires
            self.wf(),
        ensures
            r.is_some() == self@.complete(),
            r matches Some(bytes) ==> bytes@ == self@.payload(),
    {
        if self.rx_packets >= self.rts.total_packets && !self.abort {
            let all = storage_as_slice(&self.storage);
            Some(slice_subrange(all, 0, self.rts.total_size as usize))
        } else {
            None
        }
    }

    /// Feed the transfer with the next data transfer.
    ///
    /// The packet that is due is stored and answered. Any other packet, and
    /// any packet at all once the transfer has taken its last, aborts the
    /// transfer, and so does a packet for which a borrowed region has no
    /// room. Every error comes with the abort frame to send.
    pub fn next(&mut self, msg: DataTransfer) -> (r: Outcome)
        requires
            old(self).wf(),
        ensures
            final(self).wf(),
            final(self)@ == old(self)@.after(msg),
            r == old(self)@.answer(msg),
    {
        if self.abort {
            return Err(
                (
                    Error::PreviousAbort,
                    ConnectionAbort::new(
                        AbortReason::UnexpectedDataTransfer,
                        AbortSenderRole::Receiver,
                        self.rts.pgn,
                    ),
                ),
            );
        }
        if self.rx_packets >= self.rts.total_packets || msg.sequence != self.rx_packets + 1 {
            self.abort = true;
            return Err(
                (
                    Error::Sequence,
                    ConnectionAbort::new(
                        AbortReason::BadSequenceNumber,
                        AbortSenderRole::Receiver,
                        self.rts.pgn,
                    ),
                ),
            );
        }
        let total: usize = self.rts.total_size as usize;
        let data: [u8; 7] = msg.data;
        if storage_is_owned(&self.storage) {
            storage_extend(&mut self.storage, data.as_slice());
            storage_truncate(&mut self.storage, total);
        } else {
            let len = storage_len(&self.storage);
            let start: usize = 7 * (self.rx_packets as usize);
            if start >= len || (self.rx_packets + 1 == self.rts.total_packets && len < total) {
                self.abort = true;
                return Err(
                    (
                        Error::StorageTooSmall,
                        ConnectionAbort::new(
                            AbortReason::Custom,
                            AbortSenderRole::Receiver,
                            self.rts.pgn,
                        ),
                    ),
                );
            }
            write_window(&mut self.storage, start, &data);
        }
        self.rx_packets += 1;

        if self.rx_packets == self.rts.total_packets {
            return Ok(
                Some(
                    Response::End(
                        EndOfMessageAck::new(
                            self.rts.total_size,
                            self.rts.total_packets,
                            self.rts.pgn,
                        ),
                    ),
                ),
            );
        }
        if let Some(packets_per_response) = self.rts.max_packets_per_response {
            if packets_per_response != 0 && msg.sequence % packets_per_response == 0 {
                return Ok(
                    Some(
                        Response::Cts(
                            ClearToSend::new(
                                self.rts.max_packets_per_response,
                                self.rx_packets + 1,
                                self.rts.pgn,
                            ),
                        ),
                    ),
                );
            }
        }
        Ok(None)
    }
}

} // verus!
