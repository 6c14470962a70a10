use crate::id::Pgn;
use vstd::prelude::*;
use vstd::std_specs::convert::{FromSpecImpl, TryFromSpecImpl};

verus! {

/// The three bytes that carry a parameter group number in a frame, low byte
/// first.
pub open spec fn pgn_wire(pgn: Pgn) -> Seq<u8> {
    let v = pgn.value();
    seq![(v % 256) as u8, ((v / 256) % 256) as u8, ((v / 65536) % 256) as u8]
}

/// The parameter group number that three frame bytes carry.
pub open spec fn pgn_of_wire(b0: u8, b1: u8, b2: u8) -> Pgn {
    Pgn::of_value((b0 + 256 * b1 + 65536 * b2) as u32)
}

/// Whether a frame carries this parameter group number without loss: it has
/// at most 24 bits and is the value its number is read back as.
pub open spec fn pgn_fits_wire(pgn: Pgn) -> bool {
    pgn.is_canonical() && pgn.value() < 0x100_0000
}

/// The byte that carries a burst limit: 255 stands for no limit.
pub open spec fn burst_wire(limit: Option<u8>) -> u8 {
    match limit {
        Some(b) => b,
        None => 255,
    }
}

/// The burst limit that a byte carries.
pub open spec fn burst_of_wire(byte: u8) -> Option<u8> {
    if byte == 255 {
        None
    } else {
        Some(byte)
    }
}

fn pgn_to_bytes(pgn: Pgn) -> (r: [u8; 3])
    ensures
        r@ == pgn_wire(pgn),
{
    let v: u32 = u32::from(pgn);
    let r: [u8; 3] = [(v % 256) as u8, ((v / 256) % 256) as u8, ((v / 65536) % 256) as u8];
    assert(r@ =~= pgn_wire(pgn));
    r
}

fn pgn_from_bytes(b0: u8, b1: u8, b2: u8) -> (r: Pgn)
    ensures
        r == pgn_of_wire(b0, b1, b2),
{
    Pgn::from((b0 as u32) + 256 * (b1 as u32) + 65536 * (b2 as u32))
}

fn burst_to_byte(limit: Option<u8>) -> (r: u8)
    ensures
        r == burst_wire(limit),
{
    match limit {
        Some(b) => b,
        None => 255,
    }
}

fn burst_from_byte(byte: u8) -> (r: Option<u8>)
    ensures
        r == burst_of_wire(byte),
{
    if byte == 255 {
        None
    } else {
        Some(byte)
    }
}

/// A parameter group number survives the trip through its three frame bytes
/// exactly when it fits them.
pub proof fn lemma_pgn_wire_round_trip(pgn: Pgn)
    requires
        pgn_fits_wire(pgn),
    ensures
        pgn_of_wire(pgn_wire(pgn)[0], pgn_wire(pgn)[1], pgn_wire(pgn)[2]) == pgn,
{
    let v = pgn.value();
    assert(v == (v % 256) + 256 * ((v / 256) % 256) + 65536 * ((v / 65536) % 256));
}

/// Three frame bytes survive the trip through the parameter group number
/// that they carry.
pub proof fn lemma_pgn_of_wire_round_trip(b0: u8, b1: u8, b2: u8)
    ensures
        pgn_wire(pgn_of_wire(b0, b1, b2)) == seq![b0, b1, b2],
        pgn_fits_wire(pgn_of_wire(b0, b1, b2)),
{
    let v = (b0 + 256 * b1 + 65536 * b2) as u32;
    Pgn::lemma_value_of_value(v);
    assert(pgn_wire(pgn_of_wire(b0, b1, b2)) =~= seq![b0, b1, b2]);
}

/// Request to send (TP.CM_RTS) message.
#[derive(Debug, Clone, Copy, PartialEq, Eq, Structural)]
pub struct RequestToSend {
    pub total_size: u16,
    pub total_packets: u8,
    pub max_packets_per_response: Option<u8>,
    pub pgn: Pgn,
}

impl RequestToSend {
    const MUX: u8 = 16;

    /// The number of seven-byte segments that a message of `total_size` bytes
    /// takes.
    pub open spec fn packets_for(total_size: u16) -> int {
        (total_size + 6) / 7
    }

    /// What a transfer can be started from: between 9 and 1785 bytes, in as
    /// many packets as that takes, and a burst limit, if any, below 255.
    pub open spec fn wf(self) -> bool {
        &&& 9 <= self.total_size <= 1785
        &&& self.total_packets == Self::packets_for(self.total_size)
        &&& self.max_packets_per_response matches Some(b) ==> b < 255
    }

    /// The eight bytes of the frame.
    pub open spec fn wire(self) -> Seq<u8> {
        seq![
            16u8,
            (self.total_size % 256) as u8,
            (self.total_size / 256) as u8,
            self.total_packets,
            burst_wire(self.max_packets_per_response),
            pgn_wire(self.pgn)[0],
            pgn_wire(self.pgn)[1],
            pgn_wire(self.pgn)[2],
        ]
    }

    /// The message that a frame carries, if it is a request to send.
    pub open spec fn decode(bytes: Seq<u8>) -> Option<Self> {
        if bytes.len() == 8 && bytes[0] == 16 {
            Some(
                RequestToSend {
                    total_size: (bytes[1] + 256 * bytes[2]) as u16,
                    total_packets: bytes[3],
                    max_packets_per_response: burst_of_wire(bytes[4]),
                    pgn: pgn_of_wire(bytes[5], bytes[6], bytes[7]),
                },
            )
        } else {
            None
        }
    }

    /// Create a new request to send message.
    ///
    /// - `total_size` must be between 9 and 1785 bytes.
    /// - `max_packets_per_response` must be below 255: no limit is `None`.
    pub fn new(total_size: u16, max_packets_per_response: Option<u8>, pgn: Pgn) -> (r: Self)
        requires
            9 <= total_size <= 1785,
            max_packets_per_response matches Some(b) ==> b < 255,
        ensures
            r.wf(),
            r.total_size == total_size,
            r.total_packets == Self::packets_for(total_size),
            r.max_packets_per_response == max_packets_per_response,
            r.pgn == pgn,
    {
        let total_packets: u16 = (total_size + 6) / 7;
        Self { total_size, total_packets: total_packets as u8, max_packets_per_response, pgn }
    }

    /// Create a request to send message from parameters that have not been
    /// checked: `None` where `new` could not take them.
    pub fn try_new(total_size: u16, max_packets_per_response: Option<u8>, pgn: Pgn) -> (r: Option<
        Self,
    >)
        ensures
            r.is_some() <==> (9 <= total_size <= 1785 && (max_packets_per_response matches Some(b)
                ==> b < 255)),
            r matches Some(m) ==> m.wf() && m.total_size == total_size
                && m.max_packets_per_response == max_packets_per_response && m.pgn == pgn,
    {
        if total_size < 9 || total_size > 1785 {
            return None;
        }
        if let Some(b) = max_packets_per_response {
            if b == 255 {
                return None;
            }
        }
        Some(Self::new(total_size, max_packets_per_response, pgn))
    }

    /// Whether a transfer can be started from this message. One that was
    /// decoded from a frame need not be.
    pub fn is_valid(&self) -> (r: bool)
        ensures
            r == self.wf(),
    {
        let burst_ok = match self.max_packets_per_response {
            Some(b) => b < 255,
            None => true,
        };
        9 <= self.total_size && self.total_size <= 1785 && (self.total_packets as u16) == (
        self.total_size + 6) / 7 && burst_ok
    }

    /// Total number of bytes in this transfer.
    pub fn total_size(&self) -> (r: u16)
        ensures
            r == self.total_size,
    {
        self.total_size
    }

    /// Total number of packets in this transfer.
    pub fn total_packets(&self) -> (r: u8)
        ensures
            r == self.total_packets,
    {
        self.total_packets
    }

    /// The maximum number of packets the sender is allowed to respond with for
    /// every TP.CM_CTS message.
    ///
    /// `None` signifies no limit.
    pub fn max_packets_per_response(&self) -> (r: Option<u8>)
        ensures
            r == self.max_packets_per_response,
    {
        self.max_packets_per_response
    }

    /// Transfer contents PGN.
    pub fn pgn(&self) -> (r: Pgn)
        ensures
            r == self.pgn,
    {
        self.pgn
    }

    /// Decoding the frame of a well-formed request gives the request back.
    pub proof fn lemma_round_trip(self)
        requires
            self.wf(),
            pgn_fits_wire(self.pgn),
        ensures
            Self::decode(self.wire()) == Some(self),
    {
        lemma_pgn_wire_round_trip(self.pgn);
    }

    /// Encoding what a frame was decoded to gives the frame back.
    pub proof fn lemma_wire_of_decoded(bytes: Seq<u8>)
        requires
            Self::decode(bytes) is Some,
        ensures
            Self::decode(bytes)->0.wire() == bytes,
    {
        lemma_pgn_of_wire_round_trip(bytes[5], bytes[6], bytes[7]);
        assert(Self::decode(bytes)->0.wire() =~= bytes);
    }
}

impl From<RequestToSend> for [u8; 8] {
    fn from(val: RequestToSend) -> (r: Self)
        ensures
            r@ == val.wire(),
    {
        let pgn = pgn_to_bytes(val.pgn);
        let r: [u8; 8] = [
            RequestToSend::MUX,
            (val.total_size % 256) as u8,
            (val.total_size / 256) as u8,
            val.total_packets,
            burst_to_byte(val.max_packets_per_response),
            pgn[0],
            pgn[1],
            pgn[2],
        ];
        assert(r@ =~= val.wire());
        r
    }
}

impl FromSpecImpl<RequestToSend> for [u8; 8] {
    open spec fn obeys_from_spec() -> bool {
        true
    }

    open spec fn from_spec(val: RequestToSend) -> [u8; 8] {
        let w = val.wire();
        [w[0], w[1], w[2], w[3], w[4], w[5], w[6], w[7]]
    }
}

impl<'a> TryFrom<&'a [u8]> for RequestToSend {
    type Error = &'a [u8];

    fn try_from(value: &'a [u8]) -> (r: Result<Self, Self::Error>) {
        if value.len() != 8 {
            return Err(value);
        }
        if value[0] != Self::MUX {
            return Err(value);
        }
        Ok(
            Self {
                total_size: (value[1] as u16) + 256 * (value[2] as u16),
                total_packets: value[3],
                max_packets_per_response: burst_from_byte(value[4]),
                pgn: pgn_from_bytes(value[5], value[6], value[7]),
            },
        )
    }
}

impl<'a> TryFromSpecImpl<&'a [u8]> for RequestToSend {
    open spec fn obeys_try_from_spec() -> bool {
        true
    }

    open spec fn try_from_spec(value: &'a [u8]) -> Result<Self, &'a [u8]> {
        match Self::decode(value@) {
            Some(m) => Ok(m),
            None => Err(value),
        }
    }
}

/// Clear to send (TP.CM_CTS) message.
#[derive(Debug, Clone, Copy, PartialEq, Eq, Structural)]
pub struct ClearToSend {
    pub max_packets_per_response: Option<u8>,
    pub next_sequence: u8,
    pub pgn: Pgn,
}

impl ClearToSend {
    const MUX: u8 = 17;

    /// What a frame can carry: a burst limit, if any, below 255.
    pub open spec fn wf(self) -> bool {
        self.max_packets_per_response matches Some(b) ==> b < 255
    }

    /// The eight bytes of the frame.
    pub open spec fn wire(self) -> Seq<u8> {
        seq![
            17u8,
            burst_wire(self.max_packets_per_response),
            self.next_sequence,
            0xFFu8,
            0xFFu8,
            pgn_wire(self.pgn)[0],
            pgn_wire(self.pgn)[1],
            pgn_wire(self.pgn)[2],
        ]
    }

    /// The message that a frame carries, if it is a clear to send.
    pub open spec fn decode(bytes: Seq<u8>) -> Option<Self> {
        if bytes.len() == 8 && bytes[0] == 17 {
            Some(
                ClearToSend {
                    max_packets_per_response: burst_of_wire(bytes[1]),
                    next_sequence: bytes[2],
                    pgn: pgn_of_wire(bytes[5], bytes[6], bytes[7]),
                },
            )
        } else {
            None
        }
    }

    /// Create a new CTS message.
    pub fn new(max_packets_per_response: Option<u8>, next_sequence: u8, pgn: Pgn) -> (r: Self)
        ensures
            r == (ClearToSend { max_packets_per_response, next_sequence, pgn }),
    {
        Self { max_packets_per_response, next_sequence, pgn }
    }

    /// Number of packets that can be sent.
    pub fn max_packets_per_response(&self) -> (r: Option<u8>)
        ensures
            r == self.max_packets_per_response,
    {
        self.max_packets_per_response
    }

    /// Next sequence number.
    pub fn next_sequence(&self) -> (r: u8)
        ensures
            r == self.next_sequence,
    {
        self.next_sequence
    }

    /// Decoding the frame of a well-formed clear to send gives it back.
    pub proof fn lemma_round_trip(self)
        requires
            self.wf(),
            pgn_fits_wire(self.pgn),
        ensures
            Self::decode(self.wire()) == Some(self),
    {
        lemma_pgn_wire_round_trip(self.pgn);
    }

    /// Encoding what a frame was decoded to gives the frame back, if its
    /// reserved bytes were set as a sender sets them.
    pub proof fn lemma_wire_of_decoded(bytes: Seq<u8>)
        requires
            Self::decode(bytes) is Some,
            bytes[3] == 0xFF,
            bytes[4] == 0xFF,
        ensures
            Self::decode(bytes)->0.wire() == bytes,
    {
        lemma_pgn_of_wire_round_trip(bytes[5], bytes[6], bytes[7]);
        assert(Self::decode(bytes)->0.wire() =~= bytes);
    }
}

impl From<&ClearToSend> for [u8; 8] {
    fn from(value: &ClearToSend) -> (r: Self)
        ensures
            r@ == value.wire(),
    {
        let pgn = pgn_to_bytes(value.pgn);
        let r: [u8; 8] = [
            ClearToSend::MUX,
            burst_to_byte(value.max_packets_per_response),
            value.next_sequence,
            0xFF,
            0xFF,
            pgn[0],
            pgn[1],
            pgn[2],
        ];
        assert(r@ =~= value.wire());
        r
    }
}

impl FromSpecImpl<&ClearToSend> for [u8; 8] {
    open spec fn obeys_from_spec() -> bool {
        true
    }

    open spec fn from_spec(value: &ClearToSend) -> [u8; 8] {
        let w = value.wire();
        [w[0], w[1], w[2], w[3], w[4], w[5], w[6], w[7]]
    }
}

impl<'a> TryFrom<&'a [u8]> for ClearToSend {
    type Error = &'a [u8];

    fn try_from(value: &'a [u8]) -> (r: Result<Self, Self::Error>) {
        if value.len() != 8 {
            return Err(value);
        }
        if value[0] != Self::MUX {
            return Err(value);
        }
        Ok(
            Self {
                max_packets_per_response: burst_from_byte(value[1]),
                next_sequence: value[2],
                pgn: pgn_from_bytes(value[5], value[6], value[7]),
            },
        )
    }
}

impl<'a> TryFromSpecImpl<&'a [u8]> for ClearToSend {
    open spec fn obeys_try_from_spec() -> bool {
        true
    }

    open spec fn try_from_spec(value: &'a [u8]) -> Result<Self, &'a [u8]> {
        match Self::decode(value@) {
            Some(m) => Ok(m),
            None => Err(value),
        }
    }
}

/// End of message acknowledge (TP.CM_EndOfMsgAck) message.
#[derive(Debug, Clone, Copy, PartialEq, Eq, Structural)]
pub struct EndOfMessageAck {
    pub total_size: u16,
    pub total_packets: u8,
    pub pgn: Pgn,
}

impl EndOfMessageAck {
    const MUX: u8 = 19;

    /// The eight bytes of the frame.
    pub open spec fn wire(self) -> Seq<u8> {
        seq![
            19u8,
            (self.total_size % 256) as u8,
            (self.total_size / 256) as u8,
            self.total_packets,
            0xFFu8,
            pgn_wire(self.pgn)[0],
            pgn_wire(self.pgn)[1],
            pgn_wire(self.pgn)[2],
        ]
    }

    /// The message that a frame carries, if it is an end of message
    /// acknowledge.
    pub open spec fn decode(bytes: Seq<u8>) -> Option<Self> {
        if bytes.len() == 8 && bytes[0] == 19 {
            Some(
                EndOfMessageAck {
                    total_size: (bytes[1] + 256 * bytes[2]) as u16,
                    total_packets: bytes[3],
                    pgn: pgn_of_wire(bytes[5], bytes[6], bytes[7]),
                },
            )
        } else {
            None
        }
    }

    /// Creates a new end of message acknowledge message.
    pub fn new(total_size: u16, total_packets: u8, pgn: Pgn) -> (r: Self)
        ensures
            r == (EndOfMessageAck { total_size, total_packets, pgn }),
    {
        Self { total_size, total_packets, pgn }
    }

    /// Total message size in bytes.
    pub fn total_size(&self) -> (r: u16)
        ensures
            r == self.total_size,
    {
        self.total_size
    }

    /// Total number of packets transferred.
    pub fn total_packets(&self) -> (r: u8)
        ensures
            r == self.total_packets,
    {
        self.total_packets
    }

    /// Transfer contents PGN.
    pub fn pgn(&self) -> (r: Pgn)
        ensures
            r == self.pgn,
    {
        self.pgn
    }

    /// Decoding the frame of an end of message acknowledge gives it back.
    pub proof fn lemma_round_trip(self)
        requires
            pgn_fits_wire(self.pgn),
        ensures
            Self::decode(self.wire()) == Some(self),
    {
        lemma_pgn_wire_round_trip(self.pgn);
    }

    /// Encoding what a frame was decoded to gives the frame back, if its
    /// reserved byte was set as a sender sets it.
    pub proof fn lemma_wire_of_decoded(bytes: Seq<u8>)
        requires
            Self::decode(bytes) is Some,
            bytes[4] == 0xFF,
        ensures
            Self::decode(bytes)->0.wire() == bytes,
    {
        lemma_pgn_of_wire_round_trip(bytes[5], bytes[6], bytes[7]);
        assert(Self::decode(bytes)->0.wire() =~= bytes);
    }
}

impl From<&EndOfMessageAck> for [u8; 8] {
    fn from(value: &EndOfMessageAck) -> (r: Self)
        ensures
            r@ == value.wire(),
    {
        let pgn = pgn_to_bytes(value.pgn);
        let r: [u8; 8] = [
            EndOfMessageAck::MUX,
            (value.total_size % 256) as u8,
            (value.total_size / 256) as u8,
            value.total_packets,
            0xFF,
            pgn[0],
            pgn[1],
            pgn[2],
        ];
        assert(r@ =~= value.wire());
        r
    }
}

impl FromSpecImpl<&EndOfMessageAck> for [u8; 8] {
    open spec fn obeys_from_spec() -> bool {
        true
    }

    open spec fn from_spec(value: &EndOfMessageAck) -> [u8; 8] {
        let w = value.wire();
        [w[0], w[1], w[2], w[3], w[4], w[5], w[6], w[7]]
    }
}

impl<'a> TryFrom<&'a [u8]> for EndOfMessageAck {
    type Error = &'a [u8];

    fn try_from(value: &'a [u8]) -> (r: Result<Self, Self::Error>) {
        if value.len() != 8 {
            return Err(value);
        }
        if value[0] != Self::MUX {
            return Err(value);
        }
        Ok(
            Self {
                total_size: (value[1] as u16) + 256 * (value[2] as u16),
                total_packets: value[3],
                pgn: pgn_from_bytes(value[5], value[6], value[7]),
            },
        )
    }
}

impl<'a> TryFromSpecImpl<&'a [u8]> for EndOfMessageAck {
    open spec fn obeys_try_from_spec() -> bool {
        true
    }

    open spec fn try_from_spec(value: &'a [u8]) -> Result<Self, &'a [u8]> {
        match Self::decode(value@) {
            Some(m) => Ok(m),
            None => Err(value),
        }
    }
}

/// Connection abort (TP.Conn_Abort) message.
#[derive(Debug, Clone, Copy, PartialEq, Eq, Structural)]
pub struct ConnectionAbort {
    pub reason: AbortReason,
    pub sender_role: AbortSenderRole,
    pub pgn: Pgn,
}

impl ConnectionAbort {
    const MUX: u8 = 255;

    /// The eight bytes of the frame. The role takes the two low bits of its
    /// byte; the six bits above them are reserved and left clear.
    pub open spec fn wire(self) -> Seq<u8> {
        seq![
            255u8,
            self.reason.code(),
            self.sender_role.code(),
            0xFFu8,
            0xFFu8,
            pgn_wire(self.pgn)[0],
            pgn_wire(self.pgn)[1],
            pgn_wire(self.pgn)[2],
        ]
    }

    /// The message that a frame carries, if it is a connection abort. A reason
    /// byte that names no known reason is read as `Custom`; of the role byte
    /// only the two low bits count.
    pub open spec fn decode(bytes: Seq<u8>) -> Option<Self> {
        if bytes.len() == 8 && bytes[0] == 255 {
            Some(
                ConnectionAbort {
                    reason: match AbortReason::of_code(bytes[1]) {
                        Some(reason) => reason,
                        None => AbortReason::Custom,
                    },
                    sender_role: AbortSenderRole::of_bits((bytes[2] % 4) as u8),
                    pgn: pgn_of_wire(bytes[5], bytes[6], bytes[7]),
                },
            )
        } else {
            None
        }
    }

    /// Create a new connection abort message.
    pub fn new(reason: AbortReason, sender_role: AbortSenderRole, pgn: Pgn) -> (r: Self)
        ensures
            r == (ConnectionAbort { reason, sender_role, pgn }),
    {
        Self { reason, sender_role, pgn }
    }

    /// Abort reason.
    pub fn reason(&self) -> (r: AbortReason)
        ensures
            r == self.reason,
    {
        self.reason
    }

    /// Abort sender role.
    pub fn sender_role(&self) -> (r: AbortSenderRole)
        ensures
            r == self.sender_role,
    {
        self.sender_role
    }

    /// Transfer contents PGN.
    pub fn pgn(&self) -> (r: Pgn)
        ensures
            r == self.pgn,
    {
        self.pgn
    }

    /// Decoding the frame of a connection abort gives it back.
    pub proof fn lemma_round_trip(self)
        requires
            pgn_fits_wire(self.pgn),
        ensures
            Self::decode(self.wire()) == Some(self),
    {
        lemma_pgn_wire_round_trip(self.pgn);
    }

    /// Encoding what a frame was decoded to gives the frame back, if it named
    /// a known reason and its reserved bits and bytes were set as a sender
    /// sets them.
    pub proof fn lemma_wire_of_decoded(bytes: Seq<u8>)
        requires
            Self::decode(bytes) is Some,
            AbortReason::of_code(bytes[1]) is Some,
            bytes[2] < 4,
            bytes[3] == 0xFF,
            bytes[4] == 0xFF,
        ensures
            Self::decode(bytes)->0.wire() == bytes,
    {
        lemma_pgn_of_wire_round_trip(bytes[5], bytes[6], bytes[7]);
        assert(Self::decode(bytes)->0.wire() =~= bytes);
    }
}

impl<'a> TryFrom<&'a [u8]> for ConnectionAbort {
    type Error = &'a [u8];

    fn try_from(value: &'a [u8]) -> (r: Result<Self, Self::Error>) {
        if value.len() != 8 {
            return Err(value);
        }
        if value[0] != Self::MUX {
            return Err(value);
        }
        let reason = match AbortReason::try_from(value[1]) {
            Ok(reason) => reason,
            Err(_) => AbortReason::Custom,
        };
        let role_byte: u8 = value[2];
        let bits: u8 = role_byte & 0b00000011;
        assert(role_byte & 0b00000011 == role_byte % 4) by (bit_vector);
        let sender_role = match AbortSenderRole::try_from(bits) {
            Ok(role) => role,
            Err(_) => AbortSenderRole::NotSpecified,
        };
        Ok(Self { reason, sender_role, pgn: pgn_from_bytes(value[5], value[6], value[7]) })
    }
}

impl<'a> TryFromSpecImpl<&'a [u8]> for ConnectionAbort {
    open spec fn obeys_try_from_spec() -> bool {
        true
    }

    open spec fn try_from_spec(value: &'a [u8]) -> Result<Self, &'a [u8]> {
        match Self::decode(value@) {
            Some(m) => Ok(m),
            None => Err(value),
        }
    }
}

impl From<&ConnectionAbort> for [u8; 8] {
    fn from(value: &ConnectionAbort) -> (r: Self)
        ensures
            r@ == value.wire(),
    {
        let pgn = pgn_to_bytes(value.pgn);
        let r: [u8; 8] = [
            ConnectionAbort::MUX,
            u8::from(&value.reason),
            u8::from(&value.sender_role),
            0xFF,
            0xFF,
            pgn[0],
            pgn[1],
            pgn[2],
        ];
        assert(r@ =~= value.wire());
        r
    }
}

impl FromSpecImpl<&ConnectionAbort> for [u8; 8] {
    open spec fn obeys_from_spec() -> bool {
        true
    }

    open spec fn from_spec(value: &ConnectionAbort) -> [u8; 8] {
        let w = value.wire();
        [w[0], w[1], w[2], w[3], w[4], w[5], w[6], w[7]]
    }
}

/// Abort reason.
///
/// See J1939-21 table 6.
#[derive(Debug, Clone, Copy, PartialEq, Eq, Structural)]
pub enum AbortReason {
    /// Already in one or more connection managed sessions and cannot support another.
    MaxConnections,
    /// System resources were needed for another task, so this connection managed session was terminated.
    CanceledBySystem,
    /// A timeout occurred, and this is the connection abort to close the session.
    Timeout,
    /// CTS messages received when data transfer is in progress.
    CtsWhileDataTransfer,
    /// Maximum retransmit request limit reached.
    RetransmitLimitReached,
    /// Unexpected data transfer packet.
    UnexpectedDataTransfer,
    /// Bad sequence number (software cannot recover).
    BadSequenceNumber,
    /// Duplicate sequence number (software cannot recover).
    DuplicateSequenceNumber,
    /// Total Message Size is greater than 1785 bytes.
    MessageTooLarge,
    /// If a Connection Abort reason is identified that is not listed in the table use code 250.
    Custom,
}

impl AbortReason {
    /// The byte that stands for this reason.
    pub open spec fn code(self) -> u8 {
        match self {
            AbortReason::MaxConnections => 1,
            AbortReason::CanceledBySystem => 2,
            AbortReason::Timeout => 3,
            AbortReason::CtsWhileDataTransfer => 4,
            AbortReason::RetransmitLimitReached => 5,
            AbortReason::UnexpectedDataTransfer => 6,
            AbortReason::BadSequenceNumber => 7,
            AbortReason::DuplicateSequenceNumber => 8,
            AbortReason::MessageTooLarge => 9,
            AbortReason::Custom => 250,
        }
    }

    /// The reason that a byte stands for, if any.
    pub open spec fn of_code(value: u8) -> Option<Self> {
        if value == 1 {
            Some(AbortReason::MaxConnections)
        } else if value == 2 {
            Some(AbortReason::CanceledBySystem)
        } else if value == 3 {
            Some(AbortReason::Timeout)
        } else if value == 4 {
            Some(AbortReason::CtsWhileDataTransfer)
        } else if value == 5 {
            Some(AbortReason::RetransmitLimitReached)
        } else if value == 6 {
            Some(AbortReason::UnexpectedDataTransfer)
        } else if value == 7 {
            Some(AbortReason::BadSequenceNumber)
        } else if value == 8 {
            Some(AbortReason::DuplicateSequenceNumber)
        } else if value == 9 {
            Some(AbortReason::MessageTooLarge)
        } else if value == 250 {
            Some(AbortReason::Custom)
        } else {
            None
        }
    }
}

impl TryFrom<u8> for AbortReason {
    type Error = u8;

    fn try_from(value: u8) -> (r: Result<Self, Self::Error>) {
        if value == 1 {
            Ok(AbortReason::MaxConnections)
        } else if value == 2 {
            Ok(AbortReason::CanceledBySystem)
        } else if value == 3 {
            Ok(AbortReason::Timeout)
        } else if value == 4 {
            Ok(AbortReason::CtsWhileDataTransfer)
        } else if value == 5 {
            Ok(AbortReason::RetransmitLimitReached)
        } else if value == 6 {
            Ok(AbortReason::UnexpectedDataTransfer)
        } else if value == 7 {
            Ok(AbortReason::BadSequenceNumber)
        } else if value == 8 {
            Ok(AbortReason::DuplicateSequenceNumber)
        } else if value == 9 {
            Ok(AbortReason::MessageTooLarge)
        } else if value == 250 {
            Ok(AbortReason::Custom)
        } else {
            Err(value)
        }
    }
}

impl TryFromSpecImpl<u8> for AbortReason {
    open spec fn obeys_try_from_spec() -> bool {
        true
    }

    open spec fn try_from_spec(value: u8) -> Result<Self, u8> {
        match AbortReason::of_code(value) {
            Some(reason) => Ok(reason),
            None => Err(value),
        }
    }
}

impl From<&AbortReason> for u8 {
    fn from(value: &AbortReason) -> (r: Self) {
        match value {
            AbortReason::MaxConnections => 1,
            AbortReason::CanceledBySystem => 2,
            AbortReason::Timeout => 3,
            AbortReason::CtsWhileDataTransfer => 4,
            AbortReason::RetransmitLimitReached => 5,
            AbortReason::UnexpectedDataTransfer => 6,
            AbortReason::BadSequenceNumber => 7,
            AbortReason::DuplicateSequenceNumber => 8,
            AbortReason::MessageTooLarge => 9,
            AbortReason::Custom => 250,
        }
    }
}

impl FromSpecImpl<&AbortReason> for u8 {
    open spec fn obeys_from_spec() -> bool {
        true
    }

    open spec fn from_spec(value: &AbortReason) -> u8 {
        value.code()
    }
}

/// Abort message sender role.
#[derive(Debug, Clone, Copy, PartialEq, Eq, Structural)]
pub enum AbortSenderRole {
    Sender,
    Receiver,
    Reserved,
    NotSpecified,
}

impl AbortSenderRole {
    /// The two bits that stand for this role.
    pub open spec fn code(self) -> u8 {
        match self {
            AbortSenderRole::Sender => 0,
            AbortSenderRole::Receiver => 1,
            AbortSenderRole::Reserved => 2,
            AbortSenderRole::NotSpecified => 3,
        }
    }

    /// The role that a byte stands for, if any.
    pub open spec fn of_code(value: u8) -> Option<Self> {
        if value == 0 {
            Some(AbortSenderRole::Sender)
        } else if value == 1 {
            Some(AbortSenderRole::Receiver)
        } else if value == 2 {
            Some(AbortSenderRole::Reserved)
        } else if value == 3 {
            Some(AbortSenderRole::NotSpecified)
        } else {
            None
        }
    }

    /// The role that two bits stand for; a value past them is read as
    /// `NotSpecified`.
    pub open spec fn of_bits(value: u8) -> Self {
        match Self::of_code(value) {
            Some(role) => role,
            None => AbortSenderRole::NotSpecified,
        }
    }
}

impl TryFrom<u8> for AbortSenderRole {
    type Error = u8;

    fn try_from(value: u8) -> (r: Result<Self, Self::Error>) {
        if value == 0 {
            Ok(AbortSenderRole::Sender)
        } else if value == 1 {
            Ok(AbortSenderRole::Receiver)
        } else if value == 2 {
            Ok(AbortSenderRole::Reserved)
        } else if value == 3 {
            Ok(AbortSenderRole::NotSpecified)
        } else {
            Err(value)
        }
    }
}

impl TryFromSpecImpl<u8> for AbortSenderRole {
    open spec fn obeys_try_from_spec() -> bool {
        true
    }

    open spec fn try_from_spec(value: u8) -> Result<Self, u8> {
        match AbortSenderRole::of_code(value) {
            Some(role) => Ok(role),
            None => Err(value),
        }
    }
}

impl From<&AbortSenderRole> for u8 {
    fn from(value: &AbortSenderRole) -> (r: Self) {
        match value {
            AbortSenderRole::Sender => 0,
            AbortSenderRole::Receiver => 1,
            AbortSenderRole::Reserved => 2,
            AbortSenderRole::NotSpecified => 3,
        }
    }
}

impl FromSpecImpl<&AbortSenderRole> for u8 {
    open spec fn obeys_from_spec() -> bool {
        true
    }

    open spec fn from_spec(value: &AbortSenderRole) -> u8 {
        value.code()
    }
}

/// Data transfer (TP.DT) message.
#[derive(Debug, Clone, Copy, PartialEq, Eq)]
pub struct DataTransfer {
    pub sequence: u8,
    pub data: [u8; 7],
}

impl DataTransfer {
    /// The eight bytes of the frame: the sequence number, then the payload.
    pub open spec fn wire(self) -> Seq<u8> {
        seq![self.sequence] + self.data@
    }

    /// The message that a frame carries, if it has eight bytes.
    pub open spec fn decode(bytes: Seq<u8>) -> Option<Self> {
        if bytes.len() == 8 {
            Some(
                DataTransfer {
                    sequence: bytes[0],
                    data: [bytes[1], bytes[2], bytes[3], bytes[4], bytes[5], bytes[6], bytes[7]],
                },
            )
        } else {
            None
        }
    }

    pub fn new(sequence: u8, data: [u8; 7]) -> (r: Self)
        ensures
            r == (DataTransfer { sequence, data }),
    {
        Self { sequence, data }
    }

    /// Packet sequence number.
    pub fn sequence(&self) -> (r: u8)
        ensures
            r == self.sequence,
    {
        self.sequence
    }

    /// Payload data.
    pub fn data(&self) -> (r: [u8; 7])
        ensures
            r == self.data,
    {
        self.data
    }

    /// Decoding the frame of a data transfer gives it back.
    pub proof fn lemma_round_trip(self)
        ensures
            Self::decode(self.wire()) == Some(self),
    {
        let back = Self::decode(self.wire())->0;
        assert(self.wire()[0] == self.sequence);
        assert forall|i: int| 0 <= i < 7 implies back.data[i] == self.data[i] by {
            assert(self.wire()[i + 1] == self.data@[i]);
        }
        assert(back.data =~= self.data);
    }

    /// Encoding what a frame was decoded to gives the frame back.
    pub proof fn lemma_wire_of_decoded(bytes: Seq<u8>)
        requires
            Self::decode(bytes) is Some,
        ensures
            Self::decode(bytes)->0.wire() == bytes,
    {
        assert(Self::decode(bytes)->0.wire() =~= bytes);
    }
}

impl From<&DataTransfer> for [u8; 8] {
    fn from(value: &DataTransfer) -> (r: Self)
        ensures
            r@ == value.wire(),
    {
        let r: [u8; 8] = [
            value.sequence,
            value.data[0],
            value.data[1],
            value.data[2],
            value.data[3],
            value.data[4],
            value.data[5],
            value.data[6],
        ];
        assert(r@ =~= value.wire());
        r
    }
}

impl FromSpecImpl<&DataTransfer> for [u8; 8] {
    open spec fn obeys_from_spec() -> bool {
        true
    }

    open spec fn from_spec(value: &DataTransfer) -> [u8; 8] {
        [
            value.sequence,
            value.data[0],
            value.data[1],
            value.data[2],
            value.data[3],
            value.data[4],
            value.data[5],
            value.data[6],
        ]
    }
}

impl<'a> TryFrom<&'a [u8]> for DataTransfer {
    type Error = &'a [u8];

    fn try_from(value: &'a [u8]) -> (r: Result<Self, Self::Error>) {
        if value.len() != 8 {
            return Err(value);
        }
        Ok(
            Self {
                sequence: value[0],
                data: [value[1], value[2], value[3], value[4], value[5], value[6], value[7]],
            },
        )
    }
}

impl<'a> TryFromSpecImpl<&'a [u8]> for DataTransfer {
    open spec fn obeys_try_from_spec() -> bool {
        true
    }

    open spec fn try_from_spec(value: &'a [u8]) -> Result<Self, &'a [u8]> {
        match Self::decode(value@) {
            Some(m) => Ok(m),
            None => Err(value),
        }
    }
}

} // verus!
