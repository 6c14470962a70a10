use vstd::prelude::*;
use vstd::std_specs::cmp::PartialEqSpecImpl;
use vstd::std_specs::convert::{FromSpecImpl, TryFromSpecImpl};

verus! {

/// The number that two bytes hold, low byte first.
pub open spec fn le16(b0: u8, b1: u8) -> u16 {
    (b0 + 256 * b1) as u16
}

/// The number that three bytes hold, low byte first.
pub open spec fn le24(b0: u8, b1: u8, b2: u8) -> u32 {
    (b0 + 256 * b1 + 65536 * b2) as u32
}

/// The number that four bytes hold, low byte first.
pub open spec fn le32(b0: u8, b1: u8, b2: u8, b3: u8) -> u32 {
    (b0 + 256 * b1 + 65536 * b2 + 16777216 * b3) as u32
}

/// The second byte of a memory access frame: the high three bits of an
/// eleven-bit length in bits 5 to 7, and a command or status code shifted up
/// by one bit. A code above 7 runs into the bits above it.
pub open spec fn control_byte(length: u16, code: u8) -> u8 {
    (((length / 256) as u8) << 5) | (code << 1)
}

/// A length of at most eleven bits and a code of at most three are read back
/// from the two bytes that hold them.
pub proof fn lemma_control_byte(length: u16, code: u8)
    requires
        length <= 0x7FF,
        code <= 7,
    ensures
        le16((length % 256) as u8, control_byte(length, code) / 32) == length,
        (control_byte(length, code) / 2) % 8 == code,
        (control_byte(length, code) / 16) % 2 == 0,
{
    let hi: u8 = (length / 256) as u8;
    assert(hi <= 7);
    assert(hi <= 7 && code <= 7 ==> ((hi << 5) | (code << 1)) / 32 == hi && (((hi << 5) | (code
        << 1)) / 2) % 8 == code && (((hi << 5) | (code << 1)) / 16) % 2 == 0) by (bit_vector);
}

fn pack_control(length: u16, code: u8) -> (r: u8)
    requires
        length <= 0x7FF,
    ensures
        r == control_byte(length, code),
{
    let hi: u8 = (length / 256) as u8;
    (hi << 5) | (code << 1)
}

fn read_length(raw: &[u8; 8]) -> (r: u16)
    ensures
        r == le16(raw@[0], raw@[1] / 32),
{
    let b1: u8 = raw[1];
    assert((b1 >> 5) & 0b111 == b1 / 32) by (bit_vector);
    (raw[0] as u16) + 256 * (((b1 >> 5) & 0b111) as u16)
}

fn read_code(raw: &[u8; 8]) -> (r: u8)
    ensures
        r == (raw@[1] / 2) % 8,
{
    let b1: u8 = raw[1];
    assert((b1 >> 1) & 0b111 == (b1 / 2) % 8) by (bit_vector);
    (b1 >> 1) & 0b111
}

fn read_le16(b0: u8, b1: u8) -> (r: u16)
    ensures
        r == le16(b0, b1),
{
    (b0 as u16) + 256 * (b1 as u16)
}

/// DM14 - Memory Access Request
#[derive(Debug, Clone, Copy, PartialEq, Eq)]
pub struct MemoryAccessRequest {
    raw: [u8; 8],
}

impl View for MemoryAccessRequest {
    type V = Seq<u8>;

    /// The eight bytes of the frame.
    closed spec fn view(&self) -> Seq<u8> {
        self.raw@
    }
}

impl MemoryAccessRequest {
    /// The frame that `new` packs.
    pub open spec fn packed(
        command: Command,
        pointer: Pointer,
        length: u16,
        key_or_user_level: u16,
    ) -> Seq<u8> {
        let p = pointer.value();
        seq![
            (length % 256) as u8,
            control_byte(length, command.code()),
            (p % 256) as u8,
            ((p / 256) % 256) as u8,
            ((p / 65536) % 256) as u8,
            (p / 16777216) as u8,
            (key_or_user_level % 256) as u8,
            (key_or_user_level / 256) as u8,
        ]
    }

    /// The length field: byte 0 and the three high bits of byte 1.
    pub open spec fn spec_length(self) -> u16 {
        le16(self@[0], self@[1] / 32)
    }

    /// The command field: bits 1 to 3 of byte 1.
    pub open spec fn spec_command(self) -> Command {
        Command::of_code((self@[1] / 2) % 8)
    }

    /// The pointer field: bytes 2 to 5, spatial where bit 4 of byte 1 is set.
    pub open spec fn spec_pointer(self) -> Pointer {
        let value = le32(self@[2], self@[3], self@[4], self@[5]);
        if (self@[1] / 16) % 2 == 1 {
            Pointer::Spatial(value)
        } else {
            Pointer::Direct(value)
        }
    }

    /// The key or user level field: bytes 6 and 7.
    pub open spec fn spec_key_or_user_level(self) -> u16 {
        le16(self@[6], self@[7])
    }

    /// Create a new memory access request.
    ///
    /// `length` must fit in eleven bits. The kind of the pointer is not
    /// packed: only its value is.
    pub fn new(command: Command, pointer: Pointer, length: u16, key_or_user_level: u16) -> (r:
        Self)
        requires
            length <= 0b11111111111,
        ensures
            r@ == Self::packed(command, pointer, length, key_or_user_level),
    {
        let p: u32 = match pointer {
            Pointer::Direct(value) => value,
            Pointer::Spatial(value) => value,
        };
        let raw: [u8; 8] = [
            (length % 256) as u8,
            pack_control(length, u8::from(command)),
            (p % 256) as u8,
            ((p / 256) % 256) as u8,
            ((p / 65536) % 256) as u8,
            (p / 16777216) as u8,
            (key_or_user_level % 256) as u8,
            (key_or_user_level / 256) as u8,
        ];
        assert(raw@ =~= Self::packed(command, pointer, length, key_or_user_level));
        Self { raw }
    }

    /// The number of bytes to apply the memory operation to.
    pub fn length(&self) -> (r: u16)
        ensures
            r == self.spec_length(),
    {
        read_length(&self.raw)
    }

    /// The command type.
    pub fn command(&self) -> (r: Command)
        ensures
            r == self.spec_command(),
    {
        Command::from(read_code(&self.raw))
    }

    /// Memory address or object identifier.
    pub fn pointer(&self) -> (r: Pointer)
        ensures
            r == self.spec_pointer(),
    {
        let value: u32 = (self.raw[2] as u32) + 256 * (self.raw[3] as u32) + 65536 * (
        self.raw[4] as u32) + 16777216 * (self.raw[5] as u32);
        let b1: u8 = self.raw[1];
        assert((b1 & 0b10000 != 0) == ((b1 / 16) % 2 == 1)) by (bit_vector);
        if b1 & 0b10000 != 0 {
            Pointer::Spatial(value)
        } else {
            Pointer::Direct(value)
        }
    }

    /// Security key or user level, depending on context.
    pub fn key_or_user_level(&self) -> (r: u16)
        ensures
            r == self.spec_key_or_user_level(),
    {
        read_le16(self.raw[6], self.raw[7])
    }

    /// What went into a request comes out of it: the length, the value of the
    /// pointer, the key, and a command that is not `Other`. The pointer always
    /// comes out as direct.
    pub proof fn lemma_fields_of_new(
        self,
        command: Command,
        pointer: Pointer,
        length: u16,
        key_or_user_level: u16,
    )
        requires
            length <= 0x7FF,
            command.code() <= 7,
            self@ == Self::packed(command, pointer, length, key_or_user_level),
        ensures
            self.spec_length() == length,
            self.spec_command().code() == command.code(),
            self.spec_pointer() == Pointer::Direct(pointer.value()),
            self.spec_key_or_user_level() == key_or_user_level,
    {
        lemma_control_byte(length, command.code());
    }
}

impl From<&MemoryAccessRequest> for [u8; 8] {
    fn from(req: &MemoryAccessRequest) -> (r: Self)
        ensures
            r@ == req@,
    {
        req.raw
    }
}

impl FromSpecImpl<&MemoryAccessRequest> for [u8; 8] {
    open spec fn obeys_from_spec() -> bool {
        true
    }

    closed spec fn from_spec(req: &MemoryAccessRequest) -> [u8; 8] {
        req.raw
    }
}

impl<'a> TryFrom<&'a [u8]> for MemoryAccessRequest {
    type Error = &'a [u8];

    fn try_from(value: &'a [u8]) -> (r: Result<Self, Self::Error>)
        ensures
            r is Ok <==> value@.len() == 8,
            r matches Ok(frame) ==> frame@ == value@,
            r matches Err(bytes) ==> bytes == value,
    {
        if value.len() != 8 {
            return Err(value);
        }
        let raw: [u8; 8] = [
            value[0],
            value[1],
            value[2],
            value[3],
            value[4],
            value[5],
            value[6],
            value[7],
        ];
        assert(raw@ =~= value@);
        Ok(Self { raw })
    }
}

impl<'a> TryFromSpecImpl<&'a [u8]> for MemoryAccessRequest {
    open spec fn obeys_try_from_spec() -> bool {
        true
    }

    closed spec fn try_from_spec(value: &'a [u8]) -> Result<Self, &'a [u8]> {
        if value@.len() == 8 {
            Ok(
                MemoryAccessRequest {
                    raw: [
                        value@[0],
                        value@[1],
                        value@[2],
                        value@[3],
                        value@[4],
                        value@[5],
                        value@[6],
                        value@[7],
                    ],
                },
            )
        } else {
            Err(value)
        }
    }
}

/// Memory access request command.
#[derive(Debug, Clone, Copy, Eq)]
pub enum Command {
    Erase,
    Read,
    Write,
    StatusRequest,
    OperationCompleted,
    OperationFailed,
    BootLoad,
    EdcpGeneration,
    Other(u8),
}

impl Command {
    /// The number that stands for this command.
    pub open spec fn code(self) -> u8 {
        match self {
            Command::Erase => 0,
            Command::Read => 1,
            Command::Write => 2,
            Command::StatusRequest => 3,
            Command::OperationCompleted => 4,
            Command::OperationFailed => 5,
            Command::BootLoad => 6,
            Command::EdcpGeneration => 7,
            Command::Other(o) => o,
        }
    }

    /// The command that a number stands for.
    pub open spec fn of_code(value: u8) -> Self {
        if value == 0 {
            Command::Erase
        } else if value == 1 {
            Command::Read
        } else if value == 2 {
            Command::Write
        } else if value == 3 {
            Command::StatusRequest
        } else if value == 4 {
            Command::OperationCompleted
        } else if value == 5 {
            Command::OperationFailed
        } else if value == 6 {
            Command::BootLoad
        } else if value == 7 {
            Command::EdcpGeneration
        } else {
            Command::Other(value)
        }
    }
}

impl PartialEq for Command {
    fn eq(&self, other: &Self) -> (r: bool) {
        // Compare by the underlying value.
        u8::from(*self) == u8::from(*other)
    }
}

impl PartialEqSpecImpl for Command {
    open spec fn obeys_eq_spec() -> bool {
        true
    }

    open spec fn eq_spec(&self, other: &Self) -> bool {
        self.code() == other.code()
    }
}

impl From<Command> for u8 {
    fn from(value: Command) -> (r: Self) {
        match value {
            Command::Erase => 0,
            Command::Read => 1,
            Command::Write => 2,
            Command::StatusRequest => 3,
            Command::OperationCompleted => 4,
            Command::OperationFailed => 5,
            Command::BootLoad => 6,
            Command::EdcpGeneration => 7,
            Command::Other(o) => o,
        }
    }
}

impl FromSpecImpl<Command> for u8 {
    open spec fn obeys_from_spec() -> bool {
        true
    }

    open spec fn from_spec(value: Command) -> u8 {
        value.code()
    }
}

impl From<u8> for Command {
    fn from(value: u8) -> (r: Self) {
        if value == 0 {
            Command::Erase
        } else if value == 1 {
            Command::Read
        } else if value == 2 {
            Command::Write
        } else if value == 3 {
            Command::StatusRequest
        } else if value == 4 {
            Command::OperationCompleted
        } else if value == 5 {
            Command::OperationFailed
        } else if value == 6 {
            Command::BootLoad
        } else if value == 7 {
            Command::EdcpGeneration
        } else {
            Command::Other(value)
        }
    }
}

impl FromSpecImpl<u8> for Command {
    open spec fn obeys_from_spec() -> bool {
        true
    }

    open spec fn from_spec(value: u8) -> Command {
        Command::of_code(value)
    }
}

/// Direct or spatial memory addressing.
#[derive(Debug, Clone, Copy, PartialEq, Eq, Structural)]
pub enum Pointer {
    Direct(u32),
    Spatial(u32),
}

impl Pointer {
    /// The address or object identifier, of either kind.
    pub open spec fn value(self) -> u32 {
        match self {
            Pointer::Direct(value) => value,
            Pointer::Spatial(value) => value,
        }
    }
}

/// DM15 - Memory Access Response
#[derive(Debug, Clone, Copy, PartialEq, Eq)]
pub struct MemoryAccessResponse {
    raw: [u8; 8],
}

impl View for MemoryAccessResponse {
    type V = Seq<u8>;

    /// The eight bytes of the frame.
    closed spec fn view(&self) -> Seq<u8> {
        self.raw@
    }
}

impl MemoryAccessResponse {
    /// The frame that `new` packs.
    pub open spec fn packed(
        status: Status,
        error_indicator: ErrorIndicator,
        length: u16,
        seed: u16,
    ) -> Seq<u8> {
        let e = error_indicator.code();
        seq![
            (length % 256) as u8,
            control_byte(length, status.code()),
            (e % 256) as u8,
            ((e / 256) % 256) as u8,
            ((e / 65536) % 256) as u8,
            0u8,
            (seed % 256) as u8,
            (seed / 256) as u8,
        ]
    }

    /// The length field: byte 0 and the three high bits of byte 1.
    pub open spec fn spec_length(self) -> u16 {
        le16(self@[0], self@[1] / 32)
    }

    /// The status field: bits 1 to 3 of byte 1.
    pub open spec fn spec_status(self) -> Status {
        Status::of_code((self@[1] / 2) % 8)
    }

    /// The error indicator field: bytes 2 to 4.
    pub open spec fn spec_error_indicator(self) -> ErrorIndicator {
        ErrorIndicator::of_code(le24(self@[2], self@[3], self@[4]))
    }

    /// The seed field: bytes 6 and 7.
    pub open spec fn spec_seed(self) -> u16 {
        le16(self@[6], self@[7])
    }

    /// Create a new memory access response.
    ///
    /// `length` must fit in eleven bits.
    pub fn new(status: Status, error_indicator: ErrorIndicator, length: u16, seed: u16) -> (r:
        Self)
        requires
            length <= 0b11111111111,
        ensures
            r@ == Self::packed(status, error_indicator, length, seed),
    {
        let e: u32 = u32::from(error_indicator);
        let raw: [u8; 8] = [
            (length % 256) as u8,
            pack_control(length, u8::from(status)),
            (e % 256) as u8,
            ((e / 256) % 256) as u8,
            ((e / 65536) % 256) as u8,
            0,
            (seed % 256) as u8,
            (seed / 256) as u8,
        ];
        assert(raw@ =~= Self::packed(status, error_indicator, length, seed));
        Self { raw }
    }

    pub fn length(&self) -> (r: u16)
        ensures
            r == self.spec_length(),
    {
        read_length(&self.raw)
    }

    pub fn status(&self) -> (r: Status)
        ensures
            r == self.spec_status(),
    {
        Status::from(read_code(&self.raw))
    }

    pub fn error_indicator(&self) -> (r: ErrorIndicator)
        ensures
            r == self.spec_error_indicator(),
    {
        let indicator: u32 = (self.raw[2] as u32) + 256 * (self.raw[3] as u32) + 65536 * (
        self.raw[4] as u32);
        ErrorIndicator::from(indicator)
    }

    pub fn seed(&self) -> (r: u16)
        ensures
            r == self.spec_seed(),
    {
        read_le16(self.raw[6], self.raw[7])
    }

    /// What went into a response comes out of it: the length, the seed, the
    /// number of the error indicator, and a status of at most three bits.
    pub proof fn lemma_fields_of_new(
        self,
        status: Status,
        error_indicator: ErrorIndicator,
        length: u16,
        seed: u16,
    )
        requires
            length <= 0x7FF,
            status.code() <= 7,
            self@ == Self::packed(status, error_indicator, length, seed),
        ensures
            self.spec_length() == length,
            self.spec_status().code() == status.code(),
            self.spec_error_indicator().code() == error_indicator.code(),
            self.spec_seed() == seed,
    {
        lemma_control_byte(length, status.code());
        let e = error_indicator.code();
        assert(e == (e % 256) + 256 * ((e / 256) % 256) + 65536 * ((e / 65536) % 256));
    }
}

impl From<&MemoryAccessResponse> for [u8; 8] {
    fn from(res: &MemoryAccessResponse) -> (r: Self)
        ensures
            r@ == res@,
    {
        res.raw
    }
}

impl FromSpecImpl<&MemoryAccessResponse> for [u8; 8] {
    open spec fn obeys_from_spec() -> bool {
        true
    }

    closed spec fn from_spec(res: &MemoryAccessResponse) -> [u8; 8] {
        res.raw
    }
}

impl<'a> TryFrom<&'a [u8]> for MemoryAccessResponse {
    type Error = &'a [u8];

    fn try_from(value: &'a [u8]) -> (r: Result<Self, Self::Error>)
        ensures
            r is Ok <==> value@.len() == 8,
            r matches Ok(frame) ==> frame@ == value@,
            r matches Err(bytes) ==> bytes == value,
    {
        if value.len() != 8 {
            return Err(value);
        }
        let raw: [u8; 8] = [
            value[0],
            value[1],
            value[2],
            value[3],
            value[4],
            value[5],
            value[6],
            value[7],
        ];
        assert(raw@ =~= value@);
        Ok(Self { raw })
    }
}

impl<'a> TryFromSpecImpl<&'a [u8]> for MemoryAccessResponse {
    open spec fn obeys_try_from_spec() -> bool {
        true
    }

    closed spec fn try_from_spec(value: &'a [u8]) -> Result<Self, &'a [u8]> {
        if value@.len() == 8 {
            Ok(
                MemoryAccessResponse {
                    raw: [
                        value@[0],
                        value@[1],
                        value@[2],
                        value@[3],
                        value@[4],
                        value@[5],
                        value@[6],
                        value@[7],
                    ],
                },
            )
        } else {
            Err(value)
        }
    }
}

/// Memory access response status.
#[derive(Debug, Clone, Copy, Eq)]
pub enum Status {
    Proceed,
    Busy,
    OperationCompleted,
    OperationFailed,
    Other(u8),
}

impl Status {
    /// The number that stands for this status.
    pub open spec fn code(self) -> u8 {
        match self {
            Status::Proceed => 0,
            Status::Busy => 1,
            Status::OperationCompleted => 4,
            Status::OperationFailed => 5,
            Status::Other(o) => o,
        }
    }

    /// The status that a number stands for.
    pub open spec fn of_code(value: u8) -> Self {
        if value == 0 {
            Status::Proceed
        } else if value == 1 {
            Status::Busy
        } else if value == 4 {
            Status::OperationCompleted
        } else if value == 5 {
            Status::OperationFailed
        } else {
            Status::Other(value)
        }
    }
}

impl PartialEq for Status {
    fn eq(&self, other: &Self) -> (r: bool) {
        // Compare by the underlying value.
        u8::from(*self) == u8::from(*other)
    }
}

impl PartialEqSpecImpl for Status {
    open spec fn obeys_eq_spec() -> bool {
        true
    }

    open spec fn eq_spec(&self, other: &Self) -> bool {
        self.code() == other.code()
    }
}

impl From<Status> for u8 {
    fn from(value: Status) -> (r: Self) {
        match value {
            Status::Proceed => 0,
            Status::Busy => 1,
            Status::OperationCompleted => 4,
            Status::OperationFailed => 5,
            Status::Other(o) => o,
        }
    }
}

impl FromSpecImpl<Status> for u8 {
    open spec fn obeys_from_spec() -> bool {
        true
    }

    open spec fn from_spec(value: Status) -> u8 {
        value.code()
    }
}

impl From<u8> for Status {
    fn from(value: u8) -> (r: Self) {
        if value == 0 {
            Status::Proceed
        } else if value == 1 {
            Status::Busy
        } else if value == 4 {
            Status::OperationCompleted
        } else if value == 5 {
            Status::OperationFailed
        } else {
            Status::Other(value)
        }
    }
}

impl FromSpecImpl<u8> for Status {
    open spec fn obeys_from_spec() -> bool {
        true
    }

    open spec fn from_spec(value: u8) -> Status {
        Status::of_code(value)
    }
}

/// Error indicator state.
///
/// An error indicator is a number of 24 bits: of the number in `Other`, and
/// of a number that an indicator is made from, only the low 24 bits count.
#[derive(Debug, Clone, Copy, Eq)]
pub enum ErrorIndicator {
    NoError,
    NotIdentified,
    BusyForSomeoneElse,
    BusyErase,
    BusyRead,
    BusyWrite,
    BusyStatus,
    BusyBootLoad,
    BusyEdcpGeneration,
    BusyUnspecified,
    EdcPrameterNotCorrect,
    RamVerifyOnWrite,
    FlashVerifyOnWrite,
    PromVerifyOnWrite,
    InternalFailure,
    AddressingGeneral,
    AddressingBoundary,
    AddressingLength,
    AddressingOutOfBounds,
    AddressingRequiresEraseData,
    AddressingRequiresEraseProgram,
    AddressingRequiresTransferAndEraseProgram,
    AddressingBootLoadExecutableMemory,
    AddressingBootLoadInvalidBoundary,
    DataValueRange,
    DataNameRange,
    Security,
    SecurityInvalidPassword,
    SecurityInvalidUserLevel,
    SecurityInvalidKey,
    SecurityNotInDiagnosticMode,
    SecurityNotInDevelopmentMode,
    SecurityEngineRunning,
    SecurityNotInPark,
    AbortFromSoftwareProcess,
    TooManyRetries,
    NoResponseInTimeAllowed,
    TransportDataNotInitiated,
    TransportDataNotCompleted,
    NoIndicatorAvailable,
    Other(u32),
}

impl ErrorIndicator {
    /// The number that stands for this indicator: always below 2^24.
    pub open spec fn code(self) -> u32 {
        match self {
            ErrorIndicator::NoError => 0x000000,
            ErrorIndicator::NotIdentified => 0x000001,
            ErrorIndicator::BusyForSomeoneElse => 0x000002,
            ErrorIndicator::BusyErase => 0x000010,
            ErrorIndicator::BusyRead => 0x000011,
            ErrorIndicator::BusyWrite => 0x000012,
            ErrorIndicator::BusyStatus => 0x000013,
            ErrorIndicator::BusyBootLoad => 0x000016,
            ErrorIndicator::BusyEdcpGeneration => 0x000017,
            ErrorIndicator::BusyUnspecified => 0x00001F,
            ErrorIndicator::EdcPrameterNotCorrect => 0x000020,
            ErrorIndicator::RamVerifyOnWrite => 0x000021,
            ErrorIndicator::FlashVerifyOnWrite => 0x000022,
            ErrorIndicator::PromVerifyOnWrite => 0x000023,
            ErrorIndicator::InternalFailure => 0x000024,
            ErrorIndicator::AddressingGeneral => 0x000100,
            ErrorIndicator::AddressingBoundary => 0x000101,
            ErrorIndicator::AddressingLength => 0x000102,
            ErrorIndicator::AddressingOutOfBounds => 0x000103,
            ErrorIndicator::AddressingRequiresEraseData => 0x000104,
            ErrorIndicator::AddressingRequiresEraseProgram => 0x000105,
            ErrorIndicator::AddressingRequiresTransferAndEraseProgram => 0x000106,
            ErrorIndicator::AddressingBootLoadExecutableMemory => 0x000107,
            ErrorIndicator::AddressingBootLoadInvalidBoundary => 0x000108,
            ErrorIndicator::DataValueRange => 0x000109,
            ErrorIndicator::DataNameRange => 0x00010A,
            ErrorIndicator::Security => 0x001000,
            ErrorIndicator::SecurityInvalidPassword => 0x001001,
            ErrorIndicator::SecurityInvalidUserLevel => 0x001002,
            ErrorIndicator::SecurityInvalidKey => 0x001003,
            ErrorIndicator::SecurityNotInDiagnosticMode => 0x001004,
            ErrorIndicator::SecurityNotInDevelopmentMode => 0x001005,
            ErrorIndicator::SecurityEngineRunning => 0x001006,
            ErrorIndicator::SecurityNotInPark => 0x001007,
            ErrorIndicator::AbortFromSoftwareProcess => 0x010000,
            ErrorIndicator::TooManyRetries => 0x010001,
            ErrorIndicator::NoResponseInTimeAllowed => 0x010002,
            ErrorIndicator::TransportDataNotInitiated => 0x010003,
            ErrorIndicator::TransportDataNotCompleted => 0x010004,
            ErrorIndicator::NoIndicatorAvailable => 0xFFFFFF,
            ErrorIndicator::Other(o) => o % 0x100_0000,
        }
    }

    /// The indicator that a number below 2^24 stands for.
    pub open spec fn of_code(value: u32) -> Self {
        if value == 0x000000 {
            ErrorIndicator::NoError
        } else if value == 0x000001 {
            ErrorIndicator::NotIdentified
        } else if value == 0x000002 {
            ErrorIndicator::BusyForSomeoneElse
        } else if value == 0x000010 {
            ErrorIndicator::BusyErase
        } else if value == 0x000011 {
            ErrorIndicator::BusyRead
        } else if value == 0x000012 {
            ErrorIndicator::BusyWrite
        } else if value == 0x000013 {
            ErrorIndicator::BusyStatus
        } else if value == 0x000016 {
            ErrorIndicator::BusyBootLoad
        } else if value == 0x000017 {
            ErrorIndicator::BusyEdcpGeneration
        } else if value == 0x00001F {
            ErrorIndicator::BusyUnspecified
        } else if value == 0x000020 {
            ErrorIndicator::EdcPrameterNotCorrect
        } else if value == 0x000021 {
            ErrorIndicator::RamVerifyOnWrite
        } else if value == 0x000022 {
            ErrorIndicator::FlashVerifyOnWrite
        } else if value == 0x000023 {
            ErrorIndicator::PromVerifyOnWrite
        } else if value == 0x000024 {
            ErrorIndicator::InternalFailure
        } else if value == 0x000100 {
            ErrorIndicator::AddressingGeneral
        } else if value == 0x000101 {
            ErrorIndicator::AddressingBoundary
        } else if value == 0x000102 {
            ErrorIndicator::AddressingLength
        } else if value == 0x000103 {
            ErrorIndicator::AddressingOutOfBounds
        } else if value == 0x000104 {
            ErrorIndicator::AddressingRequiresEraseData
        } else if value == 0x000105 {
            ErrorIndicator::AddressingRequiresEraseProgram
        } else if value == 0x000106 {
            ErrorIndicator::AddressingRequiresTransferAndEraseProgram
        } else if value == 0x000107 {
            ErrorIndicator::AddressingBootLoadExecutableMemory
        } else if value == 0x000108 {
            ErrorIndicator::AddressingBootLoadInvalidBoundary
        } else if value == 0x000109 {
            ErrorIndicator::DataValueRange
        } else if value == 0x00010A {
            ErrorIndicator::DataNameRange
        } else if value == 0x001000 {
            ErrorIndicator::Security
        } else if value == 0x001001 {
            ErrorIndicator::SecurityInvalidPassword
        } else if value == 0x001002 {
            ErrorIndicator::SecurityInvalidUserLevel
        } else if value == 0x001003 {
            ErrorIndicator::SecurityInvalidKey
        } else if value == 0x001004 {
            ErrorIndicator::SecurityNotInDiagnosticMode
        } else if value == 0x001005 {
            ErrorIndicator::SecurityNotInDevelopmentMode
        } else if value == 0x001006 {
            ErrorIndicator::SecurityEngineRunning
        } else if value == 0x001007 {
            ErrorIndicator::SecurityNotInPark
        } else if value == 0x010000 {
            ErrorIndicator::AbortFromSoftwareProcess
        } else if value == 0x010001 {
            ErrorIndicator::TooManyRetries
        } else if value == 0x010002 {
            ErrorIndicator::NoResponseInTimeAllowed
        } else if value == 0x010003 {
            ErrorIndicator::TransportDataNotInitiated
        } else if value == 0x010004 {
            ErrorIndicator::TransportDataNotCompleted
        } else if value == 0xFFFFFF {
            ErrorIndicator::NoIndicatorAvailable
        } else {
            ErrorIndicator::Other(value)
        }
    }
}

impl PartialEq for ErrorIndicator {
    fn eq(&self, other: &Self) -> (r: bool) {
        // Compare by the underlying value.
        u32::from(*self) == u32::from(*other)
    }
}

impl PartialEqSpecImpl for ErrorIndicator {
    open spec fn obeys_eq_spec() -> bool {
        true
    }

    open spec fn eq_spec(&self, other: &Self) -> bool {
        self.code() == other.code()
    }
}

impl From<ErrorIndicator> for u32 {
    fn from(value: ErrorIndicator) -> (r: Self) {
        match value {
            ErrorIndicator::NoError => 0x000000,
            ErrorIndicator::NotIdentified => 0x000001,
            ErrorIndicator::BusyForSomeoneElse => 0x000002,
            ErrorIndicator::BusyErase => 0x000010,
            ErrorIndicator::BusyRead => 0x000011,
            ErrorIndicator::BusyWrite => 0x000012,
            ErrorIndicator::BusyStatus => 0x000013,
            ErrorIndicator::BusyBootLoad => 0x000016,
            ErrorIndicator::BusyEdcpGeneration => 0x000017,
            ErrorIndicator::BusyUnspecified => 0x00001F,
            ErrorIndicator::EdcPrameterNotCorrect => 0x000020,
            ErrorIndicator::RamVerifyOnWrite => 0x000021,
            ErrorIndicator::FlashVerifyOnWrite => 0x000022,
            ErrorIndicator::PromVerifyOnWrite => 0x000023,
            ErrorIndicator::InternalFailure => 0x000024,
            ErrorIndicator::AddressingGeneral => 0x000100,
            ErrorIndicator::AddressingBoundary => 0x000101,
            ErrorIndicator::AddressingLength => 0x000102,
            ErrorIndicator::AddressingOutOfBounds => 0x000103,
            ErrorIndicator::AddressingRequiresEraseData => 0x000104,
            ErrorIndicator::AddressingRequiresEraseProgram => 0x000105,
            ErrorIndicator::AddressingRequiresTransferAndEraseProgram => 0x000106,
            ErrorIndicator::AddressingBootLoadExecutableMemory => 0x000107,
            ErrorIndicator::AddressingBootLoadInvalidBoundary => 0x000108,
            ErrorIndicator::DataValueRange => 0x000109,
            ErrorIndicator::DataNameRange => 0x00010A,
            ErrorIndicator::Security => 0x001000,
            ErrorIndicator::SecurityInvalidPassword => 0x001001,
            ErrorIndicator::SecurityInvalidUserLevel => 0x001002,
            ErrorIndicator::SecurityInvalidKey => 0x001003,
            ErrorIndicator::SecurityNotInDiagnosticMode => 0x001004,
            ErrorIndicator::SecurityNotInDevelopmentMode => 0x001005,
            ErrorIndicator::SecurityEngineRunning => 0x001006,
            ErrorIndicator::SecurityNotInPark => 0x001007,
            ErrorIndicator::AbortFromSoftwareProcess => 0x010000,
            ErrorIndicator::TooManyRetries => 0x010001,
            ErrorIndicator::NoResponseInTimeAllowed => 0x010002,
            ErrorIndicator::TransportDataNotInitiated => 0x010003,
            ErrorIndicator::TransportDataNotCompleted => 0x010004,
            ErrorIndicator::NoIndicatorAvailable => 0xFFFFFF,
            ErrorIndicator::Other(o) => o % 0x100_0000,
        }
    }
}

impl FromSpecImpl<ErrorIndicator> for u32 {
    open spec fn obeys_from_spec() -> bool {
        true
    }

    open spec fn from_spec(value: ErrorIndicator) -> u32 {
        value.code()
    }
}

impl From<u32> for ErrorIndicator {
    fn from(value: u32) -> (r: Self) {
        let value: u32 = value % 0x100_0000;
        if value == 0x000000 {
            ErrorIndicator::NoError
        } else if value == 0x000001 {
            ErrorIndicator::NotIdentified
        } else if value == 0x000002 {
            ErrorIndicator::BusyForSomeoneElse
        } else if value == 0x000010 {
            ErrorIndicator::BusyErase
        } else if value == 0x000011 {
            ErrorIndicator::BusyRead
        } else if value == 0x000012 {
            ErrorIndicator::BusyWrite
        } else if value == 0x000013 {
            ErrorIndicator::BusyStatus
        } else if value == 0x000016 {
            ErrorIndicator::BusyBootLoad
        } else if value == 0x000017 {
            ErrorIndicator::BusyEdcpGeneration
        } else if value == 0x00001F {
            ErrorIndicator::BusyUnspecified
        } else if value == 0x000020 {
            ErrorIndicator::EdcPrameterNotCorrect
        } else if value == 0x000021 {
            ErrorIndicator::RamVerifyOnWrite
        } else if value == 0x000022 {
            ErrorIndicator::FlashVerifyOnWrite
        } else if value == 0x000023 {
            ErrorIndicator::PromVerifyOnWrite
        } else if value == 0x000024 {
            ErrorIndicator::InternalFailure
        } else if value == 0x000100 {
            ErrorIndicator::AddressingGeneral
        } else if value == 0x000101 {
            ErrorIndicator::AddressingBoundary
        } else if value == 0x000102 {
            ErrorIndicator::AddressingLength
        } else if value == 0x000103 {
            ErrorIndicator::AddressingOutOfBounds
        } else if value == 0x000104 {
            ErrorIndicator::AddressingRequiresEraseData
        } else if value == 0x000105 {
            ErrorIndicator::AddressingRequiresEraseProgram
        } else if value == 0x000106 {
            ErrorIndicator::AddressingRequiresTransferAndEraseProgram
        } else if value == 0x000107 {
            ErrorIndicator::AddressingBootLoadExecutableMemory
        } else if value == 0x000108 {
            ErrorIndicator::AddressingBootLoadInvalidBoundary
        } else if value == 0x000109 {
            ErrorIndicator::DataValueRange
        } else if value == 0x00010A {
            ErrorIndicator::DataNameRange
        } else if value == 0x001000 {
            ErrorIndicator::Security
        } else if value == 0x001001 {
            ErrorIndicator::SecurityInvalidPassword
        } else if value == 0x001002 {
            ErrorIndicator::SecurityInvalidUserLevel
        } else if value == 0x001003 {
            ErrorIndicator::SecurityInvalidKey
        } else if value == 0x001004 {
            ErrorIndicator::SecurityNotInDiagnosticMode
        } else if value == 0x001005 {
            ErrorIndicator::SecurityNotInDevelopmentMode
        } else if value == 0x001006 {
            ErrorIndicator::SecurityEngineRunning
        } else if value == 0x001007 {
            ErrorIndicator::SecurityNotInPark
        } else if value == 0x010000 {
            ErrorIndicator::AbortFromSoftwareProcess
        } else if value == 0x010001 {
            ErrorIndicator::TooManyRetries
        } else if value == 0x010002 {
            ErrorIndicator::NoResponseInTimeAllowed
        } else if value == 0x010003 {
            ErrorIndicator::TransportDataNotInitiated
        } else if value == 0x010004 {
            ErrorIndicator::TransportDataNotCompleted
        } else if value == 0xFFFFFF {
            ErrorIndicator::NoIndicatorAvailable
        } else {
            ErrorIndicator::Other(value)
        }
    }
}

impl FromSpecImpl<u32> for ErrorIndicator {
    open spec fn obeys_from_spec() -> bool {
        true
    }

    open spec fn from_spec(value: u32) -> ErrorIndicator {
        ErrorIndicator::of_code((value % 0x100_0000) as u32)
    }
}

/// EDCP Extension State.
#[derive(Debug, Clone, Copy, PartialEq, Eq, Structural)]
pub enum EdcpExtensionState {
    Completed,
    ConcatenateFollowingAsHigherOrder,
    ConcatenateFollowingAsLowerOrder,
    IndicatorIsError,
    IndiactorIsErrorWithSeedTimeToCompletion,
    NoIndicatorAvailable,
}

/// DM17 - Boot Load Data
#[derive(Debug, Clone, Copy, PartialEq, Eq)]
pub struct BootLoadData {
    raw: [u8; 8],
}

impl View for BootLoadData {
    type V = Seq<u8>;

    /// The eight bytes of the frame.
    closed spec fn view(&self) -> Seq<u8> {
        self.raw@
    }
}

impl BootLoadData {
    pub fn data(&self) -> (r: [u8; 8])
        ensures
            r@ == self@,
    {
        self.raw
    }
}

impl From<&BootLoadData> for [u8; 8] {
    fn from(bl: &BootLoadData) -> (r: Self)
        ensures
            r@ == bl@,
    {
        bl.raw
    }
}

impl FromSpecImpl<&BootLoadData> for [u8; 8] {
    open spec fn obeys_from_spec() -> bool {
        true
    }

    closed spec fn from_spec(bl: &BootLoadData) -> [u8; 8] {
        bl.raw
    }
}

impl<'a> TryFrom<&'a [u8]> for BootLoadData {
    type Error = &'a [u8];

    fn try_from(value: &'a [u8]) -> (r: Result<Self, Self::Error>)
        ensures
            r is Ok <==> value@.len() == 8,
            r matches Ok(frame) ==> frame@ == value@,
            r matches Err(bytes) ==> bytes == value,
    {
        if value.len() != 8 {
            return Err(value);
        }
        let raw: [u8; 8] = [
            value[0],
            value[1],
            value[2],
            value[3],
            value[4],
            value[5],
            value[6],
            value[7],
        ];
        assert(raw@ =~= value@);
        Ok(Self { raw })
    }
}

impl<'a> TryFromSpecImpl<&'a [u8]> for BootLoadData {
    open spec fn obeys_try_from_spec() -> bool {
        true
    }

    closed spec fn try_from_spec(value: &'a [u8]) -> Result<Self, &'a [u8]> {
        if value@.len() == 8 {
            Ok(
                BootLoadData {
                    raw: [
                        value@[0],
                        value@[1],
                        value@[2],
                        value@[3],
                        value@[4],
                        value@[5],
                        value@[6],
                        value@[7],
                    ],
                },
            )
        } else {
            Err(value)
        }
    }
}

} // verus!
