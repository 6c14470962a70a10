use embedded_can::ExtendedId;
use vstd::prelude::*;
use vstd::std_specs::convert::FromSpecImpl;

verus! {

/// PDU format.
///
/// See J1939-21 section 5.3 for more details.
#[derive(Debug, Clone, Copy, PartialEq, Eq, Structural)]
pub enum PduFormat {
    /// PS = DA (destination address)
    Pdu1(u8),
    /// PS = GE (global extension)
    Pdu2(u8),
}

impl PduFormat {
    /// The format that a PF byte selects: PDU1 up to 239, PDU2 from 240 on.
    pub open spec fn of_byte(value: u8) -> PduFormat {
        if value <= 239 {
            PduFormat::Pdu1(value)
        } else {
            PduFormat::Pdu2(value)
        }
    }

    /// The format of a parameter group: selected by bits 8 to 15 of its number.
    pub open spec fn of_pgn(pgn: Pgn) -> PduFormat {
        Self::of_byte(((pgn.value() / 256) % 256) as u8)
    }
}

impl From<u8> for PduFormat {
    fn from(value: u8) -> (r: Self) {
        if value <= 239 {
            PduFormat::Pdu1(value)
        } else {
            PduFormat::Pdu2(value)
        }
    }
}

impl FromSpecImpl<u8> for PduFormat {
    open spec fn obeys_from_spec() -> bool {
        true
    }

    open spec fn from_spec(value: u8) -> PduFormat {
        PduFormat::of_byte(value)
    }
}

impl From<&Pgn> for PduFormat {
    fn from(pgn: &Pgn) -> (r: Self) {
        let raw: u32 = u32::from(pgn);
        let byte: u32 = (raw >> 8) & 0xff;
        assert((raw >> 8) & 0xff == (raw / 256) % 256) by (bit_vector);
        Self::from(byte as u8)
    }
}

impl FromSpecImpl<&Pgn> for PduFormat {
    open spec fn obeys_from_spec() -> bool {
        true
    }

    open spec fn from_spec(pgn: &Pgn) -> PduFormat {
        PduFormat::of_pgn(*pgn)
    }
}

impl From<Pgn> for PduFormat {
    fn from(pgn: Pgn) -> (r: Self) {
        Self::from(&pgn)
    }
}

impl FromSpecImpl<Pgn> for PduFormat {
    open spec fn obeys_from_spec() -> bool {
        true
    }

    open spec fn from_spec(pgn: Pgn) -> PduFormat {
        PduFormat::of_pgn(pgn)
    }
}

/// Parameter group number (PGN)
#[derive(Debug, Clone, Copy, PartialEq, Eq, Structural)]
pub enum Pgn {
    /// RQST2 - Request 2
    Request2,
    /// XFER - Transfer
    Transfer,
    /// DM17 - Boot Load Data
    BootLoadData,
    /// DM16 - Binary Data Transfer
    BinaryDataTransfer,
    /// DM15 - Memory Access Response
    MemoryAccessResponse,
    /// DM14 - Memory Access Request
    MemoryAccessRequest,
    /// RQST - Request
    Request,
    /// ACKM - Acknowledgement
    Acknowledgement,
    /// TP.DT - Transport Protocol - Data Transfer
    TransportProtocolDataTransfer,
    /// TP.CM - Transport Protocol - Connection Mgmt
    TransportProtocolConnectionManagement,
    /// PropA - Proprietary A
    ProprietaryA,
    /// PropA2 - Proprietary A2
    ProprietaryA2,
    /// PropB - Proprietary B
    ProprietaryB(u8),
    /// PropB2 - Proprietary B2
    ProprietaryB2(u8),
    /// Unknown PGN
    Other(u32),
}

impl Pgn {
    /// The number that stands for this parameter group on the bus.
    pub open spec fn value(self) -> u32 {
        match self {
            Pgn::Request2 => 51456,
            Pgn::Transfer => 51712,
            Pgn::BootLoadData => 54784,
            Pgn::BinaryDataTransfer => 55040,
            Pgn::MemoryAccessResponse => 55296,
            Pgn::MemoryAccessRequest => 55552,
            Pgn::Request => 59904,
            Pgn::Acknowledgement => 59392,
            Pgn::TransportProtocolDataTransfer => 60160,
            Pgn::TransportProtocolConnectionManagement => 60416,
            Pgn::ProprietaryA => 61184,
            Pgn::ProprietaryA2 => 126720,
            Pgn::ProprietaryB(ge) => (65280 + ge) as u32,
            Pgn::ProprietaryB2(ge) => (130816 + ge) as u32,
            Pgn::Other(raw) => raw,
        }
    }

    /// The parameter group that a number names: a known group where there is
    /// one, a proprietary B group by its range, `Other` for the rest.
    pub open spec fn of_value(value: u32) -> Pgn {
        if value == 51456 {
            Pgn::Request2
        } else if value == 51712 {
            Pgn::Transfer
        } else if value == 54784 {
            Pgn::BootLoadData
        } else if value == 55040 {
            Pgn::BinaryDataTransfer
        } else if value == 55296 {
            Pgn::MemoryAccessResponse
        } else if value == 55552 {
            Pgn::MemoryAccessRequest
        } else if value == 59904 {
            Pgn::Request
        } else if value == 59392 {
            Pgn::Acknowledgement
        } else if value == 60160 {
            Pgn::TransportProtocolDataTransfer
        } else if value == 60416 {
            Pgn::TransportProtocolConnectionManagement
        } else if value == 61184 {
            Pgn::ProprietaryA
        } else if value == 126720 {
            Pgn::ProprietaryA2
        } else if 65280 <= value <= 65535 {
            Pgn::ProprietaryB((value - 65280) as u8)
        } else if 130816 <= value <= 131071 {
            Pgn::ProprietaryB2((value - 130816) as u8)
        } else {
            Pgn::Other(value)
        }
    }

    /// Whether this is the value that its own number is read back as. `Other`
    /// holding the number of a known group is not.
    pub open spec fn is_canonical(self) -> bool {
        Pgn::of_value(self.value()) == self
    }

    pub fn pf(&self) -> (r: PduFormat)
        ensures
            r == PduFormat::of_pgn(*self),
    {
        PduFormat::from(*self)
    }

    /// Reading a number and writing it back gives the number again.
    pub proof fn lemma_value_of_value(value: u32)
        ensures
            Pgn::of_value(value).value() == value,
            Pgn::of_value(value).is_canonical(),
    {
    }
}

impl From<u32> for Pgn {
    fn from(value: u32) -> (r: Self) {
        if value == 51456 {
            Pgn::Request2
        } else if value == 51712 {
            Pgn::Transfer
        } else if value == 54784 {
            Pgn::BootLoadData
        } else if value == 55040 {
            Pgn::BinaryDataTransfer
        } else if value == 55296 {
            Pgn::MemoryAccessResponse
        } else if value == 55552 {
            Pgn::MemoryAccessRequest
        } else if value == 59904 {
            Pgn::Request
        } else if value == 59392 {
            Pgn::Acknowledgement
        } else if value == 60160 {
            Pgn::TransportProtocolDataTransfer
        } else if value == 60416 {
            Pgn::TransportProtocolConnectionManagement
        } else if value == 61184 {
            Pgn::ProprietaryA
        } else if value == 126720 {
            Pgn::ProprietaryA2
        } else if 65280 <= value && value <= 65535 {
            Pgn::ProprietaryB((value - 65280) as u8)
        } else if 130816 <= value && value <= 131071 {
            Pgn::ProprietaryB2((value - 130816) as u8)
        } else {
            Pgn::Other(value)
        }
    }
}

impl FromSpecImpl<u32> for Pgn {
    open spec fn obeys_from_spec() -> bool {
        true
    }

    open spec fn from_spec(value: u32) -> Pgn {
        Pgn::of_value(value)
    }
}

impl From<&Pgn> for u32 {
    fn from(value: &Pgn) -> (r: Self) {
        match value {
            Pgn::Request2 => 51456,
            Pgn::Transfer => 51712,
            Pgn::BootLoadData => 54784,
            Pgn::BinaryDataTransfer => 55040,
            Pgn::MemoryAccessResponse => 55296,
            Pgn::MemoryAccessRequest => 55552,
            Pgn::Request => 59904,
            Pgn::Acknowledgement => 59392,
            Pgn::TransportProtocolDataTransfer => 60160,
            Pgn::TransportProtocolConnectionManagement => 60416,
            Pgn::ProprietaryA => 61184,
            Pgn::ProprietaryA2 => 126720,
            Pgn::ProprietaryB(ge) => 65280 + (*ge as u32),
            Pgn::ProprietaryB2(ge) => 130816 + (*ge as u32),
            Pgn::Other(raw) => *raw,
        }
    }
}

impl FromSpecImpl<&Pgn> for u32 {
    open spec fn obeys_from_spec() -> bool {
        true
    }

    open spec fn from_spec(value: &Pgn) -> u32 {
        value.value()
    }
}

impl From<Pgn> for u32 {
    fn from(value: Pgn) -> (r: Self) {
        u32::from(&value)
    }
}

impl FromSpecImpl<Pgn> for u32 {
    open spec fn obeys_from_spec() -> bool {
        true
    }

    open spec fn from_spec(value: Pgn) -> u32 {
        value.value()
    }
}

#[verifier::external_type_specification]
#[verifier::external_body]
pub struct ExExtendedId(ExtendedId);

/// The number that an extended identifier holds.
pub uninterp spec fn extended_id_bits(id: ExtendedId) -> u32;

/// `ExtendedId::MAX.as_raw()`: the largest 29-bit identifier, all bits set.
#[verifier::external_body]
fn extended_id_max() -> (r: u32)
    ensures
        r == 0x1FFF_FFFF,
{
    ExtendedId::MAX.as_raw()
}

/// `ExtendedId::as_raw`: the number that the identifier holds.
#[verifier::external_body]
fn extended_id_as_raw(id: ExtendedId) -> (r: u32)
    ensures
        r == extended_id_bits(id),
{
    id.as_raw()
}

/// `ExtendedId::new`: an identifier that holds `raw` for every number of at
/// most 29 bits, `None` for a larger one.
#[verifier::external_body]
fn extended_id_new(raw: u32) -> (r: Option<ExtendedId>)
    ensures
        r.is_some() == (raw <= 0x1FFF_FFFF),
        r matches Some(id) ==> extended_id_bits(id) == raw,
{
    ExtendedId::new(raw)
}

/// J1939 identifier.
#[derive(Debug, Clone, Copy, PartialEq, Eq, Structural)]
pub struct Id(u32);

impl View for Id {
    type V = u32;

    closed spec fn view(&self) -> u32 {
        self.0
    }
}

impl Id {
    /// Bits 26 and up, as `priority` hands them out: the priority, where the
    /// identifier has 29 bits.
    pub open spec fn spec_priority(self) -> u8 {
        ((self@ / 0x400_0000) % 256) as u8
    }

    /// Bit 24.
    pub open spec fn spec_dp(self) -> u8 {
        ((self@ / 0x100_0000) % 2) as u8
    }

    /// Bits 16 to 23.
    pub open spec fn spec_pf_byte(self) -> u8 {
        ((self@ / 0x1_0000) % 256) as u8
    }

    /// Bits 8 to 15.
    pub open spec fn spec_ps(self) -> u8 {
        ((self@ / 256) % 256) as u8
    }

    /// Bits 0 to 7.
    pub open spec fn spec_sa(self) -> u8 {
        (self@ % 256) as u8
    }

    /// The number of the parameter group: bits 8 to 23, the low eight of them
    /// cleared in PDU1 format, where they hold a destination address.
    pub open spec fn spec_pgn_value(self) -> u32 {
        if self.spec_pf_byte() <= 239 {
            (self.spec_pf_byte() * 256) as u32
        } else {
            (self.spec_pf_byte() * 256 + self.spec_ps()) as u32
        }
    }

    /// Two identifiers with the same bits are the same identifier.
    pub proof fn lemma_view_injective(self, other: Id)
        ensures
            self@ == other@ <==> self == other,
    {
    }

    /// Create a new [`Id`] from a raw identifier value.
    ///
    /// Masked to 29 bits to ensure the id is valid.
    pub fn new(raw: u32) -> (r: Self)
        ensures
            r@ == raw % 0x2000_0000,
    {
        let mask = extended_id_max();
        assert(raw & 0x1FFF_FFFF == raw % 0x2000_0000) by (bit_vector);
        Self(raw & mask)
    }

    pub fn builder() -> (r: IdBuilder)
        ensures
            r == IdBuilder::empty(),
    {
        IdBuilder::new()
    }

    /// Get the inner 29-bit value.
    pub fn as_raw(&self) -> (r: u32)
        ensures
            r == self@,
    {
        self.0
    }

    /// Priority (P)
    pub fn priority(&self) -> (r: u8)
        ensures
            r == self.spec_priority(),
    {
        let raw = self.0;
        assert((raw >> 26) & 0xFF == (raw / 0x400_0000) % 256) by (bit_vector);
        ((raw >> 26) & 0xFF) as u8
    }

    /// Data page (DP)
    pub fn dp(&self) -> (r: u8)
        ensures
            r == self.spec_dp(),
    {
        let raw = self.0;
        assert((raw >> 24) & 1 == (raw / 0x100_0000) % 2) by (bit_vector);
        ((raw >> 24) & 1) as u8
    }

    /// Parameter group number (PGN)
    pub fn pgn(&self) -> (r: Pgn)
        ensures
            r == Pgn::of_value(self.spec_pgn_value()),
    {
        let raw = self.0;
        let high = raw >> 8;
        assert((raw >> 8) & 0xFF00 == ((raw / 0x1_0000) % 256) * 256) by (bit_vector);
        assert((raw >> 8) & 0xFFFF == ((raw / 0x1_0000) % 256) * 256 + (raw / 256) % 256)
            by (bit_vector);
        let value = match self.pf() {
            PduFormat::Pdu1(_) => high & 0xFF00,
            PduFormat::Pdu2(_) => high & 0xFFFF,
        };
        Pgn::from(value)
    }

    /// PDU format (PF)
    pub fn pf(&self) -> (r: PduFormat)
        ensures
            r == PduFormat::of_byte(self.spec_pf_byte()),
    {
        let raw = self.0;
        assert((raw >> 16) & 0xFF == (raw / 0x1_0000) % 256) by (bit_vector);
        let format = ((raw >> 16) & 0xFF) as u8;
        PduFormat::from(format)
    }

    /// PDU specific (PS)
    pub fn ps(&self) -> (r: u8)
        ensures
            r == self.spec_ps(),
    {
        let raw = self.0;
        assert((raw >> 8) & 0xff == (raw / 256) % 256) by (bit_vector);
        ((raw >> 8) & 0xff) as u8
    }

    /// PDU specific destination address (DA)
    pub fn da(&self) -> (r: Option<u8>)
        ensures
            r == if self.spec_ps() <= 239 {
                Some(self.spec_ps())
            } else {
                None
            },
    {
        if self.ps() <= 239 {
            Some(self.ps())
        } else {
            None
        }
    }

    /// PDU specific group extension (GE)
    pub fn ge(&self) -> (r: Option<u8>)
        ensures
            r == if self.spec_ps() >= 240 {
                Some(self.spec_ps())
            } else {
                None
            },
    {
        if self.ps() >= 240 {
            Some(self.ps())
        } else {
            None
        }
    }

    /// Source address (SA)
    pub fn sa(&self) -> (r: u8)
        ensures
            r == self.spec_sa(),
    {
        let raw = self.0;
        assert(raw & 0xff == raw % 256) by (bit_vector);
        (raw & 0xff) as u8
    }
}

impl From<ExtendedId> for Id {
    fn from(id: ExtendedId) -> (r: Self)
        ensures
            r@ == extended_id_bits(id),
    {
        Self(extended_id_as_raw(id))
    }
}

impl FromSpecImpl<ExtendedId> for Id {
    open spec fn obeys_from_spec() -> bool {
        true
    }

    closed spec fn from_spec(id: ExtendedId) -> Id {
        Id(extended_id_bits(id))
    }
}

/// The identifier as an `ExtendedId`, cut to 29 bits where a builder made a
/// larger one.
impl From<Id> for ExtendedId {
    fn from(id: Id) -> (r: Self)
        ensures
            extended_id_bits(r) == id@ % 0x2000_0000,
    {
        let bits: u32 = id.0;
        let raw = bits & extended_id_max();
        assert(bits & 0x1FFF_FFFF == bits % 0x2000_0000) by (bit_vector);
        match extended_id_new(raw) {
            Some(extended) => extended,
            None => vstd::pervasive::unreached(),
        }
    }
}

impl FromSpecImpl<Id> for ExtendedId {
    open spec fn obeys_from_spec() -> bool {
        false
    }

    open spec fn from_spec(id: Id) -> ExtendedId {
        arbitrary()
    }
}

/// Builds an [`Id`] field by field.
#[derive(Debug, Clone, Copy)]
pub struct IdBuilder {
    pub priority: Option<u8>,
    pub pgn: Option<Pgn>,
    pub sa: Option<u8>,
    pub da: Option<u8>,
}

impl IdBuilder {
    /// A builder with nothing set.
    pub open spec fn empty() -> Self {
        IdBuilder { priority: None, pgn: None, sa: None, da: None }
    }

    /// Priority, parameter group and source address in their places: bits 26
    /// and up, 8 and up, 0 to 7. The priority is 6 where none was set.
    pub open spec fn packed(priority: Option<u8>, pgn: Pgn, sa: u8) -> u32 {
        let p: u32 = match priority {
            Some(p) => p as u32,
            None => 6u32,
        };
        (p << 26) | (pgn.value() << 8) | (sa as u32)
    }

    /// The identifier that `build` makes: none without a parameter group or
    /// without a source address, none in PDU1 format without a destination
    /// address, which is set into bits 8 to 15 there.
    pub open spec fn built(self) -> Option<u32> {
        match (self.pgn, self.sa) {
            (Some(pgn), Some(sa)) => {
                let base = Self::packed(self.priority, pgn, sa);
                if ((base % 0x2000_0000) / 0x1_0000) % 256 <= 239 {
                    match self.da {
                        Some(da) => Some(base | ((da as u32) << 8)),
                        None => None,
                    }
                } else {
                    Some(base)
                }
            },
            _ => None,
        }
    }

    /// Creates a new [`IdBuilder`]
    ///
    /// A source address and PGN must be provided. If a PDU1 PF is selected, a
    /// destination address must also be provided.
    pub fn new() -> (r: Self)
        ensures
            r == Self::empty(),
    {
        Self { priority: None, pgn: None, sa: None, da: None }
    }

    /// Priority.
    ///
    /// Default is 6 if not set.
    pub fn priority(self, p: u8) -> (r: Self)
        requires
            p <= 7,
        ensures
            r == (IdBuilder { priority: Some(p), ..self }),
    {
        let mut this = self;
        this.priority = Some(p);
        this
    }

    /// Parameter group number.
    ///
    /// Must be set or `.build()` gives `None`.
    pub fn pgn(self, pgn: Pgn) -> (r: Self)
        ensures
            r == (IdBuilder { pgn: Some(pgn), ..self }),
    {
        let mut this = self;
        this.pgn = Some(pgn);
        this
    }

    /// Source address.
    pub fn sa(self, sa: u8) -> (r: Self)
        ensures
            r == (IdBuilder { sa: Some(sa), ..self }),
    {
        let mut this = self;
        this.sa = Some(sa);
        this
    }

    /// Destination address.
    ///
    /// Required for PDU1 messages or `.build()` gives `None`.
    pub fn da(self, da: u8) -> (r: Self)
        ensures
            r == (IdBuilder { da: Some(da), ..self }),
    {
        let mut this = self;
        this.da = Some(da);
        this
    }

    pub fn build(self) -> (r: Option<Id>)
        ensures
            r.is_some() == self.built().is_some(),
            r matches Some(id) ==> Some(id@) == self.built(),
    {
        let priority: u8 = match self.priority {
            Some(p) => p,
            None => 6,
        };
        let pgn = match self.pgn {
            Some(pgn) => pgn,
            None => {
                return None;
            },
        };
        let sa = match self.sa {
            Some(sa) => sa,
            None => {
                return None;
            },
        };
        let mut id: u32 = ((priority as u32) << 26) | (u32::from(pgn) << 8) | (sa as u32);
        if let PduFormat::Pdu1(_) = Id::new(id).pf() {
            match self.da {
                Some(da) => {
                    id |= (da as u32) << 8;
                },
                None => {
                    return None;
                },
            }
        }
        Some(Id(id))
    }
}

impl Default for IdBuilder {
    fn default() -> (r: Self)
        ensures
            r == Self::empty(),
    {
        Self::new()
    }
}

} // verus!
