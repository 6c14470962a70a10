use vstd::prelude::*;
use vstd::std_specs::convert::{FromSpecImpl, TryFromSpecImpl};

verus! {

/// Signal type.
///
/// The raw values of a signal fall into four ranges: valid values, parameter
/// specific indicators, error indicators and "not available". A value in none
/// of them is reserved.
pub trait Signal: Sized {
    /// Underlying base type.
    type Base;

    /// The raw value that the signal holds.
    spec fn raw(&self) -> Self::Base;

    /// Whether a raw value is in the valid range.
    spec fn in_valid(value: Self::Base) -> bool;

    /// Whether a raw value is a parameter specific indicator.
    spec fn in_indicator(value: Self::Base) -> bool;

    /// Whether a raw value is an error indicator.
    spec fn in_error(value: Self::Base) -> bool;

    /// Whether a raw value says that the parameter is not available.
    spec fn in_not_present(value: Self::Base) -> bool;

    /// Create from raw value.
    ///
    /// Returns `None` if the value provided is in none of the signal's four
    /// ranges.
    fn from_raw(value: Self::Base) -> (r: Option<Self>)
        ensures
            r.is_some() == (Self::in_valid(value) || Self::in_indicator(value) || Self::in_error(
                value,
            ) || Self::in_not_present(value)),
            r matches Some(signal) ==> signal.raw() == value,
    ;

    /// Get the raw value.
    fn to_raw(&self) -> (r: Self::Base)
        ensures
            r == self.raw(),
    ;

    /// Inner value if valid.
    fn value(&self) -> (r: Option<Self::Base>)
        ensures
            r == if Self::in_valid(self.raw()) {
                Some(self.raw())
            } else {
                None
            },
    ;

    /// Signal is valid.
    fn is_valid(&self) -> (r: bool)
        ensures
            r == Self::in_valid(self.raw()),
    ;

    /// Get the indicator value if it is present.
    fn indicator(&self) -> (r: Option<Self::Base>)
        ensures
            r == if Self::in_indicator(self.raw()) {
                Some(self.raw())
            } else {
                None
            },
    ;

    /// Signal is a parameter specific indicator.
    fn is_indicator(&self) -> (r: bool)
        ensures
            r == Self::in_indicator(self.raw()),
    ;

    /// Get the error value if it is present.
    fn error(&self) -> (r: Option<Self::Base>)
        ensures
            r == if Self::in_error(self.raw()) {
                Some(self.raw())
            } else {
                None
            },
    ;

    /// Signal indicates an error.
    fn is_error(&self) -> (r: bool)
        ensures
            r == Self::in_error(self.raw()),
    ;

    /// Get the "not available" value if it is present.
    fn not_present(&self) -> (r: Option<Self::Base>)
        ensures
            r == if Self::in_not_present(self.raw()) {
                Some(self.raw())
            } else {
                None
            },
    ;

    /// Signal is not available or was not requested.
    fn is_not_present(&self) -> (r: bool)
        ensures
            r == Self::in_not_present(self.raw()),
    ;
}

/// Parameter signal of 4 bits.
#[derive(Debug, Clone, Copy, PartialEq, Eq, Structural)]
pub struct Param4(u8);

impl Param4 {
    /// Two signals with the same raw value are the same signal.
    pub proof fn lemma_raw_injective(self, other: Param4)
        ensures
            self.raw() == other.raw() <==> self == other,
    {
    }
}

impl Signal for Param4 {
    type Base = u8;

    closed spec fn raw(&self) -> u8 {
        self.0
    }

    open spec fn in_valid(value: u8) -> bool {
        value <= 0xA
    }

    open spec fn in_indicator(value: u8) -> bool {
        value == 0xB
    }

    open spec fn in_error(value: u8) -> bool {
        value == 0xE
    }

    open spec fn in_not_present(value: u8) -> bool {
        value == 0xF
    }

    fn from_raw(value: u8) -> (r: Option<Self>) {
        if value <= 0xA || value == 0xB || value == 0xE || value == 0xF {
            Some(Self(value))
        } else {
            None
        }
    }

    fn to_raw(&self) -> (r: u8) {
        self.0
    }

    fn value(&self) -> (r: Option<u8>) {
        if self.is_valid() {
            Some(self.0)
        } else {
            None
        }
    }

    fn is_valid(&self) -> (r: bool) {
        self.0 <= 0xA
    }

    fn indicator(&self) -> (r: Option<u8>) {
        if self.is_indicator() {
            Some(self.0)
        } else {
            None
        }
    }

    fn is_indicator(&self) -> (r: bool) {
        self.0 == 0xB
    }

    fn error(&self) -> (r: Option<u8>) {
        if self.is_error() {
            Some(self.0)
        } else {
            None
        }
    }

    fn is_error(&self) -> (r: bool) {
        self.0 == 0xE
    }

    fn not_present(&self) -> (r: Option<u8>) {
        if self.is_not_present() {
            Some(self.0)
        } else {
            None
        }
    }

    fn is_not_present(&self) -> (r: bool) {
        self.0 == 0xF
    }
}

impl From<Param4> for u8 {
    fn from(value: Param4) -> (r: Self) {
        value.0
    }
}

impl FromSpecImpl<Param4> for u8 {
    open spec fn obeys_from_spec() -> bool {
        true
    }

    open spec fn from_spec(value: Param4) -> u8 {
        value.raw()
    }
}

impl From<u8> for Param4 {
    fn from(value: u8) -> (r: Self)
        ensures
            r.raw() == value,
    {
        Self(value)
    }
}

impl FromSpecImpl<u8> for Param4 {
    open spec fn obeys_from_spec() -> bool {
        true
    }

    closed spec fn from_spec(value: u8) -> Param4 {
        Param4(value)
    }
}

/// Parameter signal of 8 bits.
#[derive(Debug, Clone, Copy, PartialEq, Eq, Structural)]
pub struct Param8(u8);

impl Param8 {
    /// Two signals with the same raw value are the same signal.
    pub proof fn lemma_raw_injective(self, other: Param8)
        ensures
            self.raw() == other.raw() <==> self == other,
    {
    }
}

impl Signal for Param8 {
    type Base = u8;

    closed spec fn raw(&self) -> u8 {
        self.0
    }

    open spec fn in_valid(value: u8) -> bool {
        value <= 0xFA
    }

    open spec fn in_indicator(value: u8) -> bool {
        value == 0xFB
    }

    open spec fn in_error(value: u8) -> bool {
        value == 0xFE
    }

    open spec fn in_not_present(value: u8) -> bool {
        value == 0xFF
    }

    fn from_raw(value: u8) -> (r: Option<Self>) {
        if value <= 0xFA || value == 0xFB || value == 0xFE || value == 0xFF {
            Some(Self(value))
        } else {
            None
        }
    }

    fn to_raw(&self) -> (r: u8) {
        self.0
    }

    fn value(&self) -> (r: Option<u8>) {
        if self.is_valid() {
            Some(self.0)
        } else {
            None
        }
    }

    fn is_valid(&self) -> (r: bool) {
        self.0 <= 0xFA
    }

    fn indicator(&self) -> (r: Option<u8>) {
        if self.is_indicator() {
            Some(self.0)
        } else {
            None
        }
    }

    fn is_indicator(&self) -> (r: bool) {
        self.0 == 0xFB
    }

    fn error(&self) -> (r: Option<u8>) {
        if self.is_error() {
            Some(self.0)
        } else {
            None
        }
    }

    fn is_error(&self) -> (r: bool) {
        self.0 == 0xFE
    }

    fn not_present(&self) -> (r: Option<u8>) {
        if self.is_not_present() {
            Some(self.0)
        } else {
            None
        }
    }

    fn is_not_present(&self) -> (r: bool) {
        self.0 == 0xFF
    }
}

impl From<Param8> for u8 {
    fn from(value: Param8) -> (r: Self) {
        value.0
    }
}

impl FromSpecImpl<Param8> for u8 {
    open spec fn obeys_from_spec() -> bool {
        true
    }

    open spec fn from_spec(value: Param8) -> u8 {
        value.raw()
    }
}

impl From<u8> for Param8 {
    fn from(value: u8) -> (r: Self)
        ensures
            r.raw() == value,
    {
        Self(value)
    }
}

impl FromSpecImpl<u8> for Param8 {
    open spec fn obeys_from_spec() -> bool {
        true
    }

    closed spec fn from_spec(value: u8) -> Param8 {
        Param8(value)
    }
}

/// Parameter signal of 10 bits.
#[derive(Debug, Clone, Copy, PartialEq, Eq, Structural)]
pub struct Param10(u16);

impl Param10 {
    /// Two signals with the same raw value are the same signal.
    pub proof fn lemma_raw_injective(self, other: Param10)
        ensures
            self.raw() == other.raw() <==> self == other,
    {
    }
}

impl Signal for Param10 {
    type Base = u16;

    closed spec fn raw(&self) -> u16 {
        self.0
    }

    open spec fn in_valid(value: u16) -> bool {
        value <= 0x3FA
    }

    open spec fn in_indicator(value: u16) -> bool {
        value == 0x3FB
    }

    open spec fn in_error(value: u16) -> bool {
        value == 0x3FE
    }

    open spec fn in_not_present(value: u16) -> bool {
        value == 0x3FF
    }

    fn from_raw(value: u16) -> (r: Option<Self>) {
        if value <= 0x3FA || value == 0x3FB || value == 0x3FE || value == 0x3FF {
            Some(Self(value))
        } else {
            None
        }
    }

    fn to_raw(&self) -> (r: u16) {
        self.0
    }

    fn value(&self) -> (r: Option<u16>) {
        if self.is_valid() {
            Some(self.0)
        } else {
            None
        }
    }

    fn is_valid(&self) -> (r: bool) {
        self.0 <= 0x3FA
    }

    fn indicator(&self) -> (r: Option<u16>) {
        if self.is_indicator() {
            Some(self.0)
        } else {
            None
        }
    }

    fn is_indicator(&self) -> (r: bool) {
        self.0 == 0x3FB
    }

    fn error(&self) -> (r: Option<u16>) {
        if self.is_error() {
            Some(self.0)
        } else {
            None
        }
    }

    fn is_error(&self) -> (r: bool) {
        self.0 == 0x3FE
    }

    fn not_present(&self) -> (r: Option<u16>) {
        if self.is_not_present() {
            Some(self.0)
        } else {
            None
        }
    }

    fn is_not_present(&self) -> (r: bool) {
        self.0 == 0x3FF
    }
}

impl From<Param10> for u16 {
    fn from(value: Param10) -> (r: Self) {
        value.0
    }
}

impl FromSpecImpl<Param10> for u16 {
    open spec fn obeys_from_spec() -> bool {
        true
    }

    open spec fn from_spec(value: Param10) -> u16 {
        value.raw()
    }
}

impl From<u16> for Param10 {
    fn from(value: u16) -> (r: Self)
        ensures
            r.raw() == value,
    {
        Self(value)
    }
}

impl FromSpecImpl<u16> for Param10 {
    open spec fn obeys_from_spec() -> bool {
        true
    }

    closed spec fn from_spec(value: u16) -> Param10 {
        Param10(value)
    }
}

/// Parameter signal of 12 bits.
#[derive(Debug, Clone, Copy, PartialEq, Eq, Structural)]
pub struct Param12(u16);

impl Param12 {
    /// Two signals with the same raw value are the same signal.
    pub proof fn lemma_raw_injective(self, other: Param12)
        ensures
            self.raw() == other.raw() <==> self == other,
    {
    }
}

impl Signal for Param12 {
    type Base = u16;

    closed spec fn raw(&self) -> u16 {
        self.0
    }

    open spec fn in_valid(value: u16) -> bool {
        value <= 0xFAF
    }

    open spec fn in_indicator(value: u16) -> bool {
        0xFB0 <= value <= 0xFBF
    }

    open spec fn in_error(value: u16) -> bool {
        0xFE0 <= value <= 0xFEF
    }

    open spec fn in_not_present(value: u16) -> bool {
        0xFF0 <= value <= 0xFFF
    }

    fn from_raw(value: u16) -> (r: Option<Self>) {
        if value <= 0xFAF || (0xFB0 <= value && value <= 0xFBF) || (0xFE0 <= value && value <= 0xFEF) || (0xFF0 <= value && value <= 0xFFF) {
            Some(Self(value))
        } else {
            None
        }
    }

    fn to_raw(&self) -> (r: u16) {
        self.0
    }

    fn value(&self) -> (r: Option<u16>) {
        if self.is_valid() {
            Some(self.0)
        } else {
            None
        }
    }

    fn is_valid(&self) -> (r: bool) {
        self.0 <= 0xFAF
    }

    fn indicator(&self) -> (r: Option<u16>) {
        if self.is_indicator() {
            Some(self.0)
        } else {
            None
        }
    }

    fn is_indicator(&self) -> (r: bool) {
        0xFB0 <= self.0 && self.0 <= 0xFBF
    }

    fn error(&self) -> (r: Option<u16>) {
        if self.is_error() {
            Some(self.0)
        } else {
            None
        }
    }

    fn is_error(&self) -> (r: bool) {
        0xFE0 <= self.0 && self.0 <= 0xFEF
    }

    fn not_present(&self) -> (r: Option<u16>) {
        if self.is_not_present() {
            Some(self.0)
        } else {
            None
        }
    }

    fn is_not_present(&self) -> (r: bool) {
        0xFF0 <= self.0 && self.0 <= 0xFFF
    }
}

impl From<Param12> for u16 {
    fn from(value: Param12) -> (r: Self) {
        value.0
    }
}

impl FromSpecImpl<Param12> for u16 {
    open spec fn obeys_from_spec() -> bool {
        true
    }

    open spec fn from_spec(value: Param12) -> u16 {
        value.raw()
    }
}

impl From<u16> for Param12 {
    fn from(value: u16) -> (r: Self)
        ensures
            r.raw() == value,
    {
        Self(value)
    }
}

impl FromSpecImpl<u16> for Param12 {
    open spec fn obeys_from_spec() -> bool {
        true
    }

    closed spec fn from_spec(value: u16) -> Param12 {
        Param12(value)
    }
}

/// Parameter signal of 16 bits.
#[derive(Debug, Clone, Copy, PartialEq, Eq, Structural)]
pub struct Param16(u16);

impl Param16 {
    /// Two signals with the same raw value are the same signal.
    pub proof fn lemma_raw_injective(self, other: Param16)
        ensures
            self.raw() == other.raw() <==> self == other,
    {
    }
}

impl Signal for Param16 {
    type Base = u16;

    closed spec fn raw(&self) -> u16 {
        self.0
    }

    open spec fn in_valid(value: u16) -> bool {
        value <= 0xFAFF
    }

    open spec fn in_indicator(value: u16) -> bool {
        0xFB00 <= value <= 0xFBFF
    }

    open spec fn in_error(value: u16) -> bool {
        0xFE00 <= value <= 0xFEFF
    }

    open spec fn in_not_present(value: u16) -> bool {
        0xFF00 <= value <= 0xFFFF
    }

    fn from_raw(value: u16) -> (r: Option<Self>) {
        if value <= 0xFAFF || (0xFB00 <= value && value <= 0xFBFF) || (0xFE00 <= value && value <= 0xFEFF) || 0xFF00 <= value {
            Some(Self(value))
        } else {
            None
        }
    }

    fn to_raw(&self) -> (r: u16) {
        self.0
    }

    fn value(&self) -> (r: Option<u16>) {
        if self.is_valid() {
            Some(self.0)
        } else {
            None
        }
    }

    fn is_valid(&self) -> (r: bool) {
        self.0 <= 0xFAFF
    }

    fn indicator(&self) -> (r: Option<u16>) {
        if self.is_indicator() {
            Some(self.0)
        } else {
            None
        }
    }

    fn is_indicator(&self) -> (r: bool) {
        0xFB00 <= self.0 && self.0 <= 0xFBFF
    }

    fn error(&self) -> (r: Option<u16>) {
        if self.is_error() {
            Some(self.0)
        } else {
            None
        }
    }

    fn is_error(&self) -> (r: bool) {
        0xFE00 <= self.0 && self.0 <= 0xFEFF
    }

    fn not_present(&self) -> (r: Option<u16>) {
        if self.is_not_present() {
            Some(self.0)
        } else {
            None
        }
    }

    fn is_not_present(&self) -> (r: bool) {
        0xFF00 <= self.0
    }
}

impl From<Param16> for u16 {
    fn from(value: Param16) -> (r: Self) {
        value.0
    }
}

impl FromSpecImpl<Param16> for u16 {
    open spec fn obeys_from_spec() -> bool {
        true
    }

    open spec fn from_spec(value: Param16) -> u16 {
        value.raw()
    }
}

impl From<u16> for Param16 {
    fn from(value: u16) -> (r: Self)
        ensures
            r.raw() == value,
    {
        Self(value)
    }
}

impl FromSpecImpl<u16> for Param16 {
    open spec fn obeys_from_spec() -> bool {
        true
    }

    closed spec fn from_spec(value: u16) -> Param16 {
        Param16(value)
    }
}

/// Parameter signal of 20 bits.
#[derive(Debug, Clone, Copy, PartialEq, Eq, Structural)]
pub struct Param20(u32);

impl Param20 {
    /// Two signals with the same raw value are the same signal.
    pub proof fn lemma_raw_injective(self, other: Param20)
        ensures
            self.raw() == other.raw() <==> self == other,
    {
    }
}

impl Signal for Param20 {
    type Base = u32;

    closed spec fn raw(&self) -> u32 {
        self.0
    }

    open spec fn in_valid(value: u32) -> bool {
        value <= 0xFAFFF
    }

    open spec fn in_indicator(value: u32) -> bool {
        0xFB000 <= value <= 0xFBFFF
    }

    open spec fn in_error(value: u32) -> bool {
        0xFE000 <= value <= 0xFEFFF
    }

    open spec fn in_not_present(value: u32) -> bool {
        0xFF000 <= value <= 0xFFFFF
    }

    fn from_raw(value: u32) -> (r: Option<Self>) {
        if value <= 0xFAFFF || (0xFB000 <= value && value <= 0xFBFFF) || (0xFE000 <= value && value <= 0xFEFFF) || (0xFF000 <= value && value <= 0xFFFFF) {
            Some(Self(value))
        } else {
            None
        }
    }

    fn to_raw(&self) -> (r: u32) {
        self.0
    }

    fn value(&self) -> (r: Option<u32>) {
        if self.is_valid() {
            Some(self.0)
        } else {
            None
        }
    }

    fn is_valid(&self) -> (r: bool) {
        self.0 <= 0xFAFFF
    }

    fn indicator(&self) -> (r: Option<u32>) {
        if self.is_indicator() {
            Some(self.0)
        } else {
            None
        }
    }

    fn is_indicator(&self) -> (r: bool) {
        0xFB000 <= self.0 && self.0 <= 0xFBFFF
    }

    fn error(&self) -> (r: Option<u32>) {
        if self.is_error() {
            Some(self.0)
        } else {
            None
        }
    }

    fn is_error(&self) -> (r: bool) {
        0xFE000 <= self.0 && self.0 <= 0xFEFFF
    }

    fn not_present(&self) -> (r: Option<u32>) {
        if self.is_not_present() {
            Some(self.0)
        } else {
            None
        }
    }

    fn is_not_present(&self) -> (r: bool) {
        0xFF000 <= self.0 && self.0 <= 0xFFFFF
    }
}

impl From<Param20> for u32 {
    fn from(value: Param20) -> (r: Self) {
        value.0
    }
}

impl FromSpecImpl<Param20> for u32 {
    open spec fn obeys_from_spec() -> bool {
        true
    }

    open spec fn from_spec(value: Param20) -> u32 {
        value.raw()
    }
}

impl From<u32> for Param20 {
    fn from(value: u32) -> (r: Self)
        ensures
            r.raw() == value,
    {
        Self(value)
    }
}

impl FromSpecImpl<u32> for Param20 {
    open spec fn obeys_from_spec() -> bool {
        true
    }

    closed spec fn from_spec(value: u32) -> Param20 {
        Param20(value)
    }
}

/// Parameter signal of 24 bits.
#[derive(Debug, Clone, Copy, PartialEq, Eq, Structural)]
pub struct Param24(u32);

impl Param24 {
    /// Two signals with the same raw value are the same signal.
    pub proof fn lemma_raw_injective(self, other: Param24)
        ensures
            self.raw() == other.raw() <==> self == other,
    {
    }
}

impl Signal for Param24 {
    type Base = u32;

    closed spec fn raw(&self) -> u32 {
        self.0
    }

    open spec fn in_valid(value: u32) -> bool {
        value <= 0xFAFFFF
    }

    open spec fn in_indicator(value: u32) -> bool {
        0xFB0000 <= value <= 0xFBFFFF
    }

    open spec fn in_error(value: u32) -> bool {
        0xFE0000 <= value <= 0xFEFFFF
    }

    open spec fn in_not_present(value: u32) -> bool {
        0xFF0000 <= value <= 0xFFFFFF
    }

    fn from_raw(value: u32) -> (r: Option<Self>) {
        if value <= 0xFAFFFF || (0xFB0000 <= value && value <= 0xFBFFFF) || (0xFE0000 <= value && value <= 0xFEFFFF) || (0xFF0000 <= value && value <= 0xFFFFFF) {
            Some(Self(value))
        } else {
            None
        }
    }

    fn to_raw(&self) -> (r: u32) {
        self.0
    }

    fn value(&self) -> (r: Option<u32>) {
        if self.is_valid() {
            Some(self.0)
        } else {
            None
        }
    }

    fn is_valid(&self) -> (r: bool) {
        self.0 <= 0xFAFFFF
    }

    fn indicator(&self) -> (r: Option<u32>) {
        if self.is_indicator() {
            Some(self.0)
        } else {
            None
        }
    }

    fn is_indicator(&self) -> (r: bool) {
        0xFB0000 <= self.0 && self.0 <= 0xFBFFFF
    }

    fn error(&self) -> (r: Option<u32>) {
        if self.is_error() {
            Some(self.0)
        } else {
            None
        }
    }

    fn is_error(&self) -> (r: bool) {
        0xFE0000 <= self.0 && self.0 <= 0xFEFFFF
    }

    fn not_present(&self) -> (r: Option<u32>) {
        if self.is_not_present() {
            Some(self.0)
        } else {
            None
        }
    }

    fn is_not_present(&self) -> (r: bool) {
        0xFF0000 <= self.0 && self.0 <= 0xFFFFFF
    }
}

impl From<Param24> for u32 {
    fn from(value: Param24) -> (r: Self) {
        value.0
    }
}

impl FromSpecImpl<Param24> for u32 {
    open spec fn obeys_from_spec() -> bool {
        true
    }

    open spec fn from_spec(value: Param24) -> u32 {
        value.raw()
    }
}

impl From<u32> for Param24 {
    fn from(value: u32) -> (r: Self)
        ensures
            r.raw() == value,
    {
        Self(value)
    }
}

impl FromSpecImpl<u32> for Param24 {
    open spec fn obeys_from_spec() -> bool {
        true
    }

    closed spec fn from_spec(value: u32) -> Param24 {
        Param24(value)
    }
}

/// Parameter signal of 28 bits.
#[derive(Debug, Clone, Copy, PartialEq, Eq, Structural)]
pub struct Param28(u32);

impl Param28 {
    /// Two signals with the same raw value are the same signal.
    pub proof fn lemma_raw_injective(self, other: Param28)
        ensures
            self.raw() == other.raw() <==> self == other,
    {
    }
}

impl Signal for Param28 {
    type Base = u32;

    closed spec fn raw(&self) -> u32 {
        self.0
    }

    open spec fn in_valid(value: u32) -> bool {
        value <= 0xFAFFFFF
    }

    open spec fn in_indicator(value: u32) -> bool {
        0xFB00000 <= value <= 0xFBFFFFF
    }

    open spec fn in_error(value: u32) -> bool {
        0xFE00000 <= value <= 0xFEFFFFF
    }

    open spec fn in_not_present(value: u32) -> bool {
        0xFF00000 <= value <= 0xFFFFFFF
    }

    fn from_raw(value: u32) -> (r: Option<Self>) {
        if value <= 0xFAFFFFF || (0xFB00000 <= value && value <= 0xFBFFFFF) || (0xFE00000 <= value && value <= 0xFEFFFFF) || (0xFF00000 <= value && value <= 0xFFFFFFF) {
            Some(Self(value))
        } else {
            None
        }
    }

    fn to_raw(&self) -> (r: u32) {
        self.0
    }

    fn value(&self) -> (r: Option<u32>) {
        if self.is_valid() {
            Some(self.0)
        } else {
            None
        }
    }

    fn is_valid(&self) -> (r: bool) {
        self.0 <= 0xFAFFFFF
    }

    fn indicator(&self) -> (r: Option<u32>) {
        if self.is_indicator() {
            Some(self.0)
        } else {
            None
        }
    }

    fn is_indicator(&self) -> (r: bool) {
        0xFB00000 <= self.0 && self.0 <= 0xFBFFFFF
    }

    fn error(&self) -> (r: Option<u32>) {
        if self.is_error() {
            Some(self.0)
        } else {
            None
        }
    }

    fn is_error(&self) -> (r: bool) {
        0xFE00000 <= self.0 && self.0 <= 0xFEFFFFF
    }

    fn not_present(&self) -> (r: Option<u32>) {
        if self.is_not_present() {
            Some(self.0)
        } else {
            None
        }
    }

    fn is_not_present(&self) -> (r: bool) {
        0xFF00000 <= self.0 && self.0 <= 0xFFFFFFF
    }
}

impl From<Param28> for u32 {
    fn from(value: Param28) -> (r: Self) {
        value.0
    }
}

impl FromSpecImpl<Param28> for u32 {
    open spec fn obeys_from_spec() -> bool {
        true
    }

    open spec fn from_spec(value: Param28) -> u32 {
        value.raw()
    }
}

impl From<u32> for Param28 {
    fn from(value: u32) -> (r: Self)
        ensures
            r.raw() == value,
    {
        Self(value)
    }
}

impl FromSpecImpl<u32> for Param28 {
    open spec fn obeys_from_spec() -> bool {
        true
    }

    closed spec fn from_spec(value: u32) -> Param28 {
        Param28(value)
    }
}

/// Parameter signal of 32 bits.
#[derive(Debug, Clone, Copy, PartialEq, Eq, Structural)]
pub struct Param32(u32);

impl Param32 {
    /// Two signals with the same raw value are the same signal.
    pub proof fn lemma_raw_injective(self, other: Param32)
        ensures
            self.raw() == other.raw() <==> self == other,
    {
    }
}

impl Signal for Param32 {
    type Base = u32;

    closed spec fn raw(&self) -> u32 {
        self.0
    }

    open spec fn in_valid(value: u32) -> bool {
        value <= 0xFAFFFFFF
    }

    open spec fn in_indicator(value: u32) -> bool {
        0xFB000000 <= value <= 0xFBFFFFFF
    }

    open spec fn in_error(value: u32) -> bool {
        0xFE000000 <= value <= 0xFEFFFFFF
    }

    open spec fn in_not_present(value: u32) -> bool {
        0xFF000000 <= value <= 0xFFFFFFFF
    }

    fn from_raw(value: u32) -> (r: Option<Self>) {
        if value <= 0xFAFFFFFF || (0xFB000000 <= value && value <= 0xFBFFFFFF) || (0xFE000000 <= value && value <= 0xFEFFFFFF) || 0xFF000000 <= value {
            Some(Self(value))
        } else {
            None
        }
    }

    fn to_raw(&self) -> (r: u32) {
        self.0
    }

    fn value(&self) -> (r: Option<u32>) {
        if self.is_valid() {
            Some(self.0)
        } else {
            None
        }
    }

    fn is_valid(&self) -> (r: bool) {
        self.0 <= 0xFAFFFFFF
    }

    fn indicator(&self) -> (r: Option<u32>) {
        if self.is_indicator() {
            Some(self.0)
        } else {
            None
        }
    }

    fn is_indicator(&self) -> (r: bool) {
        0xFB000000 <= self.0 && self.0 <= 0xFBFFFFFF
    }

    fn error(&self) -> (r: Option<u32>) {
        if self.is_error() {
            Some(self.0)
        } else {
            None
        }
    }

    fn is_error(&self) -> (r: bool) {
        0xFE000000 <= self.0 && self.0 <= 0xFEFFFFFF
    }

    fn not_present(&self) -> (r: Option<u32>) {
        if self.is_not_present() {
            Some(self.0)
        } else {
            None
        }
    }

    fn is_not_present(&self) -> (r: bool) {
        0xFF000000 <= self.0
    }
}

impl From<Param32> for u32 {
    fn from(value: Param32) -> (r: Self) {
        value.0
    }
}

impl FromSpecImpl<Param32> for u32 {
    open spec fn obeys_from_spec() -> bool {
        true
    }

    open spec fn from_spec(value: Param32) -> u32 {
        value.raw()
    }
}

impl From<u32> for Param32 {
    fn from(value: u32) -> (r: Self)
        ensures
            r.raw() == value,
    {
        Self(value)
    }
}

impl FromSpecImpl<u32> for Param32 {
    open spec fn obeys_from_spec() -> bool {
        true
    }

    closed spec fn from_spec(value: u32) -> Param32 {
        Param32(value)
    }
}

/// Discrete parameter
#[derive(Debug, Clone, Copy, PartialEq, Eq, Structural)]
pub enum Discrete {
    Disabled,
    Enabled,
    ErrorIndicator,
    NotAvailable,
}

impl Discrete {
    /// The two bits that stand for this value.
    pub open spec fn code(self) -> u8 {
        match self {
            Discrete::Disabled => 0,
            Discrete::Enabled => 1,
            Discrete::ErrorIndicator => 2,
            Discrete::NotAvailable => 3,
        }
    }

    /// The value that two bits stand for; a number past them stands for none.
    pub open spec fn of_code(value: u8) -> Option<Self> {
        if value == 0 {
            Some(Discrete::Disabled)
        } else if value == 1 {
            Some(Discrete::Enabled)
        } else if value == 2 {
            Some(Discrete::ErrorIndicator)
        } else if value == 3 {
            Some(Discrete::NotAvailable)
        } else {
            None
        }
    }

    /// A value is read back from its own bits.
    pub proof fn lemma_code_round_trip(self)
        ensures
            Self::of_code(self.code()) == Some(self),
    {
    }
}

impl TryFrom<u8> for Discrete {
    type Error = u8;

    fn try_from(value: u8) -> (r: Result<Self, Self::Error>) {
        if value == 0 {
            Ok(Discrete::Disabled)
        } else if value == 1 {
            Ok(Discrete::Enabled)
        } else if value == 2 {
            Ok(Discrete::ErrorIndicator)
        } else if value == 3 {
            Ok(Discrete::NotAvailable)
        } else {
            Err(value)
        }
    }
}

impl TryFromSpecImpl<u8> for Discrete {
    open spec fn obeys_try_from_spec() -> bool {
        true
    }

    open spec fn try_from_spec(value: u8) -> Result<Self, u8> {
        match Discrete::of_code(value) {
            Some(v) => Ok(v),
            None => Err(value),
        }
    }
}

impl From<Discrete> for u8 {
    fn from(value: Discrete) -> (r: Self) {
        match value {
            Discrete::Disabled => 0,
            Discrete::Enabled => 1,
            Discrete::ErrorIndicator => 2,
            Discrete::NotAvailable => 3,
        }
    }
}

impl FromSpecImpl<Discrete> for u8 {
    open spec fn obeys_from_spec() -> bool {
        true
    }

    open spec fn from_spec(value: Discrete) -> u8 {
        value.code()
    }
}

/// Control command
#[derive(Debug, Clone, Copy, PartialEq, Eq, Structural)]
pub enum Command {
    Disable,
    Enable,
    Reserved,
    NoAction,
}

impl Command {
    /// The two bits that stand for this value.
    pub open spec fn code(self) -> u8 {
        match self {
            Command::Disable => 0,
            Command::Enable => 1,
            Command::Reserved => 2,
            Command::NoAction => 3,
        }
    }

    /// The value that two bits stand for; a number past them stands for none.
    pub open spec fn of_code(value: u8) -> Option<Self> {
        if value == 0 {
            Some(Command::Disable)
        } else if value == 1 {
            Some(Command::Enable)
        } else if value == 2 {
            Some(Command::Reserved)
        } else if value == 3 {
            Some(Command::NoAction)
        } else {
            None
        }
    }

    /// A value is read back from its own bits.
    pub proof fn lemma_code_round_trip(self)
        ensures
            Self::of_code(self.code()) == Some(self),
    {
    }
}

impl TryFrom<u8> for Command {
    type Error = u8;

    fn try_from(value: u8) -> (r: Result<Self, Self::Error>) {
        if value == 0 {
            Ok(Command::Disable)
        } else if value == 1 {
            Ok(Command::Enable)
        } else if value == 2 {
            Ok(Command::Reserved)
        } else if value == 3 {
            Ok(Command::NoAction)
        } else {
            Err(value)
        }
    }
}

impl TryFromSpecImpl<u8> for Command {
    open spec fn obeys_try_from_spec() -> bool {
        true
    }

    open spec fn try_from_spec(value: u8) -> Result<Self, u8> {
        match Command::of_code(value) {
            Some(v) => Ok(v),
            None => Err(value),
        }
    }
}

impl From<Command> for u8 {
    fn from(value: Command) -> (r: Self) {
        match value {
            Command::Disable => 0,
            Command::Enable => 1,
            Command::Reserved => 2,
            Command::NoAction => 3,
        }
    }
}

impl FromSpecImpl<Command> for u8 {
    open spec fn obeys_from_spec() -> bool {
        true
    }

    open spec fn from_spec(value: Command) -> u8 {
        value.code()
    }
}

} // verus!
