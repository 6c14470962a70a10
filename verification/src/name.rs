use vstd::prelude::*;
use vstd::std_specs::convert::{FromSpecImpl, TryFromSpecImpl};

verus! {

/// J1939-81 NAME.
#[derive(Debug, Clone, Copy, PartialEq, Eq, Structural)]
pub struct Name(u64);

impl View for Name {
    type V = u64;

    closed spec fn view(&self) -> u64 {
        self.0
    }
}

impl Name {
    pub open spec fn spec_identity(self) -> u32 {
        (self@ % 0x20_0000) as u32
    }

    pub open spec fn spec_manufacturer_code(self) -> u16 {
        ((self@ / 0x20_0000) % 0x800) as u16
    }

    pub open spec fn spec_ecu_instance(self) -> u8 {
        ((self@ / 0x1_0000_0000) % 8) as u8
    }

    pub open spec fn spec_function_instance(self) -> u8 {
        ((self@ / 0x8_0000_0000) % 32) as u8
    }

    pub open spec fn spec_function(self) -> u8 {
        ((self@ / 0x100_0000_0000) % 256) as u8
    }

    pub open spec fn spec_vehicle_system(self) -> u8 {
        ((self@ / 0x2_0000_0000_0000) % 128) as u8
    }

    pub open spec fn spec_vehicle_system_instance(self) -> u8 {
        ((self@ / 0x100_0000_0000_0000) % 16) as u8
    }

    /// Two names with the same bits are the same name.
    pub proof fn lemma_view_injective(self, other: Name)
        ensures
            self@ == other@ <==> self == other,
    {
    }

    /// Identity number field (SPN 2837)
    pub fn identity(&self) -> (r: u32)
        ensures
            r == self.spec_identity(),
    {
        let raw = self.0;
        assert(raw & 0x1FFFFF == raw % 0x20_0000) by (bit_vector);
        (raw & 0x1FFFFF) as u32
    }

    /// Manufacturer code (SPN 2838)
    pub fn manufacturer_code(&self) -> (r: u16)
        ensures
            r == self.spec_manufacturer_code(),
    {
        let raw = self.0;
        assert((raw >> 21) & 0x7FF == (raw / 0x20_0000) % 0x800) by (bit_vector);
        ((raw >> 21) & 0x7FF) as u16
    }

    /// ECU instance (SPN 2840)
    pub fn ecu_instance(&self) -> (r: u8)
        ensures
            r == self.spec_ecu_instance(),
    {
        let raw = self.0;
        assert((raw >> 32) & 0x7 == (raw / 0x1_0000_0000) % 8) by (bit_vector);
        ((raw >> 32) & 0x7) as u8
    }

    /// Function instance (SPN 2839)
    pub fn function_instance(&self) -> (r: u8)
        ensures
            r == self.spec_function_instance(),
    {
        let raw = self.0;
        assert((raw >> 35) & 0x1F == (raw / 0x8_0000_0000) % 32) by (bit_vector);
        ((raw >> 35) & 0x1F) as u8
    }

    /// Function (SPN 2841)
    pub fn function(&self) -> (r: u8)
        ensures
            r == self.spec_function(),
    {
        let raw = self.0;
        assert((raw >> 40) & 0xFF == (raw / 0x100_0000_0000) % 256) by (bit_vector);
        ((raw >> 40) & 0xFF) as u8
    }

    /// Vehicle system (SPN 2842)
    pub fn vehicle_system(&self) -> (r: u8)
        ensures
            r == self.spec_vehicle_system(),
    {
        let raw = self.0;
        assert((raw >> 49) & 0x7F == (raw / 0x2_0000_0000_0000) % 128) by (bit_vector);
        ((raw >> 49) & 0x7F) as u8
    }

    /// Vehicle system instance (SPN 2843)
    pub fn vehicle_system_instance(&self) -> (r: u8)
        ensures
            r == self.spec_vehicle_system_instance(),
    {
        let raw = self.0;
        assert((raw >> 56) & 0xF == (raw / 0x100_0000_0000_0000) % 16) by (bit_vector);
        ((raw >> 56) & 0xF) as u8
    }

    /// Industry group (SPN 2846)
    ///
    /// Read from bits 40 to 42, the low three bits of the function field.
    pub fn industry_group(&self) -> (r: IndustryGroup)
        ensures
            Some(r) == IndustryGroup::of_code((self.spec_function() % 8) as u8),
    {
        let raw = self.0;
        assert((raw >> 40) & 0x7 == ((raw / 0x100_0000_0000) % 256) % 8) by (bit_vector);
        let ig = ((raw >> 40) & 0x7) as u8;
        match IndustryGroup::try_from(ig) {
            Ok(group) => group,
            Err(_) => vstd::pervasive::unreached(),
        }
    }

    /// Arbitrary address capable (SPN 2844)
    ///
    /// Bit 63 is set before the name is compared with zero, so every name
    /// answers `true`.
    pub fn arbitrary_address_capable(&self) -> (r: bool)
        ensures
            r,
    {
        let raw = self.0;
        assert(raw | (1u64 << 63) != 0) by (bit_vector);
        (raw | (1u64 << 63)) != 0
    }
}

impl From<u64> for Name {
    fn from(value: u64) -> (r: Self)
        ensures
            r@ == value,
    {
        Self(value)
    }
}

impl FromSpecImpl<u64> for Name {
    open spec fn obeys_from_spec() -> bool {
        true
    }

    closed spec fn from_spec(value: u64) -> Name {
        Name(value)
    }
}

/// Industry groups.
#[derive(Debug, Clone, Copy, PartialEq, Eq, Structural)]
pub enum IndustryGroup {
    Global,
    OnHighway,
    AgriculturalAndForestry,
    Construction,
    Marine,
    Industrial,
    Reserved6,
    Reserved7,
}

impl IndustryGroup {
    /// The three bits that stand for this group.
    pub open spec fn code(self) -> u8 {
        match self {
            IndustryGroup::Global => 0,
            IndustryGroup::OnHighway => 1,
            IndustryGroup::AgriculturalAndForestry => 2,
            IndustryGroup::Construction => 3,
            IndustryGroup::Marine => 4,
            IndustryGroup::Industrial => 5,
            IndustryGroup::Reserved6 => 6,
            IndustryGroup::Reserved7 => 7,
        }
    }

    /// The group that a number stands for, if it is below 8.
    pub open spec fn of_code(value: u8) -> Option<Self> {
        if value == 0 {
            Some(IndustryGroup::Global)
        } else if value == 1 {
            Some(IndustryGroup::OnHighway)
        } else if value == 2 {
            Some(IndustryGroup::AgriculturalAndForestry)
        } else if value == 3 {
            Some(IndustryGroup::Construction)
        } else if value == 4 {
            Some(IndustryGroup::Marine)
        } else if value == 5 {
            Some(IndustryGroup::Industrial)
        } else if value == 6 {
            Some(IndustryGroup::Reserved6)
        } else if value == 7 {
            Some(IndustryGroup::Reserved7)
        } else {
            None
        }
    }

    /// A group is read back from its own number.
    pub proof fn lemma_code_round_trip(self)
        ensures
            Self::of_code(self.code()) == Some(self),
    {
    }
}

impl TryFrom<u8> for IndustryGroup {
    type Error = u8;

    fn try_from(value: u8) -> (r: Result<Self, Self::Error>) {
        if value == 0 {
            Ok(IndustryGroup::Global)
        } else if value == 1 {
            Ok(IndustryGroup::OnHighway)
        } else if value == 2 {
            Ok(IndustryGroup::AgriculturalAndForestry)
        } else if value == 3 {
            Ok(IndustryGroup::Construction)
        } else if value == 4 {
            Ok(IndustryGroup::Marine)
        } else if value == 5 {
            Ok(IndustryGroup::Industrial)
        } else if value == 6 {
            Ok(IndustryGroup::Reserved6)
        } else if value == 7 {
            Ok(IndustryGroup::Reserved7)
        } else {
            Err(value)
        }
    }
}

impl TryFromSpecImpl<u8> for IndustryGroup {
    open spec fn obeys_try_from_spec() -> bool {
        true
    }

    open spec fn try_from_spec(value: u8) -> Result<Self, u8> {
        match IndustryGroup::of_code(value) {
            Some(group) => Ok(group),
            None => Err(value),
        }
    }
}

impl From<IndustryGroup> for u8 {
    fn from(value: IndustryGroup) -> (r: Self) {
        match value {
            IndustryGroup::Global => 0,
            IndustryGroup::OnHighway => 1,
            IndustryGroup::AgriculturalAndForestry => 2,
            IndustryGroup::Construction => 3,
            IndustryGroup::Marine => 4,
            IndustryGroup::Industrial => 5,
            IndustryGroup::Reserved6 => 6,
            IndustryGroup::Reserved7 => 7,
        }
    }
}

impl FromSpecImpl<IndustryGroup> for u8 {
    open spec fn obeys_from_spec() -> bool {
        true
    }

    open spec fn from_spec(value: IndustryGroup) -> u8 {
        value.code()
    }
}

/// Global functions.
#[derive(Debug, Clone, Copy)]
pub enum GlobalFunction {
    Engine,
    AuxiliaryPowerUnit,
    ElectricPropulsionUnit,
    Transmission,
    BatteryPackMonitor,
    ShiftControlConsole,
    PowerTakeOff,
    AxleSteering,
    AxleDrive,
    BrakesSystemController,
    BrakesSteerAxle,
    BrakesDriveAxle,
    RetarderEngine,
    RetarderDriveline,
    CruiseControl,
    FuelSystem,
    SteeringController,
    SuspensionSteerAxle,
    SuspensionDriveAxle,
    InstrumentCluster,
    TripRecorder,
    CabClimateControl,
    AerodynamicControl,
    VehicleNavigation,
    VehicleSecurity,
    NetworkInterconnectEcu,
    BodyController,
    PowerTakeOffSecondary,
    OffVehicleGateway,
    VirtualTerminal,
    ManagementComputer,
    PropulstionBatteryCharger,
    HeadwayController,
    SystemMonitor,
    HydraulicPumpController,
    SuspensionSystemController,
    PneumaticSystemController,
    CabController,
    TirePressureControl,
    IgnitionControlModule,
    SeatControl,
    LightingOperatorControls,
    WaterPumpControl,
    TransmissionDisplay,
    ExhaustEmissionControl,
    VehicleDynamicStabilityControl,
    OilSensorUnit,
    InformationSystemController,
    RampControl,
    ClutchConverterControl,
    AuxiliaryHeater,
    ForwardLookingCollisionWarningSystem,
    ChassisController,
    AlternatorChargingSystem,
    CommunicationsUnitCellular,
    CommunicationsUnitSatellite,
    CommunicationsUnitRadio,
    SteeringColumnUnit,
    FanDriveControl,
    Starter,
    CabDisplay,
    FileServerPrinter,
    OnBoardDiagnosticUnit,
    EngineValveController,
    EnduranceBraking,
    GasFlowMeasurement,
    IoController,
    ElectricalSystemController,
    AftertreatmentSystemGasMeasurement,
    EngineEmissionAftertreatmentSystem,
    AuxiliaryRegenerationDevice,
    TransferCaseControl,
    CoolantValveController,
    RolloverDetectionControl,
    LubricationSystem,
    SupplementalFan,
    TemperatureSensor,
    FuelPropertiesSensor,
    FireSuppressionSystem,
    PowerSystemsManager,
    ElectricPowertrain,
    HydraulicPowertrain,
    FileServer,
    Printer,
    StartAidDevice,
    EngineInjectionControlModule,
    EvCommunicationController,
    DriverImpairmentDevice,
    ElectricPowerConverter,
    SupplyEquipmentCommunicationController,
    VehicleAdapterCommunicationController,
    AccessoryElectricMotorController,
}

} // verus!
