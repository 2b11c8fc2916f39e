//! Vehicle control units and modules, source addresses, and destination
//! addresses.
//!
//! The address resolver maps a raw 8-bit J1939 address to a known ECU role,
//! or reports it unknown; the reverse mapping returns the role's address.

use vstd::prelude::*;

verus! {

/// The electronic control units (ECUs) and modules commonly found in
/// automotive and heavy-duty vehicle networks.  Each variant corresponds to
/// a specific ECU or system component that communicates over the network;
/// an address with no assigned role maps to `Unknown`.
#[derive(Debug, Clone, Copy, PartialEq, Eq)]
pub enum Addr {
    PrimaryEngineController,
    SecondaryEngineController,
    PrimaryTransmissionController,
    TransmissionShiftSelector,
    Brakes,
    Retarder,
    CruiseControl,
    FuelSystem,
    SteeringController,
    InstrumentCluster,
    ClimateControl1,
    Compass,
    BodyController,
    OffVehicleGateway,
    DidVid,
    RetarderExhaustEngine1,
    HeadwayController,
    Suspension,
    CabController,
    TirePressureController,
    LightingControlModule,
    ClimateControl2,
    ExhaustEmissionController,
    AuxiliaryHeater,
    ChassisController,
    CommunicationsUnit,
    Radio,
    SafetyRestraintSystem,
    AftertreatmentControlModule,
    MultiPurposeCamera,
    SwitchExpansionModule,
    AuxillaryGaugeSwitchPack,
    Iteris,
    QualcommPeopleNetTranslatorBox,
    StandAloneRealTimeClock,
    CenterPanel1,
    CenterPanel2,
    CenterPanel3,
    CenterPanel4,
    CenterPanel5,
    WabcoOnGuardRadar,
    SecondaryInstrumentCluster,
    OffboardDiagnostics,
    Trailer3Bridge,
    Trailer2Bridge,
    Trailer1Bridge,
    SafetyDirectProcessor,
    ForwardRoadImageProcessor,
    LeftRearDoorPod,
    RightRearDoorPod,
    DoorController1,
    DoorController2,
    Tachograph,
    HybridSystem,
    AuxiliaryPowerUnit,
    ServiceTool,
    SourceAddressRequest0,
    SourceAddressRequest1,
    Unknown(u8),
}

/// The ECU role assigned to the raw address `value`, or `Unknown` when the
/// address has no assigned role.
pub open spec fn spec_addr_of(value: u8) -> Addr {
    match value {
        0 => Addr::PrimaryEngineController,
        1 => Addr::SecondaryEngineController,
        3 => Addr::PrimaryTransmissionController,
        5 => Addr::TransmissionShiftSelector,
        11 => Addr::Brakes,
        15 => Addr::Retarder,
        17 => Addr::CruiseControl,
        18 => Addr::FuelSystem,
        19 => Addr::SteeringController,
        23 => Addr::InstrumentCluster,
        25 => Addr::ClimateControl1,
        28 => Addr::Compass,
        33 => Addr::BodyController,
        37 => Addr::OffVehicleGateway,
        40 => Addr::DidVid,
        41 => Addr::RetarderExhaustEngine1,
        42 => Addr::HeadwayController,
        47 => Addr::Suspension,
        49 => Addr::CabController,
        51 => Addr::TirePressureController,
        55 => Addr::LightingControlModule,
        58 => Addr::ClimateControl2,
        61 => Addr::ExhaustEmissionController,
        69 => Addr::AuxiliaryHeater,
        71 => Addr::ChassisController,
        74 => Addr::CommunicationsUnit,
        76 => Addr::Radio,
        83 => Addr::SafetyRestraintSystem,
        85 => Addr::AftertreatmentControlModule,
        127 => Addr::MultiPurposeCamera,
        128 => Addr::SwitchExpansionModule,
        132 => Addr::AuxillaryGaugeSwitchPack,
        139 => Addr::Iteris,
        142 => Addr::QualcommPeopleNetTranslatorBox,
        150 => Addr::StandAloneRealTimeClock,
        151 => Addr::CenterPanel1,
        152 => Addr::CenterPanel2,
        153 => Addr::CenterPanel3,
        154 => Addr::CenterPanel4,
        155 => Addr::CenterPanel5,
        160 => Addr::WabcoOnGuardRadar,
        167 => Addr::SecondaryInstrumentCluster,
        172 => Addr::OffboardDiagnostics,
        184 => Addr::Trailer3Bridge,
        192 => Addr::Trailer2Bridge,
        200 => Addr::Trailer1Bridge,
        209 => Addr::SafetyDirectProcessor,
        232 => Addr::ForwardRoadImageProcessor,
        233 => Addr::LeftRearDoorPod,
        234 => Addr::RightRearDoorPod,
        236 => Addr::DoorController1,
        237 => Addr::DoorController2,
        238 => Addr::Tachograph,
        239 => Addr::HybridSystem,
        247 => Addr::AuxiliaryPowerUnit,
        249 => Addr::ServiceTool,
        254 => Addr::SourceAddressRequest0,
        255 => Addr::SourceAddressRequest1,
        a => Addr::Unknown(a),
    }
}

/// The raw address of the ECU role `value`.
pub open spec fn spec_u8_of(value: Addr) -> u8 {
    match value {
        Addr::PrimaryEngineController => 0,
        Addr::SecondaryEngineController => 1,
        Addr::PrimaryTransmissionController => 3,
        Addr::TransmissionShiftSelector => 5,
        Addr::Brakes => 11,
        Addr::Retarder => 15,
        Addr::CruiseControl => 17,
        Addr::FuelSystem => 18,
        Addr::SteeringController => 19,
        Addr::InstrumentCluster => 23,
        Addr::ClimateControl1 => 25,
        Addr::Compass => 28,
        Addr::BodyController => 33,
        Addr::OffVehicleGateway => 37,
        Addr::DidVid => 40,
        Addr::RetarderExhaustEngine1 => 41,
        Addr::HeadwayController => 42,
        Addr::Suspension => 47,
        Addr::CabController => 49,
        Addr::TirePressureController => 51,
        Addr::LightingControlModule => 55,
        Addr::ClimateControl2 => 58,
        Addr::ExhaustEmissionController => 61,
        Addr::AuxiliaryHeater => 69,
        Addr::ChassisController => 71,
        Addr::CommunicationsUnit => 74,
        Addr::Radio => 76,
        Addr::SafetyRestraintSystem => 83,
        Addr::AftertreatmentControlModule => 85,
        Addr::MultiPurposeCamera => 127,
        Addr::SwitchExpansionModule => 128,
        Addr::AuxillaryGaugeSwitchPack => 132,
        Addr::Iteris => 139,
        Addr::QualcommPeopleNetTranslatorBox => 142,
        Addr::StandAloneRealTimeClock => 150,
        Addr::CenterPanel1 => 151,
        Addr::CenterPanel2 => 152,
        Addr::CenterPanel3 => 153,
        Addr::CenterPanel4 => 154,
        Addr::CenterPanel5 => 155,
        Addr::WabcoOnGuardRadar => 160,
        Addr::SecondaryInstrumentCluster => 167,
        Addr::OffboardDiagnostics => 172,
        Addr::Trailer3Bridge => 184,
        Addr::Trailer2Bridge => 192,
        Addr::Trailer1Bridge => 200,
        Addr::SafetyDirectProcessor => 209,
        Addr::ForwardRoadImageProcessor => 232,
        Addr::LeftRearDoorPod => 233,
        Addr::RightRearDoorPod => 234,
        Addr::DoorController1 => 236,
        Addr::DoorController2 => 237,
        Addr::Tachograph => 238,
        Addr::HybridSystem => 239,
        Addr::AuxiliaryPowerUnit => 247,
        Addr::ServiceTool => 249,
        Addr::SourceAddressRequest0 => 254,
        Addr::SourceAddressRequest1 => 255,
        Addr::Unknown(a) => a,
    }
}

impl From<u8> for Addr {
    /// Resolves a raw 8-bit address to its assigned ECU role.
    fn from(value: u8) -> Self {
        match value {
            0 => Addr::PrimaryEngineController,
            1 => Addr::SecondaryEngineController,
            3 => Addr::PrimaryTransmissionController,
            5 => Addr::TransmissionShiftSelector,
            11 => Addr::Brakes,
            15 => Addr::Retarder,
            17 => Addr::CruiseControl,
            18 => Addr::FuelSystem,
            19 => Addr::SteeringController,
            23 => Addr::InstrumentCluster,
            25 => Addr::ClimateControl1,
            28 => Addr::Compass,
            33 => Addr::BodyController,
            37 => Addr::OffVehicleGateway,
            40 => Addr::DidVid,
            41 => Addr::RetarderExhaustEngine1,
            42 => Addr::HeadwayController,
            47 => Addr::Suspension,
            49 => Addr::CabController,
            51 => Addr::TirePressureController,
            55 => Addr::LightingControlModule,
            58 => Addr::ClimateControl2,
            61 => Addr::ExhaustEmissionController,
            69 => Addr::AuxiliaryHeater,
            71 => Addr::ChassisController,
            74 => Addr::CommunicationsUnit,
            76 => Addr::Radio,
            83 => Addr::SafetyRestraintSystem,
            85 => Addr::AftertreatmentControlModule,
            127 => Addr::MultiPurposeCamera,
            128 => Addr::SwitchExpansionModule,
            132 => Addr::AuxillaryGaugeSwitchPack,
            139 => Addr::Iteris,
            142 => Addr::QualcommPeopleNetTranslatorBox,
            150 => Addr::StandAloneRealTimeClock,
            151 => Addr::CenterPanel1,
            152 => Addr::CenterPanel2,
            153 => Addr::CenterPanel3,
            154 => Addr::CenterPanel4,
            155 => Addr::CenterPanel5,
            160 => Addr::WabcoOnGuardRadar,
            167 => Addr::SecondaryInstrumentCluster,
            172 => Addr::OffboardDiagnostics,
            184 => Addr::Trailer3Bridge,
            192 => Addr::Trailer2Bridge,
            200 => Addr::Trailer1Bridge,
            209 => Addr::SafetyDirectProcessor,
            232 => Addr::ForwardRoadImageProcessor,
            233 => Addr::LeftRearDoorPod,
            234 => Addr::RightRearDoorPod,
            236 => Addr::DoorController1,
            237 => Addr::DoorController2,
            238 => Addr::Tachograph,
            239 => Addr::HybridSystem,
            247 => Addr::AuxiliaryPowerUnit,
            249 => Addr::ServiceTool,
            254 => Addr::SourceAddressRequest0,
            255 => Addr::SourceAddressRequest1,
            a => Addr::Unknown(a),
        }
    }
}

impl vstd::std_specs::convert::FromSpecImpl<u8> for Addr {
    open spec fn obeys_from_spec() -> bool {
        true
    }

    open spec fn from_spec(v: u8) -> Addr {
        spec_addr_of(v)
    }
}

impl From<Addr> for u8 {
    /// Returns the raw 8-bit address assigned to an ECU role.
    fn from(value: Addr) -> Self {
        match value {
            Addr::PrimaryEngineController => 0,
            Addr::SecondaryEngineController => 1,
            Addr::PrimaryTransmissionController => 3,
            Addr::TransmissionShiftSelector => 5,
            Addr::Brakes => 11,
            Addr::Retarder => 15,
            Addr::CruiseControl => 17,
            Addr::FuelSystem => 18,
            Addr::SteeringController => 19,
            Addr::InstrumentCluster => 23,
            Addr::ClimateControl1 => 25,
            Addr::Compass => 28,
            Addr::BodyController => 33,
            Addr::OffVehicleGateway => 37,
            Addr::DidVid => 40,
            Addr::RetarderExhaustEngine1 => 41,
            Addr::HeadwayController => 42,
            Addr::Suspension => 47,
            Addr::CabController => 49,
            Addr::TirePressureController => 51,
            Addr::LightingControlModule => 55,
            Addr::ClimateControl2 => 58,
            Addr::ExhaustEmissionController => 61,
            Addr::AuxiliaryHeater => 69,
            Addr::ChassisController => 71,
            Addr::CommunicationsUnit => 74,
            Addr::Radio => 76,
            Addr::SafetyRestraintSystem => 83,
            Addr::AftertreatmentControlModule => 85,
            Addr::MultiPurposeCamera => 127,
            Addr::SwitchExpansionModule => 128,
            Addr::AuxillaryGaugeSwitchPack => 132,
            Addr::Iteris => 139,
            Addr::QualcommPeopleNetTranslatorBox => 142,
            Addr::StandAloneRealTimeClock => 150,
            Addr::CenterPanel1 => 151,
            Addr::CenterPanel2 => 152,
            Addr::CenterPanel3 => 153,
            Addr::CenterPanel4 => 154,
            Addr::CenterPanel5 => 155,
            Addr::WabcoOnGuardRadar => 160,
            Addr::SecondaryInstrumentCluster => 167,
            Addr::OffboardDiagnostics => 172,
            Addr::Trailer3Bridge => 184,
            Addr::Trailer2Bridge => 192,
            Addr::Trailer1Bridge => 200,
            Addr::SafetyDirectProcessor => 209,
            Addr::ForwardRoadImageProcessor => 232,
            Addr::LeftRearDoorPod => 233,
            Addr::RightRearDoorPod => 234,
            Addr::DoorController1 => 236,
            Addr::DoorController2 => 237,
            Addr::Tachograph => 238,
            Addr::HybridSystem => 239,
            Addr::AuxiliaryPowerUnit => 247,
            Addr::ServiceTool => 249,
            Addr::SourceAddressRequest0 => 254,
            Addr::SourceAddressRequest1 => 255,
            Addr::Unknown(a) => a,
        }
    }
}

impl vstd::std_specs::convert::FromSpecImpl<Addr> for u8 {
    open spec fn obeys_from_spec() -> bool {
        true
    }

    open spec fn from_spec(v: Addr) -> u8 {
        spec_u8_of(v)
    }
}

impl Addr {
    /// The human-readable label of the ECU role.
    pub open spec fn spec_label(self) -> Seq<char> {
        match self {
            Addr::PrimaryEngineController => "Primary Engine Controller | (CPC, ECM)"@,
            Addr::SecondaryEngineController => "Secondary Engine Controller | (MCM, ECM #2)"@,
            Addr::PrimaryTransmissionController => "Primary Transmission Controller | (TCM)"@,
            Addr::TransmissionShiftSelector => "Transmission Shift Selector | (TSS)"@,
            Addr::Brakes => "Brakes | System Controller (ABS)"@,
            Addr::Retarder => "Retarder"@,
            Addr::CruiseControl => "Cruise Control | (IPM, PCC)"@,
            Addr::FuelSystem => "Fuel System | Controller (CNG)"@,
            Addr::SteeringController => "Steering Controller | (SAS)"@,
            Addr::InstrumentCluster => "Instrument Guage Cluster (EGC) | (ICU, RX)"@,
            Addr::ClimateControl1 => "Climate Control #1 | (FCU)"@,
            Addr::Compass => "Compass"@,
            Addr::BodyController => "Body Controller | (SSAM, SAM-CAB, BHM)"@,
            Addr::OffVehicleGateway => "Off-Vehicle Gateway | (CGW)"@,
            Addr::DidVid => "Vehicle Information Display | Driver Information Display"@,
            Addr::RetarderExhaustEngine1 => "Retarder, Exhaust, Engine #1"@,
            Addr::HeadwayController => "Headway Controller | (RDF) | (OnGuard)"@,
            Addr::Suspension => "Suspension | System Controller (ECAS)"@,
            Addr::CabController => "Cab Controller | Primary (MSF, SHM, ECC)"@,
            Addr::TirePressureController => "Tire Pressure Controller | (TPMS)"@,
            Addr::LightingControlModule => "Lighting Control Module | (LCM)"@,
            Addr::ClimateControl2 => "Climate Control #2 | Rear HVAC | (ParkSmart)"@,
            Addr::ExhaustEmissionController => "Exhaust Emission Controller | (ACM) | (DCU)"@,
            Addr::AuxiliaryHeater => "Auxiliary Heater | (ACU)"@,
            Addr::ChassisController => "Chassis Controller | (CHM, SAM-Chassis)"@,
            Addr::CommunicationsUnit => "Communications Unit | Cellular (CTP, VT)"@,
            Addr::Radio => "Radio"@,
            Addr::SafetyRestraintSystem => "Safety Restraint System | Air Bag | (SRS)"@,
            Addr::AftertreatmentControlModule => "Aftertreatment Control Module | (ACM)"@,
            Addr::MultiPurposeCamera => "Multi-Purpose Camera | (MPC)"@,
            Addr::SwitchExpansionModule => "Switch Expansion Module | (SEM #1)"@,
            Addr::AuxillaryGaugeSwitchPack => "Auxiliary Gauge Switch Pack | (AGSP3)"@,
            Addr::Iteris => "Iteris"@,
            Addr::QualcommPeopleNetTranslatorBox => "Qualcomm - PeopleNet Translator Box"@,
            Addr::StandAloneRealTimeClock => "Stand-Alone Real Time Clock | (SART)"@,
            Addr::CenterPanel1 => "Center Panel MUX Switch Pack #1"@,
            Addr::CenterPanel2 => "Center Panel MUX Switch Pack #2"@,
            Addr::CenterPanel3 => "Center Panel MUX Switch Pack #3"@,
            Addr::CenterPanel4 => "Center Panel MUX Switch Pack #4"@,
            Addr::CenterPanel5 => "Center Panel MUX Switch Pack #5"@,
            Addr::WabcoOnGuardRadar => "Wabco OnGuard Radar | OnGuard Display | Collison Mitigation System"@,
            Addr::SecondaryInstrumentCluster => "Secondary Instrument Cluster | (SIC)"@,
            Addr::OffboardDiagnostics => "Offboard Diagnostics"@,
            Addr::Trailer3Bridge => "Trailer #3 Bridge"@,
            Addr::Trailer2Bridge => "Trailer #2 Bridge"@,
            Addr::Trailer1Bridge => "Trailer #1 Bridge"@,
            Addr::SafetyDirectProcessor => "Bendix Camera | Safety Direct Processor (SDP) Module"@,
            Addr::ForwardRoadImageProcessor => "Forward Road Image Processor | PAM Module | Lane Departure Warning (LDW) Module | (VRDU)"@,
            Addr::LeftRearDoorPod => "Left Rear Door Pod"@,
            Addr::RightRearDoorPod => "Right Rear Door Pod"@,
            Addr::DoorController1 => "Door Controller #1"@,
            Addr::DoorController2 => "Door Controller #2"@,
            Addr::Tachograph => "Tachograph | (TCO)"@,
            Addr::HybridSystem => "Hybrid System"@,
            Addr::AuxiliaryPowerUnit => "Auxiliary Power Unit | (APU)"@,
            Addr::ServiceTool => "Service Tool"@,
            Addr::SourceAddressRequest0 => "Source Address Request 0"@,
            Addr::SourceAddressRequest1 => "Source Address Request 1"@,
            Addr::Unknown(_) => "Unknown"@,
        }
    }

    /// Returns the human-readable label of the ECU role.
    pub fn label(&self) -> (r: String)
        ensures
            r@ == self.spec_label(),
    {
        match *self {
            Addr::PrimaryEngineController => "Primary Engine Controller | (CPC, ECM)".to_owned(),
            Addr::SecondaryEngineController => "Secondary Engine Controller | (MCM, ECM #2)".to_owned(),
            Addr::PrimaryTransmissionController => "Primary Transmission Controller | (TCM)".to_owned(),
            Addr::TransmissionShiftSelector => "Transmission Shift Selector | (TSS)".to_owned(),
            Addr::Brakes => "Brakes | System Controller (ABS)".to_owned(),
            Addr::Retarder => "Retarder".to_owned(),
            Addr::CruiseControl => "Cruise Control | (IPM, PCC)".to_owned(),
            Addr::FuelSystem => "Fuel System | Controller (CNG)".to_owned(),
            Addr::SteeringController => "Steering Controller | (SAS)".to_owned(),
            Addr::InstrumentCluster => "Instrument Guage Cluster (EGC) | (ICU, RX)".to_owned(),
            Addr::ClimateControl1 => "Climate Control #1 | (FCU)".to_owned(),
            Addr::Compass => "Compass".to_owned(),
            Addr::BodyController => "Body Controller | (SSAM, SAM-CAB, BHM)".to_owned(),
            Addr::OffVehicleGateway => "Off-Vehicle Gateway | (CGW)".to_owned(),
            Addr::DidVid => "Vehicle Information Display | Driver Information Display".to_owned(),
            Addr::RetarderExhaustEngine1 => "Retarder, Exhaust, Engine #1".to_owned(),
            Addr::HeadwayController => "Headway Controller | (RDF) | (OnGuard)".to_owned(),
            Addr::Suspension => "Suspension | System Controller (ECAS)".to_owned(),
            Addr::CabController => "Cab Controller | Primary (MSF, SHM, ECC)".to_owned(),
            Addr::TirePressureController => "Tire Pressure Controller | (TPMS)".to_owned(),
            Addr::LightingControlModule => "Lighting Control Module | (LCM)".to_owned(),
            Addr::ClimateControl2 => "Climate Control #2 | Rear HVAC | (ParkSmart)".to_owned(),
            Addr::ExhaustEmissionController => "Exhaust Emission Controller | (ACM) | (DCU)".to_owned(),
            Addr::AuxiliaryHeater => "Auxiliary Heater | (ACU)".to_owned(),
            Addr::ChassisController => "Chassis Controller | (CHM, SAM-Chassis)".to_owned(),
            Addr::CommunicationsUnit => "Communications Unit | Cellular (CTP, VT)".to_owned(),
            Addr::Radio => "Radio".to_owned(),
            Addr::SafetyRestraintSystem => "Safety Restraint System | Air Bag | (SRS)".to_owned(),
            Addr::AftertreatmentControlModule => "Aftertreatment Control Module | (ACM)".to_owned(),
            Addr::MultiPurposeCamera => "Multi-Purpose Camera | (MPC)".to_owned(),
            Addr::SwitchExpansionModule => "Switch Expansion Module | (SEM #1)".to_owned(),
            Addr::AuxillaryGaugeSwitchPack => "Auxiliary Gauge Switch Pack | (AGSP3)".to_owned(),
            Addr::Iteris => "Iteris".to_owned(),
            Addr::QualcommPeopleNetTranslatorBox => "Qualcomm - PeopleNet Translator Box".to_owned(),
            Addr::StandAloneRealTimeClock => "Stand-Alone Real Time Clock | (SART)".to_owned(),
            Addr::CenterPanel1 => "Center Panel MUX Switch Pack #1".to_owned(),
            Addr::CenterPanel2 => "Center Panel MUX Switch Pack #2".to_owned(),
            Addr::CenterPanel3 => "Center Panel MUX Switch Pack #3".to_owned(),
            Addr::CenterPanel4 => "Center Panel MUX Switch Pack #4".to_owned(),
            Addr::CenterPanel5 => "Center Panel MUX Switch Pack #5".to_owned(),
            Addr::WabcoOnGuardRadar => "Wabco OnGuard Radar | OnGuard Display | Collison Mitigation System".to_owned(),
            Addr::SecondaryInstrumentCluster => "Secondary Instrument Cluster | (SIC)".to_owned(),
            Addr::OffboardDiagnostics => "Offboard Diagnostics".to_owned(),
            Addr::Trailer3Bridge => "Trailer #3 Bridge".to_owned(),
            Addr::Trailer2Bridge => "Trailer #2 Bridge".to_owned(),
            Addr::Trailer1Bridge => "Trailer #1 Bridge".to_owned(),
            Addr::SafetyDirectProcessor => "Bendix Camera | Safety Direct Processor (SDP) Module".to_owned(),
            Addr::ForwardRoadImageProcessor => "Forward Road Image Processor | PAM Module | Lane Departure Warning (LDW) Module | (VRDU)".to_owned(),
            Addr::LeftRearDoorPod => "Left Rear Door Pod".to_owned(),
            Addr::RightRearDoorPod => "Right Rear Door Pod".to_owned(),
            Addr::DoorController1 => "Door Controller #1".to_owned(),
            Addr::DoorController2 => "Door Controller #2".to_owned(),
            Addr::Tachograph => "Tachograph | (TCO)".to_owned(),
            Addr::HybridSystem => "Hybrid System".to_owned(),
            Addr::AuxiliaryPowerUnit => "Auxiliary Power Unit | (APU)".to_owned(),
            Addr::ServiceTool => "Service Tool".to_owned(),
            Addr::SourceAddressRequest0 => "Source Address Request 0".to_owned(),
            Addr::SourceAddressRequest1 => "Source Address Request 1".to_owned(),
            Addr::Unknown(_) => "Unknown".to_owned(),
        }
    }
}

/// The source address of a J1939 identifier: present with its raw value, or
/// absent.
#[derive(Debug, Clone, Copy, PartialEq, Eq)]
pub enum SourceAddr {
    /// No source address.
    Absent,
    /// Source address with a specific value.
    Present(u8),
}

/// The destination address derived from a PGN: present with its raw value
/// for point-to-point PGNs, or absent for broadcast PGNs.
#[derive(Debug, Clone, Copy, PartialEq, Eq)]
pub enum DestinationAddr {
    /// No destination address.
    Absent,
    /// Destination address with a specific value.
    Present(u8),
}

impl SourceAddr {
    /// The resolved ECU role of a present source address.
    pub open spec fn spec_lookup(self) -> Option<Addr> {
        match self {
            SourceAddr::Present(value) => Some(spec_addr_of(value)),
            SourceAddr::Absent => None,
        }
    }

    /// Looks up the ECU role assigned to the source address.
    ///
    /// Returns `Some` with the role (possibly `Addr::Unknown`) when a source
    /// address is present, and `None` when it is absent.
    pub fn lookup(self) -> (r: Option<Addr>)
        ensures
            r == self.spec_lookup(),
    {
        match self {
            SourceAddr::Present(value) => Some(Addr::from(value)),
            SourceAddr::Absent => None,
        }
    }
}

impl DestinationAddr {
    /// The resolved ECU role of a present destination address.
    pub open spec fn spec_lookup(self) -> Option<Addr> {
        match self {
            DestinationAddr::Present(value) => Some(spec_addr_of(value)),
            DestinationAddr::Absent => None,
        }
    }

    /// Looks up the ECU role assigned to the destination address.
    ///
    /// Returns `Some` with the role (possibly `Addr::Unknown`) when a
    /// destination address is present, and `None` when it is absent.
    pub fn lookup(self) -> (r: Option<Addr>)
        ensures
            r == self.spec_lookup(),
    {
        match self {
            DestinationAddr::Present(value) => Some(Addr::from(value)),
            DestinationAddr::Absent => None,
        }
    }
}

} // verus!
