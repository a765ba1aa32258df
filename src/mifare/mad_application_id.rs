//! Application identifiers (AIDs) of the MIFARE Application Directory.
use vstd::prelude::*;

verus! {

/// Function cluster codes of the MIFARE Application Directory: the industry category held in
/// the high byte of an application identifier (NXP application note AN10787).
#[derive(Debug, Clone, Copy, PartialEq, Eq, Structural)]
pub enum FunctionCluster {
    MiscellaneousApplications01,
    MiscellaneousApplications02,
    MiscellaneousApplications03,
    MiscellaneousApplications04,
    MiscellaneousApplications05,
    MiscellaneousApplications06,
    MiscellaneousApplications07,
    Airlines,
    FerryTraffic,
    RailwayServices,
    MiscellaneousApplications11,
    Transport,
    SecuritySolutions,
    CityTraffic,
    CzechRailways,
    BusServices,
    MultiModalTransit,
    Taxi,
    RoadToll,
    GenericTransport,
    CompanyServices,
    CityCardServices,
    AccessControlSecurity47,
    AccessControlSecurity48,
    Vigik,
    MinistryOfDefenceNl,
    BoschTelecomDe,
    EuInstitutions,
    SkiTicketing,
    AccessControlSecurity51,
    AccessControlSecurity52,
    AccessControlSecurity53,
    AccessControlSecurity54,
    SoaaStandardOfflineAccess,
    AcademicServices,
    Food,
    NonFoodTrade,
    Hotel,
    Loyalty,
    AirportServices,
    CarRental,
    DutchGovernment,
    AdministrationServices,
    ElectronicPurse,
    Television,
    CruiseShip,
    Iopta,
    Metering,
    Telephone,
    HealthServices,
    Warehouse,
    ElectronicTrade,
    Banking,
    EntertainmentSports,
    CarParking,
    FleetManagement,
    FuelGasoline,
    InfoServices,
    Press,
    NfcForum,
    Computer,
    Mail,
    MiscellaneousApplicationsF8,
    MiscellaneousApplicationsF9,
    MiscellaneousApplicationsFA,
    MiscellaneousApplicationsFB,
    MiscellaneousApplicationsFC,
    MiscellaneousApplicationsFD,
    MiscellaneousApplicationsFE,
    MiscellaneousApplicationsFF,
}

/// The function cluster whose code is `b`; `b` is a function cluster code exactly when
/// `cluster_of(b).value() == b`.
pub open spec fn cluster_of(b: u8) -> FunctionCluster {
    match b {
            0x01 => FunctionCluster::MiscellaneousApplications01,
            0x02 => FunctionCluster::MiscellaneousApplications02,
            0x03 => FunctionCluster::MiscellaneousApplications03,
            0x04 => FunctionCluster::MiscellaneousApplications04,
            0x05 => FunctionCluster::MiscellaneousApplications05,
            0x06 => FunctionCluster::MiscellaneousApplications06,
            0x07 => FunctionCluster::MiscellaneousApplications07,
            0x08 => FunctionCluster::Airlines,
            0x09 => FunctionCluster::FerryTraffic,
            0x10 => FunctionCluster::RailwayServices,
            0x11 => FunctionCluster::MiscellaneousApplications11,
            0x12 => FunctionCluster::Transport,
            0x14 => FunctionCluster::SecuritySolutions,
            0x18 => FunctionCluster::CityTraffic,
            0x19 => FunctionCluster::CzechRailways,
            0x20 => FunctionCluster::BusServices,
            0x21 => FunctionCluster::MultiModalTransit,
            0x28 => FunctionCluster::Taxi,
            0x30 => FunctionCluster::RoadToll,
            0x31 => FunctionCluster::GenericTransport,
            0x38 => FunctionCluster::CompanyServices,
            0x40 => FunctionCluster::CityCardServices,
            0x47 => FunctionCluster::AccessControlSecurity47,
            0x48 => FunctionCluster::AccessControlSecurity48,
            0x49 => FunctionCluster::Vigik,
            0x4A => FunctionCluster::MinistryOfDefenceNl,
            0x4B => FunctionCluster::BoschTelecomDe,
            0x4C => FunctionCluster::EuInstitutions,
            0x50 => FunctionCluster::SkiTicketing,
            0x51 => FunctionCluster::AccessControlSecurity51,
            0x52 => FunctionCluster::AccessControlSecurity52,
            0x53 => FunctionCluster::AccessControlSecurity53,
            0x54 => FunctionCluster::AccessControlSecurity54,
            0x55 => FunctionCluster::SoaaStandardOfflineAccess,
            0x58 => FunctionCluster::AcademicServices,
            0x60 => FunctionCluster::Food,
            0x68 => FunctionCluster::NonFoodTrade,
            0x70 => FunctionCluster::Hotel,
            0x71 => FunctionCluster::Loyalty,
            0x75 => FunctionCluster::AirportServices,
            0x78 => FunctionCluster::CarRental,
            0x79 => FunctionCluster::DutchGovernment,
            0x80 => FunctionCluster::AdministrationServices,
            0x88 => FunctionCluster::ElectronicPurse,
            0x90 => FunctionCluster::Television,
            0x91 => FunctionCluster::CruiseShip,
            0x95 => FunctionCluster::Iopta,
            0x97 => FunctionCluster::Metering,
            0x98 => FunctionCluster::Telephone,
            0xA0 => FunctionCluster::HealthServices,
            0xA8 => FunctionCluster::Warehouse,
            0xB0 => FunctionCluster::ElectronicTrade,
            0xB8 => FunctionCluster::Banking,
            0xC0 => FunctionCluster::EntertainmentSports,
            0xC8 => FunctionCluster::CarParking,
            0xC9 => FunctionCluster::FleetManagement,
            0xD0 => FunctionCluster::FuelGasoline,
            0xD8 => FunctionCluster::InfoServices,
            0xE0 => FunctionCluster::Press,
            0xE1 => FunctionCluster::NfcForum,
            0xE8 => FunctionCluster::Computer,
            0xF0 => FunctionCluster::Mail,
            0xF8 => FunctionCluster::MiscellaneousApplicationsF8,
            0xF9 => FunctionCluster::MiscellaneousApplicationsF9,
            0xFA => FunctionCluster::MiscellaneousApplicationsFA,
            0xFB => FunctionCluster::MiscellaneousApplicationsFB,
            0xFC => FunctionCluster::MiscellaneousApplicationsFC,
            0xFD => FunctionCluster::MiscellaneousApplicationsFD,
            0xFE => FunctionCluster::MiscellaneousApplicationsFE,
            0xFF => FunctionCluster::MiscellaneousApplicationsFF,
            _ => FunctionCluster::MiscellaneousApplications01,
    }
}

/// Whether `b` is the code of a standard function cluster.
pub open spec fn is_function_cluster(b: u8) -> bool {
    cluster_of(b).value() == b
}

impl FunctionCluster {
    /// The cluster code.
    pub open spec fn value(self) -> u8 {
        match self {
            FunctionCluster::MiscellaneousApplications01 => 0x01,
            FunctionCluster::MiscellaneousApplications02 => 0x02,
            FunctionCluster::MiscellaneousApplications03 => 0x03,
            FunctionCluster::MiscellaneousApplications04 => 0x04,
            FunctionCluster::MiscellaneousApplications05 => 0x05,
            FunctionCluster::MiscellaneousApplications06 => 0x06,
            FunctionCluster::MiscellaneousApplications07 => 0x07,
            FunctionCluster::Airlines => 0x08,
            FunctionCluster::FerryTraffic => 0x09,
            FunctionCluster::RailwayServices => 0x10,
            FunctionCluster::MiscellaneousApplications11 => 0x11,
            FunctionCluster::Transport => 0x12,
            FunctionCluster::SecuritySolutions => 0x14,
            FunctionCluster::CityTraffic => 0x18,
            FunctionCluster::CzechRailways => 0x19,
            FunctionCluster::BusServices => 0x20,
            FunctionCluster::MultiModalTransit => 0x21,
            FunctionCluster::Taxi => 0x28,
            FunctionCluster::RoadToll => 0x30,
            FunctionCluster::GenericTransport => 0x31,
            FunctionCluster::CompanyServices => 0x38,
            FunctionCluster::CityCardServices => 0x40,
            FunctionCluster::AccessControlSecurity47 => 0x47,
            FunctionCluster::AccessControlSecurity48 => 0x48,
            FunctionCluster::Vigik => 0x49,
            FunctionCluster::MinistryOfDefenceNl => 0x4A,
            FunctionCluster::BoschTelecomDe => 0x4B,
            FunctionCluster::EuInstitutions => 0x4C,
            FunctionCluster::SkiTicketing => 0x50,
            FunctionCluster::AccessControlSecurity51 => 0x51,
            FunctionCluster::AccessControlSecurity52 => 0x52,
            FunctionCluster::AccessControlSecurity53 => 0x53,
            FunctionCluster::AccessControlSecurity54 => 0x54,
            FunctionCluster::SoaaStandardOfflineAccess => 0x55,
            FunctionCluster::AcademicServices => 0x58,
            FunctionCluster::Food => 0x60,
            FunctionCluster::NonFoodTrade => 0x68,
            FunctionCluster::Hotel => 0x70,
            FunctionCluster::Loyalty => 0x71,
            FunctionCluster::AirportServices => 0x75,
            FunctionCluster::CarRental => 0x78,
            FunctionCluster::DutchGovernment => 0x79,
            FunctionCluster::AdministrationServices => 0x80,
            FunctionCluster::ElectronicPurse => 0x88,
            FunctionCluster::Television => 0x90,
            FunctionCluster::CruiseShip => 0x91,
            FunctionCluster::Iopta => 0x95,
            FunctionCluster::Metering => 0x97,
            FunctionCluster::Telephone => 0x98,
            FunctionCluster::HealthServices => 0xA0,
            FunctionCluster::Warehouse => 0xA8,
            FunctionCluster::ElectronicTrade => 0xB0,
            FunctionCluster::Banking => 0xB8,
            FunctionCluster::EntertainmentSports => 0xC0,
            FunctionCluster::CarParking => 0xC8,
            FunctionCluster::FleetManagement => 0xC9,
            FunctionCluster::FuelGasoline => 0xD0,
            FunctionCluster::InfoServices => 0xD8,
            FunctionCluster::Press => 0xE0,
            FunctionCluster::NfcForum => 0xE1,
            FunctionCluster::Computer => 0xE8,
            FunctionCluster::Mail => 0xF0,
            FunctionCluster::MiscellaneousApplicationsF8 => 0xF8,
            FunctionCluster::MiscellaneousApplicationsF9 => 0xF9,
            FunctionCluster::MiscellaneousApplicationsFA => 0xFA,
            FunctionCluster::MiscellaneousApplicationsFB => 0xFB,
            FunctionCluster::MiscellaneousApplicationsFC => 0xFC,
            FunctionCluster::MiscellaneousApplicationsFD => 0xFD,
            FunctionCluster::MiscellaneousApplicationsFE => 0xFE,
            FunctionCluster::MiscellaneousApplicationsFF => 0xFF,
        }
    }

    /// A cluster is the one its code names.
    pub proof fn lemma_cluster_of_value(self)
        ensures
            cluster_of(self.value()) == self,
            self.value() != 0,
    {
    }

    /// The cluster code.
    pub fn to_u8(&self) -> (r: u8)
        ensures
            r == self.value(),
    {
        match *self {
            FunctionCluster::MiscellaneousApplications01 => 0x01,
            FunctionCluster::MiscellaneousApplications02 => 0x02,
            FunctionCluster::MiscellaneousApplications03 => 0x03,
            FunctionCluster::MiscellaneousApplications04 => 0x04,
            FunctionCluster::MiscellaneousApplications05 => 0x05,
            FunctionCluster::MiscellaneousApplications06 => 0x06,
            FunctionCluster::MiscellaneousApplications07 => 0x07,
            FunctionCluster::Airlines => 0x08,
            FunctionCluster::FerryTraffic => 0x09,
            FunctionCluster::RailwayServices => 0x10,
            FunctionCluster::MiscellaneousApplications11 => 0x11,
            FunctionCluster::Transport => 0x12,
            FunctionCluster::SecuritySolutions => 0x14,
            FunctionCluster::CityTraffic => 0x18,
            FunctionCluster::CzechRailways => 0x19,
            FunctionCluster::BusServices => 0x20,
            FunctionCluster::MultiModalTransit => 0x21,
            FunctionCluster::Taxi => 0x28,
            FunctionCluster::RoadToll => 0x30,
            FunctionCluster::GenericTransport => 0x31,
            FunctionCluster::CompanyServices => 0x38,
            FunctionCluster::CityCardServices => 0x40,
            FunctionCluster::AccessControlSecurity47 => 0x47,
            FunctionCluster::AccessControlSecurity48 => 0x48,
            FunctionCluster::Vigik => 0x49,
            FunctionCluster::MinistryOfDefenceNl => 0x4A,
            FunctionCluster::BoschTelecomDe => 0x4B,
            FunctionCluster::EuInstitutions => 0x4C,
            FunctionCluster::SkiTicketing => 0x50,
            FunctionCluster::AccessControlSecurity51 => 0x51,
            FunctionCluster::AccessControlSecurity52 => 0x52,
            FunctionCluster::AccessControlSecurity53 => 0x53,
            FunctionCluster::AccessControlSecurity54 => 0x54,
            FunctionCluster::SoaaStandardOfflineAccess => 0x55,
            FunctionCluster::AcademicServices => 0x58,
            FunctionCluster::Food => 0x60,
            FunctionCluster::NonFoodTrade => 0x68,
            FunctionCluster::Hotel => 0x70,
            FunctionCluster::Loyalty => 0x71,
            FunctionCluster::AirportServices => 0x75,
            FunctionCluster::CarRental => 0x78,
            FunctionCluster::DutchGovernment => 0x79,
            FunctionCluster::AdministrationServices => 0x80,
            FunctionCluster::ElectronicPurse => 0x88,
            FunctionCluster::Television => 0x90,
            FunctionCluster::CruiseShip => 0x91,
            FunctionCluster::Iopta => 0x95,
            FunctionCluster::Metering => 0x97,
            FunctionCluster::Telephone => 0x98,
            FunctionCluster::HealthServices => 0xA0,
            FunctionCluster::Warehouse => 0xA8,
            FunctionCluster::ElectronicTrade => 0xB0,
            FunctionCluster::Banking => 0xB8,
            FunctionCluster::EntertainmentSports => 0xC0,
            FunctionCluster::CarParking => 0xC8,
            FunctionCluster::FleetManagement => 0xC9,
            FunctionCluster::FuelGasoline => 0xD0,
            FunctionCluster::InfoServices => 0xD8,
            FunctionCluster::Press => 0xE0,
            FunctionCluster::NfcForum => 0xE1,
            FunctionCluster::Computer => 0xE8,
            FunctionCluster::Mail => 0xF0,
            FunctionCluster::MiscellaneousApplicationsF8 => 0xF8,
            FunctionCluster::MiscellaneousApplicationsF9 => 0xF9,
            FunctionCluster::MiscellaneousApplicationsFA => 0xFA,
            FunctionCluster::MiscellaneousApplicationsFB => 0xFB,
            FunctionCluster::MiscellaneousApplicationsFC => 0xFC,
            FunctionCluster::MiscellaneousApplicationsFD => 0xFD,
            FunctionCluster::MiscellaneousApplicationsFE => 0xFE,
            FunctionCluster::MiscellaneousApplicationsFF => 0xFF,
        }
    }

    /// The cluster whose code is `value`.
    pub fn try_from(value: u8) -> (r: Result<FunctionCluster, MadAidError>)
        ensures
            r == (if is_function_cluster(value) {
                Ok(cluster_of(value))
            } else {
                Err(MadAidError::InvalidFunctionCluster(value))
            }),
    {
        match value {
            0x01 => Ok(FunctionCluster::MiscellaneousApplications01),
            0x02 => Ok(FunctionCluster::MiscellaneousApplications02),
            0x03 => Ok(FunctionCluster::MiscellaneousApplications03),
            0x04 => Ok(FunctionCluster::MiscellaneousApplications04),
            0x05 => Ok(FunctionCluster::MiscellaneousApplications05),
            0x06 => Ok(FunctionCluster::MiscellaneousApplications06),
            0x07 => Ok(FunctionCluster::MiscellaneousApplications07),
            0x08 => Ok(FunctionCluster::Airlines),
            0x09 => Ok(FunctionCluster::FerryTraffic),
            0x10 => Ok(FunctionCluster::RailwayServices),
            0x11 => Ok(FunctionCluster::MiscellaneousApplications11),
            0x12 => Ok(FunctionCluster::Transport),
            0x14 => Ok(FunctionCluster::SecuritySolutions),
            0x18 => Ok(FunctionCluster::CityTraffic),
            0x19 => Ok(FunctionCluster::CzechRailways),
            0x20 => Ok(FunctionCluster::BusServices),
            0x21 => Ok(FunctionCluster::MultiModalTransit),
            0x28 => Ok(FunctionCluster::Taxi),
            0x30 => Ok(FunctionCluster::RoadToll),
            0x31 => Ok(FunctionCluster::GenericTransport),
            0x38 => Ok(FunctionCluster::CompanyServices),
            0x40 => Ok(FunctionCluster::CityCardServices),
            0x47 => Ok(FunctionCluster::AccessControlSecurity47),
            0x48 => Ok(FunctionCluster::AccessControlSecurity48),
            0x49 => Ok(FunctionCluster::Vigik),
            0x4A => Ok(FunctionCluster::MinistryOfDefenceNl),
            0x4B => Ok(FunctionCluster::BoschTelecomDe),
            0x4C => Ok(FunctionCluster::EuInstitutions),
            0x50 => Ok(FunctionCluster::SkiTicketing),
            0x51 => Ok(FunctionCluster::AccessControlSecurity51),
            0x52 => Ok(FunctionCluster::AccessControlSecurity52),
            0x53 => Ok(FunctionCluster::AccessControlSecurity53),
            0x54 => Ok(FunctionCluster::AccessControlSecurity54),
            0x55 => Ok(FunctionCluster::SoaaStandardOfflineAccess),
            0x58 => Ok(FunctionCluster::AcademicServices),
            0x60 => Ok(FunctionCluster::Food),
            0x68 => Ok(FunctionCluster::NonFoodTrade),
            0x70 => Ok(FunctionCluster::Hotel),
            0x71 => Ok(FunctionCluster::Loyalty),
            0x75 => Ok(FunctionCluster::AirportServices),
            0x78 => Ok(FunctionCluster::CarRental),
            0x79 => Ok(FunctionCluster::DutchGovernment),
            0x80 => Ok(FunctionCluster::AdministrationServices),
            0x88 => Ok(FunctionCluster::ElectronicPurse),
            0x90 => Ok(FunctionCluster::Television),
            0x91 => Ok(FunctionCluster::CruiseShip),
            0x95 => Ok(FunctionCluster::Iopta),
            0x97 => Ok(FunctionCluster::Metering),
            0x98 => Ok(FunctionCluster::Telephone),
            0xA0 => Ok(FunctionCluster::HealthServices),
            0xA8 => Ok(FunctionCluster::Warehouse),
            0xB0 => Ok(FunctionCluster::ElectronicTrade),
            0xB8 => Ok(FunctionCluster::Banking),
            0xC0 => Ok(FunctionCluster::EntertainmentSports),
            0xC8 => Ok(FunctionCluster::CarParking),
            0xC9 => Ok(FunctionCluster::FleetManagement),
            0xD0 => Ok(FunctionCluster::FuelGasoline),
            0xD8 => Ok(FunctionCluster::InfoServices),
            0xE0 => Ok(FunctionCluster::Press),
            0xE1 => Ok(FunctionCluster::NfcForum),
            0xE8 => Ok(FunctionCluster::Computer),
            0xF0 => Ok(FunctionCluster::Mail),
            0xF8 => Ok(FunctionCluster::MiscellaneousApplicationsF8),
            0xF9 => Ok(FunctionCluster::MiscellaneousApplicationsF9),
            0xFA => Ok(FunctionCluster::MiscellaneousApplicationsFA),
            0xFB => Ok(FunctionCluster::MiscellaneousApplicationsFB),
            0xFC => Ok(FunctionCluster::MiscellaneousApplicationsFC),
            0xFD => Ok(FunctionCluster::MiscellaneousApplicationsFD),
            0xFE => Ok(FunctionCluster::MiscellaneousApplicationsFE),
            0xFF => Ok(FunctionCluster::MiscellaneousApplicationsFF),
            _ => Err(MadAidError::InvalidFunctionCluster(value)),
        }
    }
}

/// Meaning of an application identifier whose function cluster byte is zero.
#[derive(Debug, Clone, Copy, PartialEq, Eq, Structural)]
pub enum AdministrationCode {
    Free,
    Defect,
    Reserved,
    AdditionalDirectoryInfo,
    CardholderInfo,
    NotApplicable,
}

/// The administration code numbered `b`, for `b` in 0..=5.
pub open spec fn admin_of(b: u8) -> AdministrationCode {
    match b {
        0 => AdministrationCode::Free,
        1 => AdministrationCode::Defect,
        2 => AdministrationCode::Reserved,
        3 => AdministrationCode::AdditionalDirectoryInfo,
        4 => AdministrationCode::CardholderInfo,
        _ => AdministrationCode::NotApplicable,
    }
}

impl AdministrationCode {
    /// The code number.
    pub open spec fn value(self) -> u8 {
        match self {
            AdministrationCode::Free => 0,
            AdministrationCode::Defect => 1,
            AdministrationCode::Reserved => 2,
            AdministrationCode::AdditionalDirectoryInfo => 3,
            AdministrationCode::CardholderInfo => 4,
            AdministrationCode::NotApplicable => 5,
        }
    }

    /// The code number.
    pub fn to_u8(&self) -> (r: u8)
        ensures
            r == self.value(),
    {
        match *self {
            AdministrationCode::Free => 0,
            AdministrationCode::Defect => 1,
            AdministrationCode::Reserved => 2,
            AdministrationCode::AdditionalDirectoryInfo => 3,
            AdministrationCode::CardholderInfo => 4,
            AdministrationCode::NotApplicable => 5,
        }
    }

    /// The administration code numbered `value`; codes are numbered 0 to 5.
    pub fn try_from(value: u8) -> (r: Result<AdministrationCode, MadAidError>)
        ensures
            r == (if value <= 5 {
                Ok(admin_of(value))
            } else {
                Err(MadAidError::InvalidAdministrationCode(value))
            }),
    {
        match value {
            0 => Ok(AdministrationCode::Free),
            1 => Ok(AdministrationCode::Defect),
            2 => Ok(AdministrationCode::Reserved),
            3 => Ok(AdministrationCode::AdditionalDirectoryInfo),
            4 => Ok(AdministrationCode::CardholderInfo),
            5 => Ok(AdministrationCode::NotApplicable),
            _ => Err(MadAidError::InvalidAdministrationCode(value)),
        }
    }
}

/// An application identifier: the owner of one sector.
#[derive(Debug, Copy, Clone, PartialEq, Eq, Structural)]
pub enum MadAid {
    /// Function cluster byte zero: an administration code.
    CardAdministration(AdministrationCode),
    /// A standard function cluster and an application code.
    Application(FunctionCluster, u8),
    /// A function cluster byte that names no standard cluster, and an application code.
    Reserved(u8, u8),
}

/// The identifier of a sector that no application owns.
pub open spec fn free_aid() -> MadAid {
    MadAid::CardAdministration(AdministrationCode::Free)
}

/// The identifier whose function cluster byte is `function_cluster` and whose application code
/// is `application_value`, or why there is none.
pub open spec fn aid_from_bytes(function_cluster: u8, application_value: u8) -> Result<
    MadAid,
    MadAidError,
> {
    if function_cluster == 0 {
        if application_value <= 5 {
            Ok(MadAid::CardAdministration(admin_of(application_value)))
        } else {
            Err(MadAidError::InvalidAdministrationCode(application_value))
        }
    } else if is_function_cluster(function_cluster) {
        Ok(MadAid::Application(cluster_of(function_cluster), application_value))
    } else {
        Ok(MadAid::Reserved(function_cluster, application_value))
    }
}

impl MadAid {
    /// The function cluster byte and the application code.
    pub open spec fn bytes(self) -> (u8, u8) {
        match self {
            MadAid::CardAdministration(c) => (0, c.value()),
            MadAid::Application(f, a) => (f.value(), a),
            MadAid::Reserved(f, a) => (f, a),
        }
    }

    /// The 16-bit value: function cluster byte times 256 plus application code.
    pub open spec fn value(self) -> u16 {
        (self.bytes().0 as int * 256 + self.bytes().1 as int) as u16
    }

    /// A reserved identifier carries a cluster byte that is neither zero nor a standard cluster.
    pub open spec fn wf(self) -> bool {
        match self {
            MadAid::Reserved(f, _) => f != 0 && !is_function_cluster(f),
            _ => true,
        }
    }

    /// Decoding the bytes of a well-formed identifier gives it back.
    pub proof fn lemma_bytes_round_trip(self)
        requires
            self.wf(),
        ensures
            aid_from_bytes(self.bytes().0, self.bytes().1) == Ok::<MadAid, MadAidError>(self),
    {
        match self {
            MadAid::Application(f, _) => f.lemma_cluster_of_value(),
            _ => {},
        }
    }

    /// What decoding gives is well formed and has the bytes it was decoded from.
    pub proof fn lemma_from_bytes(function_cluster: u8, application_value: u8)
        ensures
            aid_from_bytes(function_cluster, application_value) matches Ok(a) ==> a.wf()
                && a.bytes() == (function_cluster, application_value),
    {
    }

    /// The identifier with function cluster byte `function_cluster` and application code
    /// `application_value`.
    pub fn try_from_u8(function_cluster: u8, application_value: u8) -> (r: Result<
        Self,
        MadAidError,
    >)
        ensures
            r == aid_from_bytes(function_cluster, application_value),
    {
        if function_cluster == 0 {
            match AdministrationCode::try_from(application_value) {
                Ok(code) => Ok(MadAid::CardAdministration(code)),
                Err(e) => Err(e),
            }
        } else {
            match FunctionCluster::try_from(function_cluster) {
                Ok(fc) => Ok(MadAid::Application(fc, application_value)),
                Err(_) => Ok(MadAid::Reserved(function_cluster, application_value)),
            }
        }
    }

    /// The identifier whose 16-bit value is `value`.
    pub fn try_from_u16(value: u16) -> (r: Result<Self, MadAidError>)
        ensures
            r == aid_from_bytes((value / 256) as u8, (value % 256) as u8),
    {
        let function_cluster = (value / 256) as u8;
        let application_value = (value % 256) as u8;
        Self::try_from_u8(function_cluster, application_value)
    }

    /// The 16-bit value of this identifier.
    pub fn to_u16(&self) -> (r: u16)
        ensures
            r == self.value(),
            r as int == self.bytes().0 as int * 256 + self.bytes().1 as int,
    {
        let bytes = self.to_u8_slice();
        (bytes[0] as u16) * 256 + (bytes[1] as u16)
    }

    /// The function cluster byte, then the application code.
    pub fn to_u8_slice(&self) -> (r: [u8; 2])
        ensures
            r@ == seq![self.bytes().0, self.bytes().1],
    {
        let r = match *self {
            MadAid::CardAdministration(code) => [0, code.to_u8()],
            MadAid::Application(fc, app) => [fc.to_u8(), app],
            MadAid::Reserved(fc, app) => [fc, app],
        };
        assert(r@ =~= seq![self.bytes().0, self.bytes().1]);
        r
    }
}

/// Why a byte pair is no application identifier.
#[derive(Debug, Clone, Copy, PartialEq, Eq, Structural)]
pub enum MadAidError {
    InvalidFunctionCluster(u8),
    InvalidAdministrationCode(u8),
}

} // verus!
