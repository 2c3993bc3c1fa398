//! Identification of the micro-architecture from vendor, family and model.
use vstd::prelude::*;
use crate::leaves::Vendor;

verus! {

/// A core design.
#[allow(non_camel_case_types)]
#[non_exhaustive]
#[derive(Debug, Clone, Copy, PartialEq, Eq, Structural)]
pub enum CoreArch {
    i486,
    P5,
    P6,
    NetBurst,
    Prescott,
    PentiumM,
    ModifiedPentiumM,
    Core,
    Nehalem,
    SandyBridge,
    Haswell,
    Skylake,
    SkylakeServer,
    CascadeLake,
    CooperLake,
    PalmCove,
    SunnyCove,
    WillowCove,
    CypressCove,
    GoldenCove,
    Bonnel,
    Saltwell,
    Silvermont,
    Airmont,
    Goldmont,
    GoldmontPlus,
    Tremont,
    Gracemont,
    Crestmont,
    LakeMont,
    Am486,
    EnhancedAm486,
    Am586,
    K5,
    K6,
    K6_2,
    K6III,
    K7,
    K8,
    K10,
    Bobcat,
    Jaguar,
    Puma,
    Bulldozer,
    Piledriver,
    SteamRoller,
    Excavator,
    Zen,
    ZenPlus,
    Zen2,
    Zen3,
    Zen4,
}

/// The cores of a processor: one design, or performance and efficiency cores.
#[allow(non_snake_case)]
#[non_exhaustive]
#[derive(Debug, Clone, Copy, PartialEq, Eq, Structural)]
pub enum Core {
    Homogenous(CoreArch),
    Heterogeneous { P: CoreArch, E: CoreArch },
}

/// A micro-architecture code name.
#[allow(non_camel_case_types)]
#[non_exhaustive]
#[derive(Debug, Clone, Copy, PartialEq, Eq, Structural)]
pub enum UArch {
    i486,
    P5,
    P5MMX,
    Willamette,
    Northwood,
    Prescott,
    CedarMill,
    P6PentiumPro,
    P6PentiumII,
    P6PentiumIII,
    Banias,
    Dothan,
    Tolapai,
    Yonah,
    Merom,
    Penryn,
    Nehalem,
    Westmere,
    SandyBridge,
    IvyBridge,
    IvyBridgeE,
    Haswell,
    HaswellE,
    Broadwell,
    Skylake,
    SkylakeServer,
    KabyLake,
    CascadeLake,
    CoffeeLake,
    CooperLake,
    CannonLake,
    WhiskeyLake,
    AmberLake,
    CometLake,
    IceLake,
    IceLakeServer,
    TigerLake,
    RocketLake,
    AlderLake,
    SapphireRapids,
    RaptorLake,
    EmeraldRapids,
    MeteorLake,
    Bonnel,
    Saltwell,
    Silvermont,
    Airmont,
    Goldmont,
    GoldmontPlus,
    Tremont,
    Gracemont,
    Crestmont,
    Quark,
    KnightsFerry,
    KnightsCorner,
    KnightsLanding,
    KnightsMill,
    Am486,
    EnhancedAm486,
    Am586,
    K5,
    K6,
    K6_2,
    K6III,
    K7,
    K8,
    K10,
    Bobcat,
    Jaguar,
    Puma,
    Bulldozer,
    Piledriver,
    SteamRoller,
    Excavator,
    Zen,
    HygonDhyana,
    ZenPlus,
    Zen2,
    Zen3,
    Zen4,
}

/// A vendor's micro-architecture: its cores and its code name.
#[derive(Debug, Clone, Copy, PartialEq, Eq, Structural)]
pub struct MicroArchitecture {
    pub vendor: Vendor,
    pub cores: Core,
    pub codename: UArch,
}

pub open spec fn intel_uarch(core: CoreArch, codename: UArch) -> MicroArchitecture {
    MicroArchitecture { vendor: Vendor::Intel, cores: Core::Homogenous(core), codename }
}

fn intel(core: CoreArch, codename: UArch) -> (r: MicroArchitecture)
    ensures
        r == intel_uarch(core, codename),
{
    MicroArchitecture { vendor: Vendor::Intel, cores: Core::Homogenous(core), codename }
}

/// The known Intel micro-architecture of family and model `fm`
/// (family * 0x100 + model).
pub open spec fn intel_by_family_model(fm: u16) -> Option<MicroArchitecture> {
        if fm == 0x0401 || fm == 0x0402 || fm == 0x0403 || fm == 0x0404 || fm == 0x0405 || fm == 0x0407 || fm == 0x0408 || fm == 0x0409 {
            Some(intel_uarch(CoreArch::i486, UArch::i486))
        } else if fm == 0x0501 || fm == 0x0502 {
            Some(intel_uarch(CoreArch::P5, UArch::P5))
        } else if fm == 0x0504 || fm == 0x0507 {
            Some(intel_uarch(CoreArch::P5, UArch::P5MMX))
        } else if fm == 0x0601 {
            Some(intel_uarch(CoreArch::P6, UArch::P6PentiumPro))
        } else if fm == 0x0603 || fm == 0x0605 || fm == 0x0606 {
            Some(intel_uarch(CoreArch::P6, UArch::P6PentiumII))
        } else if fm == 0x0607 || fm == 0x0608 || fm == 0x060A || fm == 0x060B {
            Some(intel_uarch(CoreArch::P6, UArch::P6PentiumIII))
        } else if fm == 0x0F00 || fm == 0x0F01 {
            Some(intel_uarch(CoreArch::NetBurst, UArch::Willamette))
        } else if fm == 0x0F02 {
            Some(intel_uarch(CoreArch::NetBurst, UArch::Northwood))
        } else if fm == 0x0F03 || fm == 0x0F04 {
            Some(intel_uarch(CoreArch::Prescott, UArch::Prescott))
        } else if fm == 0x0F06 {
            Some(intel_uarch(CoreArch::Prescott, UArch::CedarMill))
        } else {
            None
        }
}

/// The micro-architecture of a processor, from its vendor and its family and
/// model numbers; `None` when the table does not know it.
pub fn identify_micro_architecture(vendor: Vendor, family: u8, model: u8, stepping: u8) -> (r: Option<MicroArchitecture>)
    ensures
        r == match vendor {
            Vendor::Intel => intel_by_family_model((family as u16 * 0x100 + model as u16) as u16),
            _ => None,
        },
{
    let family_model: u16 = (family as u16) * 0x100 + (model as u16);
    match vendor {
        Vendor::Intel => match family_model {
            0x0401 | 0x0402 | 0x0403 | 0x0404 | 0x0405 | 0x0407 | 0x0408 | 0x0409 => Some(intel(CoreArch::i486, UArch::i486)),
            0x0501 | 0x0502 => Some(intel(CoreArch::P5, UArch::P5)),
            0x0504 | 0x0507 => Some(intel(CoreArch::P5, UArch::P5MMX)),
            0x0601 => Some(intel(CoreArch::P6, UArch::P6PentiumPro)),
            0x0603 | 0x0605 | 0x0606 => Some(intel(CoreArch::P6, UArch::P6PentiumII)),
            0x0607 | 0x0608 | 0x060A | 0x060B => Some(intel(CoreArch::P6, UArch::P6PentiumIII)),
            0x0F00 | 0x0F01 => Some(intel(CoreArch::NetBurst, UArch::Willamette)),
            0x0F02 => Some(intel(CoreArch::NetBurst, UArch::Northwood)),
            0x0F03 | 0x0F04 => Some(intel(CoreArch::Prescott, UArch::Prescott)),
            0x0F06 => Some(intel(CoreArch::Prescott, UArch::CedarMill)),
            _ => None,
        },
        _ => None,
    }
}

} // verus!
