//! The card packs an item can come from.

use crate::text::same_text;
use vstd::prelude::*;

verus! {

#[derive(Clone, Copy, Debug, PartialEq, Eq, Hash, Structural)]
pub enum PackId {
    Core,
    DooleyCore,
    DooleyDooltron,
    MakCore,
    MakDangerousExperiments,
    PygFrozenAssets,
    PygInvestmentOpportunities,
    PygmalienCore,
    JulesCore,
    StelleCore,
    VanessaCore,
    VanessaMysteriesOfTheDeep,
    VanessaTheGang,
}

impl PackId {
    /// The value that a name stands for, written as in the data files.
    pub open spec fn of_name(name: Seq<char>) -> Option<PackId> {
        if name == "Core"@ {
            Some(PackId::Core)
        } else if name == "DooleyCore"@ {
            Some(PackId::DooleyCore)
        } else if name == "DooleyDooltron"@ {
            Some(PackId::DooleyDooltron)
        } else if name == "MakCore"@ {
            Some(PackId::MakCore)
        } else if name == "MakDangerousExperiments"@ {
            Some(PackId::MakDangerousExperiments)
        } else if name == "PygFrozenAssets"@ {
            Some(PackId::PygFrozenAssets)
        } else if name == "PygInvestmentOpportunities"@ {
            Some(PackId::PygInvestmentOpportunities)
        } else if name == "PygmalienCore"@ {
            Some(PackId::PygmalienCore)
        } else if name == "JulesCore"@ {
            Some(PackId::JulesCore)
        } else if name == "StelleCore"@ {
            Some(PackId::StelleCore)
        } else if name == "VanessaCore"@ {
            Some(PackId::VanessaCore)
        } else if name == "VanessaMysteriesOfTheDeep"@ {
            Some(PackId::VanessaMysteriesOfTheDeep)
        } else if name == "VanessaTheGang"@ {
            Some(PackId::VanessaTheGang)
        } else {
            None
        }
    }

    /// Reads the value from its name, written as in the data files.
    pub fn from_name(name: &str) -> (value: Option<PackId>)
        ensures
            value == PackId::of_name(name@),
    {
        if same_text(name, "Core") {
            Some(PackId::Core)
        } else if same_text(name, "DooleyCore") {
            Some(PackId::DooleyCore)
        } else if same_text(name, "DooleyDooltron") {
            Some(PackId::DooleyDooltron)
        } else if same_text(name, "MakCore") {
            Some(PackId::MakCore)
        } else if same_text(name, "MakDangerousExperiments") {
            Some(PackId::MakDangerousExperiments)
        } else if same_text(name, "PygFrozenAssets") {
            Some(PackId::PygFrozenAssets)
        } else if same_text(name, "PygInvestmentOpportunities") {
            Some(PackId::PygInvestmentOpportunities)
        } else if same_text(name, "PygmalienCore") {
            Some(PackId::PygmalienCore)
        } else if same_text(name, "JulesCore") {
            Some(PackId::JulesCore)
        } else if same_text(name, "StelleCore") {
            Some(PackId::StelleCore)
        } else if same_text(name, "VanessaCore") {
            Some(PackId::VanessaCore)
        } else if same_text(name, "VanessaMysteriesOfTheDeep") {
            Some(PackId::VanessaMysteriesOfTheDeep)
        } else if same_text(name, "VanessaTheGang") {
            Some(PackId::VanessaTheGang)
        } else {
            None
        }
    }
}

} // verus!
