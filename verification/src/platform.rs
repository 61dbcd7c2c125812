use crate::errors::ScrapliError;
use vstd::prelude::*;
use vstd::string::StringExecFns;

verus! {

/// An enum representing the valid driver types: generic or network.
#[derive(Clone, Copy, Debug, PartialEq, Eq, Structural)]
pub enum DriverType {
    /// The "generic" flavor of driver.
    Generic,
    /// The "network" (one that knows about privilege levels) flavor of driver.
    Network,
}

impl Default for DriverType {
    fn default() -> (driver_type: Self)
        ensures
            driver_type == DriverType::Generic,
    {
        DriverType::Generic
    }
}

/// `Platform` holds the attributes that are needed to create a generic or
/// network driver for a given type of device.
pub struct Platform {
    /// The type of the platform, for example "nokia_srl" or "cisco_iosxe".
    pub platform_type: String,
    /// The driver type for the platform, either "generic" or "network".
    pub driver_type: DriverType,
}

/// `Definition` holds a platform type, its default flavor and optional
/// named variants that can be merged over the default.
pub struct Definition {
    /// The type of the platform, for example "nokia_srl" or "cisco_iosxe".
    pub platform_type: String,
    /// Default is the default/base platform definition.
    pub default: Platform,
    /// Variants are optional named variants, each with its name.
    pub variants: Vec<(String, Platform)>,
}

impl Definition {
    /// No name of a variant occurs twice.
    pub open spec fn well_formed(self) -> bool {
        forall|i: int, j: int|
            0 <= i < j < self.variants@.len() ==> (#[trigger] self.variants@[i]).0@ != (
            #[trigger] self.variants@[j]).0@
    }
}

/// The message of the error for a platform name that is not known.
pub open spec fn unknown_platform_message(platform_name: Seq<char>) -> Seq<char> {
    "unknown platform name '"@ + platform_name + "'"@
}

impl Platform {
    /// A platform of the given type, with the default driver type.
    pub fn of_type(platform_type: &str) -> (platform: Self)
        ensures
            platform.platform_type@ == platform_type@,
            platform.driver_type == DriverType::Generic,
    {
        Platform { platform_type: platform_type.to_owned(), driver_type: DriverType::default() }
    }

    /// The error for a platform name that is not known.
    pub fn unknown(platform_name: &str) -> (e: ScrapliError)
        ensures
            e.details@ == unknown_platform_message(platform_name@),
    {
        let mut details = String::from_str("unknown platform name '");
        details.append(platform_name);
        details.append("'");
        ScrapliError { details }
    }
}

} // verus!
