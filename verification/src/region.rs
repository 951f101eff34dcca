//! The fixed enumeration of valid region identifiers.
//!
//! A region override given on the command line or read from a configuration
//! file must name one of these identifiers; anything else is rejected with a
//! parse error naming the offending string.

use vstd::prelude::*;

use crate::strutil::str_eq;

verus! {

/// A region of the cloud provider, one variant per valid identifier.
#[derive(Clone, Copy, Debug, PartialEq, Eq, Structural)]
pub enum Region {
    UsEast1,
    UsEast2,
    UsWest1,
    UsWest2,
    CaCentral1,
    EuWest1,
    EuWest2,
    EuCentral1,
    EuNorth1,
    ApSouth1,
    ApNortheast1,
    ApSoutheast1,
    ApSoutheast2,
    SaEast1,
}

/// The canonical identifier of each region.
pub open spec fn spec_region_name(r: Region) -> Seq<char> {
    match r {
        Region::UsEast1 => "us-east-1"@,
        Region::UsEast2 => "us-east-2"@,
        Region::UsWest1 => "us-west-1"@,
        Region::UsWest2 => "us-west-2"@,
        Region::CaCentral1 => "ca-central-1"@,
        Region::EuWest1 => "eu-west-1"@,
        Region::EuWest2 => "eu-west-2"@,
        Region::EuCentral1 => "eu-central-1"@,
        Region::EuNorth1 => "eu-north-1"@,
        Region::ApSouth1 => "ap-south-1"@,
        Region::ApNortheast1 => "ap-northeast-1"@,
        Region::ApSoutheast1 => "ap-southeast-1"@,
        Region::ApSoutheast2 => "ap-southeast-2"@,
        Region::SaEast1 => "sa-east-1"@,
    }
}

/// The region whose identifier is `s`, if any.
pub open spec fn spec_region_from_name(s: Seq<char>) -> Option<Region> {
    if s == "us-east-1"@ {
        Some(Region::UsEast1)
    } else if s == "us-east-2"@ {
        Some(Region::UsEast2)
    } else if s == "us-west-1"@ {
        Some(Region::UsWest1)
    } else if s == "us-west-2"@ {
        Some(Region::UsWest2)
    } else if s == "ca-central-1"@ {
        Some(Region::CaCentral1)
    } else if s == "eu-west-1"@ {
        Some(Region::EuWest1)
    } else if s == "eu-west-2"@ {
        Some(Region::EuWest2)
    } else if s == "eu-central-1"@ {
        Some(Region::EuCentral1)
    } else if s == "eu-north-1"@ {
        Some(Region::EuNorth1)
    } else if s == "ap-south-1"@ {
        Some(Region::ApSouth1)
    } else if s == "ap-northeast-1"@ {
        Some(Region::ApNortheast1)
    } else if s == "ap-southeast-1"@ {
        Some(Region::ApSoutheast1)
    } else if s == "ap-southeast-2"@ {
        Some(Region::ApSoutheast2)
    } else if s == "sa-east-1"@ {
        Some(Region::SaEast1)
    } else {
        None
    }
}

impl Region {
    /// Parses a region identifier against the fixed enumeration.
    pub fn from_name(s: &str) -> (r: Option<Region>)
        ensures
            r == spec_region_from_name(s@),
    {
        if str_eq(s, "us-east-1") {
            Some(Region::UsEast1)
        } else if str_eq(s, "us-east-2") {
            Some(Region::UsEast2)
        } else if str_eq(s, "us-west-1") {
            Some(Region::UsWest1)
        } else if str_eq(s, "us-west-2") {
            Some(Region::UsWest2)
        } else if str_eq(s, "ca-central-1") {
            Some(Region::CaCentral1)
        } else if str_eq(s, "eu-west-1") {
            Some(Region::EuWest1)
        } else if str_eq(s, "eu-west-2") {
            Some(Region::EuWest2)
        } else if str_eq(s, "eu-central-1") {
            Some(Region::EuCentral1)
        } else if str_eq(s, "eu-north-1") {
            Some(Region::EuNorth1)
        } else if str_eq(s, "ap-south-1") {
            Some(Region::ApSouth1)
        } else if str_eq(s, "ap-northeast-1") {
            Some(Region::ApNortheast1)
        } else if str_eq(s, "ap-southeast-1") {
            Some(Region::ApSoutheast1)
        } else if str_eq(s, "ap-southeast-2") {
            Some(Region::ApSoutheast2)
        } else if str_eq(s, "sa-east-1") {
            Some(Region::SaEast1)
        } else {
            None
        }
    }

    /// The canonical identifier of this region.
    pub fn name(&self) -> (r: String)
        ensures
            r@ == spec_region_name(*self),
    {
        match self {
            Region::UsEast1 => "us-east-1".to_owned(),
            Region::UsEast2 => "us-east-2".to_owned(),
            Region::UsWest1 => "us-west-1".to_owned(),
            Region::UsWest2 => "us-west-2".to_owned(),
            Region::CaCentral1 => "ca-central-1".to_owned(),
            Region::EuWest1 => "eu-west-1".to_owned(),
            Region::EuWest2 => "eu-west-2".to_owned(),
            Region::EuCentral1 => "eu-central-1".to_owned(),
            Region::EuNorth1 => "eu-north-1".to_owned(),
            Region::ApSouth1 => "ap-south-1".to_owned(),
            Region::ApNortheast1 => "ap-northeast-1".to_owned(),
            Region::ApSoutheast1 => "ap-southeast-1".to_owned(),
            Region::ApSoutheast2 => "ap-southeast-2".to_owned(),
            Region::SaEast1 => "sa-east-1".to_owned(),
        }
    }
}

} // verus!
