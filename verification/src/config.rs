//! The effective invocation parameters: command-line overrides merged with
//! defaults into one immutable parameter set.
//!
//! The two file paths default to `<home>/.aws/config` and
//! `<home>/.aws/credentials`; where a default is needed and no home
//! directory is known, resolution fails with a configuration error. A region
//! override must name a valid region and fails with a parse error naming the
//! offending string otherwise. Every other field passes through unvalidated.

use vstd::prelude::*;

use crate::error::Error;
use crate::region::Region;
use crate::region::spec_region_from_name;
use crate::strutil::clone_opt_string;

verus! {

/// The raw command-line overrides, each optional and unparsed.
pub struct RawArgs {
    pub config: Option<String>,
    pub credentials: Option<String>,
    pub profile: Option<String>,
    pub role: Option<String>,
    pub region: Option<String>,
    pub name: Option<String>,
    pub serial_number: Option<String>,
    pub token_code: Option<String>,
}

/// The mathematical model of the raw overrides.
pub ghost struct RawArgsModel {
    pub config: Option<Seq<char>>,
    pub credentials: Option<Seq<char>>,
    pub profile: Option<Seq<char>>,
    pub role: Option<Seq<char>>,
    pub region: Option<Seq<char>>,
    pub name: Option<Seq<char>>,
    pub serial_number: Option<Seq<char>>,
    pub token_code: Option<Seq<char>>,
}

impl View for RawArgs {
    type V = RawArgsModel;

    open spec fn view(&self) -> RawArgsModel {
        RawArgsModel {
            config: self.config.deep_view(),
            credentials: self.credentials.deep_view(),
            profile: self.profile.deep_view(),
            role: self.role.deep_view(),
            region: self.region.deep_view(),
            name: self.name.deep_view(),
            serial_number: self.serial_number.deep_view(),
            token_code: self.token_code.deep_view(),
        }
    }
}

/// The resolved invocation parameters.
#[derive(Debug, PartialEq, Eq)]
pub struct Config {
    pub config_file: String,
    pub credentials_file: String,
    pub profile: Option<String>,
    pub role: Option<String>,
    pub region: Option<Region>,
    pub name: Option<String>,
    pub serial_number: Option<String>,
    pub token_code: Option<String>,
}

/// The mathematical model of the resolved parameters.
pub ghost struct ParamsModel {
    pub config_file: Seq<char>,
    pub credentials_file: Seq<char>,
    pub profile: Option<Seq<char>>,
    pub role: Option<Seq<char>>,
    pub region: Option<Region>,
    pub name: Option<Seq<char>>,
    pub serial_number: Option<Seq<char>>,
    pub token_code: Option<Seq<char>>,
}

impl View for Config {
    type V = ParamsModel;

    open spec fn view(&self) -> ParamsModel {
        ParamsModel {
            config_file: self.config_file@,
            credentials_file: self.credentials_file@,
            profile: self.profile.deep_view(),
            role: self.role.deep_view(),
            region: self.region,
            name: self.name.deep_view(),
            serial_number: self.serial_number.deep_view(),
            token_code: self.token_code.deep_view(),
        }
    }
}

/// The default config-file path under a home directory.
pub open spec fn spec_default_config_path(home: Seq<char>) -> Seq<char> {
    home + "/.aws/config"@
}

/// The default credentials-file path under a home directory.
pub open spec fn spec_default_credentials_path(home: Seq<char>) -> Seq<char> {
    home + "/.aws/credentials"@
}

/// `<home>/.aws/config`.
pub fn default_config_path(home: &str) -> (r: String)
    ensures
        r@ == spec_default_config_path(home@),
{
    home.to_owned().concat("/.aws/config")
}

/// `<home>/.aws/credentials`.
pub fn default_credentials_path(home: &str) -> (r: String)
    ensures
        r@ == spec_default_credentials_path(home@),
{
    home.to_owned().concat("/.aws/credentials")
}

/// A region override is present but names no valid region.
pub open spec fn spec_bad_region(m: RawArgsModel) -> bool {
    m.region matches Some(rs) && spec_region_from_name(rs) is None
}

/// A file-path default, and with it a home directory, is needed.
pub open spec fn spec_needs_home(m: RawArgsModel) -> bool {
    m.config is None || m.credentials is None
}

/// The parameters that the overrides and a home directory resolve to.
pub open spec fn spec_params(m: RawArgsModel, h: Option<Seq<char>>) -> ParamsModel {
    ParamsModel {
        config_file: match m.config {
            Some(c) => c,
            None => spec_default_config_path(h->0),
        },
        credentials_file: match m.credentials {
            Some(c) => c,
            None => spec_default_credentials_path(h->0),
        },
        profile: m.profile,
        role: m.role,
        region: match m.region {
            Some(rs) => spec_region_from_name(rs),
            None => None,
        },
        name: m.name,
        serial_number: m.serial_number,
        token_code: m.token_code,
    }
}

impl Config {
    /// Merges the raw overrides with the defaults: an unknown region fails
    /// with a parse error naming the offending string; a missing home
    /// directory fails with a configuration error exactly where a file-path
    /// default is needed; everything else passes through.
    pub fn new_for_matches(raw: &RawArgs, home: Option<&str>) -> (r: Result<Config, Error>)
        ensures
            spec_bad_region(raw@) ==> (r matches Err(e) && (e matches Error::Region(s) && Some(s@)
                == raw@.region)),
            !spec_bad_region(raw@) && spec_needs_home(raw@) && home is None ==> (r matches Err(e)
                && e matches Error::Config(_)),
            !spec_bad_region(raw@) && (!spec_needs_home(raw@) || home is Some) ==> (r matches Ok(c)
                && c@ == spec_params(raw@, home.deep_view())),
    {
        let region: Option<Region> = match &raw.region {
            Some(rs) => match Region::from_name(rs.as_str()) {
                Some(rg) => Some(rg),
                None => {
                    return Err(Error::Region(rs.clone()));
                },
            },
            None => None,
        };
        let config_file: String = match &raw.config {
            Some(c) => c.clone(),
            None => match home {
                Some(h) => default_config_path(h),
                None => {
                    return Err(
                        Error::Config("the home directory cannot be determined".to_owned()),
                    );
                },
            },
        };
        let credentials_file: String = match &raw.credentials {
            Some(c) => c.clone(),
            None => match home {
                Some(h) => default_credentials_path(h),
                None => {
                    return Err(
                        Error::Config("the home directory cannot be determined".to_owned()),
                    );
                },
            },
        };
        Ok(
            Config {
                config_file,
                credentials_file,
                profile: clone_opt_string(&raw.profile),
                role: clone_opt_string(&raw.role),
                region,
                name: clone_opt_string(&raw.name),
                serial_number: clone_opt_string(&raw.serial_number),
                token_code: clone_opt_string(&raw.token_code),
            },
        )
    }
}

} // verus!
