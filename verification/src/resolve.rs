//! The credential-resolution engine.
//!
//! Given the effective parameters and the parsed configuration, the engine
//! decides once which acquisition strategy applies — a static profile
//! lookup, a session-token request, or a role-assumption request — and the
//! caller dispatches on the decision: a remote strategy names the base
//! profile whose static credentials sign the call, the region, and the
//! request fields; the caller performs the remote call and normalizes the
//! response through [`crate::creds::credential_from_response`].

use vstd::prelude::*;

use crate::aws_config::ConfigModel;
use crate::config::Config;
use crate::config::ParamsModel;
use crate::aws_config::spec_index_of_name;
use crate::creds::Credential;
use crate::creds::CredentialModel;
use crate::error::Error;
use crate::ini_doc::IniSection;
use crate::ini_doc::SectionModel;
use crate::ini_doc::find_section;
use crate::ini_doc::pairs_get;
use crate::ini_doc::spec_find_section;
use crate::ini_doc::spec_pairs_get;
use crate::region::Region;
use crate::strutil::clone_opt_ref;
use crate::strutil::clone_opt_string;

verus! {

/// The strategy that one invocation resolves to, decided once.
#[derive(Debug, PartialEq, Eq)]
pub enum ResolutionStrategy {
    /// Ask the credentials file (or the surrounding provider chain) for the
    /// named profile's static credentials; no remote call.
    Static { profile: Option<String> },
    /// Request a session token, signed with the source profile's static
    /// credentials.
    SessionToken {
        source_profile: String,
        region: Region,
        serial_number: Option<String>,
        token_code: Option<String>,
    },
    /// Assume the given role, signed with the source profile's static
    /// credentials.
    AssumeRole {
        source_profile: String,
        region: Region,
        role_arn: String,
        session_name: String,
        serial_number: Option<String>,
        token_code: Option<String>,
    },
}

/// The mathematical model of a strategy.
pub ghost enum StrategyModel {
    Static { profile: Option<Seq<char>> },
    SessionToken {
        source_profile: Seq<char>,
        region: Region,
        serial_number: Option<Seq<char>>,
        token_code: Option<Seq<char>>,
    },
    AssumeRole {
        source_profile: Seq<char>,
        region: Region,
        role_arn: Seq<char>,
        session_name: Seq<char>,
        serial_number: Option<Seq<char>>,
        token_code: Option<Seq<char>>,
    },
}

impl View for ResolutionStrategy {
    type V = StrategyModel;

    open spec fn view(&self) -> StrategyModel {
        match self {
            ResolutionStrategy::Static { profile } => StrategyModel::Static {
                profile: profile.deep_view(),
            },
            ResolutionStrategy::SessionToken {
                source_profile,
                region,
                serial_number,
                token_code,
            } => StrategyModel::SessionToken {
                source_profile: source_profile@,
                region: *region,
                serial_number: serial_number.deep_view(),
                token_code: token_code.deep_view(),
            },
            ResolutionStrategy::AssumeRole {
                source_profile,
                region,
                role_arn,
                session_name,
                serial_number,
                token_code,
            } => StrategyModel::AssumeRole {
                source_profile: source_profile@,
                region: *region,
                role_arn: role_arn@,
                session_name: session_name@,
                serial_number: serial_number.deep_view(),
                token_code: token_code.deep_view(),
            },
        }
    }
}

/// The effective region of the role/session branch, first present wins: the
/// override, the profile's region, the file's default region, the fixed
/// default.
pub open spec fn spec_effective_region(
    override_region: Option<Region>,
    profile_region: Option<Region>,
    default_region: Option<Region>,
) -> Region {
    match override_region {
        Some(r) => r,
        None => match profile_region {
            Some(r) => r,
            None => match default_region {
                Some(r) => r,
                None => Region::UsEast1,
            },
        },
    }
}

/// Region precedence: the effective region equals the override where one is
/// present, else the profile's region, else the default region, else the
/// fixed default.
pub proof fn lemma_region_precedence(r1: Option<Region>, r2: Option<Region>, r3: Option<Region>)
    ensures
        r1 is Some ==> spec_effective_region(r1, r2, r3) == r1->0,
        r1 is None && r2 is Some ==> spec_effective_region(r1, r2, r3) == r2->0,
        r1 is None && r2 is None && r3 is Some ==> spec_effective_region(r1, r2, r3) == r3->0,
        r1 is None && r2 is None && r3 is None ==> spec_effective_region(r1, r2, r3)
            == Region::UsEast1,
{
}

/// The strategy of the role/session branch, for a matched profile entry.
pub open spec fn spec_role_session_strategy(
    p: ParamsModel,
    cfg: ConfigModel,
    entry: crate::aws_config::ProfileModel,
) -> StrategyModel {
    let region = spec_effective_region(p.region, entry.region, cfg.default_region);
    let source_profile = match entry.source_profile {
        Some(s) => s,
        None => "default"@,
    };
    let role = match p.role {
        Some(r) => Some(r),
        None => entry.role_arn,
    };
    match role {
        Some(role_arn) => StrategyModel::AssumeRole {
            source_profile,
            region,
            role_arn,
            session_name: match p.name {
                Some(n) => n,
                None => "stscli"@,
            },
            serial_number: p.serial_number,
            token_code: p.token_code,
        },
        None => StrategyModel::SessionToken {
            source_profile,
            region,
            serial_number: p.serial_number,
            token_code: p.token_code,
        },
    }
}

/// The strategy an invocation resolves to: the role/session branch exactly
/// when a profile name is set, a parsed configuration is at hand, and the
/// profile is in it; the static branch otherwise.
pub open spec fn spec_choose_strategy(p: ParamsModel, c: Option<ConfigModel>) -> StrategyModel {
    match p.profile {
        Some(pname) => match c {
            Some(cfg) => match spec_index_of_name(cfg.profiles, pname) {
                Some(i) => spec_role_session_strategy(p, cfg, cfg.profiles[i]),
                None => StrategyModel::Static { profile: p.profile },
            },
            None => StrategyModel::Static { profile: p.profile },
        },
        None => StrategyModel::Static { profile: p.profile },
    }
}

/// Decides the acquisition strategy; `config` is the parsed config file
/// where one exists and parses, and `None` otherwise.
pub fn choose_strategy(params: &Config, config: Option<&crate::aws_config::Config>) -> (r:
    ResolutionStrategy)
    ensures
        r@ == spec_choose_strategy(params@, config.deep_view()),
{
    if let Some(pname) = &params.profile {
        if let Some(cfg) = config {
            if let Some(entry) = cfg.find_profile(pname.as_str()) {
                let region: Region = match params.region {
                    Some(r) => r,
                    None => match entry.region {
                        Some(r) => r,
                        None => match cfg.default_region {
                            Some(r) => r,
                            None => Region::UsEast1,
                        },
                    },
                };
                let source_profile: String = match &entry.source_profile {
                    Some(s) => s.clone(),
                    None => "default".to_owned(),
                };
                let role: Option<String> = match &params.role {
                    Some(r) => Some(r.clone()),
                    None => clone_opt_string(&entry.role_arn),
                };
                let serial_number = clone_opt_string(&params.serial_number);
                let token_code = clone_opt_string(&params.token_code);
                return match role {
                    Some(role_arn) => ResolutionStrategy::AssumeRole {
                        source_profile,
                        region,
                        role_arn,
                        session_name: match &params.name {
                            Some(n) => n.clone(),
                            None => "stscli".to_owned(),
                        },
                        serial_number,
                        token_code,
                    },
                    None => ResolutionStrategy::SessionToken {
                        source_profile,
                        region,
                        serial_number,
                        token_code,
                    },
                };
            }
        }
    }
    ResolutionStrategy::Static { profile: clone_opt_string(&params.profile) }
}

/// The static credentials that a credentials file holds for a profile:
/// nothing where the profile's section, its key id, or its secret is
/// missing; the key/secret/optional-token triple otherwise.
pub open spec fn spec_lookup(doc: Seq<SectionModel>, name: Seq<char>) -> Option<CredentialModel> {
    match spec_find_section(doc, name) {
        None => None,
        Some(sec) => match (
            spec_pairs_get(sec.1, "aws_access_key_id"@),
            spec_pairs_get(sec.1, "aws_secret_access_key"@),
        ) {
            (Some(a), Some(s)) => Some(
                CredentialModel {
                    access_key_id: a,
                    secret_access_key: s,
                    session_token: spec_pairs_get(sec.1, "aws_session_token"@),
                },
            ),
            _ => None,
        },
    }
}

/// Looks a profile's static credentials up in the parsed credentials file;
/// a missing section or a missing key is a credentials-provider error.
pub fn lookup_profile_credentials(sections: &Vec<IniSection>, profile: &str) -> (r: Result<
    Credential,
    Error,
>)
    ensures
        match spec_lookup(sections.deep_view(), profile@) {
            Some(c) => r matches Ok(cr) && cr@ == c,
            None => r matches Err(e) && e matches Error::Credentials(_),
        },
{
    match find_section(sections, profile) {
        None => Err(
            Error::Credentials("the profile has no section in the credentials file".to_owned()),
        ),
        Some(sec) => {
            let access_key_id: String = match pairs_get(&sec.pairs, "aws_access_key_id") {
                Some(v) => v.clone(),
                None => {
                    return Err(
                        Error::Credentials("the profile carries no aws_access_key_id".to_owned()),
                    );
                },
            };
            let secret_access_key: String = match pairs_get(&sec.pairs, "aws_secret_access_key") {
                Some(v) => v.clone(),
                None => {
                    return Err(
                        Error::Credentials(
                            "the profile carries no aws_secret_access_key".to_owned(),
                        ),
                    );
                },
            };
            let session_token = clone_opt_ref(pairs_get(&sec.pairs, "aws_session_token"));
            Ok(Credential { access_key_id, secret_access_key, session_token })
        },
    }
}

/// The profile whose static credentials a strategy rests on: the selected
/// profile (or `default`) for the static branch, and the source profile for
/// a remote strategy.
pub open spec fn spec_base_profile_name(s: StrategyModel) -> Seq<char> {
    match s {
        StrategyModel::Static { profile } => match profile {
            Some(p) => p,
            None => "default"@,
        },
        StrategyModel::SessionToken { source_profile, .. } => source_profile,
        StrategyModel::AssumeRole { source_profile, .. } => source_profile,
    }
}

/// Looks up the static credentials that the strategy's base profile holds in
/// the credentials file.
pub fn base_credentials_for(sections: &Vec<IniSection>, strategy: &ResolutionStrategy) -> (r:
    Result<Credential, Error>)
    ensures
        match spec_lookup(sections.deep_view(), spec_base_profile_name(strategy@)) {
            Some(c) => r matches Ok(cr) && cr@ == c,
            None => r matches Err(e) && e matches Error::Credentials(_),
        },
{
    let name: String = match strategy {
        ResolutionStrategy::Static { profile } => match profile {
            Some(p) => p.clone(),
            None => "default".to_owned(),
        },
        ResolutionStrategy::SessionToken { source_profile, .. } => source_profile.clone(),
        ResolutionStrategy::AssumeRole { source_profile, .. } => source_profile.clone(),
    };
    lookup_profile_credentials(sections, name.as_str())
}

/// The region handed to the session materializer: the strategy's effective
/// region in the role/session branch, and the override alone (no profile or
/// default-region fallback) in the static branch.
pub open spec fn spec_materialize_region(p: ParamsModel, s: StrategyModel) -> Option<Region> {
    match s {
        StrategyModel::Static { .. } => p.region,
        StrategyModel::SessionToken { region, .. } => Some(region),
        StrategyModel::AssumeRole { region, .. } => Some(region),
    }
}

/// Selects the region that the materialized variable set carries.
pub fn materialize_region(params: &Config, strategy: &ResolutionStrategy) -> (r: Option<Region>)
    ensures
        r == spec_materialize_region(params@, strategy@),
{
    match strategy {
        ResolutionStrategy::Static { .. } => params.region,
        ResolutionStrategy::SessionToken { region, .. } => Some(*region),
        ResolutionStrategy::AssumeRole { region, .. } => Some(*region),
    }
}

/// A profile whose source profile names no section of the credentials file
/// resolves to a remote strategy whose base-credential lookup yields
/// nothing — a credentials-provider failure, never a silent default.
pub proof fn lemma_missing_source_profile_fails(
    doc: Seq<SectionModel>,
    p: ParamsModel,
    cfg: ConfigModel,
    i: int,
)
    requires
        p.profile is Some,
        spec_index_of_name(cfg.profiles, p.profile->0) == Some(i),
        0 <= i < cfg.profiles.len(),
        cfg.profiles[i].source_profile is Some,
        spec_find_section(doc, cfg.profiles[i].source_profile->0) is None,
    ensures
        !(spec_choose_strategy(p, Some(cfg)) matches StrategyModel::Static { .. }),
        spec_base_profile_name(spec_choose_strategy(p, Some(cfg)))
            == cfg.profiles[i].source_profile->0,
        spec_lookup(doc, spec_base_profile_name(spec_choose_strategy(p, Some(cfg)))) is None,
{
}

/// In the role/session branch the strategy's region follows the region
/// precedence chain of the matched profile entry.
pub proof fn lemma_strategy_region(p: ParamsModel, cfg: ConfigModel, i: int)
    requires
        p.profile is Some,
        spec_index_of_name(cfg.profiles, p.profile->0) == Some(i),
        0 <= i < cfg.profiles.len(),
    ensures
        match spec_choose_strategy(p, Some(cfg)) {
            StrategyModel::Static { .. } => false,
            StrategyModel::SessionToken { region, .. } => region == spec_effective_region(
                p.region,
                cfg.profiles[i].region,
                cfg.default_region,
            ),
            StrategyModel::AssumeRole { region, .. } => region == spec_effective_region(
                p.region,
                cfg.profiles[i].region,
                cfg.default_region,
            ),
        },
{
}

} // verus!
