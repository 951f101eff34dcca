use stscli::aws_config::Config as AwsConfig;
use stscli::config::{Config, RawArgs};
use stscli::creds::{credential_from_response, Credential, StsCredentials, StsResponse};
use stscli::error::{Error, StsOperation};
use stscli::region::Region;
use stscli::resolve::{
    base_credentials_for, choose_strategy, lookup_profile_credentials, materialize_region,
    ResolutionStrategy,
};

fn params(profile: Option<&str>, region: Option<Region>, role: Option<&str>) -> Config {
    let raw = RawArgs {
        config: Some("/tmp/config".to_owned()),
        credentials: Some("/tmp/credentials".to_owned()),
        profile: profile.map(|s| s.to_owned()),
        role: role.map(|s| s.to_owned()),
        region: None,
        name: None,
        serial_number: None,
        token_code: None,
    };
    let mut c = Config::new_for_matches(&raw, Some("/home/u")).unwrap();
    c.region = region;
    c
}

#[test]
fn no_profile_means_static_branch() {
    let p = params(None, None, None);
    let cfg = AwsConfig::load_from_str("[profile dev]\nrole_arn = arn:x\n").unwrap();
    let s = choose_strategy(&p, Some(&cfg));
    assert_eq!(s, ResolutionStrategy::Static { profile: None });
}

#[test]
fn unknown_profile_means_static_branch() {
    let p = params(Some("qa"), None, None);
    let cfg = AwsConfig::load_from_str("[profile dev]\nrole_arn = arn:x\n").unwrap();
    let s = choose_strategy(&p, Some(&cfg));
    assert_eq!(s, ResolutionStrategy::Static { profile: Some("qa".to_owned()) });
}

#[test]
fn no_config_file_means_static_branch() {
    let p = params(Some("dev"), None, None);
    let s = choose_strategy(&p, None);
    assert_eq!(s, ResolutionStrategy::Static { profile: Some("dev".to_owned()) });
}

#[test]
fn role_in_profile_means_assume_role_with_defaults() {
    let p = params(Some("dev"), None, None);
    let cfg = AwsConfig::load_from_str("[profile dev]\nrole_arn = arn:aws:iam::123456789012:role/dev\n")
        .unwrap();
    let s = choose_strategy(&p, Some(&cfg));
    assert_eq!(
        s,
        ResolutionStrategy::AssumeRole {
            source_profile: "default".to_owned(),
            region: Region::UsEast1,
            role_arn: "arn:aws:iam::123456789012:role/dev".to_owned(),
            session_name: "stscli".to_owned(),
            serial_number: None,
            token_code: None,
        }
    );
}

#[test]
fn cli_role_override_wins() {
    let mut p = params(Some("dev"), None, Some("arn:override"));
    p.name = Some("mysession".to_owned());
    let cfg = AwsConfig::load_from_str(
        "[profile dev]\nrole_arn = arn:aws:iam::123456789012:role/dev\nsource_profile = base\n",
    )
    .unwrap();
    let s = choose_strategy(&p, Some(&cfg));
    assert_eq!(
        s,
        ResolutionStrategy::AssumeRole {
            source_profile: "base".to_owned(),
            region: Region::UsEast1,
            role_arn: "arn:override".to_owned(),
            session_name: "mysession".to_owned(),
            serial_number: None,
            token_code: None,
        }
    );
}

#[test]
fn no_role_means_session_token() {
    let mut p = params(Some("dev"), None, None);
    p.serial_number = Some("arn:mfa".to_owned());
    p.token_code = Some("123456".to_owned());
    let cfg = AwsConfig::load_from_str("[profile dev]\nsource_profile = base\n").unwrap();
    let s = choose_strategy(&p, Some(&cfg));
    assert_eq!(
        s,
        ResolutionStrategy::SessionToken {
            source_profile: "base".to_owned(),
            region: Region::UsEast1,
            serial_number: Some("arn:mfa".to_owned()),
            token_code: Some("123456".to_owned()),
        }
    );
}

fn strategy_region(s: &ResolutionStrategy) -> Region {
    match s {
        ResolutionStrategy::SessionToken { region, .. } => *region,
        ResolutionStrategy::AssumeRole { region, .. } => *region,
        ResolutionStrategy::Static { .. } => panic!("expected the role/session branch"),
    }
}

#[test]
fn region_precedence_chain() {
    let with_profile_region =
        AwsConfig::load_from_str("[default]\nregion = sa-east-1\n[profile dev]\nregion = eu-west-2\n")
            .unwrap();
    let without_profile_region =
        AwsConfig::load_from_str("[default]\nregion = sa-east-1\n[profile dev]\n").unwrap();
    let bare = AwsConfig::load_from_str("[profile dev]\n").unwrap();

    let override_set = params(Some("dev"), Some(Region::ApSouth1), None);
    let no_override = params(Some("dev"), None, None);

    // The override wins over the profile's region and the default region.
    assert_eq!(
        strategy_region(&choose_strategy(&override_set, Some(&with_profile_region))),
        Region::ApSouth1
    );
    // The profile's region wins over the default region.
    assert_eq!(
        strategy_region(&choose_strategy(&no_override, Some(&with_profile_region))),
        Region::EuWest2
    );
    // The default region is next.
    assert_eq!(
        strategy_region(&choose_strategy(&no_override, Some(&without_profile_region))),
        Region::SaEast1
    );
    // The fixed fallback comes last.
    assert_eq!(strategy_region(&choose_strategy(&no_override, Some(&bare))), Region::UsEast1);
}

fn credentials_sections(text: &str) -> Vec<stscli::ini_doc::IniSection> {
    stscli::ini_doc::parse_sections(text).unwrap()
}

#[test]
fn static_lookup_finds_the_triple() {
    let sections = credentials_sections(
        "[dev]\naws_access_key_id = AKIADEV\naws_secret_access_key = sekret\naws_session_token = tok\n",
    );
    let c = lookup_profile_credentials(&sections, "dev").unwrap();
    assert_eq!(
        c,
        Credential {
            access_key_id: "AKIADEV".to_owned(),
            secret_access_key: "sekret".to_owned(),
            session_token: Some("tok".to_owned()),
        }
    );
}

#[test]
fn missing_profile_is_a_credentials_error() {
    let sections = credentials_sections(
        "[dev]\naws_access_key_id = AKIADEV\naws_secret_access_key = sekret\n",
    );
    let r = lookup_profile_credentials(&sections, "prod");
    assert!(matches!(r, Err(Error::Credentials(_))));
}

#[test]
fn missing_key_is_a_credentials_error() {
    let sections = credentials_sections("[dev]\naws_access_key_id = AKIADEV\n");
    let r = lookup_profile_credentials(&sections, "dev");
    assert!(matches!(r, Err(Error::Credentials(_))));
}

#[test]
fn missing_source_profile_fails_not_defaults() {
    // A profile whose sourceProfile names nothing in the credentials file:
    // resolution fails with a credentials error, never a silent default.
    let p = params(Some("dev"), None, None);
    let cfg = AwsConfig::load_from_str("[profile dev]\nrole_arn = arn:x\nsource_profile = ghostly\n")
        .unwrap();
    let strategy = choose_strategy(&p, Some(&cfg));
    let sections = credentials_sections(
        "[default]\naws_access_key_id = AKIA\naws_secret_access_key = s\n[dev]\naws_access_key_id = AKIA2\naws_secret_access_key = s2\n",
    );
    let r = base_credentials_for(&sections, &strategy);
    assert!(matches!(r, Err(Error::Credentials(_))));
}

#[test]
fn static_branch_uses_selected_profile_or_default() {
    let sections = credentials_sections(
        "[default]\naws_access_key_id = AKIA\naws_secret_access_key = s\n[dev]\naws_access_key_id = AKIA2\naws_secret_access_key = s2\n",
    );
    let named = base_credentials_for(
        &sections,
        &ResolutionStrategy::Static { profile: Some("dev".to_owned()) },
    )
    .unwrap();
    assert_eq!(named.access_key_id, "AKIA2");
    let unnamed = base_credentials_for(&sections, &ResolutionStrategy::Static { profile: None })
        .unwrap();
    assert_eq!(unnamed.access_key_id, "AKIA");
}

#[test]
fn materializer_region_follows_the_branch() {
    // Role/session branch: the strategy's effective region, even where no
    // override was given.
    let no_override = params(Some("dev"), None, None);
    let cfg = AwsConfig::load_from_str("[default]\nregion = sa-east-1\n[profile dev]\n").unwrap();
    let strategy = choose_strategy(&no_override, Some(&cfg));
    assert_eq!(materialize_region(&no_override, &strategy), Some(Region::SaEast1));
    // Static branch: the override alone, no default-region fallback.
    let static_strategy = choose_strategy(&no_override, None);
    assert_eq!(materialize_region(&no_override, &static_strategy), None);
    let with_override = params(Some("dev"), Some(Region::ApSouth1), None);
    let s2 = choose_strategy(&with_override, None);
    assert_eq!(materialize_region(&with_override, &s2), Some(Region::ApSouth1));
}

#[test]
fn empty_assume_role_response_is_an_error() {
    let r = credential_from_response(StsResponse { credentials: None }, StsOperation::AssumeRole);
    assert_eq!(r, Err(Error::EmptyResponse(StsOperation::AssumeRole)));
}

#[test]
fn empty_session_token_response_is_an_error() {
    let r = credential_from_response(
        StsResponse { credentials: None },
        StsOperation::GetSessionToken,
    );
    assert_eq!(r, Err(Error::EmptyResponse(StsOperation::GetSessionToken)));
}

#[test]
fn full_response_normalizes() {
    let r = credential_from_response(
        StsResponse {
            credentials: Some(StsCredentials {
                access_key_id: "ASIA123".to_owned(),
                secret_access_key: "secret".to_owned(),
                session_token: "token".to_owned(),
            }),
        },
        StsOperation::AssumeRole,
    )
    .unwrap();
    assert_eq!(
        r,
        Credential {
            access_key_id: "ASIA123".to_owned(),
            secret_access_key: "secret".to_owned(),
            session_token: Some("token".to_owned()),
        }
    );
}
