use stscli::config::{Config, RawArgs};
use stscli::error::Error;
use stscli::region::Region;

fn no_args() -> RawArgs {
    RawArgs {
        config: None,
        credentials: None,
        profile: None,
        role: None,
        region: None,
        name: None,
        serial_number: None,
        token_code: None,
    }
}

#[test]
fn defaults_come_from_home() {
    let c = Config::new_for_matches(&no_args(), Some("/home/u")).unwrap();
    assert_eq!(c.config_file, "/home/u/.aws/config");
    assert_eq!(c.credentials_file, "/home/u/.aws/credentials");
    assert_eq!(c.profile, None);
    assert_eq!(c.role, None);
    assert_eq!(c.region, None);
    assert_eq!(c.name, None);
}

#[test]
fn missing_home_is_a_configuration_error() {
    let r = Config::new_for_matches(&no_args(), None);
    assert!(matches!(r, Err(Error::Config(_))));
}

#[test]
fn explicit_paths_need_no_home() {
    let mut raw = no_args();
    raw.config = Some("/etc/aws/config".to_owned());
    raw.credentials = Some("/etc/aws/credentials".to_owned());
    raw.profile = Some("dev".to_owned());
    let c = Config::new_for_matches(&raw, None).unwrap();
    assert_eq!(c.config_file, "/etc/aws/config");
    assert_eq!(c.credentials_file, "/etc/aws/credentials");
    assert_eq!(c.profile, Some("dev".to_owned()));
}

#[test]
fn unknown_region_fails_naming_the_string() {
    let mut raw = no_args();
    raw.region = Some("mars-north-1".to_owned());
    let r = Config::new_for_matches(&raw, Some("/home/u"));
    assert_eq!(r, Err(Error::Region("mars-north-1".to_owned())));
}

#[test]
fn valid_region_is_parsed() {
    let mut raw = no_args();
    raw.region = Some("eu-west-1".to_owned());
    let c = Config::new_for_matches(&raw, Some("/home/u")).unwrap();
    assert_eq!(c.region, Some(Region::EuWest1));
}

#[test]
fn mfa_fields_pass_through() {
    let mut raw = no_args();
    raw.serial_number = Some("arn:aws:iam::123456789012:mfa/u".to_owned());
    raw.token_code = Some("123456".to_owned());
    raw.name = Some("mysession".to_owned());
    raw.role = Some("arn:aws:iam::123456789012:role/admin".to_owned());
    let c = Config::new_for_matches(&raw, Some("/home/u")).unwrap();
    assert_eq!(c.serial_number, Some("arn:aws:iam::123456789012:mfa/u".to_owned()));
    assert_eq!(c.token_code, Some("123456".to_owned()));
    assert_eq!(c.name, Some("mysession".to_owned()));
    assert_eq!(c.role, Some("arn:aws:iam::123456789012:role/admin".to_owned()));
}

#[test]
fn region_names_round_trip() {
    let names = [
        "us-east-1",
        "us-east-2",
        "us-west-1",
        "us-west-2",
        "ca-central-1",
        "eu-west-1",
        "eu-west-2",
        "eu-central-1",
        "eu-north-1",
        "ap-south-1",
        "ap-northeast-1",
        "ap-southeast-1",
        "ap-southeast-2",
        "sa-east-1",
    ];
    for n in names {
        let r = Region::from_name(n).unwrap();
        assert_eq!(r.name(), n);
    }
    assert_eq!(Region::from_name("eu-west-3"), None);
    assert_eq!(Region::from_name(""), None);
}
