use stscli::aws_config::{get_profile_name_from_section_name, list_profile_names, Config};
use stscli::error::Error;
use stscli::region::Region;

#[test]
fn section_naming_conventions() {
    assert_eq!(get_profile_name_from_section_name("profile dev"), Some("dev".to_owned()));
    assert_eq!(get_profile_name_from_section_name("default"), None);
    assert_eq!(get_profile_name_from_section_name("prod"), Some("prod".to_owned()));
    assert_eq!(
        get_profile_name_from_section_name("profile default"),
        Some("default".to_owned())
    );
    assert_eq!(get_profile_name_from_section_name("profile "), Some("".to_owned()));
}

#[test]
fn config_file_parses_to_profiles() {
    let text = "[default]\nregion = eu-west-1\n\n[profile dev]\nrole_arn = arn:aws:iam::123456789012:role/dev\nsource_profile = base\n\n[prod]\nregion = us-west-2\n";
    let c = Config::load_from_str(text).unwrap();
    assert_eq!(c.default_region, Some(Region::EuWest1));
    assert_eq!(c.profiles.len(), 2);
    assert_eq!(c.profiles[0].name, "dev");
    assert_eq!(
        c.profiles[0].role_arn,
        Some("arn:aws:iam::123456789012:role/dev".to_owned())
    );
    assert_eq!(c.profiles[0].source_profile, Some("base".to_owned()));
    assert_eq!(c.profiles[0].region, None);
    assert_eq!(c.profiles[1].name, "prod");
    assert_eq!(c.profiles[1].region, Some(Region::UsWest2));
}

#[test]
fn default_section_never_becomes_a_profile() {
    let text = "[default]\nregion = us-east-1\naws_access_key_id = AKIADEFAULT\n";
    let c = Config::load_from_str(text).unwrap();
    assert_eq!(c.profiles.len(), 0);
    assert_eq!(c.default_region, Some(Region::UsEast1));
}

#[test]
fn profile_prefixed_default_is_a_profile() {
    let text = "[profile default]\nregion = us-east-2\n";
    let c = Config::load_from_str(text).unwrap();
    assert_eq!(c.profiles.len(), 1);
    assert_eq!(c.profiles[0].name, "default");
}

#[test]
fn bad_region_in_a_section_names_the_string() {
    let text = "[profile dev]\nregion = moon-base-1\n";
    let r = Config::load_from_str(text);
    assert_eq!(r, Err(Error::Region("moon-base-1".to_owned())));
}

#[test]
fn bad_default_region_names_the_string() {
    let text = "[default]\nregion = nowhere\n[dev]\nregion = eu-west-1\n";
    let r = Config::load_from_str(text);
    assert_eq!(r, Err(Error::Region("nowhere".to_owned())));
}

#[test]
fn unparseable_ini_is_an_ini_error() {
    let r = Config::load_from_str("[unclosed\nkey = value\n");
    assert!(matches!(r, Err(Error::Ini(_))));
}

#[test]
fn later_section_of_same_name_wins_in_place() {
    let text = "[dev]\nregion = eu-west-1\n[prod]\n[dev]\nregion = us-east-2\n";
    let c = Config::load_from_str(text).unwrap();
    assert_eq!(c.profiles.len(), 2);
    assert_eq!(c.profiles[0].name, "dev");
    assert_eq!(c.profiles[0].region, Some(Region::UsEast2));
    assert_eq!(c.profiles[1].name, "prod");
}

#[test]
fn listing_keeps_order_and_duplicates() {
    let credentials = Config::load_from_str(
        "[dev]\naws_access_key_id = AKIA1\n[prod]\naws_access_key_id = AKIA2\n",
    )
    .unwrap();
    let config = Config::load_from_str("[default]\nregion = eu-west-1\n[profile dev]\n").unwrap();
    let names = list_profile_names(&credentials, &config);
    assert_eq!(names, vec!["dev".to_owned(), "prod".to_owned(), "dev".to_owned()]);
}
