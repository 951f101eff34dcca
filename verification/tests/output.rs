use stscli::creds::{get_vars, Credential};
use stscli::print::{
    get_output_format, powershell_esc, print_var, print_vars, print_vars_json, shell_esc,
    OutputFormat,
};
use stscli::region::Region;

#[test]
fn format_selection() {
    assert_eq!(get_output_format(Some("json"), false), OutputFormat::Json);
    assert_eq!(get_output_format(Some("fish"), true), OutputFormat::Fish { export: true });
    assert_eq!(
        get_output_format(Some("powershell"), false),
        OutputFormat::Powershell { export: false }
    );
    assert_eq!(get_output_format(Some("csv"), true), OutputFormat::Bash { export: true });
    assert_eq!(get_output_format(None, false), OutputFormat::Bash { export: false });
}

#[test]
fn shell_escaping_of_quote_and_backslash() {
    assert_eq!(shell_esc("a\"b\\c"), "a\\\"b\\\\c");
    assert_eq!(shell_esc("plain"), "plain");
    assert_eq!(shell_esc(""), "");
}

#[test]
fn powershell_escaping_of_its_own_set() {
    assert_eq!(powershell_esc("a\"b\\c"), "a`\"b\\c");
    assert_eq!(powershell_esc("x\0y\r\n\t`z"), "x`\0y`\r`\n`\t``z");
    assert_eq!(powershell_esc("plain"), "plain");
}

#[test]
fn bash_lines() {
    assert_eq!(
        print_var("AWS_ACCESS_KEY_ID", "AKIA", OutputFormat::Bash { export: false }),
        "AWS_ACCESS_KEY_ID=\"AKIA\""
    );
    assert_eq!(
        print_var("AWS_ACCESS_KEY_ID", "AKIA", OutputFormat::Bash { export: true }),
        "export AWS_ACCESS_KEY_ID=\"AKIA\""
    );
    assert_eq!(
        print_var("K", "a\"b\\c", OutputFormat::Bash { export: false }),
        "K=\"a\\\"b\\\\c\""
    );
}

#[test]
fn fish_lines() {
    assert_eq!(print_var("K", "v", OutputFormat::Fish { export: false }), "set K \"v\"");
    assert_eq!(print_var("K", "v", OutputFormat::Fish { export: true }), "set -x K \"v\"");
    assert_eq!(
        print_var("K", "a\"b\\c", OutputFormat::Fish { export: true }),
        "set -x K \"a\\\"b\\\\c\""
    );
}

#[test]
fn powershell_lines() {
    assert_eq!(print_var("K", "v", OutputFormat::Powershell { export: false }), "$K = \"v\"");
    assert_eq!(
        print_var("K", "v", OutputFormat::Powershell { export: true }),
        "$env:K = \"v\""
    );
    assert_eq!(
        print_var("K", "a\"b\\c", OutputFormat::Powershell { export: false }),
        "$K = \"a`\"b\\c\""
    );
}

#[test]
fn all_vars_render_in_order() {
    let vars = vec![
        ("AWS_ACCESS_KEY_ID".to_owned(), "AKIA".to_owned()),
        ("AWS_SECRET_ACCESS_KEY".to_owned(), "s3cr3t".to_owned()),
    ];
    let lines = print_vars(&vars, OutputFormat::Bash { export: true });
    assert_eq!(
        lines,
        vec![
            "export AWS_ACCESS_KEY_ID=\"AKIA\"".to_owned(),
            "export AWS_SECRET_ACCESS_KEY=\"s3cr3t\"".to_owned(),
        ]
    );
}

#[test]
fn json_line_is_the_encoded_object() {
    let vars = vec![
        ("AWS_SECRET_ACCESS_KEY".to_owned(), "s3cr3t".to_owned()),
        ("AWS_ACCESS_KEY_ID".to_owned(), "AKIA".to_owned()),
    ];
    // Keys come out sorted, values JSON-escaped.
    assert_eq!(
        print_vars_json(&vars),
        "{\"AWS_ACCESS_KEY_ID\":\"AKIA\",\"AWS_SECRET_ACCESS_KEY\":\"s3cr3t\"}"
    );
    let quoted = vec![("K".to_owned(), "a\"b".to_owned())];
    assert_eq!(print_vars_json(&quoted), "{\"K\":\"a\\\"b\"}");
}

#[test]
fn materialized_round_trip_has_five_variables() {
    let cred = Credential {
        access_key_id: "AKIAEXAMPLE".to_owned(),
        secret_access_key: "abc".to_owned(),
        session_token: Some("tok".to_owned()),
    };
    let vars = get_vars(&cred, Some(Region::EuWest1));
    assert_eq!(vars.len(), 5);
    assert_eq!(vars[0], ("AWS_ACCESS_KEY_ID".to_owned(), "AKIAEXAMPLE".to_owned()));
    assert_eq!(vars[1], ("AWS_SECRET_ACCESS_KEY".to_owned(), "abc".to_owned()));
    assert_eq!(vars[2], ("AWS_SESSION_TOKEN".to_owned(), "tok".to_owned()));
    assert_eq!(vars[3], ("AWS_SECURITY_TOKEN".to_owned(), "tok".to_owned()));
    assert_eq!(vars[2].1, vars[3].1);
    assert_eq!(vars[4], ("AWS_DEFAULT_REGION".to_owned(), "eu-west-1".to_owned()));
}

#[test]
fn no_token_and_no_region_mean_two_variables() {
    let cred = Credential {
        access_key_id: "AKIA".to_owned(),
        secret_access_key: "abc".to_owned(),
        session_token: None,
    };
    let vars = get_vars(&cred, None);
    assert_eq!(vars.len(), 2);
    assert_eq!(vars[0].0, "AWS_ACCESS_KEY_ID");
    assert_eq!(vars[1].0, "AWS_SECRET_ACCESS_KEY");
}
