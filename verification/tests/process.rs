use stscli::error::{Error, StsOperation};
use stscli::launch::{child_outcome, process_exit_code};

#[test]
fn clean_exit_is_success() {
    assert_eq!(child_outcome(Some(0)), Ok(()));
    assert_eq!(process_exit_code(&Ok(())), 0);
}

#[test]
fn child_code_seven_becomes_exit_code_seven() {
    let outcome = child_outcome(Some(7));
    assert_eq!(outcome, Err(Error::ChildExited(7)));
    assert_eq!(process_exit_code(&outcome), 7);
}

#[test]
fn killed_child_is_a_distinct_error_with_nonzero_exit() {
    let outcome = child_outcome(None);
    assert_eq!(outcome, Err(Error::ProcessKilled));
    assert_eq!(process_exit_code(&outcome), 1);
}

#[test]
fn other_errors_exit_with_one() {
    assert_eq!(process_exit_code(&Err(Error::Io("gone".to_owned()))), 1);
    assert_eq!(process_exit_code(&Err(Error::Remote("refused".to_owned()))), 1);
}

#[test]
fn messages_name_their_concern() {
    assert_eq!(
        Error::Region("nowhere".to_owned()).message(),
        "not a valid region name: nowhere"
    );
    assert_eq!(
        Error::EmptyResponse(StsOperation::AssumeRole).message(),
        "STS AssumeRole did not return any credentials"
    );
    assert_eq!(
        Error::EmptyResponse(StsOperation::GetSessionToken).message(),
        "STS GetSessionToken did not return any credentials"
    );
    assert_eq!(Error::ProcessKilled.message(), "process killed");
    assert_eq!(Error::ChildExited(7).message(), "child exited: 7");
    assert_eq!(Error::ChildExited(712).message(), "child exited: 712");
    assert_eq!(Error::ChildExited(-3).message(), "child exited: -3");
    assert_eq!(Error::Config("no home".to_owned()).message(), "configuration error: no home");
    assert_eq!(Error::Io("gone".to_owned()).message(), "I/O error: gone");
    assert_eq!(
        Error::Credentials("missing".to_owned()).message(),
        "credentials error: missing"
    );
    assert_eq!(Error::Ini("bad text".to_owned()).message(), "configuration file error: bad text");
    assert_eq!(Error::Remote("refused".to_owned()).message(), "remote service error: refused");
}
