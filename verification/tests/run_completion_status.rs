use seqdir::run_completion::parse_run_completion;
use seqdir::run_completion::StatusParseError;
use seqdir::CompletionStatus;
use seqdir::Message;

const COMPLETED_RCS: &str = "<?xml version=\"1.0\" encoding=\"utf-8\"?>\
<RunCompletionStatus xmlns:xsd=\"http://www.w3.org/2001/XMLSchema\">\
<RunId>20231231_foo_ABCXYZ</RunId>\
<CompletionStatus>CompletedAsPlanned</CompletionStatus>\
<ErrorDescription>None</ErrorDescription>\
</RunCompletionStatus>";

const FAILED_RCS: &str = "<?xml version=\"1.0\" encoding=\"utf-8\"?>\
<RunCompletionStatus xmlns:xsd=\"http://www.w3.org/2001/XMLSchema\">\
<RunId>20231231_bar_ABCXYZ</RunId>\
<CompletionStatus>ExceptionEndedEarly</CompletionStatus>\
<ErrorDescription>Run ended early due to an exception</ErrorDescription>\
</RunCompletionStatus>";

const GARBAGE_RCS: &str = "not a completion status document <<<";

#[test]
fn parse_completed() {
    let completion_status = parse_run_completion(COMPLETED_RCS).unwrap();

    match completion_status {
        CompletionStatus::CompletedAsPlanned(message) => {
            assert_eq!(message.message, None);
            assert_eq!(message.run_id, "20231231_foo_ABCXYZ");
        }
        _ => panic!("expected CompletedAsPlanned variant"),
    }
}

#[test]
fn parse_failed() {
    let completion_status = parse_run_completion(FAILED_RCS).unwrap();

    match completion_status {
        CompletionStatus::ExceptionEndedEarly(message) => {
            assert_ne!(message.message, None);
            assert_eq!(message.run_id, "20231231_bar_ABCXYZ");
        }
        _ => panic!("expected ExceptionEndedEarly variant"),
    }
}

#[test]
fn bad_message_does_not_panic() {
    assert!(parse_run_completion(GARBAGE_RCS).is_err());
}

#[test]
fn not_xml_is_reported() {
    assert_eq!(
        parse_run_completion(GARBAGE_RCS),
        Err(StatusParseError::NotXml)
    );
}

#[test]
fn missing_run_id_is_reported() {
    let doc = "<RunCompletionStatus>\
        <CompletionStatus>CompletedAsPlanned</CompletionStatus>\
        </RunCompletionStatus>";
    assert_eq!(parse_run_completion(doc), Err(StatusParseError::MissingRunId));
}

#[test]
fn empty_run_id_is_reported() {
    let doc = "<RunCompletionStatus>\
        <RunId></RunId>\
        <CompletionStatus>CompletedAsPlanned</CompletionStatus>\
        </RunCompletionStatus>";
    assert_eq!(parse_run_completion(doc), Err(StatusParseError::EmptyRunId));
}

#[test]
fn missing_status_is_reported() {
    let doc = "<RunCompletionStatus>\
        <RunId>run01</RunId>\
        </RunCompletionStatus>";
    assert_eq!(
        parse_run_completion(doc),
        Err(StatusParseError::MissingStatus)
    );
}

#[test]
fn empty_status_is_reported() {
    let doc = "<RunCompletionStatus>\
        <RunId>run01</RunId>\
        <CompletionStatus></CompletionStatus>\
        </RunCompletionStatus>";
    assert_eq!(parse_run_completion(doc), Err(StatusParseError::EmptyStatus));
}

#[test]
fn user_ended_and_other_classifications() {
    let user = "<RunCompletionStatus>\
        <RunId>run01</RunId>\
        <CompletionStatus>UserEndedEarly</CompletionStatus>\
        <ErrorDescription>Stopped by hand</ErrorDescription>\
        </RunCompletionStatus>";
    match parse_run_completion(user).unwrap() {
        CompletionStatus::UserEndedEarly(message) => {
            assert_eq!(message.run_id, "run01");
            assert_eq!(message.message.as_deref(), Some("Stopped by hand"));
        }
        other => panic!("expected UserEndedEarly, got {other:?}"),
    }
    let odd = "<RunCompletionStatus>\
        <RunId>run01</RunId>\
        <CompletionStatus>SomethingNew</CompletionStatus>\
        </RunCompletionStatus>";
    assert!(matches!(
        parse_run_completion(odd).unwrap(),
        CompletionStatus::Other(..)
    ));
}

#[test]
fn message_display_text() {
    let with_text = Message {
        run_id: "run01".to_string(),
        message: Some("Stopped by hand".to_string()),
    };
    assert_eq!(with_text.display(), "run01 : Stopped by hand");
    let without = Message { run_id: "run01".to_string(), message: None };
    assert_eq!(without.display(), "run01 : None");
}

#[test]
fn completion_status_display_text() {
    let status = parse_run_completion(FAILED_RCS).unwrap();
    assert_eq!(
        status.display(),
        "ExceptionEndedEarly : 20231231_bar_ABCXYZ : Run ended early due to an exception"
    );
}
