use tldr::error::{describe_request_failure, describe_response_failure, exit_status, Error};
use tldr::platform::Host;
use tldr::resolver::{FetchOutcome, Resolver, Step};
use tldr::stream::pipe;

#[test]
fn request_failure_line() {
    assert_eq!(
        describe_request_failure("foo", "connection refused"),
        "Error fetching description for `foo`: connection refused"
    );
    assert_eq!(describe_request_failure("", ""), "Error fetching description for ``: ");
}

#[test]
fn response_failure_line() {
    assert_eq!(
        describe_response_failure("bar", "404 Not Found"),
        "Could not fetch description for command `bar`: 404 Not Found"
    );
    assert_eq!(
        describe_response_failure("", ""),
        "Could not fetch description for command ``: "
    );
}

#[test]
fn request_failure_message_carries_command_and_cause() {
    let error = Error::HttpRequest { command: "foo".to_string(), cause: "timed out".to_string() };
    assert_eq!(error.message(), "Error fetching description for `foo`: timed out");
}

#[test]
fn response_failure_message_prints_the_status() {
    let error = Error::HttpResponse { command: "bar".to_string(), status: 404 };
    assert_eq!(error.message(), "Could not fetch description for command `bar`: 404 Not Found");

    let error = Error::HttpResponse { command: "bar".to_string(), status: 500 };
    assert_eq!(
        error.message(),
        "Could not fetch description for command `bar`: 500 Internal Server Error"
    );

    let error = Error::HttpResponse { command: "tea".to_string(), status: 418 };
    assert_eq!(error.message(), "Could not fetch description for command `tea`: 418 I'm a teapot");
}

#[test]
fn response_failure_message_prints_an_unknown_status() {
    let error = Error::HttpResponse { command: "bar".to_string(), status: 799 };
    assert_eq!(
        error.message(),
        "Could not fetch description for command `bar`: 799 <unknown status code>"
    );
}

#[test]
fn stream_failure_message_is_fixed() {
    let error = Error::Io { cause: "broken pipe".to_string() };
    assert_eq!(error.message(), "Couldn't read stream");
    let error = Error::Io { cause: String::new() };
    assert_eq!(error.message(), "Couldn't read stream");
}

#[test]
fn message_is_a_single_line() {
    let errors = [
        Error::HttpRequest { command: "foo".to_string(), cause: "down".to_string() },
        Error::HttpResponse { command: "foo".to_string(), status: 503 },
        Error::Io { cause: "down".to_string() },
    ];
    for error in errors {
        assert!(!error.message().contains('\n'));
    }
}

#[test]
fn exit_status_is_zero_on_success_and_one_on_failure() {
    assert_eq!(exit_status(&Ok(())), 0);
    assert_eq!(exit_status(&Err(Error::Io { cause: "x".to_string() })), 1);
    assert_eq!(
        exit_status(&Err(Error::HttpResponse { command: "bar".to_string(), status: 404 })),
        1
    );
    assert_eq!(
        exit_status(&Err(Error::HttpRequest {
            command: "bar".to_string(),
            cause: "x".to_string(),
        })),
        1
    );
}

#[test]
fn common_page_is_printed_as_it_came() {
    let resolver = Resolver::new("foo", Host::Other);
    assert_eq!(
        resolver.request().url,
        "http://raw.github.com/rprieto/tldr/master/pages/common/foo.md"
    );
    assert_eq!(resolver.advance(FetchOutcome::Answered { status: 200 }), Step::Stream);

    let mut stdout: Vec<Vec<u8>> = Vec::new();
    let outcome = pipe(b"Usage: foo\n", &mut stdout);
    assert_eq!(outcome, Ok(()));
    assert_eq!(stdout.concat(), b"Usage: foo\n".to_vec());
    assert_eq!(exit_status(&outcome), 0);
}

#[test]
fn missing_page_is_reported_with_command_and_status() {
    let resolver = Resolver::new("bar", Host::Other);
    let second = match resolver.advance(FetchOutcome::Answered { status: 404 }) {
        Step::Retry(next) => next,
        other => panic!("expected a second attempt, got {:?}", other),
    };
    let error = match second.advance(FetchOutcome::Answered { status: 404 }) {
        Step::Fail(error) => error,
        other => panic!("expected a failure, got {:?}", other),
    };
    let line = error.message();
    assert!(line.contains("bar"));
    assert!(line.contains("404"));
    assert_eq!(line, "Could not fetch description for command `bar`: 404 Not Found");
    assert_eq!(exit_status(&Err(error)), 1);
}
