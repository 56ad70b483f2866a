use postkast::error::ConnectionError;
use postkast::error::ImapFailure;
use postkast::run::report_account;
use postkast::run::render_config_line;
use postkast::run::render_fatal_line;
use postkast::run::report_load_failure;
use postkast::run::Report;
use postkast::run::Run;
use postkast::run::FAILURE_STATUS;
use postkast::source::ConfigError;

fn generic_failure() -> Result<(), ConnectionError> {
    Err(ConnectionError::ImapError(ImapFailure::Other("ConnectionLost".to_string())))
}

fn negative_response() -> Result<(), ConnectionError> {
    Err(ConnectionError::ImapError(ImapFailure::No("LOGIN failed".to_string())))
}

#[test]
fn success_is_marked_on_the_standard_output() {
    assert_eq!(
        report_account(&Ok(())),
        Report { stdout: "---\nDone.\n".to_string(), stderr: String::new(), exit: None }
    );
}

#[test]
fn configuration_failure_is_reported_and_passed_over() {
    let error = ConnectionError::ConfigError("No TLS configured for 'home'".to_string());
    assert_eq!(
        report_account(&Err(error)),
        Report {
            stdout: String::new(),
            stderr: "CONFIG: \"No TLS configured for 'home'\"\n".to_string(),
            exit: None,
        }
    );
}

#[test]
fn generic_protocol_failure_is_reported_and_passed_over() {
    assert_eq!(
        report_account(&generic_failure()),
        Report { stdout: String::new(), stderr: "ConnectionLost\n".to_string(), exit: None }
    );
}

#[test]
fn encoding_failure_is_reported_and_passed_over() {
    let error = ConnectionError::EncodingError("Utf8Error { valid_up_to: 1 }".to_string());
    assert_eq!(
        report_account(&Err(error)),
        Report {
            stdout: String::new(),
            stderr: "Encoding: Utf8Error { valid_up_to: 1 }\n".to_string(),
            exit: None,
        }
    );
}

#[test]
fn negative_response_ends_the_process() {
    assert_eq!(FAILURE_STATUS, 1);
    assert_eq!(
        report_account(&negative_response()),
        Report {
            stdout: String::new(),
            stderr: "ERROR: \"Invalid 0\"\n".to_string(),
            exit: Some(1),
        }
    );
}

#[test]
fn load_failure_shows_the_sample_and_ends_the_process() {
    let sample = Ok("[[servers]]\nname = \"GMail\"\n".to_string());
    assert_eq!(
        report_load_failure(&ConfigError::NoProjectDirectory, &sample),
        Report {
            stdout: "[[servers]]\nname = \"GMail\"\n\n".to_string(),
            stderr: "ERROR: \"Cannot locate project directories\"\n".to_string(),
            exit: Some(1),
        }
    );
}

#[test]
fn load_failure_without_a_sample_says_why() {
    let sample = Err("Message(\"Cannot convert default settings to TOML\")".to_string());
    assert_eq!(
        report_load_failure(&ConfigError::Unreadable("missing field `servers`".to_string()), &sample),
        Report {
            stdout: String::new(),
            stderr: "ERR: Message(\"Cannot convert default settings to TOML\")\n\
                     ERROR: \"missing field `servers`\"\n"
                .to_string(),
            exit: Some(1),
        }
    );
}

#[test]
fn second_of_three_accounts_fails_and_the_third_is_still_processed() {
    let mut run = Run::new(3);
    assert_eq!(run.next_account(), Some(0));
    let first = run.record(&Ok(()));
    assert_eq!(first.stdout, "---\nDone.\n");
    assert_eq!(first.exit, None);
    assert_eq!(run.next_account(), Some(1));
    let second = run.record(&generic_failure());
    assert_eq!(second.stderr, "ConnectionLost\n");
    assert_eq!(second.exit, None);
    assert_eq!(run.next_account(), Some(2));
    let third = run.record(&Ok(()));
    assert_eq!(third.stdout, "---\nDone.\n");
    assert_eq!(third.exit, None);
    assert_eq!(run.next_account(), None);
    assert_eq!(run, Run { total: 3, processed: 3, halted: false });
    assert_eq!(run.exit_status(), 0);
}

#[test]
fn configuration_failure_of_an_account_does_not_stop_the_run() {
    let mut run = Run::new(2);
    run.record(&Err(ConnectionError::ConfigError("No TLS configured for 'a'".to_string())));
    assert_eq!(run.next_account(), Some(1));
    assert_eq!(run.exit_status(), 0);
}

#[test]
fn negative_response_on_the_second_account_halts_the_run() {
    let mut run = Run::new(3);
    run.record(&Ok(()));
    let report = run.record(&negative_response());
    assert_eq!(report.exit, Some(1));
    assert_eq!(run, Run { total: 3, processed: 2, halted: true });
    assert_eq!(run.next_account(), None);
    assert_ne!(run.exit_status(), 0);
    assert_eq!(run.exit_status(), 1);
}

#[test]
fn negative_response_on_the_first_account_halts_the_run() {
    let mut run = Run::new(3);
    run.record(&negative_response());
    assert_eq!(run.next_account(), None);
    assert_eq!(run, Run { total: 3, processed: 1, halted: true });
    assert_eq!(run.exit_status(), 1);
}

#[test]
fn halted_run_records_nothing_more() {
    let mut run = Run::new(3);
    run.record(&negative_response());
    run.record(&Ok(()));
    assert_eq!(run, Run { total: 3, processed: 1, halted: true });
    assert_eq!(run.exit_status(), 1);
}

#[test]
fn finished_run_records_nothing_more() {
    let mut run = Run::new(1);
    run.record(&Ok(()));
    run.record(&negative_response());
    assert_eq!(run, Run { total: 1, processed: 1, halted: false });
    assert_eq!(run.exit_status(), 0);
}

#[test]
fn run_over_no_account_ends_well() {
    let run = Run::new(0);
    assert_eq!(run.next_account(), None);
    assert_eq!(run.exit_status(), 0);
}

#[test]
fn load_failure_for_partial_credentials_names_the_account() {
    let sample = Ok(String::new());
    assert_eq!(
        report_load_failure(&ConfigError::PartialCredentials("work".to_string()), &sample),
        Report {
            stdout: "\n".to_string(),
            stderr: "ERROR: \"Credentials of 'work' need both username and password\"\n"
                .to_string(),
            exit: Some(1),
        }
    );
}

#[test]
fn lines_hold_the_quoted_message_as_it_is_given() {
    assert_eq!(render_fatal_line("\"Invalid 0\""), "ERROR: \"Invalid 0\"\n");
    assert_eq!(render_fatal_line(""), "ERROR: \n");
    assert_eq!(render_config_line("\"no TLS\""), "CONFIG: \"no TLS\"\n");
}

#[test]
fn message_of_a_configuration_failure_is_quoted_and_escaped() {
    let error = ConnectionError::ConfigError("tab\there \"quoted\"".to_string());
    assert_eq!(
        report_account(&Err(error)).stderr,
        "CONFIG: \"tab\\there \\\"quoted\\\"\"\n"
    );
}
