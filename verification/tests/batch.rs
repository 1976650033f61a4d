use iprep::errors::ErrorKind;
use iprep::request::Endpoint;
use iprep::runner::status_is_success;
use iprep::runner::Operation;
use iprep::runner::Phase;
use iprep::runner::Runner;
use iprep::sink::destination_check;
use iprep::sink::render_line;

#[test]
fn check_batch_one_unit_per_target_in_order() {
    let op = Operation::Check {
        max_age: 30,
        verbose: false,
    };
    let mut runner = Runner::new(op);
    assert_eq!(runner.phase, Phase::Running);

    let bodies = [
        r#"{"data":{"ipAddress":"1.1.1.1","score":0}}"#,
        r#"{"data":{"ipAddress":"2.2.2.2","score":55}}"#,
        r#"{"data":{"ipAddress":"3.3.3.3","score":100}}"#,
    ];
    let mut written: Vec<String> = Vec::new();
    for body in bodies {
        let units = runner.accept_response(body).unwrap();
        assert_eq!(units.len(), 1);
        written.extend(units);
    }
    runner.finish();
    assert_eq!(runner.phase, Phase::Completed);
    assert_eq!(
        written,
        vec![
            r#"{"ipAddress":"1.1.1.1","score":0}"#.to_string(),
            r#"{"ipAddress":"2.2.2.2","score":55}"#.to_string(),
            r#"{"ipAddress":"3.3.3.3","score":100}"#.to_string(),
        ]
    );
}

#[test]
fn first_failure_aborts_after_partial_output() {
    // The target file holds `1.2.3.4`, then `bad-target`. The first lookup
    // answers well; the service rejects the second with a 422 status. The
    // sink then holds exactly the one line already written, and the run ends
    // aborted.
    let op = Operation::Check {
        max_age: 30,
        verbose: false,
    };
    let mut runner = Runner::new(op);

    let mut sink = String::new();

    let good = r#"{"data":{"ipAddress":"1.2.3.4","score":2}}"#;
    let units = runner.accept_response(good).unwrap();
    for u in &units {
        sink.push_str(&render_line(u));
    }

    // The second request comes back with status 422: not a success status,
    // so the batch aborts before anything more reaches the sink.
    assert!(!status_is_success(422));
    runner.abort(ErrorKind::HttpStatus);

    assert_eq!(runner.phase, Phase::Aborted);
    assert_eq!(runner.error, Some(ErrorKind::HttpStatus));
    assert_eq!(sink, "{\"ipAddress\":\"1.2.3.4\",\"score\":2}\n");
    assert_eq!(sink.lines().count(), 1);
}

#[test]
fn schema_failure_aborts_block_batch() {
    let op = Operation::CheckBlock { max_age: 30 };
    let mut runner = Runner::new(op);

    let good = r#"{"data":{"reportedAddress":[{"ipAddress":"10.0.0.7"}]}}"#;
    let units = runner.accept_response(good).unwrap();
    assert_eq!(units, vec![r#"{"ipAddress":"10.0.0.7"}"#.to_string()]);

    let bad = r#"{"data":{"networkAddress":"10.0.0.0"}}"#;
    assert_eq!(runner.accept_response(bad), Err(ErrorKind::Schema));
    assert_eq!(runner.phase, Phase::Aborted);
    assert_eq!(runner.error, Some(ErrorKind::Schema));
}

#[test]
fn rerun_with_same_bodies_is_byte_identical() {
    let op = Operation::Check {
        max_age: 30,
        verbose: true,
    };
    let bodies = [
        r#"{"data":{"ipAddress":"1.1.1.1"}}"#,
        r#"{"data":{"ipAddress":"2.2.2.2"}}"#,
    ];
    let mut outputs: Vec<String> = Vec::new();
    for _ in 0..2 {
        let mut runner = Runner::new(op);
        let mut sink = String::new();
        for body in bodies {
            for u in runner.accept_response(body).unwrap() {
                sink.push_str(&render_line(&u));
            }
        }
        runner.finish();
        outputs.push(sink);
    }
    assert_eq!(outputs[0], outputs[1]);
}

#[test]
fn plain_blacklist_passes_five_lines_verbatim() {
    // blacklist --plain --cmin 90 --limit 5, the service answering five
    // newline-separated addresses.
    let op = Operation::Blacklist {
        min_confidence: 90,
        limit: 5,
        plain: true,
        ip_version: None,
    };
    let mut runner = Runner::new(op);

    let q = runner.blacklist_request();
    assert_eq!(q.endpoint, Endpoint::Blacklist);
    let names: Vec<&str> = q.params.iter().map(|p| p.name.as_str()).collect();
    assert_eq!(names, vec!["confidenceMinimum", "limit", "plaintext"]);

    let body = "1.1.1.1\n2.2.2.2\n3.3.3.3\n4.4.4.4\n5.5.5.5";
    let units = runner.accept_blacklist(body).unwrap();
    assert_eq!(runner.phase, Phase::Completed);
    assert_eq!(units, vec![body.to_string()]);

    let mut sink = String::new();
    for u in &units {
        sink.push_str(&render_line(u));
    }
    assert_eq!(sink, "1.1.1.1\n2.2.2.2\n3.3.3.3\n4.4.4.4\n5.5.5.5\n");
    assert_eq!(sink.lines().count(), 5);
    assert!(!sink.contains('{'));
}

#[test]
fn json_blacklist_completes_on_success() {
    let op = Operation::Blacklist {
        min_confidence: 100,
        limit: 10_000,
        plain: false,
        ip_version: None,
    };
    let mut runner = Runner::new(op);
    let body = r#"{"data":[{"ipAddress":"9.9.9.9"}]}"#;
    let units = runner.accept_blacklist(body).unwrap();
    assert_eq!(units, vec![r#"{"ipAddress":"9.9.9.9"}"#.to_string()]);
    assert_eq!(runner.phase, Phase::Completed);
}

#[test]
fn json_blacklist_schema_failure_aborts() {
    let op = Operation::Blacklist {
        min_confidence: 100,
        limit: 10_000,
        plain: false,
        ip_version: None,
    };
    let mut runner = Runner::new(op);
    let body = r#"{"data":"not an array"}"#;
    assert_eq!(runner.accept_blacklist(body), Err(ErrorKind::Schema));
    assert_eq!(runner.phase, Phase::Aborted);
}

#[test]
fn success_statuses_are_the_2xx_range() {
    assert!(status_is_success(200));
    assert!(status_is_success(204));
    assert!(status_is_success(299));
    assert!(!status_is_success(199));
    assert!(!status_is_success(301));
    assert!(!status_is_success(404));
    assert!(!status_is_success(422));
    assert!(!status_is_success(500));
}

#[test]
fn error_labels_are_stable() {
    assert_eq!(ErrorKind::Decode.label(), "decode error");
    assert_eq!(ErrorKind::Schema.label(), "schema error");
    assert_eq!(ErrorKind::DestinationExists.label(), "destination exists");
}

#[test]
fn named_destination_must_be_new() {
    assert_eq!(destination_check(false), Ok(()));
    assert_eq!(
        destination_check(true),
        Err(ErrorKind::DestinationExists)
    );
}

#[test]
fn render_line_appends_one_terminator() {
    assert_eq!(render_line("abc"), "abc\n");
    assert_eq!(render_line(""), "\n");
}
