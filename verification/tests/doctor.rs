use shimesu::cloudformation::{StackDescription, StackOutput, StackStatus};
use shimesu::doctor::{
    check_line, head_bucket_failure, is_stack_not_found, map_describe_table_error, map_head_bucket_error,
    summary_line, validate_doctor_output, DoctorCheck, DoctorCheckName, DoctorCheckStatus, DoctorEvent,
    DoctorOutput, DoctorRequest, DoctorRun, DoctorStackSnapshot,
};
use shimesu::error::ShimesuError;

struct FakeBackend {
    credentials_ok: bool,
    stack_snapshot: Option<DoctorStackSnapshot>,
    bucket_ok: bool,
    table_ok: bool,
}

fn snapshot(status: StackStatus) -> DoctorStackSnapshot {
    DoctorStackSnapshot {
        status,
        bucket_name: Some("test-bucket".to_string()),
        table_name: Some("test-table".to_string()),
        distribution_id: Some("DIST123".to_string()),
        base_domain: Some("example.com".to_string()),
    }
}

impl FakeBackend {
    fn all_pass() -> Self {
        Self { credentials_ok: true, stack_snapshot: Some(snapshot(StackStatus::CreateComplete)), bucket_ok: true, table_ok: true }
    }
}

/// Drives a doctor run the way the command does, answering each request
/// from the fake backend; returns the report and the requests made.
fn run_doctor_checks(backend: &FakeBackend) -> (DoctorOutput, Vec<DoctorRequest>) {
    let mut run = DoctorRun::start();
    let mut requests = Vec::new();
    loop {
        let request = run.next_request();
        requests.push(request.clone());
        let event = match request {
            DoctorRequest::CheckCredentials => DoctorEvent::Credentials(if backend.credentials_ok {
                Ok(())
            } else {
                Err(ShimesuError::AwsAuth("credentials not available".to_string()))
            }),
            DoctorRequest::DescribeStack => DoctorEvent::Stack(Ok(backend.stack_snapshot.clone())),
            DoctorRequest::HeadBucket(_) => DoctorEvent::Bucket(if backend.bucket_ok {
                Ok(())
            } else {
                Err(ShimesuError::Generic("bucket not accessible".to_string()))
            }),
            DoctorRequest::DescribeTable(_) => DoctorEvent::Table(if backend.table_ok {
                Ok(())
            } else {
                Err(ShimesuError::Generic("table not accessible".to_string()))
            }),
            DoctorRequest::Finished => break,
        };
        run.record(event);
    }
    (run.finish(), requests)
}

#[test]
fn test_all_checks_pass() {
    let (output, requests) = run_doctor_checks(&FakeBackend::all_pass());

    assert!(output.healthy);
    assert_eq!(output.checks.len(), 6);
    let names = [
        DoctorCheckName::Credentials,
        DoctorCheckName::StackExists,
        DoctorCheckName::StackStatus,
        DoctorCheckName::StackOutputs,
        DoctorCheckName::S3Bucket,
        DoctorCheckName::DynamodbTable,
    ];
    for (i, name) in names.iter().enumerate() {
        assert_eq!(output.checks[i].name, *name);
        assert_eq!(output.checks[i].status, DoctorCheckStatus::Passed);
    }
    assert_eq!(requests[2], DoctorRequest::HeadBucket("test-bucket".to_string()));
    assert_eq!(requests[3], DoctorRequest::DescribeTable("test-table".to_string()));
}

#[test]
fn test_credentials_failure_still_reports_six_checks() {
    let backend = FakeBackend { credentials_ok: false, ..FakeBackend::all_pass() };
    let (output, _) = run_doctor_checks(&backend);

    assert!(!output.healthy);
    assert_eq!(output.checks.len(), 6);
    assert_eq!(output.checks[0].status, DoctorCheckStatus::Failed);
    assert_eq!(
        output.checks[0].message.as_deref(),
        Some("credentials check failed: AWS authentication failed: credentials not available")
    );
    for check in &output.checks[1..] {
        assert_eq!(check.status, DoctorCheckStatus::Passed);
    }
    assert_eq!(output.checks[0].name, DoctorCheckName::Credentials);
    assert_eq!(output.checks[1].name, DoctorCheckName::StackExists);
    assert_eq!(output.checks[2].name, DoctorCheckName::StackStatus);
    assert_eq!(output.checks[3].name, DoctorCheckName::StackOutputs);
    assert_eq!(output.checks[4].name, DoctorCheckName::S3Bucket);
    assert_eq!(output.checks[5].name, DoctorCheckName::DynamodbTable);
}

#[test]
fn test_missing_stack_skips_remaining() {
    let backend = FakeBackend { stack_snapshot: None, ..FakeBackend::all_pass() };
    let (output, requests) = run_doctor_checks(&backend);

    assert!(!output.healthy);
    assert_eq!(output.checks.len(), 6);
    assert_eq!(output.checks[0].status, DoctorCheckStatus::Passed);
    assert_eq!(output.checks[1].status, DoctorCheckStatus::Failed);
    for check in &output.checks[2..] {
        assert_eq!(check.status, DoctorCheckStatus::NotChecked);
    }
    assert_eq!(requests.len(), 3);
}

#[test]
fn test_unhealthy_stack_continues_to_connectivity() {
    let backend = FakeBackend {
        stack_snapshot: Some(snapshot(StackStatus::UpdateRollbackComplete)),
        ..FakeBackend::all_pass()
    };
    let (output, _) = run_doctor_checks(&backend);

    assert!(!output.healthy);
    assert_eq!(output.checks.len(), 6);
    assert_eq!(output.checks[2].status, DoctorCheckStatus::Failed);
    assert_eq!(
        output.checks[2].message.as_deref(),
        Some("stack status is unhealthy: UpdateRollbackComplete")
    );
    assert_eq!(output.checks[4].status, DoctorCheckStatus::Passed);
    assert_eq!(output.checks[5].status, DoctorCheckStatus::Passed);
}

#[test]
fn test_missing_outputs_skips_s3_and_dynamodb() {
    let backend = FakeBackend {
        stack_snapshot: Some(DoctorStackSnapshot {
            status: StackStatus::CreateComplete,
            bucket_name: None,
            table_name: None,
            distribution_id: None,
            base_domain: None,
        }),
        ..FakeBackend::all_pass()
    };
    let (output, _) = run_doctor_checks(&backend);

    assert!(!output.healthy);
    assert_eq!(output.checks.len(), 6);
    assert_eq!(output.checks[0].status, DoctorCheckStatus::Passed);
    assert_eq!(output.checks[1].status, DoctorCheckStatus::Passed);
    assert_eq!(output.checks[2].status, DoctorCheckStatus::Passed);
    assert_eq!(output.checks[3].status, DoctorCheckStatus::Failed);
    assert_eq!(
        output.checks[3].message.as_deref(),
        Some("missing outputs: BucketName, TableName, DistributionId, BaseDomain")
    );
    assert_eq!(output.checks[4].status, DoctorCheckStatus::NotChecked);
    assert_eq!(output.checks[5].status, DoctorCheckStatus::NotChecked);
    assert_eq!(output.checks[4].message.as_deref(), Some("outputs not available"));
    assert_eq!(output.checks[5].message.as_deref(), Some("outputs not available"));
}

#[test]
fn test_empty_output_values_fail_stack_outputs_and_skip_storage_checks() {
    let backend = FakeBackend {
        stack_snapshot: Some(DoctorStackSnapshot {
            status: StackStatus::CreateComplete,
            bucket_name: Some(" ".to_string()),
            table_name: Some("".to_string()),
            distribution_id: Some("DIST123".to_string()),
            base_domain: Some("\t".to_string()),
        }),
        ..FakeBackend::all_pass()
    };
    let (output, _) = run_doctor_checks(&backend);

    assert!(!output.healthy);
    assert_eq!(output.checks[3].status, DoctorCheckStatus::Failed);
    assert_eq!(
        output.checks[3].message.as_deref(),
        Some("missing outputs: BucketName, TableName, BaseDomain")
    );
    assert_eq!(output.checks[4].status, DoctorCheckStatus::NotChecked);
    assert_eq!(output.checks[5].status, DoctorCheckStatus::NotChecked);
}

#[test]
fn test_s3_failure_with_dynamodb_still_attempted() {
    let backend = FakeBackend { bucket_ok: false, ..FakeBackend::all_pass() };
    let (output, _) = run_doctor_checks(&backend);

    assert!(!output.healthy);
    assert_eq!(output.checks.len(), 6);
    assert_eq!(output.checks[4].status, DoctorCheckStatus::Failed);
    assert_eq!(output.checks[5].status, DoctorCheckStatus::Passed);
}

#[test]
fn test_dynamodb_failure_with_s3_still_passes() {
    let backend = FakeBackend { table_ok: false, ..FakeBackend::all_pass() };
    let (output, _) = run_doctor_checks(&backend);

    assert!(!output.healthy);
    assert_eq!(output.checks[4].status, DoctorCheckStatus::Passed);
    assert_eq!(output.checks[5].status, DoctorCheckStatus::Failed);
    assert_eq!(
        output.checks[5].message.as_deref(),
        Some("table check failed: Error: table not accessible")
    );
}

#[test]
fn test_failed_check_includes_message() {
    let backend = FakeBackend { stack_snapshot: None, ..FakeBackend::all_pass() };
    let (output, _) = run_doctor_checks(&backend);

    assert_eq!(output.checks[1].status, DoctorCheckStatus::Failed);
    assert_eq!(output.checks[1].message.as_ref().unwrap(), "stack not found");
}

#[test]
fn test_not_checked_includes_reason() {
    let backend = FakeBackend { stack_snapshot: None, ..FakeBackend::all_pass() };
    let (output, _) = run_doctor_checks(&backend);

    assert_eq!(output.checks[4].status, DoctorCheckStatus::NotChecked);
    assert_eq!(output.checks[4].message.as_ref().unwrap(), "stack not found");
}

#[test]
fn describe_failure_skips_remaining_with_its_reason() {
    let mut run = DoctorRun::start();
    run.record(DoctorEvent::Credentials(Ok(())));
    run.record(DoctorEvent::Stack(Err(ShimesuError::Generic("boom".to_string()))));
    assert_eq!(run.next_request(), DoctorRequest::Finished);
    assert_eq!(run.checks[1].message.as_deref(), Some("describe stack failed: Error: boom"));
    assert_eq!(run.checks[5].message.as_deref(), Some("could not describe stack"));
}

#[test]
fn answers_to_requests_not_made_are_ignored() {
    let mut run = DoctorRun::start();
    run.record(DoctorEvent::Bucket(Ok(())));
    assert_eq!(run.checks.len(), 0);
    assert_eq!(run.next_request(), DoctorRequest::CheckCredentials);
}

#[test]
fn test_unhealthy_doctor_output_returns_validation_error() {
    let output = DoctorOutput::new(vec![
        DoctorCheck::passed(DoctorCheckName::Credentials),
        DoctorCheck::failed(DoctorCheckName::StackExists, "missing"),
        DoctorCheck::not_checked(DoctorCheckName::StackStatus, "skipped"),
    ]);

    let result = validate_doctor_output(&output);

    assert!(
        matches!(result, Err(ShimesuError::Validation(message)) if message.contains("2 non-passed checks"))
    );
}

#[test]
fn healthy_output_passes_validation_and_summary() {
    let checks = vec![DoctorCheck::passed(DoctorCheckName::Credentials)];
    let output = DoctorOutput::new(checks.clone());
    assert!(validate_doctor_output(&output).is_ok());
    assert_eq!(summary_line(&checks), (true, "All checks passed".to_string()));
    let mixed = vec![
        DoctorCheck::passed(DoctorCheckName::Credentials),
        DoctorCheck::failed(DoctorCheckName::StackExists, "x"),
    ];
    assert_eq!(summary_line(&mixed), (false, "1 of 2 check(s) did not pass".to_string()));
    assert_eq!(check_line(&mixed[1]), "Stack exists: x");
    assert_eq!(check_line(&mixed[0]), "Credentials");
}

#[test]
fn test_check_passed() {
    let check = DoctorCheck::passed(DoctorCheckName::Credentials);
    assert_eq!(check.status, DoctorCheckStatus::Passed);
    assert_eq!(check.message, None);
}

#[test]
fn test_check_name_label_is_human_readable() {
    assert_eq!(DoctorCheckName::Credentials.label(), "Credentials");
    assert_eq!(DoctorCheckName::StackExists.label(), "Stack exists");
    assert_eq!(DoctorCheckName::DynamodbTable.label(), "DynamoDB table");
}

#[test]
fn check_names_serialize_in_snake_case() {
    assert_eq!(DoctorCheckName::Credentials.as_str(), "credentials");
    assert_eq!(DoctorCheckName::S3Bucket.as_str(), "s3_bucket");
}

#[test]
fn test_check_failed() {
    let check = DoctorCheck::failed(DoctorCheckName::StackExists, "not found");
    assert_eq!(check.status, DoctorCheckStatus::Failed);
    assert_eq!(check.message, Some("not found".to_string()));
}

#[test]
fn test_output_healthy_all_passed() {
    let checks = vec![
        DoctorCheck::passed(DoctorCheckName::Credentials),
        DoctorCheck::passed(DoctorCheckName::StackExists),
    ];
    let output = DoctorOutput::new(checks);
    assert!(output.healthy);
}

#[test]
fn test_output_not_healthy_with_failure() {
    let checks = vec![
        DoctorCheck::passed(DoctorCheckName::Credentials),
        DoctorCheck::failed(DoctorCheckName::StackExists, "failed"),
    ];
    let output = DoctorOutput::new(checks);
    assert!(!output.healthy);
}

#[test]
fn map_head_bucket_error_returns_not_found_for_missing_bucket() {
    let error = map_head_bucket_error("site-bucket", "NoSuchBucket: bucket does not exist");

    assert!(matches!(error, ShimesuError::NotFound(message) if message == "Bucket 'site-bucket' not found"));
}

#[test]
fn map_head_bucket_error_returns_auth_for_forbidden_bucket() {
    let error = map_head_bucket_error("site-bucket", "403 Forbidden");

    assert!(
        matches!(error, ShimesuError::AwsAuth(message) if message.contains("Failed to check S3 bucket 'site-bucket'"))
    );
}

#[test]
fn service_not_found_flag_maps_bucket_to_not_found() {
    let error = head_bucket_failure("site-bucket", true, "opaque");
    assert!(matches!(error, ShimesuError::NotFound(message) if message == "Bucket 'site-bucket' not found"));
}

#[test]
fn map_describe_table_error_returns_auth_for_access_denied() {
    let error = map_describe_table_error(
        "sites-table",
        "AccessDeniedException: not authorized to perform dynamodb:DescribeTable",
    );

    assert!(
        matches!(error, ShimesuError::AwsAuth(message) if message.contains("Failed to describe DynamoDB table"))
    );
}

#[test]
fn map_describe_table_error_returns_throttled_for_rate_limits() {
    let error = map_describe_table_error("sites-table", "ThrottlingException: Rate exceeded");

    assert!(
        matches!(error, ShimesuError::AwsThrottled(message) if message == "ThrottlingException: Rate exceeded")
    );
}

#[test]
fn stack_not_found_error_is_detected() {
    assert!(is_stack_not_found("ValidationError: Stack with id test-stack does not exist"));
}

#[test]
fn snapshot_from_stack_extracts_expected_outputs_and_unknown_status() {
    let output = |key: &str, value: &str| StackOutput {
        output_key: Some(key.to_string()),
        output_value: Some(value.to_string()),
    };
    let stack = StackDescription {
        outputs: vec![
            output("BucketName", "site-bucket"),
            output("TableName", "sites-table"),
            output("DistributionId", "DIST123"),
            output("BaseDomain", "static.example.com"),
        ],
        ..StackDescription::default()
    };

    let snapshot = DoctorStackSnapshot::from_stack(&stack);

    assert_eq!(snapshot.status.as_str(), "UNKNOWN");
    assert_eq!(snapshot.bucket_name.as_deref(), Some("site-bucket"));
    assert_eq!(snapshot.table_name.as_deref(), Some("sites-table"));
    assert_eq!(snapshot.distribution_id.as_deref(), Some("DIST123"));
    assert_eq!(snapshot.base_domain.as_deref(), Some("static.example.com"));
    assert!(snapshot.all_outputs_present());
}

#[test]
fn every_check_passes_exactly_when_it_has_no_message() {
    let backends = [
        FakeBackend::all_pass(),
        FakeBackend { credentials_ok: false, ..FakeBackend::all_pass() },
        FakeBackend { stack_snapshot: None, ..FakeBackend::all_pass() },
        FakeBackend { bucket_ok: false, ..FakeBackend::all_pass() },
        FakeBackend { table_ok: false, ..FakeBackend::all_pass() },
    ];
    for backend in &backends {
        let (output, _) = run_doctor_checks(backend);
        assert_eq!(output.checks.len(), 6);
        for check in &output.checks {
            assert_eq!(check.status == DoctorCheckStatus::Passed, check.message.is_none());
        }
    }
}
