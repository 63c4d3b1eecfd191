use shimesu::certificate::{
    acm_tags_belong_to_stack, certificate_after_create_race, certificate_after_wait, certificate_stack_name,
    certificate_stack_state, check_hosted_zone, cloudformation_ownership_tags, cloudformation_tags_belong_to_stack,
    completed_validation_records, domain_belongs_to_zone, managed_certificate_stack_from_description,
    map_certificate_create_error, validate_certificate_facts, AcmTag, CertificateCreateOutcome,
    CertificateStackState, ManagedCertificateStack,
};
use shimesu::cloudformation::{
    failure_event_message, interpret_stack_status, OperationEvent, StackDescription, StackOutput,
    StackParameter, StackStatus, Tag,
};
use shimesu::config::Config;
use shimesu::destroy::{
    interpret_delete_poll, map_delete_stack_error, should_wait_for_delete, DeleteRequestOutcome,
    StackDestroyInput, StackDestroyOutput,
};
use shimesu::error::ShimesuError;
use shimesu::stack::{
    installation_ownership, map_create_stack_service_error, map_update_stack_error, previous_value_parameters,
    stack_failure_with_details, stack_status_from_description, validate_installation_outputs,
    InstallationOwnership, StackInitOutput, StackInitResolvedOutputs, StackUpdateOutput, UpdateRequestOutcome,
    UPDATE_PARAMETER_KEYS,
};
use shimesu::stack_input::StackInitInput;
use shimesu::status::{build_status_output, health_line, parse_required_stack_outputs, CallerIdentity, RequiredStackOutputs};
use shimesu::support::StackOutputs;
use shimesu::teardown::{
    bucket_name_matches_stack, certificate_cleanup_domain, delete_batches, is_absent_resource,
    is_missing_certificate, table_name, tags_belong_to_stack, StackTeardownInput, StackTeardownOutput,
    VersionedObject, DELETE_BATCH_LIMIT,
};

fn valid_certificate_arn() -> &'static str {
    "arn:aws:acm:us-east-1:123456789012:certificate/12345678-abcd-1234-abcd-1234567890ab"
}

fn config(region: &str) -> Config {
    Config {
        stack_name: "shimesu-demo".to_string(),
        region: Some(region.to_string()),
        profile: None,
        json: false,
        yes: false,
    }
}

fn destroy_config() -> Config {
    Config { stack_name: "test-stack".to_string(), ..config("us-east-1") }
}

fn tag(key: &str, value: &str) -> Tag {
    Tag { key: Some(key.to_string()), value: Some(value.to_string()) }
}

fn param(key: &str, value: &str) -> StackParameter {
    StackParameter::with_value(key, value)
}

fn output(key: &str, value: &str) -> StackOutput {
    StackOutput { output_key: Some(key.to_string()), output_value: Some(value.to_string()) }
}

fn certificate_stack(status: StackStatus, domain: &str, arn: Option<&str>) -> StackDescription {
    StackDescription {
        stack_name: Some("test-certificate".to_string()),
        stack_status: Some(status),
        parameters: vec![param("BaseDomain", domain)],
        outputs: arn.map(|a| vec![output("CertificateArn", a)]).unwrap_or_default(),
        tags: vec![tag("Application", "shimesu"), tag("StackName", "shimesu-demo")],
    }
}

fn owned_certificate_stack(tags: Vec<Tag>, domain: &str) -> StackDescription {
    StackDescription {
        stack_name: Some("shimesu-demo-certificate".to_string()),
        stack_status: None,
        parameters: vec![param("BaseDomain", domain)],
        outputs: vec![output("CertificateArn", "arn:aws:acm:us-east-1:123456789012:certificate/example")],
        tags,
    }
}

fn stack_outputs() -> StackOutputs {
    StackOutputs {
        base_domain: Some("pages.example.com".to_string()),
        bucket_name: Some("bucket-demo".to_string()),
        table_name: Some("shimesu-demo-projects".to_string()),
        certificate_arn: None,
        distribution_id: Some("E1234567890".to_string()),
        distribution_domain_name: Some("d111111abcdef8.cloudfront.net".to_string()),
    }
}

fn installation_outputs() -> StackOutputs {
    StackOutputs {
        table_name: Some("shimesu-demo-projects".to_string()),
        bucket_name: Some("shimesu-demo-contentbucket-a1b2c3".to_string()),
        base_domain: Some("pages.example.com".to_string()),
        certificate_arn: Some("arn:aws:acm:us-east-1:123456789012:certificate/example".to_string()),
        distribution_id: Some("E1234567890".to_string()),
        distribution_domain_name: Some("d111111abcdef8.cloudfront.net".to_string()),
    }
}

fn keys(parameters: &[StackParameter]) -> Vec<String> {
    parameters.iter().filter_map(|p| p.parameter_key.clone()).collect()
}

// ---- stack init input ----

#[test]
fn stack_init_input_returns_usage_error_when_domain_is_empty() {
    match StackInitInput::parse("", None) {
        Err(ShimesuError::Usage(message)) => assert!(message.contains("domain")),
        Err(other) => panic!("expected usage error, got {other:?}"),
        Ok(_) => panic!("expected usage error for empty domain"),
    }
}

#[test]
fn stack_init_input_returns_validation_error_for_malformed_base_domain() {
    let overlong_label = "a".repeat(64);
    let malformed_domains = [
        "Pages.example.com".to_string(),
        "-pages.example.com".to_string(),
        overlong_label + ".example.com",
    ];
    for base_domain in malformed_domains {
        match StackInitInput::parse(&base_domain, None) {
            Err(ShimesuError::Validation(message)) => assert!(message.contains("base domain")),
            Err(other) => panic!("expected validation error, got {other:?}"),
            Ok(_) => panic!("expected validation error for malformed base domain"),
        }
    }
}

#[test]
fn stack_init_input_returns_validation_error_for_malformed_certificate_arn() {
    let malformed_arns = [
        "arn:aws:acm:eu-central-1:123456789012:certificate/12345678-abcd-1234-abcd-1234567890ab",
        "arn:aws:acm:us-east-1:12345:certificate/12345678-abcd-1234-abcd-1234567890ab",
        "arn:aws:acm:us-east-1:123456789012:certificate/",
    ];
    for certificate_arn in malformed_arns {
        match StackInitInput::parse("pages.example.com", Some(certificate_arn)) {
            Err(ShimesuError::Validation(message)) => assert!(message.contains("certificate arn")),
            Err(other) => panic!("expected validation error, got {other:?}"),
            Ok(_) => panic!("expected validation error for malformed certificate arn"),
        }
    }
}

#[test]
fn stack_init_input_returns_validation_error_for_invalid_certificate_id_characters() {
    let result = StackInitInput::parse(
        "pages.example.com",
        Some("arn:aws:acm:us-east-1:123456789012:certificate/12345678-abcd-1234-abcd-1234567890ag"),
    );
    match result {
        Err(ShimesuError::Validation(message)) => assert!(message.contains("certificate arn")),
        Err(other) => panic!("expected validation error, got {other:?}"),
        Ok(_) => panic!("expected validation error for malformed certificate arn"),
    }
}

#[test]
fn stack_init_input_accepts_managed_certificate() {
    let input = StackInitInput::parse("pages.example.com", None)
        .unwrap_or_else(|error| panic!("expected valid input to parse: {error:?}"));

    assert_eq!(input.base_domain(), "pages.example.com");
    assert_eq!(input.certificate_arn(), None);
}

#[test]
fn stack_init_input_accepts_certificate_override() {
    let input = StackInitInput::parse("pages.example.com", Some(valid_certificate_arn()))
        .unwrap_or_else(|error| panic!("expected valid input to parse: {error:?}"));

    assert_eq!(input.certificate_arn(), Some(valid_certificate_arn()));
}

#[test]
fn stack_init_input_accepts_other_partitions_and_rejects_empty_arn() {
    assert!(StackInitInput::parse(
        "pages.example.com",
        Some("arn:aws-cn:acm:us-east-1:123456789012:certificate/abc-123")
    )
    .is_ok());
    assert!(matches!(
        StackInitInput::parse("pages.example.com", Some("")),
        Err(ShimesuError::Usage(m)) if m == "stack init certificate arn cannot be empty"
    ));
    assert!(StackInitInput::parse("example", None).is_err());
    assert!(StackInitInput::parse("pages.example.c0m", None).is_err());
}

#[test]
fn stack_init_input_accepts_valid_hosted_zone_id() {
    let input = StackInitInput::parse("pages.example.com", None)
        .and_then(|input| input.with_hosted_zone_id(Some("Z1234567890EXAMPLE")))
        .unwrap_or_else(|error| panic!("expected valid input to parse: {error:?}"));

    let keys = keys(&input.cloudformation_parameters(valid_certificate_arn()));
    assert!(keys.contains(&"HostedZoneId".to_string()));
}

#[test]
fn managed_certificate_parameters_include_domain_and_hosted_zone() {
    let input = StackInitInput::parse("pages.example.com", None)
        .and_then(|input| input.with_hosted_zone_id(Some("Z1234567890EXAMPLE")))
        .unwrap_or_else(|error| panic!("expected valid input to parse: {error:?}"));

    let parameters = input.certificate_stack_parameters("shimesu-demo");

    assert_eq!(parameters.len(), 3);
    assert_eq!(parameters[0].parameter_key.as_deref(), Some("BaseDomain"));
    assert_eq!(parameters[0].parameter_value.as_deref(), Some("pages.example.com"));
    assert_eq!(parameters[1].parameter_key.as_deref(), Some("HostedZoneId"));
    assert_eq!(parameters[1].parameter_value.as_deref(), Some("Z1234567890EXAMPLE"));
    assert_eq!(parameters[2].parameter_key.as_deref(), Some("InstallationStackName"));
    assert_eq!(parameters[2].parameter_value.as_deref(), Some("shimesu-demo"));
}

#[test]
fn stack_init_input_rejects_malformed_hosted_zone_ids() {
    for hosted_zone_id in ["", "z123lower", "A1234567890", "Z", "Z-DASHES"] {
        let result = StackInitInput::parse("pages.example.com", None)
            .and_then(|input| input.with_hosted_zone_id(Some(hosted_zone_id)));

        assert!(
            matches!(result, Err(ShimesuError::Validation(ref message)) if message.contains("hosted zone")),
            "expected validation error for '{hosted_zone_id}'"
        );
    }
}

#[test]
fn stack_init_input_omits_hosted_zone_parameter_when_not_provided() {
    let input = StackInitInput::parse("pages.example.com", None)
        .unwrap_or_else(|error| panic!("expected valid input to parse: {error:?}"));

    assert_eq!(keys(&input.cloudformation_parameters(valid_certificate_arn())), vec!["BaseDomain", "CertificateArn"]);
}

#[test]
fn stack_init_parameters_include_base_domain_and_certificate_arn() {
    let input = StackInitInput::parse("pages.example.com", None)
        .unwrap_or_else(|error| panic!("expected valid input: {error:?}"));

    let parameters = input.cloudformation_parameters(valid_certificate_arn());

    assert_eq!(parameters.len(), 2);
    assert_eq!(parameters[0].parameter_key.as_deref(), Some("BaseDomain"));
    assert_eq!(parameters[0].parameter_value.as_deref(), Some("pages.example.com"));
    assert_eq!(parameters[1].parameter_key.as_deref(), Some("CertificateArn"));
    assert_eq!(parameters[1].parameter_value.as_deref(), Some(valid_certificate_arn()));
}

// ---- stack init outputs ----

#[test]
fn stack_init_outputs_require_all_required_stack_outputs() {
    for missing_key in ["BaseDomain", "BucketName", "TableName", "DistributionId", "DistributionDomainName"] {
        let mut outputs = stack_outputs();
        match missing_key {
            "BaseDomain" => outputs.base_domain = None,
            "BucketName" => outputs.bucket_name = None,
            "TableName" => outputs.table_name = None,
            "DistributionId" => outputs.distribution_id = None,
            "DistributionDomainName" => outputs.distribution_domain_name = None,
            other => panic!("unexpected missing output key: {other}"),
        }

        let result = StackInitResolvedOutputs::from_stack_outputs(&outputs);

        assert!(matches!(result, Err(ShimesuError::Config(message)) if message.contains(missing_key)));
    }
}

#[test]
fn stack_init_existing_stack_error_maps_to_validation() {
    let error = map_create_stack_service_error("shimesu-demo", true, None, "AlreadyExistsException");

    assert!(matches!(error, ShimesuError::Validation(message) if message.contains("already exists")));
}

#[test]
fn stack_init_output_human_rows_are_stable() {
    let output = StackInitOutput::from_resolved_outputs(
        &config("eu-central-1"),
        StackInitResolvedOutputs::from_stack_outputs(&stack_outputs())
            .unwrap_or_else(|error| panic!("expected outputs to resolve: {error:?}")),
        false,
    );

    assert_eq!(
        output.human_rows(),
        [
            ("Stack Name", "shimesu-demo"),
            ("Region", "eu-central-1"),
            ("Base Domain", "pages.example.com"),
            ("Bucket", "bucket-demo"),
            ("Table", "shimesu-demo-projects"),
            ("Distribution", "E1234567890"),
            ("Distribution Domain", "d111111abcdef8.cloudfront.net"),
        ]
    );

    assert_eq!(output.dns_records[0].name, "pages.example.com");
    assert_eq!(output.dns_records[0].record_type, "CNAME");
    assert_eq!(output.dns_records[0].value, "d111111abcdef8.cloudfront.net");
    assert_eq!(output.dns_records[1].name, "*.pages.example.com");
    assert_eq!(output.dns_records[1].record_type, "CNAME");
    assert_eq!(output.dns_records[1].value, "d111111abcdef8.cloudfront.net");
}

#[test]
fn stack_init_route53_output_reports_managed_alias_records() {
    let output = StackInitOutput::from_resolved_outputs(
        &config("eu-central-1"),
        StackInitResolvedOutputs::from_stack_outputs(&stack_outputs())
            .unwrap_or_else(|error| panic!("expected outputs to resolve: {error:?}")),
        true,
    );

    assert!(output.dns_managed);
    assert_eq!(output.dns_records.len(), 4);
    assert_eq!(output.dns_records[0].record_type, "A");
    assert_eq!(output.dns_records[1].record_type, "AAAA");
    assert_eq!(output.dns_records[2].record_type, "A");
    assert_eq!(output.dns_records[3].record_type, "AAAA");
    assert_eq!(StackInitOutput::dns_row_label(&output.dns_records[2]), "DNS A *.pages.example.com");
}

// ---- stack status and polling ----

#[test]
fn interpret_stack_status_returns_complete_for_terminal_success_states() {
    for status in [StackStatus::CreateComplete, StackStatus::UpdateComplete, StackStatus::DeleteComplete, StackStatus::ImportComplete] {
        assert!(matches!(interpret_stack_status(status), Ok(true)));
    }
}

#[test]
fn interpret_stack_status_returns_in_progress_for_pollable_states() {
    let statuses = [
        StackStatus::CreateInProgress,
        StackStatus::UpdateInProgress,
        StackStatus::DeleteInProgress,
        StackStatus::UpdateCompleteCleanupInProgress,
        StackStatus::UpdateRollbackInProgress,
        StackStatus::UpdateRollbackCompleteCleanupInProgress,
        StackStatus::ImportInProgress,
        StackStatus::ImportRollbackInProgress,
        StackStatus::ReviewInProgress,
    ];
    for status in statuses {
        assert!(matches!(interpret_stack_status(status), Ok(false)));
    }
    assert!(matches!(interpret_stack_status(StackStatus::from_code("DELETE_SKIPPED")), Ok(false)));
}

#[test]
fn interpret_stack_status_returns_errors_for_terminal_failure_states() {
    let statuses = [
        StackStatus::CreateFailed,
        StackStatus::RollbackComplete,
        StackStatus::RollbackFailed,
        StackStatus::RollbackInProgress,
        StackStatus::DeleteFailed,
        StackStatus::UpdateFailed,
        StackStatus::UpdateRollbackComplete,
        StackStatus::UpdateRollbackFailed,
        StackStatus::ImportRollbackComplete,
        StackStatus::ImportRollbackFailed,
    ];
    for status in statuses {
        let expected_status = status.as_str().to_string();
        match interpret_stack_status(status) {
            Err(ShimesuError::Generic(message)) => assert!(message.contains(&expected_status)),
            Err(other) => panic!("expected generic failure, got {other:?}"),
            Ok(value) => panic!("expected error, got {value}"),
        }
    }
}

#[test]
fn interpret_stack_status_returns_unknown_error_for_future_variants() {
    match interpret_stack_status(StackStatus::from_code("NEW_FUTURE_STATUS")) {
        Err(ShimesuError::Generic(message)) => {
            assert!(message.contains("Unknown stack status"));
            assert!(message.contains("Unknown"));
        }
        Err(other) => panic!("expected generic failure, got {other:?}"),
        Ok(value) => panic!("expected error, got {value}"),
    }
}

#[test]
fn failure_event_message_prefers_specific_resource_validation() {
    let generic = OperationEvent {
        logical_resource_id: Some("shimesu".to_string()),
        resource_type: Some("AWS::CloudFormation::Stack".to_string()),
        resource_status_reason: Some("Validation failed".to_string()),
        ..OperationEvent::default()
    };
    let specific = OperationEvent {
        logical_resource_id: Some("ProjectsTable".to_string()),
        resource_type: Some("AWS::DynamoDB::Table".to_string()),
        validation_status_reason: Some("Resource already exists".to_string()),
        ..OperationEvent::default()
    };

    assert_eq!(
        failure_event_message(&vec![generic, specific]),
        Some("ProjectsTable: Resource already exists".to_string())
    );
}

#[test]
fn stack_failure_details_are_appended_to_the_status_message() {
    let event = OperationEvent {
        logical_resource_id: Some("Bucket".to_string()),
        resource_type: Some("AWS::S3::Bucket".to_string()),
        resource_status_reason: Some("Access denied".to_string()),
        ..OperationEvent::default()
    };
    let error = stack_failure_with_details(ShimesuError::Generic("Stack operation failed: CREATE_FAILED".into()), Ok(vec![event]));
    assert!(matches!(error, ShimesuError::Generic(m) if m == "Stack operation failed: CREATE_FAILED. Bucket: Access denied"));
    let unread = stack_failure_with_details(ShimesuError::Generic("x".into()), Err("denied".into()));
    assert!(matches!(unread, ShimesuError::Generic(m) if m == "x. Failed to retrieve CloudFormation failure details: denied"));
}

#[test]
fn described_stack_without_status_is_an_error() {
    let stack = StackDescription::default();
    assert!(matches!(stack_status_from_description(Some(&stack), "s"), Err(ShimesuError::Generic(m)) if m == "Stack 's' returned no status"));
    assert!(matches!(stack_status_from_description(None, "s"), Err(ShimesuError::NotFound(m)) if m == "Stack 's' not found"));
}

// ---- certificates ----

#[test]
fn certificate_stack_name_uses_installation_stack_name() {
    let name = certificate_stack_name("shimesu-demo")
        .unwrap_or_else(|error| panic!("expected valid stack name: {error:?}"));

    assert_eq!(name, "shimesu-demo-certificate");
}

#[test]
fn certificate_stack_name_rejects_cloudformation_overflow() {
    let stack_name = "a".repeat(117);

    assert!(certificate_stack_name(&stack_name).is_err());
    assert!(certificate_stack_name(&"a".repeat(116)).is_ok());
}

#[test]
fn certificate_create_race_resumes_existing_stack() {
    let outcome = map_certificate_create_error(true, Some("AlreadyExistsException"), "AlreadyExistsException")
        .unwrap_or_else(|failure| panic!("expected resumable create race: {failure:?}"));

    assert_eq!(outcome, CertificateCreateOutcome::AlreadyExists);
    assert!(map_certificate_create_error(false, Some("AccessDenied"), "x").is_err());
}

#[test]
fn certificate_stack_is_absent_when_description_is_empty() {
    let state = certificate_stack_state(None, "test-certificate", "shimesu-demo", "static.example.com")
        .unwrap_or_else(|error| panic!("expected absent state: {error:?}"));

    assert_eq!(state, CertificateStackState::Absent);
}

#[test]
fn certificate_stack_is_pending_while_creation_is_in_progress() {
    let stack = certificate_stack(StackStatus::CreateInProgress, "static.example.com", None);

    let state = certificate_stack_state(Some(&stack), "test-certificate", "shimesu-demo", "static.example.com")
        .unwrap_or_else(|error| panic!("expected pending state: {error:?}"));

    assert_eq!(state, CertificateStackState::Pending);
}

#[test]
fn certificate_stack_is_ready_after_successful_creation() {
    let stack = certificate_stack(
        StackStatus::CreateComplete,
        "static.example.com",
        Some("arn:aws:acm:us-east-1:123456789012:certificate/example"),
    );

    let state = certificate_stack_state(Some(&stack), "test-certificate", "shimesu-demo", "static.example.com")
        .unwrap_or_else(|error| panic!("expected ready state: {error:?}"));

    assert_eq!(
        state,
        CertificateStackState::Ready("arn:aws:acm:us-east-1:123456789012:certificate/example".to_string())
    );
}

#[test]
fn certificate_stack_rejects_a_different_domain() {
    let stack = certificate_stack(
        StackStatus::CreateComplete,
        "other.example.com",
        Some("arn:aws:acm:us-east-1:123456789012:certificate/example"),
    );

    let error = certificate_stack_state(Some(&stack), "test-certificate", "shimesu-demo", "static.example.com")
        .expect_err("a certificate stack for another domain must be rejected");

    assert!(error.to_string().contains("belongs to domain 'other.example.com'"));
}

#[test]
fn ready_certificate_stack_requires_certificate_arn_output() {
    let stack = certificate_stack(StackStatus::CreateComplete, "static.example.com", None);

    let error = certificate_stack_state(Some(&stack), "test-certificate", "shimesu-demo", "static.example.com")
        .expect_err("a completed certificate stack without its ARN must be rejected");

    assert!(error.to_string().contains("missing required output CertificateArn"));
}

#[test]
fn certificate_stack_without_ownership_tags_is_rejected() {
    let stack = StackDescription {
        stack_name: Some("test-certificate".to_string()),
        stack_status: Some(StackStatus::CreateComplete),
        parameters: vec![param("BaseDomain", "static.example.com")],
        ..StackDescription::default()
    };

    let error = certificate_stack_state(Some(&stack), "test-certificate", "shimesu-demo", "static.example.com")
        .expect_err("an unowned certificate stack must be rejected");

    assert!(error.to_string().contains("ownership tags"));
}

#[test]
fn certificate_stack_in_another_state_must_be_resolved() {
    let stack = certificate_stack(StackStatus::RollbackComplete, "static.example.com", None);
    let error = certificate_stack_state(Some(&stack), "test-certificate", "shimesu-demo", "static.example.com")
        .expect_err("a failed certificate stack must be rejected");
    assert!(matches!(error, ShimesuError::Validation(m) if m == "Certificate stack 'test-certificate' is in state ROLLBACK_COMPLETE; resolve or delete it before retrying"));
    assert!(matches!(certificate_after_wait(CertificateStackState::Pending, "c"), Err(ShimesuError::Generic(_))));
    assert!(matches!(certificate_after_create_race(CertificateStackState::Pending, "c"), Ok(None)));
    assert!(matches!(certificate_after_create_race(CertificateStackState::Absent, "c"), Err(ShimesuError::Generic(m)) if m.contains("disappeared")));
}

#[test]
fn cloudformation_ownership_requires_both_exact_tags() {
    let tags = vec![tag("Application", "shimesu"), tag("StackName", "shimesu-demo")];

    assert!(cloudformation_tags_belong_to_stack(&tags, "shimesu-demo"));
    assert!(!cloudformation_tags_belong_to_stack(&tags, "other"));
}

#[test]
fn acm_ownership_requires_both_exact_tags() {
    let tags = vec![
        AcmTag { key: "Application".to_string(), value: Some("shimesu".to_string()) },
        AcmTag { key: "StackName".to_string(), value: Some("shimesu-demo".to_string()) },
    ];

    assert!(acm_tags_belong_to_stack(&tags, "shimesu-demo"));
    assert!(!acm_tags_belong_to_stack(&tags, "other"));
}

#[test]
fn managed_certificate_requires_owned_stack_and_matching_domain() {
    let stack = owned_certificate_stack(cloudformation_ownership_tags("shimesu-demo"), "pages.example.com");

    let result = managed_certificate_stack_from_description(
        Some(&stack),
        "shimesu-demo-certificate",
        "shimesu-demo",
        Some("pages.example.com"),
    )
    .unwrap_or_else(|error| panic!("expected owned certificate stack: {error:?}"));

    assert!(matches!(result, ManagedCertificateStack::Owned { .. }));
}

#[test]
fn unrelated_certificate_stack_is_rejected() {
    let stack = owned_certificate_stack(Vec::new(), "pages.example.com");

    let error = managed_certificate_stack_from_description(
        Some(&stack),
        "shimesu-demo-certificate",
        "shimesu-demo",
        Some("pages.example.com"),
    )
    .expect_err("an untagged certificate stack must be rejected");

    assert!(error.to_string().contains("ownership tags"));
}

#[test]
fn certificate_stack_for_another_domain_is_rejected() {
    let stack = owned_certificate_stack(cloudformation_ownership_tags("shimesu-demo"), "other.example.com");

    let error = managed_certificate_stack_from_description(
        Some(&stack),
        "shimesu-demo-certificate",
        "shimesu-demo",
        Some("pages.example.com"),
    )
    .expect_err("a mismatched certificate domain must be rejected");

    assert!(error.to_string().contains("does not match"));
}

#[test]
fn issued_certificate_covering_domain_and_wildcard_is_valid() {
    let names = vec!["pages.example.com".to_string(), "*.pages.example.com".to_string()];
    assert!(validate_certificate_facts(Some("ISSUED"), &names, "pages.example.com").is_ok());
}

#[test]
fn pending_certificate_is_rejected() {
    let names = vec!["pages.example.com".to_string(), "*.pages.example.com".to_string()];
    let result = validate_certificate_facts(Some("PENDING_VALIDATION"), &names, "pages.example.com");

    assert!(matches!(result, Err(ShimesuError::Validation(message)) if message.contains("ISSUED")));
}

#[test]
fn unrelated_certificate_is_rejected() {
    let names = vec!["other.example.com".to_string(), "*.other.example.com".to_string()];

    let result = validate_certificate_facts(Some("ISSUED"), &names, "pages.example.com");

    assert!(matches!(result, Err(ShimesuError::Validation(message)) if message.contains("pages.example.com")));
}

#[test]
fn certificate_without_wildcard_is_rejected() {
    let names = vec!["pages.example.com".to_string()];

    let result = validate_certificate_facts(Some("ISSUED"), &names, "pages.example.com");

    assert!(matches!(result, Err(ShimesuError::Validation(message)) if message.contains("*.pages.example.com")));
}

#[test]
fn external_dns_discovery_does_not_complete_without_records() {
    assert_eq!(completed_validation_records(Vec::new()), None);
}

#[test]
fn external_dns_discovery_completes_with_validation_records() {
    let records = vec![("_token.static.example.com".to_string(), "_value.acm-validations.aws".to_string())];

    assert_eq!(completed_validation_records(records.clone()), Some(records));
}

#[test]
fn hosted_zone_accepts_its_domain_and_subdomains() {
    assert!(domain_belongs_to_zone("example.com", "example.com."));
    assert!(domain_belongs_to_zone("pages.example.com", "example.com."));
}

#[test]
fn hosted_zone_rejects_unrelated_and_suffix_lookalike_domains() {
    assert!(!domain_belongs_to_zone("pages.other.com", "example.com."));
    assert!(!domain_belongs_to_zone("notexample.com", "example.com."));
}

#[test]
fn hosted_zone_check_reports_the_mismatch() {
    assert!(check_hosted_zone("Z1", Some("Example.COM."), "pages.example.com").is_ok());
    assert!(matches!(
        check_hosted_zone("Z1", Some("example.com."), "pages.other.com"),
        Err(ShimesuError::Validation(m)) if m == "Hosted zone 'example.com.' does not contain domain 'pages.other.com'"
    ));
    assert!(matches!(check_hosted_zone("Z1", None, "x.com"), Err(ShimesuError::Generic(_))));
}

// ---- ownership ----

#[test]
fn expected_installation_outputs_are_owned() {
    assert!(validate_installation_outputs("shimesu-demo", &installation_outputs()).is_ok());
}

#[test]
fn unrelated_table_output_is_rejected() {
    let mut outputs = installation_outputs();
    outputs.table_name = Some("other-projects".to_string());

    let result = validate_installation_outputs("shimesu-demo", &outputs);

    assert!(matches!(result, Err(ShimesuError::Validation(message)) if message.contains("Refusing")));
}

#[test]
fn unrelated_bucket_output_is_rejected() {
    let mut outputs = installation_outputs();
    outputs.bucket_name = Some("other-contentbucket-a1b2c3".to_string());

    assert!(validate_installation_outputs("shimesu-demo", &outputs).is_err());
}

#[test]
fn incomplete_outputs_are_rejected() {
    let mut outputs = installation_outputs();
    outputs.distribution_id = None;

    assert!(validate_installation_outputs("shimesu-demo", &outputs).is_err());
}

#[test]
fn installation_ownership_follows_the_description() {
    assert!(matches!(
        installation_ownership(Err(ShimesuError::NotFound("gone".into())), "shimesu-demo"),
        Ok(InstallationOwnership::Absent)
    ));
    let untagged = StackDescription { outputs: vec![output("TableName", "shimesu-demo-projects")], ..StackDescription::default() };
    assert!(matches!(
        installation_ownership(Ok(Some(untagged)), "shimesu-demo"),
        Err(ShimesuError::Validation(m)) if m.contains("ownership tags")
    ));
    let owned = StackDescription {
        tags: vec![tag("Application", "shimesu"), tag("StackName", "shimesu-demo")],
        outputs: vec![
            output("TableName", "shimesu-demo-projects"),
            output("BucketName", "shimesu-demo-contentbucket-x"),
            output("BaseDomain", "pages.example.com"),
            output("CertificateArn", "arn"),
            output("DistributionId", "E1"),
            output("DistributionDomainName", "d.cloudfront.net"),
        ],
        ..StackDescription::default()
    };
    assert!(matches!(installation_ownership(Ok(Some(owned)), "shimesu-demo"), Ok(InstallationOwnership::Owned(_))));
}

// ---- destroy ----

#[test]
fn stack_destroy_input_parse_returns_usage_error_when_confirm_is_false() {
    match StackDestroyInput::parse(false) {
        Err(ShimesuError::Usage(msg)) => assert!(msg.contains("--confirm")),
        _ => panic!("Expected Usage error"),
    }
}

#[test]
fn stack_destroy_input_parse_succeeds_when_confirm_is_true() {
    match StackDestroyInput::parse(true) {
        Ok(token) => assert_eq!(Some(token), StackDestroyInput::parse(true).ok()),
        Err(error) => panic!("expected success, got {error:?}"),
    }
}

#[test]
fn interpret_delete_poll_returns_true_for_delete_complete() {
    assert!(matches!(interpret_delete_poll(Ok(StackStatus::DeleteComplete)), Ok(true)));
}

#[test]
fn interpret_delete_poll_returns_false_for_delete_in_progress() {
    assert!(matches!(interpret_delete_poll(Ok(StackStatus::DeleteInProgress)), Ok(false)));
}

#[test]
fn interpret_delete_poll_returns_false_for_create_complete() {
    assert!(matches!(interpret_delete_poll(Ok(StackStatus::CreateComplete)), Ok(false)));
}

#[test]
fn interpret_delete_poll_returns_false_for_update_complete() {
    assert!(matches!(interpret_delete_poll(Ok(StackStatus::UpdateComplete)), Ok(false)));
}

#[test]
fn interpret_delete_poll_returns_false_for_rollback_complete() {
    assert!(matches!(interpret_delete_poll(Ok(StackStatus::RollbackComplete)), Ok(false)));
}

#[test]
fn interpret_delete_poll_returns_false_for_unknown_future_status() {
    assert!(matches!(interpret_delete_poll(Ok(StackStatus::from_code("FUTURE_DELETE_STATUS"))), Ok(false)));
}

#[test]
fn interpret_delete_poll_returns_error_for_delete_failed() {
    assert!(interpret_delete_poll(Ok(StackStatus::DeleteFailed)).is_err());
}

#[test]
fn interpret_delete_poll_returns_true_for_not_found_error() {
    let result = interpret_delete_poll(Err(ShimesuError::NotFound("stack not found".to_string())));
    assert!(matches!(result, Ok(true)));
}

#[test]
fn interpret_delete_poll_propagates_other_errors() {
    let result = interpret_delete_poll(Err(ShimesuError::Generic("other error".to_string())));
    assert!(result.is_err());
}

#[test]
fn map_delete_stack_error_returns_not_found_when_stack_missing() {
    let outcome = map_delete_stack_error("test-stack", None, "Stack with id test-stack does not exist");

    assert!(matches!(outcome, Ok(DeleteRequestOutcome::AlreadyAbsent)));
}

#[test]
fn map_delete_stack_error_delegates_auth_failures() {
    let error = map_delete_stack_error("test-stack", Some("AccessDenied"), "service error");

    assert!(matches!(error, Err(ShimesuError::AwsAuth(message)) if message.contains("Failed to delete stack")));
}

#[test]
fn should_wait_for_delete_returns_true_only_when_delete_started() {
    assert!(should_wait_for_delete(DeleteRequestOutcome::Started));
    assert!(!should_wait_for_delete(DeleteRequestOutcome::AlreadyAbsent));
}

fn verified_destroy_output() -> StackDestroyOutput {
    StackDestroyOutput {
        stack_name: "test-stack".to_string(),
        region: "us-east-1".to_string(),
        deleted: true,
        already_absent: false,
        retained_data: true,
        retained_data_verified: true,
        retained_certificate: true,
        retained_certificate_verified: true,
        certificate_stack_name: "test-stack-certificate".to_string(),
    }
}

#[test]
fn stack_destroy_output_human_rows_are_stable() {
    assert_eq!(
        verified_destroy_output().human_rows(),
        [
            ("Stack Name", "test-stack"),
            ("Region", "us-east-1"),
            ("Deleted", "true"),
            ("Already Absent", "false"),
            ("Retained Data", "true"),
            ("Retained Data Verified", "true"),
            ("Retained Certificate", "true"),
            ("Retained Certificate Verified", "true"),
            ("Certificate Stack", "test-stack-certificate"),
        ]
    );
}

#[test]
fn stack_destroy_output_retained_data_warning_is_stable() {
    assert_eq!(
        verified_destroy_output().retained_data_warning(),
        Some("Retained S3 bucket, DynamoDB table, certificate stack 'test-stack-certificate', and ACM certificate remain in your AWS account. Use 'shimesu stack teardown --confirm-data-loss' for permanent removal.".to_string())
    );
}

#[test]
fn absent_stack_output_does_not_claim_deleted_or_retained_resources() {
    let output = StackDestroyOutput::from_config(&destroy_config(), DeleteRequestOutcome::AlreadyAbsent, false, true);

    assert!(!output.deleted);
    assert!(output.already_absent);
    assert!(output.retained_data);
    assert!(!output.retained_data_verified);
    assert!(!output.retained_certificate);
    assert!(output.retained_certificate_verified);
    assert_eq!(output.success_message(), "Stack 'test-stack' was already absent");
    assert!(output.retained_data_warning().is_some_and(|warning| warning.contains("may remain")));
}

#[test]
fn unverified_certificate_state_does_not_hide_regional_deletion() {
    let output = StackDestroyOutput::from_config(&destroy_config(), DeleteRequestOutcome::Started, false, false);

    assert!(output.deleted);
    assert!(!output.already_absent);
    assert!(!output.retained_certificate);
    assert!(!output.retained_certificate_verified);
    assert!(output.retained_data_warning().is_some_and(|warning| warning.contains("could not be verified")));
}

#[test]
fn absent_stack_warning_reports_both_unverified_resource_classes() {
    let output = StackDestroyOutput::from_config(&destroy_config(), DeleteRequestOutcome::AlreadyAbsent, false, false);

    let warning = output
        .retained_data_warning()
        .unwrap_or_else(|| panic!("expected retained-resource uncertainty warning"));
    assert!(warning.contains("S3 bucket and DynamoDB table data may remain"));
    assert!(warning.contains("certificate retention also could not be verified"));
}

#[test]
fn destroy_warning_is_absent_when_nothing_remains() {
    let mut output = verified_destroy_output();
    output.retained_data = false;
    output.retained_certificate = false;
    assert_eq!(output.retained_data_warning(), None);
    assert_eq!(output.success_message(), "Deleted stack 'test-stack'");
    let mut no_region = destroy_config();
    no_region.region = None;
    assert_eq!(StackDestroyOutput::from_config(&no_region, DeleteRequestOutcome::Started, true, true).region, "auto");
}

// ---- teardown ----

#[test]
fn teardown_input_requires_explicit_data_loss_confirmation() {
    let result = StackTeardownInput::parse(false);

    assert!(matches!(result, Err(ShimesuError::Usage(message)) if message.contains("--confirm-data-loss")));
}

#[test]
fn teardown_input_accepts_explicit_data_loss_confirmation() {
    assert!(StackTeardownInput::parse(true).is_ok());
}

#[test]
fn retained_table_name_is_scoped_to_installation() {
    assert_eq!(
        table_name("shimesu-demo")
            .unwrap_or_else(|error| panic!("valid stack name should produce a table name: {error:?}")),
        "shimesu-demo-projects"
    );
    assert!(table_name(&"a".repeat(247)).is_err());
}

#[test]
fn retained_bucket_name_requires_exact_installation_prefix() {
    assert!(bucket_name_matches_stack("shimesu-demo-contentbucket-a1b2c3", "shimesu-demo"));
    assert!(!bucket_name_matches_stack("shimesu-contentbucket-a1b2c3", "shimesu-demo"));
    assert!(!bucket_name_matches_stack("shimesu-demo-backups-a1b2c3", "shimesu-demo"));
    assert!(bucket_name_matches_stack("shimesu-demo-contentbucket-a1", "Shimesu-Demo"));
}

#[test]
fn retained_resource_requires_application_and_stack_tags() {
    let owned = [("Application", "shimesu"), ("StackName", "shimesu-demo")];
    let wrong_stack = [("Application", "shimesu"), ("StackName", "other")];
    let missing_application = [("StackName", "shimesu-demo")];

    assert!(tags_belong_to_stack(&owned, "shimesu-demo"));
    assert!(!tags_belong_to_stack(&wrong_stack, "shimesu-demo"));
    assert!(!tags_belong_to_stack(&missing_application, "shimesu-demo"));
}

#[test]
fn teardown_output_reports_absent_resources_without_fake_deletions() {
    let output = StackTeardownOutput {
        stack_name: "shimesu-demo".to_string(),
        region: "eu-central-1".to_string(),
        regional_stack_deleted: false,
        buckets_deleted: 0,
        object_versions_deleted: 0,
        table_deleted: false,
        certificate_stack_deleted: false,
        certificate_deleted: false,
    };

    let rows = output.human_rows();

    assert_eq!(rows[2], ("Regional Stack Deleted".to_string(), "false".to_string()));
    assert_eq!(rows[3], ("Buckets Deleted".to_string(), "0".to_string()));
    assert_eq!(rows[4], ("Object Versions Deleted".to_string(), "0".to_string()));
    assert_eq!(rows[5], ("Table Deleted".to_string(), "false".to_string()));
    assert_eq!(rows[6], ("Certificate Stack Deleted".to_string(), "false".to_string()));
    assert_eq!(rows[7], ("Certificate Deleted".to_string(), "false".to_string()));
}

#[test]
fn teardown_rows_print_counts_in_decimal() {
    let output = StackTeardownOutput {
        stack_name: "shimesu-demo".to_string(),
        region: "eu-central-1".to_string(),
        regional_stack_deleted: true,
        buckets_deleted: 2,
        object_versions_deleted: 17,
        table_deleted: true,
        certificate_stack_deleted: true,
        certificate_deleted: true,
    };
    let rows = output.human_rows();
    assert_eq!(rows[3].1, "2");
    assert_eq!(rows[4].1, "17");
    assert_eq!(output.completion_message(), "Completed teardown for 'shimesu-demo'");
}

#[test]
fn certificate_cleanup_requires_regional_domain_proof() {
    assert_eq!(certificate_cleanup_domain(None), None);
}

#[test]
fn certificate_cleanup_uses_the_regional_stack_domain() {
    let outputs = StackOutputs { base_domain: Some("pages.example.com".to_string()), ..StackOutputs::default() };

    assert_eq!(certificate_cleanup_domain(Some(&outputs)), Some("pages.example.com"));
}

#[test]
fn delete_batches_limits_each_request_to_one_thousand_objects() {
    let objects = (0..=DELETE_BATCH_LIMIT)
        .map(|index| VersionedObject { key: format!("key-{index}"), version_id: format!("version-{index}") })
        .collect::<Vec<_>>();

    let batches = delete_batches(&objects);

    assert_eq!(batches.len(), 2);
    assert_eq!(batches[0].len(), DELETE_BATCH_LIMIT);
    assert_eq!(batches[1].len(), 1);
    assert!(delete_batches::<VersionedObject>(&[]).is_empty());
    let keys = vec!["a".to_string(); 2001];
    assert_eq!(delete_batches(&keys).iter().map(|b| b.len()).collect::<Vec<_>>(), vec![1000, 1000, 1]);
}

#[test]
fn absent_resources_and_certificates_are_recognised() {
    assert!(is_absent_resource(Some("NoSuchBucket"), "x"));
    assert!(is_absent_resource(None, "Table Not Found"));
    assert!(!is_absent_resource(Some("AccessDenied"), "denied"));
    assert!(is_missing_certificate(Some("ResourceNotFoundException"), "x"));
    assert!(!is_missing_certificate(None, "does not exist"));
}

// ---- update ----

#[test]
fn no_updates_error_reports_already_up_to_date() {
    let outcome = map_update_stack_error("shimesu", Some("ValidationError"), "ValidationError: No updates are to be performed.");

    assert!(matches!(outcome, Ok(UpdateRequestOutcome::AlreadyUpToDate)));
}

#[test]
fn missing_stack_maps_to_not_found() {
    let outcome = map_update_stack_error("shimesu", Some("ValidationError"), "ValidationError: Stack [shimesu] does not exist");

    assert!(matches!(outcome, Err(ShimesuError::NotFound(message)) if message == "Stack 'shimesu' not found"));
}

#[test]
fn other_errors_delegate_to_structured_mapping() {
    let outcome = map_update_stack_error("shimesu", Some("AccessDenied"), "service error");

    assert!(matches!(outcome, Err(ShimesuError::AwsAuth(_))));
}

#[test]
fn update_parameters_reuse_previous_values() {
    let parameters = previous_value_parameters();

    assert_eq!(parameters.len(), UPDATE_PARAMETER_KEYS.len());
    for parameter in &parameters {
        assert_eq!(parameter.use_previous_value, Some(true));
        assert!(parameter.parameter_value.is_none());
    }
}

#[test]
fn update_report_rows_name_the_template_state() {
    let report = StackUpdateOutput::from_outcome(&config("eu-central-1"), UpdateRequestOutcome::AlreadyUpToDate);
    assert_eq!(report.human_rows()[2], ("Template", "already up to date"));
    assert_eq!(report.success_message(), "Stack 'shimesu-demo' is already up to date");
    let updated = StackUpdateOutput::from_outcome(&config("eu-central-1"), UpdateRequestOutcome::Started);
    assert_eq!(updated.human_rows()[2], ("Template", "updated"));
}

// ---- status ----

fn complete_outputs() -> Vec<(String, String)> {
    vec![
        ("BaseDomain".to_string(), "example.com".to_string()),
        ("BucketName".to_string(), "shimesu-bucket".to_string()),
        ("DistributionId".to_string(), "EDFDVBD632BHDS5".to_string()),
        ("TableName".to_string(), "shimesu-prod-projects".to_string()),
    ]
}

#[test]
fn parse_required_stack_outputs_rejects_any_missing_required_output() {
    for missing_key in ["BaseDomain", "BucketName", "DistributionId", "TableName"] {
        let outputs: Vec<(String, String)> = complete_outputs().into_iter().filter(|(k, _)| k != missing_key).collect();

        match parse_required_stack_outputs("shimesu-prod", &outputs) {
            Err(ShimesuError::Config(message)) => {
                assert!(message.contains(missing_key));
                assert_eq!(ShimesuError::Config(message).exit_code(), shimesu::error::ExitCode::Config);
            }
            Err(other) => panic!("expected config error, got {other:?}"),
            Ok(parsed) => panic!("expected error, got {parsed:?}"),
        }
    }
}

#[test]
fn parse_required_stack_outputs_returns_all_required_values_when_complete() {
    let parsed = parse_required_stack_outputs("shimesu-prod", &complete_outputs())
        .unwrap_or_else(|error| panic!("expected complete outputs to parse: {error:?}"));

    assert_eq!(
        parsed,
        RequiredStackOutputs {
            base_domain: "example.com".to_string(),
            bucket_name: "shimesu-bucket".to_string(),
            distribution_id: "EDFDVBD632BHDS5".to_string(),
            table_name: "shimesu-prod-projects".to_string(),
        }
    );
}

#[test]
fn build_status_output_preserves_existing_shape_when_outputs_are_complete() {
    let config = Config {
        stack_name: "shimesu-prod".to_string(),
        region: Some("us-east-1".to_string()),
        profile: Some("team".to_string()),
        json: false,
        yes: false,
    };
    let caller_identity = CallerIdentity {
        account: "123456789012".to_string(),
        arn: "arn:aws:iam::123456789012:user/test".to_string(),
        user_id: "AIDAEXAMPLE".to_string(),
    };
    let required_outputs = RequiredStackOutputs {
        base_domain: "example.com".to_string(),
        bucket_name: "shimesu-bucket".to_string(),
        distribution_id: "EDFDVBD632BHDS5".to_string(),
        table_name: "shimesu-prod-projects".to_string(),
    };

    let status_output = build_status_output(&config, "CREATE_COMPLETE".to_string(), caller_identity, required_outputs);

    assert_eq!(status_output.stack_name, "shimesu-prod");
    assert_eq!(status_output.stack_status, "CREATE_COMPLETE");
    assert_eq!(status_output.base_domain.as_deref(), Some("example.com"));
    assert_eq!(status_output.bucket_name.as_deref(), Some("shimesu-bucket"));
    assert_eq!(status_output.distribution_id.as_deref(), Some("EDFDVBD632BHDS5"));
    assert_eq!(status_output.table_name.as_deref(), Some("shimesu-prod-projects"));
    assert_eq!(status_output.caller_identity.account, "123456789012");
    assert_eq!(status_output.caller_identity.arn, "arn:aws:iam::123456789012:user/test");
    assert_eq!(status_output.caller_identity.user_id, "AIDAEXAMPLE");
}

#[test]
fn later_outputs_override_earlier_ones_and_health_is_read_from_the_code() {
    let mut outputs = complete_outputs();
    outputs.push(("BaseDomain".to_string(), "later.example.com".to_string()));
    let parsed = parse_required_stack_outputs("s", &outputs).unwrap();
    assert_eq!(parsed.base_domain, "later.example.com");
    assert_eq!(health_line("UPDATE_COMPLETE"), (true, "Stack is healthy".to_string()));
    assert_eq!(health_line("DELETE_COMPLETE"), (false, "Stack status: DELETE_COMPLETE".to_string()));
    assert_eq!(CallerIdentity::from_parts(None, Some("arn"), None).account, "unknown");
}
