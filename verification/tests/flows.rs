use shimesu::certificate::{
    CertificateCreateOutcome, CertificateEvent, CertificatePhase, CertificateRequest, CertificateResolution,
    CertificateStackState, ManagedCertificateStack,
};
use shimesu::cli::ConfirmationMode;
use shimesu::cloudformation::{StackDescription, StackOutput, StackStatus};
use shimesu::config::Config;
use shimesu::destroy::{certificate_retention, delete_needed, DeleteRequestOutcome};
use shimesu::error::ShimesuError;
use shimesu::publish::{
    deployment_kind, plan_site_delete, preparing_message, replace_confirmation, DeploymentKind, PublishOutput,
    SyncSummary,
};
use shimesu::site::{deployment_values, site_from_item, SiteUpsert};
use shimesu::status::{status_report, CallerIdentity};
use shimesu::support::{AttributeValue, StackOutputs};
use shimesu::teardown::{
    bucket_candidates, bucket_ownership, object_batch_failure, require_owned, table_arn_of, StackTeardownOutput,
    TeardownSnapshot,
};

fn config() -> Config {
    Config { stack_name: "shimesu-demo".to_string(), region: None, profile: None, json: false, yes: false }
}

fn answer(resolution: &mut CertificateResolution, event: CertificateEvent) -> CertificateRequest {
    resolution.record(event);
    resolution.next_request()
}

#[test]
fn certificate_override_is_checked_and_used_without_a_stack() {
    let mut r = CertificateResolution::start("shimesu-demo", "pages.example.com", Some("arn:override"), None);
    assert!(matches!(r.next_request(), CertificateRequest::CheckOverride(a) if a == "arn:override"));
    match answer(&mut r, CertificateEvent::OverrideChecked(Ok(()))) {
        CertificateRequest::Finished(Ok(arn)) => assert_eq!(arn, "arn:override"),
        other => panic!("unexpected {other:?}"),
    }
}

#[test]
fn hosted_zone_is_checked_first_and_an_absent_stack_is_created() {
    let mut r = CertificateResolution::start("shimesu-demo", "pages.example.com", None, Some("Z1"));
    assert!(matches!(r.next_request(), CertificateRequest::CheckHostedZone(z) if z == "Z1"));
    assert!(matches!(
        answer(&mut r, CertificateEvent::HostedZoneChecked(Ok(()))),
        CertificateRequest::DescribeStack(n) if n == "shimesu-demo-certificate"
    ));
    let progress = r.record(CertificateEvent::StackDescribed(Ok(CertificateStackState::Absent)));
    assert_eq!(progress.as_deref(), Some("Creating certificate stack 'shimesu-demo-certificate'..."));
    assert!(matches!(r.next_request(), CertificateRequest::CreateStack(_)));
    // With a hosted zone, validation needs no DNS report.
    assert!(matches!(
        answer(&mut r, CertificateEvent::StackCreated(Ok(CertificateCreateOutcome::Started))),
        CertificateRequest::WaitForStack(_)
    ));
    assert!(matches!(answer(&mut r, CertificateEvent::StackWaited(Ok(()))), CertificateRequest::DescribeStack(_)));
    match answer(&mut r, CertificateEvent::StackDescribed(Ok(CertificateStackState::Ready("arn:managed".into())))) {
        CertificateRequest::Finished(Ok(arn)) => assert_eq!(arn, "arn:managed"),
        other => panic!("unexpected {other:?}"),
    }
    assert_eq!(r.phase, CertificatePhase::Done);
}

#[test]
fn pending_stack_is_resumed_with_a_dns_report_for_external_dns() {
    let mut r = CertificateResolution::start("shimesu-demo", "pages.example.com", None, None);
    let progress = r.record(CertificateEvent::StackDescribed(Ok(CertificateStackState::Pending)));
    assert_eq!(progress.as_deref(), Some("Resuming certificate stack 'shimesu-demo-certificate'..."));
    assert!(matches!(r.next_request(), CertificateRequest::ReportDnsRecords(_)));
    assert!(matches!(answer(&mut r, CertificateEvent::DnsReported(Ok(()))), CertificateRequest::WaitForStack(_)));
    assert!(matches!(answer(&mut r, CertificateEvent::StackWaited(Ok(()))), CertificateRequest::DescribeStack(_)));
    assert!(matches!(
        answer(&mut r, CertificateEvent::StackDescribed(Ok(CertificateStackState::Pending))),
        CertificateRequest::Finished(Err(ShimesuError::Generic(m))) if m.contains("completed without an issued certificate")
    ));
}

#[test]
fn creation_race_rereads_the_stack() {
    let mut r = CertificateResolution::start("shimesu-demo", "pages.example.com", None, None);
    r.record(CertificateEvent::StackDescribed(Ok(CertificateStackState::Absent)));
    assert!(matches!(
        answer(&mut r, CertificateEvent::StackCreated(Ok(CertificateCreateOutcome::AlreadyExists))),
        CertificateRequest::DescribeStack(_)
    ));
    assert!(matches!(
        answer(&mut r, CertificateEvent::StackDescribed(Ok(CertificateStackState::Absent))),
        CertificateRequest::Finished(Err(ShimesuError::Generic(m))) if m == "Certificate stack 'shimesu-demo-certificate' disappeared during creation"
    ));
}

#[test]
fn overlong_installation_name_stops_before_the_stack_is_described() {
    let name = "a".repeat(117);
    let r = CertificateResolution::start(&name, "pages.example.com", None, None);
    assert!(matches!(r.next_request(), CertificateRequest::Finished(Err(ShimesuError::Validation(_)))));
}

#[test]
fn failed_checks_end_the_resolution_with_their_error() {
    let mut r = CertificateResolution::start("shimesu-demo", "pages.example.com", Some("arn"), Some("Z1"));
    assert!(matches!(
        answer(&mut r, CertificateEvent::HostedZoneChecked(Err(ShimesuError::Validation("zone".into())))),
        CertificateRequest::Finished(Err(ShimesuError::Validation(m))) if m == "zone"
    ));
    // Later answers change nothing.
    assert!(r.record(CertificateEvent::OverrideChecked(Ok(()))).is_none());
    assert_eq!(r.phase, CertificatePhase::Done);
}

#[test]
fn site_delete_plan_normalizes_and_confirms() {
    let plan = plan_site_delete("Docs", true, false, false).unwrap();
    assert_eq!(plan.slug, "docs");
    assert_eq!(plan.confirmation, ConfirmationMode::Skip);
    assert!(plan.delete_files);
    assert_eq!(plan.prompt, "Delete site 'docs' and all files under its S3 prefix?");
    let keep = plan_site_delete("docs", false, true, true).unwrap();
    assert_eq!(keep.confirmation, ConfirmationMode::Prompt);
    assert!(!keep.delete_files);
    assert!(matches!(plan_site_delete("docs", false, false, false), Err(ShimesuError::Usage(m)) if m.contains("--yes")));
    assert!(matches!(plan_site_delete("www", true, true, false), Err(ShimesuError::Validation(_))));
}

#[test]
fn deployment_kinds_follow_the_path() {
    assert!(matches!(deployment_kind("x", true, false, true), Err(ShimesuError::Validation(m)) if m == "Deployment path cannot be a symlink"));
    assert_eq!(deployment_kind("dist", false, true, false).unwrap(), DeploymentKind::Directory);
    assert_eq!(deployment_kind("site.zip", false, false, true).unwrap(), DeploymentKind::Zip);
    assert_eq!(deployment_kind("dir/.zip", false, false, true).unwrap(), DeploymentKind::SingleFile);
    assert_eq!(deployment_kind("report.html", false, false, true).unwrap(), DeploymentKind::SingleFile);
    assert!(matches!(deployment_kind("fifo", false, false, false), Err(ShimesuError::Validation(m)) if m == "Deployment path 'fifo' is not a file or directory"));
}

#[test]
fn publish_messages_and_report() {
    assert_eq!(preparing_message(3, "docs"), "Preparing 3 file(s) for site 'docs'...");
    let (mode, question) = replace_confirmation(false, true, "docs").unwrap();
    assert_eq!(mode, ConfirmationMode::Prompt);
    assert_eq!(question, "Replace the current contents of site 'docs'?");
    assert!(replace_confirmation(false, false, "docs").is_err());
    let out = PublishOutput::new(
        "docs".into(),
        "https://docs.example.com".into(),
        "01ID".into(),
        2,
        10,
        SyncSummary { uploaded: 1, skipped: 1, deleted: 0 },
        "2026-01-01T00:00:00Z".into(),
        "I1".into(),
    );
    let rows = out.human_rows();
    assert_eq!(rows[2], ("Files", "2".to_string()));
    assert_eq!(out.success_message(), "Published site 'docs'");
}

#[test]
fn deployment_record_reads_back_as_the_deployment() {
    let upsert = SiteUpsert {
        slug: "docs",
        deployment_id: "01ID",
        updated_at: "2026-01-01T00:00:00Z",
        url: "https://docs.example.com",
        file_count: 42,
        total_bytes: 1024,
    };
    let values = deployment_values(&upsert);
    assert_eq!(values.len(), 5);
    let stored = |key: &str| values.iter().find(|(k, _)| k == key).map(|(_, v)| v.clone()).unwrap();
    let item = vec![
        ("slug".to_string(), AttributeValue::S("docs".to_string())),
        ("created_at".to_string(), stored(":now")),
        ("updated_at".to_string(), stored(":now")),
        ("deployment_id".to_string(), stored(":deployment_id")),
        ("file_count".to_string(), stored(":file_count")),
        ("total_bytes".to_string(), stored(":total_bytes")),
    ];
    let site = site_from_item(&item, "example.com").unwrap();
    assert_eq!(site.url, "https://docs.example.com");
    assert_eq!(site.deployment_id.as_deref(), Some("01ID"));
    assert_eq!(site.file_count, Some(42));
    assert_eq!(site.total_bytes, Some(1024));
}

#[test]
fn status_report_requires_a_stack_and_its_outputs() {
    let identity = || CallerIdentity::from_parts(Some("1"), Some("arn"), Some("u"));
    assert!(matches!(status_report(&config(), None, identity()), Err(ShimesuError::NotFound(m)) if m == "Stack 'shimesu-demo' not found"));
    let output = |k: &str, v: &str| StackOutput { output_key: Some(k.into()), output_value: Some(v.into()) };
    let stack = StackDescription {
        stack_status: Some(StackStatus::UpdateComplete),
        outputs: vec![
            output("BaseDomain", "example.com"),
            output("BucketName", "b"),
            output("DistributionId", "D"),
            output("TableName", "t"),
            StackOutput { output_key: Some("Ignored".into()), output_value: None },
        ],
        ..StackDescription::default()
    };
    let report = status_report(&config(), Some(&stack), identity()).unwrap();
    assert_eq!(report.stack_status, "UPDATE_COMPLETE");
    assert_eq!(report.table_name.as_deref(), Some("t"));
    let partial = StackDescription { outputs: vec![output("BaseDomain", "example.com")], ..StackDescription::default() };
    assert!(matches!(status_report(&config(), Some(&partial), identity()), Err(ShimesuError::Config(m)) if m.contains("BucketName")));
}

#[test]
fn destroy_retention_reports_probe_failures_as_unknown() {
    assert_eq!(certificate_retention(Ok((true, true)), "s"), (true, true, None));
    let (retained, verified, warning) = certificate_retention(Err(ShimesuError::Generic("boom".into())), "s");
    assert!(!retained && !verified);
    assert_eq!(warning.as_deref(), Some("Could not verify managed certificate retention for 's': Error: boom"));
    assert_eq!(delete_needed(false), Some(DeleteRequestOutcome::AlreadyAbsent));
    assert_eq!(delete_needed(true), None);
}

#[test]
fn teardown_discovery_decisions() {
    let names = vec![
        "shimesu-demo-contentbucket-b".to_string(),
        "other".to_string(),
        "shimesu-demo-contentbucket-a".to_string(),
    ];
    assert_eq!(bucket_candidates(&names, "shimesu-demo"), vec!["shimesu-demo-contentbucket-a", "shimesu-demo-contentbucket-b"]);
    assert!(matches!(bucket_ownership("b", Some("b"), false), Err(ShimesuError::Validation(m)) if m.contains("Refusing to delete bucket 'b'")));
    assert_eq!(bucket_ownership("c", Some("b"), false).unwrap(), false);
    assert_eq!(bucket_ownership("b", Some("b"), true).unwrap(), true);
    assert!(matches!(table_arn_of("t", None), Err(ShimesuError::Generic(m)) if m == "DynamoDB returned no table details for 't'"));
    assert!(matches!(table_arn_of("t", Some(None)), Err(ShimesuError::Generic(m)) if m == "DynamoDB returned no ARN for table 't'"));
    assert_eq!(table_arn_of("t", Some(Some("arn:t"))).unwrap(), "arn:t");
    assert!(matches!(require_owned("table", "t", false), Err(ShimesuError::Validation(m)) if m == "Refusing to delete table 't' because it is missing required shimesu ownership tags"));
    let failure = object_batch_failure("b", &vec![(Some("k".into()), None), (None, Some("AccessDenied".into()))]);
    assert!(matches!(failure, ShimesuError::Generic(m) if m == "Failed to delete all object versions from bucket 'b': k:UnknownError, unknown:AccessDenied"));
}

#[test]
fn teardown_never_keeps_an_operator_certificate() {
    let outputs = StackOutputs { bucket_name: Some("b".into()), ..StackOutputs::default() };
    let owned = ManagedCertificateStack::Owned { certificate_arn: "arn:managed".into() };
    let snapshot = TeardownSnapshot::new(Some(&outputs), owned, true);
    assert_eq!(snapshot.regional_bucket_name.as_deref(), Some("b"));
    assert_eq!(snapshot.certificate_stack_certificate_arn.as_deref(), Some("arn:managed"));
    let gone = TeardownSnapshot::new(None, ManagedCertificateStack::Owned { certificate_arn: "arn".into() }, false);
    assert_eq!(gone.certificate_stack_certificate_arn, None);
    assert!(gone.certificate_stack_owned);
    let absent = TeardownSnapshot::new(None, ManagedCertificateStack::Absent, true);
    assert!(!absent.certificate_stack_owned);
    let report = StackTeardownOutput::new(&config(), true, 1, 3, true, false, false);
    assert_eq!(report.region, "auto");
    assert_eq!(report.object_versions_deleted, 3);
}
