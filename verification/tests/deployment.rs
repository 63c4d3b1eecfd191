use shimesu::deployment::{assemble_deployment, check_walk_entry, path_text_lt, FileFacts};
use shimesu::teardown::{TeardownSnapshot, TeardownStep};
use shimesu::error::ShimesuError;
use shimesu::publish::{derive_slug, plan_site_delete, site_delete_steps, SiteDeleteStep};

fn facts(relative_path: &str, size: u64) -> FileFacts {
    FileFacts {
        relative_path: relative_path.to_string(),
        content_type: "text/plain".to_string(),
        sha256: format!("sha-{relative_path}"),
        size,
    }
}

#[test]
fn assembled_files_are_keyed_and_ordered_by_path_components() {
    let deployment = assemble_deployment(
        "demo",
        vec![facts("b.txt", 1), facts("a-b.txt", 2), facts("a/c.txt", 3), facts("index.html", 4)],
    )
    .expect("deployment should assemble");

    let paths: Vec<&str> = deployment.files.iter().map(|f| f.relative_path.as_str()).collect();
    assert_eq!(paths, vec!["a/c.txt", "a-b.txt", "b.txt", "index.html"]);
    let keys: Vec<&str> = deployment.files.iter().map(|f| f.object_key.as_str()).collect();
    assert_eq!(keys, vec!["demo/a/c.txt", "demo/a-b.txt", "demo/b.txt", "demo/index.html"]);
    assert_eq!(deployment.total_bytes, 10);
    assert_eq!(deployment.slug, "demo");
    assert_eq!(deployment.files[0].sha256, "sha-a/c.txt");
}

#[test]
fn assembling_refuses_an_invalid_slug_with_a_validation_error() {
    let result = assemble_deployment("", vec![facts("index.html", 1)]);
    assert!(matches!(result, Err(ShimesuError::Validation(message)) if message == "Slug must be 1-63 characters, got 0"));
}

#[test]
fn assembling_refuses_the_first_unsafe_path() {
    let result = assemble_deployment("demo", vec![facts("ok.html", 1), facts("../escape.html", 1)]);
    assert!(matches!(result, Err(ShimesuError::Validation(message)) if message == "Path traversal (..) is not allowed"));
}

#[test]
fn assembling_refuses_an_empty_deployment() {
    let result = assemble_deployment("demo", Vec::new());
    assert!(matches!(result, Err(ShimesuError::Validation(message)) if message == "Cannot deploy an empty deployment"));
}

#[test]
fn assembling_refuses_a_deployment_beyond_the_byte_limit() {
    let result = assemble_deployment("demo", vec![facts("a", 500 * 1024 * 1024), facts("b", 1)]);
    assert!(matches!(result, Err(ShimesuError::Validation(message)) if message.starts_with("Deployment size exceeds limit (524288001 bytes")));
}

#[test]
fn symlinks_inside_a_directory_are_refused() {
    assert!(check_walk_entry("site/link", false).is_ok());
    let result = check_walk_entry("site/link", true);
    assert!(matches!(result, Err(ShimesuError::Validation(message)) if message == "Deployment contains a symlink: site/link"));
}

#[test]
fn path_order_puts_the_separator_first() {
    assert!(path_text_lt("a", "a/b"));
    assert!(path_text_lt("a/b", "a-b"));
    assert!(!path_text_lt("a-b", "a/b"));
    assert!(!path_text_lt("a", "a"));
}

#[test]
fn an_invalid_site_fails_slug_derivation_with_a_validation_error() {
    let result = derive_slug("report.html", false, Some("INVALID SLUG"));
    assert!(matches!(result, Err(ShimesuError::Validation(message)) if message == "Slug must be lowercase alphanumeric with hyphens (not at start/end)"));
}

#[test]
fn deleting_an_invalid_slug_fails_with_a_validation_error() {
    let result = plan_site_delete("-bad-", true, false, false);
    assert!(matches!(result, Err(ShimesuError::Validation(message)) if message == "Slug must be lowercase alphanumeric with hyphens (not at start/end)"));
    let result = plan_site_delete("www", true, false, false);
    assert!(matches!(result, Err(ShimesuError::Validation(message)) if message == "'www' is a reserved name"));
}

#[test]
fn site_deletion_removes_files_before_the_record_and_then_invalidates() {
    assert_eq!(
        site_delete_steps(true),
        vec![SiteDeleteStep::DeleteFiles, SiteDeleteStep::DeleteRecord, SiteDeleteStep::Invalidate]
    );
    assert_eq!(site_delete_steps(false), vec![SiteDeleteStep::DeleteRecord]);
}

#[test]
fn teardown_deletes_the_certificate_stack_only_when_owned() {
    let base = vec![TeardownStep::DeleteRegionalStack, TeardownStep::DeleteBuckets, TeardownStep::DeleteTable];

    let unowned = TeardownSnapshot::default();
    assert_eq!(unowned.steps(), base);

    let owned = TeardownSnapshot {
        regional_bucket_name: Some("demo-contentbucket-1".to_string()),
        certificate_stack_owned: true,
        certificate_stack_certificate_arn: None,
    };
    let mut expected = base.clone();
    expected.push(TeardownStep::DeleteCertificateStack);
    assert_eq!(owned.steps(), expected);

    let with_certificate = TeardownSnapshot {
        certificate_stack_certificate_arn: Some("arn:aws:acm:us-east-1:1:certificate/x".to_string()),
        ..owned
    };
    expected.push(TeardownStep::DeleteCertificate("arn:aws:acm:us-east-1:1:certificate/x".to_string()));
    assert_eq!(with_certificate.steps(), expected);
}

#[test]
fn a_single_file_is_published_as_the_index_page() {
    assert_eq!(shimesu::deployment::SINGLE_FILE_PATH, "index.html");
    let deployment = assemble_deployment("pitch", vec![facts(shimesu::deployment::SINGLE_FILE_PATH, 5)])
        .expect("deployment should assemble");
    assert_eq!(deployment.files[0].object_key, "pitch/index.html");
}

#[test]
fn landing_pages_cover_the_index_and_error_pages() {
    assert_eq!(shimesu::stack::LANDING_ASSET_KEYS, ["_shimesu/index.html", "_shimesu/404.html"]);
}
