use shimesu::digest::{cache_control_for, content_type_for, hash_contents};
use shimesu::error::ShimesuError;
use shimesu::publish::{
    after_extraction, check_deployment, delete_prompt, derive_slug, extraction_budget, file_stem_of,
    invalidation_path, needs_marker, object_key, path_file_name, publish_url, should_skip_upload, site_prefix,
    stale_keys, SiteDeleteOutput, SyncSummary,
};
use shimesu::site::{collect_sites, site_from_item, site_from_lookup, site_summary, SiteListOutput};
use shimesu::support::{
    marker_key, parse_optional_i64, AttributeValue, StackOutputs,
};

fn string_attr(value: &str) -> AttributeValue {
    AttributeValue::S(value.to_string())
}

fn number_attr(value: i64) -> AttributeValue {
    AttributeValue::N(value.to_string())
}

fn strings(items: &[&str]) -> Vec<String> {
    items.iter().map(|s| s.to_string()).collect()
}

#[test]
fn derive_slug_normalizes_uppercase_explicit_site() {
    let slug = derive_slug("pitch.html", false, Some("MyReport"))
        .unwrap_or_else(|error| panic!("expected normalization: {error:?}"));
    assert_eq!(slug, "myreport");
}

#[test]
fn derive_slug_normalizes_uppercase_file_stem() {
    let slug = derive_slug("Pitch.html", false, None)
        .unwrap_or_else(|error| panic!("expected normalization: {error:?}"));
    assert_eq!(slug, "pitch");
}

#[test]
fn derive_slug_prefers_explicit_site() {
    let slug = derive_slug("pitch.html", false, Some("demo-site"))
        .unwrap_or_else(|error| panic!("expected explicit site slug: {error:?}"));

    assert_eq!(slug, "demo-site");
}

#[test]
fn derive_slug_uses_file_stem_for_single_file() {
    let slug = derive_slug("pitch.html", false, None)
        .unwrap_or_else(|error| panic!("expected file stem slug: {error:?}"));

    assert_eq!(slug, "pitch");
}

#[test]
fn derive_slug_uses_directory_name() {
    let slug = derive_slug("site-output", true, None)
        .unwrap_or_else(|error| panic!("expected directory slug: {error:?}"));

    assert_eq!(slug, "site-output");
}

#[test]
fn derive_slug_refuses_paths_without_a_name() {
    assert!(matches!(
        derive_slug("..", true, None),
        Err(ShimesuError::Validation(m)) if m == "Could not derive a site slug from the directory name"
    ));
    assert!(matches!(
        derive_slug("/", false, None),
        Err(ShimesuError::Validation(m)) if m == "Could not derive a site slug from the file name"
    ));
    assert!(derive_slug("my_site.html", false, None).is_err());
}

#[test]
fn file_names_and_stems_follow_path_rules() {
    assert_eq!(path_file_name("a/b/site/"), Some("site".to_string()));
    assert_eq!(path_file_name("a/b/."), Some("b".to_string()));
    assert_eq!(path_file_name("a/.."), None);
    assert_eq!(path_file_name("."), None);
    assert_eq!(path_file_name("/"), None);
    assert_eq!(file_stem_of("archive.tar.gz"), "archive.tar");
    assert_eq!(file_stem_of(".env"), ".env");
    assert_eq!(file_stem_of("plain"), "plain");
    assert_eq!(file_stem_of(".."), "..");
}

#[test]
fn object_keys_join_the_path_components_under_the_slug() {
    assert_eq!(object_key("pitch", "css/app.css").unwrap(), "pitch/css/app.css");
    assert_eq!(object_key("pitch", "a//b/./c").unwrap(), "pitch/a/b/c");
    assert!(object_key("pitch", "../x").is_err());
    assert!(object_key("pitch", "/x").is_err());
    assert!(object_key("pitch", "./x").is_err());
}

#[test]
fn deployment_checks_refuse_empty_and_overflowing_deployments() {
    assert!(matches!(check_deployment(&vec![]), Err(ShimesuError::Validation(m)) if m == "Cannot deploy an empty deployment"));
    assert!(matches!(check_deployment(&vec![u64::MAX, 1]), Err(ShimesuError::Validation(m)) if m == "Deployment size overflow"));
    assert_eq!(check_deployment(&vec![18, 2]).unwrap(), 20);
}

#[test]
fn zip_extraction_is_bounded_by_the_byte_limit() {
    assert_eq!(extraction_budget(4, 0), 5);
    assert_eq!(extraction_budget(4, 9), 1);
    assert_eq!(after_extraction(0, 4, 4).unwrap(), 4);
    assert!(matches!(
        after_extraction(0, 5, 4),
        Err(ShimesuError::Validation(m)) if m == "Zip decompressed size exceeds limit (5 bytes > 4 bytes)"
    ));
}

#[test]
fn stale_keys_excludes_marker_and_desired_objects() {
    let desired = strings(&["pitch/index.html", "pitch/assets/app.js"]);

    let stale = stale_keys(
        &strings(&["pitch/", "pitch/index.html", "pitch/assets/app.js", "pitch/old.css"]),
        &desired,
        "pitch/",
    );

    assert_eq!(stale, vec!["pitch/old.css".to_string()]);
}

#[test]
fn should_skip_upload_only_when_sha256_matches() {
    assert!(should_skip_upload(Some("abc123"), "abc123"));
    assert!(!should_skip_upload(Some("abc123"), "def456"));
    assert!(!should_skip_upload(None, "abc123"));
}

#[test]
fn marker_is_written_only_when_missing() {
    assert!(needs_marker(&strings(&["pitch/index.html"]), "pitch/"));
    assert!(!needs_marker(&strings(&["pitch/", "pitch/index.html"]), "pitch/"));
}

#[test]
fn sync_summary_counts_uploads_and_skips() {
    let summary = SyncSummary::from_outcomes(&vec![true, false, true], 4);
    assert_eq!(summary, SyncSummary { uploaded: 2, skipped: 1, deleted: 4 });
}

#[test]
fn hashes_are_lowercase_hex_sha256() {
    let (hash, size) = hash_contents(b"abc");
    assert_eq!(hash, "ba7816bf8f01cfea414140de5dae2223b00361a396177a9cb410ff61f20015ad");
    assert_eq!(size, 3);
    let (empty, zero) = hash_contents(b"");
    assert_eq!(empty, "e3b0c44298fc1c149afbf4c8996fb92427ae41e4649b934ca495991b7852b855");
    assert_eq!(zero, 0);
}

#[test]
fn content_types_are_guessed_from_the_extension() {
    assert_eq!(content_type_for("index.html"), "text/html");
    assert_eq!(content_type_for("css/app.css"), "text/css");
    assert_eq!(content_type_for("blob"), "application/octet-stream");
}

#[test]
fn html_gets_short_cache_and_assets_get_long_cache() {
    assert_eq!(cache_control_for("text/html"), "public, max-age=60");
    assert_eq!(cache_control_for("text/css"), "public, max-age=86400");
    assert_eq!(cache_control_for("application/javascript"), "public, max-age=86400");
}

#[test]
fn publish_url_uses_the_slug_as_subdomain() {
    assert_eq!(publish_url("pitch", "example.com"), "https://pitch.example.com");
    assert_eq!(invalidation_path("pitch"), "/pitch/*");
}

#[test]
fn site_prefix_scopes_to_slug_directory() {
    assert_eq!(site_prefix("demo"), "demo/");
}

#[test]
fn delete_output_reports_invalidation_when_files_are_removed() {
    let output = SiteDeleteOutput::new("docs".to_string(), false, 3, Some("I2J3K4L5M6N7O8".to_string()));

    assert_eq!(output.invalidation_id.as_deref(), Some("I2J3K4L5M6N7O8"));
    assert_eq!(output.deleted_file_count, 3);
    assert_eq!(output.success_message(), "Deleted site 'docs' and 3 S3 object(s)");
    let kept = SiteDeleteOutput::new("docs".to_string(), true, 0, None);
    assert_eq!(kept.success_message(), "Deleted site 'docs' metadata only");
    assert_eq!(delete_prompt("docs", true), "Delete site 'docs' (metadata only, S3 files kept)?");
}

#[test]
fn marker_key_appends_trailing_slash() {
    assert_eq!(marker_key("demo"), "demo/");
}

#[test]
fn parse_optional_i64_reads_numeric_attribute() {
    let item = vec![("file_count".to_string(), number_attr(42))];

    assert_eq!(parse_optional_i64(&item, "file_count"), Some(42));
}

#[test]
fn parse_optional_i64_rejects_non_numeric_attribute() {
    let item = vec![("file_count".to_string(), string_attr("nope"))];

    assert_eq!(parse_optional_i64(&item, "file_count"), None);
}

#[test]
fn parse_optional_i64_handles_signs_and_bounds() {
    let item = vec![
        ("a".to_string(), number_attr(-7)),
        ("b".to_string(), AttributeValue::N("9223372036854775808".to_string())),
    ];
    assert_eq!(parse_optional_i64(&item, "a"), Some(-7));
    assert_eq!(parse_optional_i64(&item, "b"), None);
    assert_eq!(parse_optional_i64(&item, "missing"), None);
}

#[test]
fn list_outputs_require_table_name_and_base_domain() {
    let result = StackOutputs::default().into_list_outputs();

    assert!(matches!(result, Err(ShimesuError::Config(_))));
}

#[test]
fn stack_outputs_require_distribution_id() {
    let result = StackOutputs::default().require_distribution_id();

    assert!(matches!(result, Err(ShimesuError::Config(message)) if message.contains("DistributionId")));
}

fn demo_item() -> Vec<(String, AttributeValue)> {
    vec![
        ("slug".to_string(), string_attr("demo")),
        ("created_at".to_string(), string_attr("2026-07-19T12:00:00Z")),
        ("updated_at".to_string(), string_attr("2026-07-19T12:05:00Z")),
        ("deployment_id".to_string(), string_attr("01J0123456789ABCDEFGHJKMNP")),
        ("file_count".to_string(), number_attr(42)),
        ("total_bytes".to_string(), number_attr(1024)),
    ]
}

#[test]
fn site_from_item_builds_site_url_and_stats() {
    let site = site_from_item(&demo_item(), "example.com").expect("site should parse");

    assert_eq!(site.slug, "demo");
    assert_eq!(site.url, "https://demo.example.com");
    assert_eq!(site.file_count, Some(42));
    assert_eq!(site.total_bytes, Some(1024));
}

#[test]
fn site_from_item_rejects_missing_required_fields() {
    let item = vec![("created_at".to_string(), string_attr("2026-07-19T12:00:00Z"))];

    assert!(site_from_item(&item, "example.com").is_none());
}

#[test]
fn site_from_lookup_returns_not_found_when_item_is_missing() {
    let result = site_from_lookup(None, "example.com", "demo");

    assert!(matches!(result, Err(ShimesuError::NotFound(message)) if message.contains("demo")));
}

#[test]
fn site_from_lookup_parses_present_item() {
    let item = vec![
        ("slug".to_string(), string_attr("demo")),
        ("created_at".to_string(), string_attr("2026-07-19T12:00:00Z")),
        ("updated_at".to_string(), string_attr("2026-07-19T12:05:00Z")),
    ];

    let site = site_from_lookup(Some(&item), "example.com", "demo")
        .unwrap_or_else(|error| panic!("expected site lookup to parse: {error:?}"));

    assert_eq!(site.url, "https://demo.example.com");
    assert_eq!(site.slug, "demo");
}

#[test]
fn listed_sites_are_sorted_by_slug_and_skip_malformed_items() {
    let item = |slug: &str| {
        vec![
            ("slug".to_string(), string_attr(slug)),
            ("created_at".to_string(), string_attr("c")),
            ("updated_at".to_string(), string_attr("u")),
        ]
    };
    let items = vec![item("zeta"), vec![("slug".to_string(), string_attr("broken"))], item("alpha"), item("mid")];
    let sites = collect_sites(&items, "example.com");
    let slugs: Vec<&str> = sites.iter().map(|s| s.slug.as_str()).collect();
    assert_eq!(slugs, vec!["alpha", "mid", "zeta"]);
    assert_eq!(site_summary(&sites[0]), "https://alpha.example.com  (? file(s), updated u)");
}

#[test]
fn site_list_output_counts_the_listed_sites() {
    let item = |slug: &str| {
        vec![
            ("slug".to_string(), string_attr(slug)),
            ("created_at".to_string(), string_attr("c")),
            ("updated_at".to_string(), string_attr("u")),
        ]
    };
    let list = SiteListOutput::new(collect_sites(&vec![item("b"), item("a")], "example.com"));
    assert_eq!(list.count, 2);
    assert_eq!(list.sites[0].slug, "a");
    assert_eq!(SiteListOutput::new(Vec::new()).count, 0);
}
