use data_gov::client::{DataGovClient, PlannedDownload};
use data_gov::config::{choose_download_dir, DataGovConfig, OperatingMode};
use data_gov::download::{
    failure_message, immediate_outcome, BatchOutcomes, DownloadOutcome, Notice, PermitPool, Transfer,
    TransferInput, TransferPhase,
};
use data_gov::error::DataGovError;
use data_gov::model::{Package, Resource};

fn res(name: Option<&str>, url: Option<&str>, format: Option<&str>) -> Resource {
    Resource::new(name.map(|s| s.to_string()), url.map(|s| s.to_string()), format.map(|s| s.to_string()))
}

fn client_in(dir: &str) -> DataGovClient {
    DataGovClient::with_config(DataGovConfig::new().with_download_dir(dir))
}

/// Feeds a successful fetch of `bytes` in two chunks through a transfer.
fn run_ok(job_plan: &PlannedDownload) -> DownloadOutcome {
    if let Some(o) = immediate_outcome(job_plan) {
        return o;
    }
    let job = match job_plan {
        PlannedDownload::Fetch(j) => j.clone(),
        PlannedDownload::NoUrl { .. } => unreachable!(),
    };
    let mut t = Transfer::new(job);
    t.step(TransferInput::DirCreated);
    t.step(TransferInput::Response { status: 200, reason: "OK".to_string(), content_length: Some(10) });
    t.step(TransferInput::FileCreated);
    t.step(TransferInput::ChunkWritten(4));
    t.step(TransferInput::ChunkWritten(6));
    t.step(TransferInput::BodyEnded);
    t.into_outcome().unwrap()
}

#[test]
fn filename_appends_lowercased_format() {
    let r = res(Some("data"), None, Some("CSV"));
    assert_eq!(DataGovClient::get_resource_filename(&r, None), "data.csv");
}

#[test]
fn filename_keeps_name_that_has_the_extension() {
    let r = res(Some("report.csv"), Some("https://x/y/other.pdf"), Some("CSV"));
    assert_eq!(DataGovClient::get_resource_filename(&r, None), "report.csv");
}

#[test]
fn filename_keeps_name_without_format() {
    let r = res(Some("readme"), None, None);
    assert_eq!(DataGovClient::get_resource_filename(&r, None), "readme");
}

#[test]
fn filename_from_url_segment() {
    let r = res(None, Some("https://x/y/report.pdf"), None);
    assert_eq!(DataGovClient::get_resource_filename(&r, None), "report.pdf");
}

#[test]
fn filename_from_fallback_without_format() {
    let r = res(None, None, None);
    assert_eq!(DataGovClient::get_resource_filename(&r, Some("foo")), "foo.dat");
}

#[test]
fn filename_fallback_with_format_and_undotted_url() {
    let r = res(None, Some("https://x/y/download"), Some("JSON"));
    assert_eq!(DataGovClient::get_resource_filename(&r, None), "data.json");
    assert_eq!(DataGovClient::get_resource_filename(&r, Some("set")), "set.json");
}

#[test]
fn filename_is_the_same_on_every_call() {
    let r = res(None, Some("https://x/y/report.pdf"), Some("PDF"));
    let a = DataGovClient::get_resource_filename(&r, Some("f"));
    let b = DataGovClient::get_resource_filename(&r, Some("f"));
    assert_eq!(a, b);
}

#[test]
fn downloadable_resources_filter_keeps_order() {
    let mut api = res(Some("api"), Some("https://x/api"), Some("JSON"));
    api.url_type = Some("api".to_string());
    let rs = vec![
        res(Some("a"), Some("https://x/a.csv"), Some("CSV")),
        res(Some("no-url"), None, Some("CSV")),
        api,
        res(Some("no-format"), Some("https://x/b"), None),
        res(Some("b"), Some("https://x/b.json"), Some("JSON")),
    ];
    let p = Package::new("ds".to_string(), Some(rs));
    let out = DataGovClient::get_downloadable_resources(&p);
    let names: Vec<Option<String>> = out.iter().map(|r| r.name.clone()).collect();
    assert_eq!(names, vec![Some("a".to_string()), Some("b".to_string())]);
}

#[test]
fn downloadable_resources_of_dataset_without_list() {
    let p = Package::new("ds".to_string(), None);
    assert!(DataGovClient::get_downloadable_resources(&p).is_empty());
}

#[test]
fn empty_list_plans_no_downloads_and_no_event() {
    let c = client_in("/base");
    let plan = c.plan_resources(&vec![], None);
    assert!(plan.batch.is_none());
    assert!(plan.downloads.is_empty());
}

#[test]
fn single_resource_plans_like_its_batch_slot() {
    let c = client_in("/base");
    let r = res(Some("data"), Some("https://x/data"), Some("CSV"));
    let single = c.plan_dataset_resources(&vec![r.clone()], "ds");
    let batch = c.plan_dataset_resources(&vec![res(Some("z"), Some("https://x/z"), Some("TXT")), r], "ds");
    assert!(single.batch.is_none());
    let b = batch.batch.as_ref().unwrap();
    assert_eq!(b.resource_count, 2);
    assert_eq!(b.dataset_name.as_deref(), Some("ds"));
    match (&single.downloads[0], &batch.downloads[1]) {
        (PlannedDownload::Fetch(a), PlannedDownload::Fetch(b)) => {
            assert_eq!(a.output_path, "/base/ds/data.csv");
            assert_eq!(a.output_path, b.output_path);
            assert_eq!(a.url, b.url);
            assert_eq!(a.dataset_name.as_deref(), Some("ds"));
        }
        _ => panic!("both should be fetches"),
    }
    assert_eq!(run_ok(&single.downloads[0]), run_ok(&batch.downloads[1]));
}

#[test]
fn batch_with_missing_url_keeps_order() {
    let c = client_in("/base");
    let rs = vec![
        res(Some("one"), Some("https://x/1"), Some("CSV")),
        res(Some("two"), None, Some("CSV")),
        res(Some("three"), Some("https://x/3"), Some("CSV")),
    ];
    let plan = c.plan_resources(&rs, Some("/out"));
    assert_eq!(plan.batch.as_ref().unwrap().resource_count, 3);
    assert_eq!(plan.max_concurrency, 3);
    let mut slots = BatchOutcomes::new(3);
    for i in [2usize, 0, 1] {
        slots.record(i, run_ok(&plan.downloads[i]));
    }
    assert!(slots.is_complete());
    let results = slots.into_results();
    assert_eq!(results.len(), 3);
    assert_eq!(results[0], Ok("/out/one.csv".to_string()));
    assert_eq!(
        results[1],
        Err(DataGovError::ResourceNotFound { message: "Resource has no URL".to_string() })
    );
    assert_eq!(results[2], Ok("/out/three.csv".to_string()));
}

#[test]
fn missing_url_reports_failure_without_path() {
    let c = client_in("/base");
    let plan = c.plan_resources(&vec![res(Some("lonely"), None, None)], None);
    match &plan.downloads[0] {
        PlannedDownload::NoUrl { failed } => {
            assert!(failed.output_path.is_none());
            assert_eq!(failed.error, "Resource has no URL");
            assert_eq!(failed.resource_name.as_deref(), Some("lonely"));
        }
        _ => panic!("no request may be planned"),
    }
}

#[test]
fn error_status_fails_with_code_and_url() {
    let c = client_in("/base");
    let plan = c.plan_resources(&vec![res(Some("f"), Some("https://x/f"), Some("CSV"))], None);
    let job = match &plan.downloads[0] {
        PlannedDownload::Fetch(j) => j.clone(),
        _ => panic!(),
    };
    let mut t = Transfer::new(job);
    assert!(matches!(t.step(TransferInput::DirCreated), Notice::Nothing));
    let n = t.step(TransferInput::Response {
        status: 404,
        reason: "Not Found".to_string(),
        content_length: None,
    });
    let expected = "HTTP 404 Not Found while downloading https://x/f".to_string();
    match n {
        Notice::Failed(f) => {
            assert_eq!(f.error, expected);
            assert_eq!(f.output_path.as_deref(), Some("/base/f.csv"));
        }
        _ => panic!("a failure must be reported"),
    }
    assert_eq!(t.phase, TransferPhase::Failed);
    // nothing afterwards turns the failure into a success
    assert!(matches!(t.step(TransferInput::BodyEnded), Notice::Nothing));
    assert_eq!(t.into_outcome(), Some(Err(DataGovError::DownloadError { message: expected })));
}

#[test]
fn failure_message_has_code_and_url() {
    assert_eq!(failure_message(503, "Service Unavailable", "u"), "HTTP 503 Service Unavailable while downloading u");
}

#[test]
fn transfer_events_follow_lifecycle() {
    let c = client_in("/base");
    let plan = c.plan_resources(&vec![res(Some("f"), Some("https://x/f"), Some("CSV"))], None);
    let job = match &plan.downloads[0] {
        PlannedDownload::Fetch(j) => j.clone(),
        _ => panic!(),
    };
    let mut t = Transfer::new(job);
    t.step(TransferInput::DirCreated);
    match t.step(TransferInput::Response { status: 200, reason: "OK".into(), content_length: Some(10) }) {
        Notice::Started(s) => {
            assert_eq!(s.total_bytes, Some(10));
            assert_eq!(s.url, "https://x/f");
        }
        _ => panic!(),
    }
    t.step(TransferInput::FileCreated);
    match t.step(TransferInput::ChunkWritten(4)) {
        Notice::Progress(p) => assert_eq!((p.downloaded_bytes, p.total_bytes), (4, Some(10))),
        _ => panic!(),
    }
    match t.step(TransferInput::ChunkWritten(6)) {
        Notice::Progress(p) => assert_eq!(p.downloaded_bytes, 10),
        _ => panic!(),
    }
    assert!(matches!(t.step(TransferInput::BodyEnded), Notice::Finished(_)));
    assert!(matches!(t.step(TransferInput::ChunkWritten(1)), Notice::Nothing));
    assert_eq!(t.downloaded, 10);
}

#[test]
fn io_failures_become_io_errors() {
    let c = client_in("/base");
    let plan = c.plan_resources(&vec![res(Some("f"), Some("https://x/f"), Some("CSV"))], None);
    let job = match &plan.downloads[0] {
        PlannedDownload::Fetch(j) => j.clone(),
        _ => panic!(),
    };
    let mut t = Transfer::new(job.clone());
    t.step(TransferInput::DirFailed("denied".into()));
    assert_eq!(t.into_outcome(), Some(Err(DataGovError::IoError("denied".into()))));
    let mut t = Transfer::new(job);
    t.step(TransferInput::DirCreated);
    t.step(TransferInput::RequestFailed("dns".into()));
    assert_eq!(t.into_outcome(), Some(Err(DataGovError::HttpError("dns".into()))));
}

#[test]
fn permit_pool_never_exceeds_capacity() {
    let mut pool = PermitPool::new(2);
    assert!(pool.try_acquire());
    assert!(pool.try_acquire());
    assert!(!pool.try_acquire());
    assert_eq!(pool.in_use, 2);
    pool.release();
    assert!(pool.try_acquire());
    assert_eq!(pool.in_use, 2);
}

#[test]
fn concurrency_bound_is_at_least_one() {
    let mut cfg = DataGovConfig::new().with_download_dir("/base");
    cfg.max_concurrent_downloads = 0;
    let c = DataGovClient::with_config(cfg);
    let plan = c.plan_resources(&vec![res(Some("a"), Some("u"), None), res(Some("b"), Some("v"), None)], None);
    assert_eq!(plan.max_concurrency, 1);
}

#[test]
fn command_line_mode_downloads_into_working_directory() {
    let cfg = DataGovConfig::new()
        .with_download_dir("/home/u/Downloads")
        .with_working_dir("/work")
        .with_mode(OperatingMode::CommandLine);
    assert_eq!(cfg.get_base_download_dir(), "/work");
    assert_eq!(cfg.get_dataset_download_dir("ds"), "/work/ds");
    let cfg = cfg.with_mode(OperatingMode::Interactive);
    assert_eq!(cfg.get_dataset_download_dir("ds"), "/home/u/Downloads/ds");
}

#[test]
fn filename_from_last_nonempty_url_segment() {
    let r = res(None, Some("https://x/y/report.pdf/"), Some("PDF"));
    assert_eq!(DataGovClient::get_resource_filename(&r, None), "report.pdf");
    let r = res(None, Some("https://x/files//"), Some("CSV"));
    assert_eq!(DataGovClient::get_resource_filename(&r, Some("f")), "f.csv");
}

#[test]
fn filename_from_parts_takes_lowered_format() {
    let segs = vec!["a".to_string(), "b.zip".to_string(), "".to_string()];
    assert_eq!(DataGovClient::filename_from_parts(&None, Some("zip"), Some(&segs), None), "b.zip");
    assert_eq!(DataGovClient::filename_from_parts(&Some("n".to_string()), Some("csv"), None, None), "n.csv");
    assert_eq!(DataGovClient::filename_from_parts(&None, None, None, None), "data.dat");
}

#[test]
fn exact_path_plan_has_one_download_and_no_batch() {
    let plan = DataGovClient::plan_resource_at(&res(Some("f"), Some("https://x/f"), None), "/tmp/out.bin");
    assert!(plan.batch.is_none());
    assert_eq!(plan.max_concurrency, 1);
    match &plan.downloads[0] {
        PlannedDownload::Fetch(j) => assert_eq!(j.output_path, "/tmp/out.bin"),
        _ => panic!(),
    }
    let plan = DataGovClient::plan_resource_at(&res(Some("f"), None, None), "/tmp/out.bin");
    assert!(matches!(plan.downloads[0], PlannedDownload::NoUrl { .. }));
}

#[test]
fn default_download_dir_falls_back_in_order() {
    assert_eq!(choose_download_dir(Some("/d".into()), Some("/h".into())), "/d");
    assert_eq!(choose_download_dir(None, Some("/h".into())), "/h/Downloads");
    assert_eq!(choose_download_dir(None, None), "./Downloads");
}

#[test]
fn builders_keep_other_settings() {
    let base = DataGovConfig::new().with_download_dir("/d").with_working_dir("/w").with_download_timeout(9);
    let c = base.clone().with_api_key("k").with_user_agent("ua").with_max_concurrent_downloads(5);
    assert_eq!(c.working_dir, "/w");
    assert_eq!(c.base_download_dir, "/d");
    assert_eq!(c.download_timeout_secs, 9);
    assert_eq!(c.max_concurrent_downloads, 5);
    assert_eq!(c.ckan_config.base_path, base.ckan_config.base_path);
    let c = c.without_status_reporter().with_mode(OperatingMode::CommandLine);
    assert_eq!(c.user_agent, "ua");
    assert_eq!(c.get_base_download_dir(), "/w");
}
