use data_gov::download::DownloadOutcome;
use data_gov::error::{CkanError, DataGovError};
use data_gov::model::{Package, Resource};
use data_gov::server::{
    count_outcomes, find_tool_spec, find_tool_spec_by_method, invalid_params, missing_params, resolve_method,
    resolve_tool_call, select_download_resources, server_methods, tool_specs, ResponseError, ServerError,
};

fn res(id: &str, name: &str, format: &str) -> Resource {
    let mut r = Resource::new(Some(name.into()), Some(format!("https://x/{name}")), Some(format.into()));
    r.id = Some(id.into());
    r
}

fn dataset() -> Package {
    Package::new(
        "ds".into(),
        Some(vec![res("AAA-1", "one", "CSV"), res("bbb-2", "two", "JSON"), res("ccc-3", "three", "csv")]),
    )
}

#[test]
fn tool_table_lookups() {
    assert_eq!(tool_specs().len(), 8);
    assert_eq!(server_methods().len(), 12);
    let t = find_tool_spec("data_gov_search").unwrap();
    assert_eq!(t.method_name, "data_gov.search");
    assert!(find_tool_spec("nope").is_none());
    assert_eq!(find_tool_spec_by_method("ckan.packageShow").unwrap().tool_name, "ckan_package_show");
    assert!(find_tool_spec_by_method("initialize").is_none());
}

#[test]
fn call_routing() {
    let inv = resolve_tool_call("ckan_organization_list").unwrap();
    assert_eq!(inv.method, "ckan.organizationList");
    assert!(inv.as_tool);
    assert_eq!(resolve_tool_call("nope").unwrap_err(), ServerError::InvalidMethod("nope".into()));
    assert!(resolve_method("data_gov.dataset").as_tool);
    assert!(!resolve_method("tools/list").as_tool);
}

#[test]
fn response_error_codes() {
    let e = ResponseError::from_error(ServerError::InvalidMethod("x".into()));
    assert_eq!((e.code, e.message.as_str()), (-32601, "Unknown method: x"));
    assert_eq!(ResponseError::from_error(ServerError::InvalidRequest("bad".into())).code, -32600);
    assert_eq!(ResponseError::from_error(missing_params("data_gov.search")).message, "data_gov.search: missing parameters");
    assert_eq!(ResponseError::from_error(invalid_params("m", "oops")).code, -32602);
    assert_eq!(ResponseError::from_error(ServerError::Json("j".into())).code, -32700);
    assert_eq!(ResponseError::from_error(ServerError::Io("io".into())).code, -32020);
    let d = ResponseError::from_error(ServerError::DataGov(DataGovError::other("boom")));
    assert_eq!((d.code, d.message.as_str()), (-32010, "boom"));
    let c = ResponseError::from_error(ServerError::Ckan(CkanError::ApiError { status: 404, message: "nf".into() }));
    assert_eq!((c.code, c.message.as_str()), (-32011, "CKAN API error (404): nf"));
    assert_eq!(ResponseError::from_error(ServerError::Serialization("s".into())).code, -32603);
    assert_eq!(ServerError::InvalidParams("p".into()).to_message(), "invalid parameters: p");
}

#[test]
fn selection_without_filters_takes_all_downloadable() {
    let s = select_download_resources(&dataset(), &None, &None).unwrap();
    assert_eq!(s.resources.len(), 3);
    assert!(s.missing_resource_ids.is_empty());
}

#[test]
fn selection_by_ids_ignores_case_and_spaces() {
    let ids = Some(vec![" aaa-1 ".to_string(), "zzz".to_string(), "CCC-3".to_string()]);
    let s = select_download_resources(&dataset(), &ids, &None).unwrap();
    let names: Vec<_> = s.resources.iter().map(|r| r.name.clone().unwrap()).collect();
    assert_eq!(names, vec!["one", "three"]);
    assert_eq!(s.missing_resource_ids, vec!["zzz".to_string()]);
}

#[test]
fn selection_by_formats() {
    let fmts = Some(vec!["csv".to_string(), "XML".to_string()]);
    let s = select_download_resources(&dataset(), &None, &fmts).unwrap();
    assert_eq!(s.resources.len(), 2);
    assert_eq!(s.unavailable_formats, vec!["XML".to_string()]);
}

#[test]
fn selection_failures() {
    let empty = Some(Vec::new());
    assert_eq!(
        select_download_resources(&dataset(), &empty, &None).unwrap_err(),
        ServerError::InvalidParams("data_gov.downloadResources: resourceIds cannot be empty".into())
    );
    let ids = Some(vec!["bbb-2".to_string(), "q".to_string()]);
    let fmts = Some(vec!["csv".to_string()]);
    assert_eq!(
        select_download_resources(&dataset(), &ids, &fmts).unwrap_err(),
        ServerError::InvalidParams(
            "data_gov.downloadResources: no matching downloadable resources; missing resourceIds: q; unavailable formats: csv"
                .into()
        )
    );
}

#[test]
fn outcome_counts() {
    let v: Vec<DownloadOutcome> = vec![Ok("a".into()), Err(DataGovError::other("x")), Ok("b".into())];
    assert_eq!(count_outcomes(&v), (2, 1));
    assert_eq!(count_outcomes(&Vec::new()), (0, 0));
}
