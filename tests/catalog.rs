use data_gov::ckan::{
    action_url, autocomplete_url, decoded, flag_text, int_text, list_url, package_search_url, package_show_url,
    search_filter, unwrap_reply, ActionReply, QueryParam,
};
use data_gov::config::{Configuration, DataGovConfig, DATA_GOV_BASE_URL};
use data_gov::error::{CkanError, DataGovError};
use data_gov::model::{
    dataset_suggestion_names, organization_suggestion_names, DatasetAutocomplete, OrganizationAutocomplete, Package,
    PackageSearchResult,
};

const BASE: &str = "https://catalog.data.gov/api/3";

#[test]
fn test_error_messages() {
    let api_error = CkanError::ApiError { status: 404, message: "Dataset not found".to_string() };

    let message = api_error.to_message();
    assert!(message.contains("404"));
    assert!(message.contains("Dataset not found"));
}

#[test]
fn error_texts_are_exact() {
    let api_error = CkanError::ApiError { status: 404, message: "Dataset not found".to_string() };
    assert_eq!(api_error.to_message(), "CKAN API error (404): Dataset not found");
    assert_eq!(CkanError::RequestError("timeout".into()).to_message(), "Request error: timeout");
    assert_eq!(CkanError::ParseError("eof".into()).to_message(), "Parse error: eof");
    assert_eq!(
        DataGovError::CkanError(api_error).to_message(),
        "CKAN API error: CKAN API error (404): Dataset not found"
    );
    assert_eq!(DataGovError::resource_not_found("gone").to_message(), "Resource not found: gone");
    assert_eq!(DataGovError::download_error("bad").to_message(), "Download failed: bad");
    assert_eq!(DataGovError::config_error("dir").to_message(), "Configuration error: dir");
    assert_eq!(DataGovError::validation_error("arg").to_message(), "Validation error: arg");
    assert_eq!(DataGovError::other("plain").to_message(), "plain");
    assert_eq!(
        DataGovError::InvalidFormat { expected: "CSV".into(), actual: "PDF".into() }.to_message(),
        "Invalid resource format: expected CSV, got PDF"
    );
}

#[test]
fn search_url_encodes_query_values() {
    let url = package_search_url(BASE, Some("climate change"), Some(5), Some(0), None);
    assert_eq!(url, "https://catalog.data.gov/api/3/action/package_search?q=climate%20change&rows=5&start=0");
}

#[test]
fn search_url_with_filter_only() {
    let url = package_search_url(BASE, None, None, None, Some("res_format:\"CSV\""));
    assert_eq!(url, "https://catalog.data.gov/api/3/action/package_search?fq=res_format%3A%22CSV%22");
}

#[test]
fn search_url_without_parameters() {
    assert_eq!(package_search_url(BASE, None, None, None, None), "https://catalog.data.gov/api/3/action/package_search");
}

#[test]
fn show_url_encodes_id() {
    assert_eq!(package_show_url(BASE, "a b/c"), "https://catalog.data.gov/api/3/action/package_show?id=a%20b%2Fc");
}

#[test]
fn list_and_autocomplete_urls() {
    assert_eq!(
        list_url(BASE, "organization_list", Some("name asc"), Some(10), Some(-1)),
        "https://catalog.data.gov/api/3/action/organization_list?sort=name%20asc&limit=10&offset=-1"
    );
    assert_eq!(
        autocomplete_url(BASE, "user_autocomplete", Some("ad"), None, "ignore_self", Some(flag_text(true))),
        "https://catalog.data.gov/api/3/action/user_autocomplete?q=ad&ignore_self=true"
    );
}

#[test]
fn action_url_joins_pairs() {
    let ps = vec![
        QueryParam { key: "a".into(), value: "x~y".into() },
        QueryParam { key: "b".into(), value: "é".into() },
    ];
    assert_eq!(action_url("h", "act", &ps), "h/action/act?a=x~y&b=%C3%A9");
}

#[test]
fn integers_are_written_in_decimal() {
    assert_eq!(int_text(0), "0");
    assert_eq!(int_text(1234), "1234");
    assert_eq!(int_text(i32::MIN), "-2147483648");
}

#[test]
fn search_filters() {
    assert_eq!(
        search_filter(Some("doe-gov"), Some("CSV")),
        Some("organization:\"doe-gov\" AND res_format:\"CSV\"".to_string())
    );
    assert_eq!(search_filter(Some("epa"), None), Some("organization:\"epa\"".to_string()));
    assert_eq!(search_filter(None, Some("JSON")), Some("res_format:\"JSON\"".to_string()));
    assert_eq!(search_filter(None, None), None);
}

#[test]
fn search_result_unwraps_from_envelope() {
    let packages: Vec<Package> = (0..5).map(|i| Package::new(format!("climate-{i}"), None)).collect();
    let payload = PackageSearchResult { count: Some(42), results: Some(packages) };
    let reply = ActionReply::Envelope { success: true, result: Some(payload) };
    let result = unwrap_reply(reply).unwrap();
    assert_eq!(result.count, Some(42));
    let items = result.results.unwrap();
    assert_eq!(items.len(), 5);
    assert!(!items[0].name.is_empty());
}

#[test]
fn not_found_status_is_api_error_404() {
    let reply: ActionReply<Package> = ActionReply::ErrorStatus { status: 404, body: Some("Not found".into()) };
    match unwrap_reply(reply) {
        Err(CkanError::ApiError { status, message }) => {
            assert_eq!(status, 404);
            assert_eq!(message, "Not found");
        }
        _ => panic!("expected an API error"),
    }
}

#[test]
fn envelope_failures() {
    let r: Result<u8, CkanError> = unwrap_reply(ActionReply::Envelope { success: false, result: Some(1) });
    assert_eq!(r, Err(CkanError::ApiError { status: 400, message: "CKAN API reported failure".into() }));
    let r: Result<u8, CkanError> = unwrap_reply(ActionReply::Envelope { success: true, result: None });
    assert_eq!(r, Err(CkanError::ApiError { status: 500, message: "No result data in API response".into() }));
    let r: Result<u8, CkanError> = unwrap_reply(ActionReply::ErrorStatus { status: 502, body: None });
    assert_eq!(r, Err(CkanError::ApiError { status: 502, message: "Unknown error".into() }));
    let r: Result<u8, CkanError> = unwrap_reply(ActionReply::TransportFailed("refused".into()));
    assert_eq!(r, Err(CkanError::RequestError("refused".into())));
    let r: Result<u8, CkanError> = unwrap_reply(ActionReply::UnreadableBody("reset".into()));
    assert_eq!(r, Err(CkanError::RequestError("reset".into())));
    let r: Result<u8, CkanError> = unwrap_reply(ActionReply::UndecodableBody("eof".into()));
    assert_eq!(r, Err(CkanError::ParseError("eof".into())));
    let r: Result<u8, CkanError> = decoded(Err("missing field".to_string()));
    assert_eq!(r, Err(CkanError::ParseError("missing field".into())));
    assert_eq!(decoded::<u8>(Ok(3)), Ok(3));
}

#[test]
fn suggestion_names_skip_unnamed() {
    let ds = vec![
        DatasetAutocomplete { name: Some("a".into()), title: None, match_field: None, match_displayed: None },
        DatasetAutocomplete { name: None, title: Some("t".into()), match_field: None, match_displayed: None },
        DatasetAutocomplete { name: Some("b".into()), title: None, match_field: None, match_displayed: None },
    ];
    assert_eq!(dataset_suggestion_names(&ds), vec!["a".to_string(), "b".to_string()]);
    let orgs = vec![
        OrganizationAutocomplete { id: None, name: None, title: None },
        OrganizationAutocomplete { id: None, name: Some("epa-gov".into()), title: None },
    ];
    assert_eq!(organization_suggestion_names(&orgs), vec!["epa-gov".to_string()]);
}

#[test]
fn default_settings() {
    let c = Configuration::new();
    assert_eq!(c.base_path, DATA_GOV_BASE_URL);
    assert_eq!(c.user_agent.as_deref(), Some("data-gov-rs/1.0"));
    let cfg = DataGovConfig::new();
    assert_eq!(cfg.max_concurrent_downloads, 3);
    assert_eq!(cfg.download_timeout_secs, 300);
    assert!(cfg.status_reporter().is_none());
    let cfg = cfg.with_max_concurrent_downloads(0).with_api_key("k").with_user_agent("ua/2");
    assert_eq!(cfg.max_concurrent_downloads, 1);
    assert_eq!(cfg.ckan_config.api_key.as_ref().map(|k| k.key.as_str()), Some("k"));
    assert_eq!(cfg.ckan_config.user_agent.as_deref(), Some("ua/2"));
    assert_eq!(cfg.user_agent, "ua/2");
}

#[test]
fn extra_pairs_hold_key_and_value() {
    let e = data_gov::model::Extra::new("spatial".to_string(), serde_json::Value::String("US".to_string()));
    assert_eq!(e.key, "spatial");
    assert_eq!(e.value, serde_json::Value::String("US".to_string()));
}

#[test]
fn client_reports_its_download_directory() {
    let c = data_gov::client::DataGovClient::with_config(DataGovConfig::new().with_download_dir("/data"));
    assert_eq!(c.download_dir(), "/data");
    let c = data_gov::client::DataGovClient::with_config(
        DataGovConfig::new().with_working_dir("/w").with_mode(data_gov::config::OperatingMode::CommandLine),
    );
    assert_eq!(c.download_dir(), "/w");
}

#[test]
fn test_error_types() {
    // RequestError carries the transport failure's description
    let req_error = CkanError::RequestError(std::io::Error::other("test error").to_string());
    let _display = req_error.to_message();
    let _debug = format!("{:?}", req_error);

    // ParseError carries the decoder's description
    let parse_error =
        CkanError::ParseError(serde_json::from_str::<serde_json::Value>("invalid json").unwrap_err().to_string());
    let _display = parse_error.to_message();
    let _debug = format!("{:?}", parse_error);

    let api_error = CkanError::ApiError { status: 404, message: "Not Found".to_string() };
    let _display = api_error.to_message();
    let _debug = format!("{:?}", api_error);
}
