use tool_provision::error::ErrorKind;
use tool_provision::registry::{
    generate_github_assets, get_version_info, latest_release_url, parse_latest_release,
    parse_release_list, parse_ungh_release, read_registry_reply, release_in_document,
    releases_in_document, releases_url, HttpResponse, RegistryRequest,
};

#[test]
fn registry_addresses() {
    assert_eq!(latest_release_url("jgm/pandoc"), "https://ungh.cc/repos/jgm/pandoc/releases/latest");
    assert_eq!(releases_url("jgm/pandoc"), "https://ungh.cc/repos/jgm/pandoc/releases");
    assert_eq!(latest_release_url("typst/typst"), "https://ungh.cc/repos/typst/typst/releases/latest");
}

#[test]
fn reply_with_success_status_gives_the_body() {
    for status in [200u16, 204, 299] {
        let reply = Ok(HttpResponse {
            status,
            status_text: status.to_string(),
            body: Ok("{}".to_string()),
        });
        assert_eq!(read_registry_reply(RegistryRequest::LatestRelease, &reply).unwrap(), "{}");
        assert_eq!(read_registry_reply(RegistryRequest::ReleaseList, &reply).unwrap(), "{}");
    }
}

#[test]
fn reply_failures_are_told_apart() {
    let e = read_registry_reply(RegistryRequest::LatestRelease, &Err("connection refused".to_string()))
        .unwrap_err();
    assert_eq!(e.kind, ErrorKind::NetworkError);
    assert_eq!(e.message, "Failed to fetch release info: connection refused");

    for status in [199u16, 300, 404, 500] {
        let reply = Ok(HttpResponse {
            status,
            status_text: "404 Not Found".to_string(),
            body: Ok("ignored".to_string()),
        });
        let e = read_registry_reply(RegistryRequest::LatestRelease, &reply).unwrap_err();
        assert_eq!(e.kind, ErrorKind::HttpStatusError);
        assert_eq!(e.message, "API request failed with status: 404 Not Found");
    }

    let reply = Ok(HttpResponse {
        status: 200,
        status_text: "200 OK".to_string(),
        body: Err("stream closed".to_string()),
    });
    let e = read_registry_reply(RegistryRequest::ReleaseList, &reply).unwrap_err();
    assert_eq!(e.kind, ErrorKind::NetworkError);
    assert_eq!(e.message, "Failed to read response: stream closed");
}

#[test]
fn assets_are_synthesized_from_the_tag() {
    let assets = generate_github_assets("3.7.0.2");
    let names: Vec<&str> = assets.iter().map(|a| a.name.as_str()).collect();
    assert_eq!(
        names,
        vec![
            "pandoc-3.7.0.2-windows-x86_64.msi",
            "pandoc-3.7.0.2-windows-x86_64.zip",
            "pandoc-3.7.0.2-macOS.pkg",
            "pandoc-3.7.0.2-macOS.zip",
            "pandoc-3.7.0.2-linux-amd64.tar.gz",
            "pandoc-3.7.0.2.tar.gz",
        ]
    );
    assert_eq!(
        assets[4].download_url,
        "https://github.com/jgm/pandoc/releases/download/3.7.0.2/pandoc-3.7.0.2-linux-amd64.tar.gz"
    );
    assert_eq!(
        assets[0].download_url,
        "https://github.com/jgm/pandoc/releases/download/3.7.0.2/pandoc-3.7.0.2-windows-x86_64.msi"
    );
    let types: Vec<&str> = assets.iter().map(|a| a.content_type.as_str()).collect();
    assert_eq!(
        types,
        vec![
            "application/x-msi",
            "application/zip",
            "application/x-apple-diskimage",
            "application/zip",
            "application/gzip",
            "application/gzip",
        ]
    );
    assert!(assets.iter().all(|a| a.size == 0));
}

#[test]
fn release_record_is_read_member_by_member() {
    let data: serde_json::Value = serde_json::from_str(
        r#"{"tag":"3.7","name":"pandoc 3.7","markdown":"notes","publishedAt":"2025-05-14T00:00:00Z","id":7}"#,
    )
    .unwrap();
    let release = parse_ungh_release(&data);
    assert_eq!(release.tag_name, "3.7");
    assert_eq!(release.name, "pandoc 3.7");
    assert_eq!(release.body, "notes");
    assert_eq!(release.published_at, "2025-05-14T00:00:00Z");
    assert_eq!(release.assets.len(), 6);
    assert_eq!(release.assets[1].name, "pandoc-3.7-windows-x86_64.zip");
}

#[test]
fn release_record_defaults() {
    let data: serde_json::Value = serde_json::from_str(r#"{"tag":"3.7","name":null,"markdown":5}"#).unwrap();
    let release = parse_ungh_release(&data);
    assert_eq!(release.tag_name, "3.7");
    assert_eq!(release.name, "3.7");
    assert_eq!(release.body, "");
    assert_eq!(release.published_at, "");

    let release = parse_ungh_release(&serde_json::Value::Null);
    assert_eq!(release.tag_name, "");
    assert_eq!(release.name, "");
    assert_eq!(release.assets[5].name, "pandoc-.tar.gz");

    let release = parse_ungh_release(&serde_json::Value::String("3.7".to_string()));
    assert_eq!(release.tag_name, "");
}

#[test]
fn latest_release_is_read_from_its_member() {
    let release = parse_latest_release(r#"{"release":{"tag":"3.7.0.2","name":"v3.7.0.2"}}"#).unwrap();
    assert_eq!(release.tag_name, "3.7.0.2");
    assert_eq!(release.name, "v3.7.0.2");
}

#[test]
fn latest_release_shape_errors() {
    for body in [r#"{"release":null}"#, r#"{}"#, r#"[1,2]"#, r#""text""#, r#"{"releases":[]}"#] {
        let e = parse_latest_release(body).unwrap_err();
        assert_eq!(e.kind, ErrorKind::ParseError, "{}", body);
        assert_eq!(e.message, "No release data found in response", "{}", body);
    }
    for body in ["", "{", "not json", r#"{"release":}"#] {
        let e = parse_latest_release(body).unwrap_err();
        assert_eq!(e.kind, ErrorKind::ParseError, "{}", body);
        assert!(e.message.starts_with("Failed to parse JSON: "), "{}", e.message);
        assert!(e.message.len() > "Failed to parse JSON: ".len());
    }
}

#[test]
fn a_release_that_is_no_object_still_counts() {
    let release = parse_latest_release(r#"{"release":7}"#).unwrap();
    assert_eq!(release.tag_name, "");
    let doc: serde_json::Value = serde_json::from_str(r#"{"release":{"tag":"1"}}"#).unwrap();
    assert_eq!(release_in_document(&doc).unwrap().tag_name, "1");
}

#[test]
fn release_list_keeps_the_order() {
    let list = parse_release_list(
        r#"{"releases":[{"tag":"3.7"},{"tag":"3.6","name":"old"},"junk",{"name":"untagged"}]}"#,
    )
    .unwrap();
    let tags: Vec<&str> = list.iter().map(|r| r.tag_name.as_str()).collect();
    assert_eq!(tags, vec!["3.7", "3.6", "", ""]);
    assert_eq!(list[1].name, "old");
    assert_eq!(list[3].name, "untagged");
    assert_eq!(parse_release_list(r#"{"releases":[]}"#).unwrap().len(), 0);
}

#[test]
fn release_list_shape_errors() {
    for body in [r#"{"releases":null}"#, r#"{}"#, r#"{"releases":{"a":1}}"#, r#"[]"#] {
        let e = parse_release_list(body).unwrap_err();
        assert_eq!(e.kind, ErrorKind::ParseError);
        assert_eq!(e.message, "No releases array found in response");
    }
    let e = parse_release_list("][").unwrap_err();
    assert_eq!(e.kind, ErrorKind::ParseError);
    assert!(e.message.starts_with("Failed to parse JSON: "));
    let doc: serde_json::Value = serde_json::from_str(r#"{"releases":[{"tag":"9"}]}"#).unwrap();
    assert_eq!(releases_in_document(&doc).unwrap()[0].tag_name, "9");
}

#[test]
fn version_info_compares_normal_forms() {
    let latest = parse_latest_release(r#"{"release":{"tag":"3.7.0.2"}}"#).unwrap();
    let all = parse_release_list(r#"{"releases":[{"tag":"3.7.0.2"},{"tag":"3.6"}]}"#).unwrap();

    let info = get_version_info(Some("pandoc 3.6".to_string()), &latest, &all);
    assert_eq!(info.current, Some("pandoc 3.6".to_string()));
    assert_eq!(info.latest, Some("3.7.0.2".to_string()));
    assert_eq!(info.available_versions, vec!["3.7.0.2", "3.6"]);
    assert!(info.is_update_available);

    let info = get_version_info(Some("v3.7.0.2".to_string()), &latest, &all);
    assert!(!info.is_update_available);

    let info = get_version_info(None, &latest, &all);
    assert_eq!(info.current, None);
    assert!(info.is_update_available);
}

#[test]
fn each_request_has_its_own_error_texts() {
    let unanswered = Err("timed out".to_string());
    let refused = Ok(HttpResponse {
        status: 503,
        status_text: "503 Service Unavailable".to_string(),
        body: Ok(String::new()),
    });
    for (request, first, second) in [
        (
            RegistryRequest::LatestRelease,
            "Failed to fetch release info: timed out",
            "API request failed with status: 503 Service Unavailable",
        ),
        (
            RegistryRequest::ReleaseList,
            "Failed to fetch releases: timed out",
            "API request failed with status: 503 Service Unavailable",
        ),
        (
            RegistryRequest::TypesetterRelease,
            "Failed to fetch Typst release info: timed out",
            "UNGH API request failed with status: 503 Service Unavailable",
        ),
    ] {
        let e = read_registry_reply(request, &unanswered).unwrap_err();
        assert_eq!((e.kind, e.message.as_str()), (ErrorKind::NetworkError, first));
        let e = read_registry_reply(request, &refused).unwrap_err();
        assert_eq!((e.kind, e.message.as_str()), (ErrorKind::HttpStatusError, second));
    }
}
