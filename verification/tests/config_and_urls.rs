use udl::config::{resolve_setting, save_config_inputs, Config};
use udl::errors::TransferError;
use udl::objects::{delete_precheck, on_delete_response, on_list_response};
use udl::urls::{
    complete_upload_url, create_upload_url, download_url, list_url, object_url, stats_url,
    upload_part_url,
};

#[test]
fn per_invocation_values_take_precedence() {
    assert_eq!(
        resolve_setting(Some("cli".to_string()), Some("stored".to_string())),
        Ok("cli".to_string())
    );
    assert_eq!(resolve_setting(None, Some("stored".to_string())), Ok("stored".to_string()));
    assert_eq!(resolve_setting(Some("cli".to_string()), None), Ok("cli".to_string()));
    assert_eq!(resolve_setting(None, None), Err(TransferError::Config));
}

#[test]
fn saving_needs_both_url_and_key() {
    assert_eq!(
        save_config_inputs(Some("u".to_string()), Some("k".to_string())),
        Ok(("u".to_string(), "k".to_string()))
    );
    assert_eq!(save_config_inputs(None, Some("k".to_string())), Err(TransferError::Config));
    assert_eq!(save_config_inputs(Some("u".to_string()), None), Err(TransferError::Config));
    assert_eq!(save_config_inputs(None, None), Err(TransferError::Config));
}

#[test]
fn config_holds_and_updates_its_settings() {
    let mut c = Config::new(None, Some("http://h".to_string()));
    assert_eq!(c.key(), None);
    assert_eq!(c.url(), Some("http://h".to_string()));
    c.set_key("secret".to_string());
    assert_eq!(c.key(), Some("secret".to_string()));
    assert_eq!(c.url(), Some("http://h".to_string()));
    c.set_url("http://other".to_string());
    assert_eq!(c.url(), Some("http://other".to_string()));
    assert_eq!(c.key(), Some("secret".to_string()));
}

#[test]
fn object_keys_are_percent_encoded_into_paths() {
    assert_eq!(stats_url("http://h", "a b"), "http://h/objects/a%20b/stats");
    assert_eq!(download_url("http://h", "x/y"), "http://h/objects/x%2Fy/download");
    assert_eq!(object_url("http://h", "plain-name_0.~"), "http://h/objects/plain-name_0.~");
}

#[test]
fn trailing_slashes_of_the_base_are_dropped() {
    assert_eq!(list_url("http://h///"), "http://h/objects");
    assert_eq!(create_upload_url("http://h/"), "http://h/uploads/create");
    assert_eq!(upload_part_url("http://h"), "http://h/uploads/upload-part");
    assert_eq!(complete_upload_url("http://h/"), "http://h/uploads/complete");
}

#[test]
fn listing_answers_become_entries() {
    let body = b"[{\"key\":\"a\",\"size\":2048,\"etag\":\"e1\"},{\"key\":\"b\",\"size\":0,\"etag\":\"e2\"}]";
    let entries = on_list_response(200, body).expect("well-formed listing");
    assert_eq!(entries.len(), 2);
    assert_eq!(entries[0].key, "a");
    assert_eq!(entries[0].size, 2048);
    assert_eq!(entries[0].etag, "e1");
    assert_eq!(entries[1].key, "b");

    let empty = on_list_response(200, b"[]").expect("empty listing");
    assert!(empty.is_empty());
}

#[test]
fn listing_failures_are_told_apart() {
    assert!(matches!(on_list_response(500, b"[]"), Err(TransferError::HttpStatus { code: 500 })));
    assert!(matches!(on_list_response(200, b"nope"), Err(TransferError::ResponseParse)));
    assert!(matches!(
        on_list_response(200, b"[{\"key\":\"a\"}]"),
        Err(TransferError::ResponseParse)
    ));
}

#[test]
fn delete_decisions_follow_the_statuses() {
    assert_eq!(delete_precheck(404), Err(TransferError::NotFound));
    assert_eq!(delete_precheck(200), Ok(()));
    assert_eq!(delete_precheck(500), Ok(()));
    assert_eq!(on_delete_response(204), Ok(()));
    assert_eq!(on_delete_response(500), Err(TransferError::HttpStatus { code: 500 }));
}
