use zotero_rs::file_upload::{
    binary_upload_accepted, binary_upload_refused, compose_upload_body, determine_upload_action,
    prepare_binary_upload, result_after_registration, step_after_authorization, FileUploadAction,
    FileUploadAuthorizationResponse, UploadStep,
};
use zotero_rs::responses::ResponseMetadata;
use zotero_rs::ZoteroClientError;

#[test]
fn composes_prefix_file_suffix() {
    let out = compose_upload_body("abc", b"DATA", "xyz");
    assert_eq!(out, b"abcDATAxyz");
}

#[test]
fn returns_already_exists_when_exists_is_one() {
    let response = FileUploadAuthorizationResponse {
        exists: 1,
        upload_key: None,
        url: None,
        prefix: None,
        suffix: None,
    };

    let action = determine_upload_action(&response).expect("valid");
    assert!(matches!(action, FileUploadAction::AlreadyExists));
}

#[test]
fn fails_when_upload_required_but_missing_fields() {
    let response = FileUploadAuthorizationResponse {
        exists: 0,
        upload_key: Some("ukey".to_owned()),
        url: None,
        prefix: Some("p".to_owned()),
        suffix: Some("s".to_owned()),
    };

    let err = determine_upload_action(&response).expect_err("must fail");
    assert!(err.message().contains("missing file upload field"));
}

#[test]
fn returns_upload_required_when_all_fields_present() {
    let response = FileUploadAuthorizationResponse {
        exists: 0,
        upload_key: Some("u".to_owned()),
        url: Some("https://example.com/upload".to_owned()),
        prefix: Some("p".to_owned()),
        suffix: Some("s".to_owned()),
    };

    let action = determine_upload_action(&response).expect("must parse");
    assert!(matches!(action, FileUploadAction::UploadRequired { .. }));
}

#[test]
fn names_the_first_missing_field() {
    let response = FileUploadAuthorizationResponse {
        exists: 0,
        upload_key: None,
        url: None,
        prefix: None,
        suffix: None,
    };
    let err = determine_upload_action(&response).expect_err("must fail");
    assert_eq!(err.message(), "missing file upload field: upload_key");

    let response = FileUploadAuthorizationResponse {
        exists: 0,
        upload_key: Some("k".to_owned()),
        url: Some("https://example.com/u".to_owned()),
        prefix: Some("p".to_owned()),
        suffix: None,
    };
    let err = determine_upload_action(&response).expect_err("must fail");
    assert_eq!(err.message(), "missing file upload field: suffix");
}

#[test]
fn upload_required_carries_the_fields() {
    let response = FileUploadAuthorizationResponse {
        exists: 0,
        upload_key: Some("ukey1".to_owned()),
        url: Some("https://example.com/upload-target".to_owned()),
        prefix: Some("pre".to_owned()),
        suffix: Some("suf".to_owned()),
    };
    match determine_upload_action(&response).expect("must parse") {
        FileUploadAction::UploadRequired { upload_key, upload_url, prefix, suffix } => {
            assert_eq!(upload_key, "ukey1");
            assert_eq!(upload_url, "https://example.com/upload-target");
            assert_eq!(prefix, "pre");
            assert_eq!(suffix, "suf");
        }
        FileUploadAction::AlreadyExists => panic!("upload expected"),
    }
}

#[test]
fn exists_other_than_one_still_uploads() {
    let response = FileUploadAuthorizationResponse {
        exists: 2,
        upload_key: Some("u".to_owned()),
        url: Some("https://example.com/upload".to_owned()),
        prefix: Some("p".to_owned()),
        suffix: Some("s".to_owned()),
    };
    assert!(matches!(
        determine_upload_action(&response).expect("must parse"),
        FileUploadAction::UploadRequired { .. }
    ));
}

#[test]
fn rejects_non_https_upload_url() {
    let err = prepare_binary_upload("http://example.com/upload", "", b"a", "")
        .err()
        .expect("must fail");
    assert!(err.message().contains("upload URL must use https"));
}

#[test]
fn accepts_https_upload_url_and_builds_body() {
    let upload = prepare_binary_upload("https://example.com/upload-target", "pre", b"DATA", "suf")
        .ok()
        .expect("must succeed");
    assert_eq!(upload.body, b"preDATAsuf");
    assert_eq!(upload.target.scheme(), "https");
    assert_eq!(upload.target.host(), Some("example.com"));
}

#[test]
fn rejects_unparsable_upload_url() {
    let err = prepare_binary_upload("not a url", "", b"a", "").err().expect("must fail");
    assert!(matches!(err, ZoteroClientError::UrlParse(_)));
    assert!(err.message().starts_with("URL parse failed: "));
}

#[test]
fn composes_non_ascii_wrappers_as_utf8() {
    let out = compose_upload_body("é", b"", "");
    assert_eq!(out, vec![0xC3, 0xA9]);
}

#[test]
fn existing_file_finishes_with_authorization_metadata() {
    let response = FileUploadAuthorizationResponse {
        exists: 1,
        upload_key: None,
        url: None,
        prefix: None,
        suffix: None,
    };
    let metadata = ResponseMetadata { last_modified_version: Some(7), ..ResponseMetadata::default() };
    match step_after_authorization(&response, metadata).expect("valid") {
        UploadStep::Finished(result) => {
            assert!(result.already_exists);
            assert_eq!(result.metadata.last_modified_version, Some(7));
        }
        UploadStep::SendBytes { .. } => panic!("nothing to send"),
    }
}

#[test]
fn missing_file_asks_for_the_bytes_then_reports_registration() {
    let response = FileUploadAuthorizationResponse {
        exists: 0,
        upload_key: Some("ukey1".to_owned()),
        url: Some("https://example.com/upload-target".to_owned()),
        prefix: Some("pre".to_owned()),
        suffix: Some("suf".to_owned()),
    };
    match step_after_authorization(&response, ResponseMetadata::default()).expect("valid") {
        UploadStep::SendBytes { upload_key, upload_url, prefix, suffix } => {
            assert_eq!(upload_key, "ukey1");
            assert_eq!(upload_url, "https://example.com/upload-target");
            assert_eq!(compose_upload_body(&prefix, b"DATA", &suffix), b"preDATAsuf");
        }
        UploadStep::Finished(_) => panic!("bytes must be sent"),
    }
    let registered = ResponseMetadata { library_version: Some(9), ..ResponseMetadata::default() };
    let result = result_after_registration(registered);
    assert!(!result.already_exists);
    assert_eq!(result.metadata.library_version, Some(9));
    let broken = FileUploadAuthorizationResponse { url: None, ..response };
    let err = step_after_authorization(&broken, ResponseMetadata::default()).err().expect("must fail");
    assert_eq!(err.message(), "missing file upload field: url");
}

#[test]
fn upload_target_replies() {
    assert!(binary_upload_accepted(200));
    assert!(binary_upload_accepted(204));
    assert!(!binary_upload_accepted(199));
    assert!(!binary_upload_accepted(403));
    let err = binary_upload_refused(403, "denied".to_owned());
    assert!(matches!(&err, ZoteroClientError::HttpStatus { status: 403, body, .. } if body == "denied"));
    assert_eq!(err.message(), "api returned status 403 Forbidden");
}
