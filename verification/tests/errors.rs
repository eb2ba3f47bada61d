use editor_extensions::error::{missing_asset_message, ProvisionError, ResolveFailure};
use editor_extensions::text::join_text;

#[test]
fn network_error_message_is_the_cause() {
    let e = ProvisionError::Network("connection refused".to_string());
    assert_eq!(e.message(), "connection refused");
}

#[test]
fn not_found_message_is_the_cause() {
    let e = ProvisionError::NotFound("no release found".to_string());
    assert_eq!(e.message(), "no release found");
}

#[test]
fn asset_not_found_message_quotes_the_name() {
    let e = ProvisionError::AssetNotFound("zk-1.0.0-linux-amd64.tar.gz".to_string());
    assert_eq!(e.message(), "no asset found matching \"zk-1.0.0-linux-amd64.tar.gz\"");
}

#[test]
fn asset_not_found_message_escapes_quotes_in_the_name() {
    let e = ProvisionError::AssetNotFound("a\"b\\c".to_string());
    assert_eq!(e.message(), "no asset found matching \"a\\\"b\\\\c\"");
}

#[test]
fn download_error_message_has_a_prefix() {
    let e = ProvisionError::Download("404".to_string());
    assert_eq!(e.message(), "failed to download file: 404");
}

#[test]
fn filesystem_error_message_is_the_cause() {
    let e = ProvisionError::Filesystem("permission denied".to_string());
    assert_eq!(e.message(), "permission denied");
}

#[test]
fn missing_asset_message_appends_what_it_is_given() {
    assert_eq!(missing_asset_message("'x'"), "no asset found matching 'x'");
}

#[test]
fn resolve_failures_keep_their_kind_and_cause() {
    assert_eq!(
        ResolveFailure::Network("timeout".to_string()).into_error(),
        ProvisionError::Network("timeout".to_string())
    );
    assert_eq!(
        ResolveFailure::NotFound("none".to_string()).into_error(),
        ProvisionError::NotFound("none".to_string())
    );
}

#[test]
fn text_is_joined_in_order() {
    assert_eq!(join_text("ab", "cd"), "abcd");
    assert_eq!(join_text("", "x"), "x");
    assert_eq!(join_text("x", ""), "x");
}
