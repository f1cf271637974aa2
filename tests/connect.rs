use tonic::transport::ClientTlsConfig;
use yellowstone_grpc_client::client::{GeyserGrpcClient, TransportSecurity};
use yellowstone_grpc_client::error::{CredentialFormatError, GeyserGrpcClientError};
use yellowstone_grpc_client::interceptor::InterceptorFn;

fn runtime() -> tokio::runtime::Runtime {
    tokio::runtime::Builder::new_current_thread()
        .enable_all()
        .build()
        .unwrap()
}

#[test]
fn test_channel_https_success() {
    let rt = runtime();
    let _guard = rt.enter();
    let endpoint = "https://ams17.rpcpool.com:443";
    let x_token = "1000000000000000000000000007";
    let res = GeyserGrpcClient::connect(endpoint, Some(x_token), None);
    assert!(res.is_ok())
}

#[test]
fn test_channel_http_success() {
    let rt = runtime();
    let _guard = rt.enter();
    let endpoint = "http://127.0.0.1:10000";
    let x_token = "1234567891012141618202224268";
    let res = GeyserGrpcClient::connect(endpoint, Some(x_token), None);
    assert!(res.is_ok())
}

#[test]
fn test_channel_invalid_token_some() {
    let rt = runtime();
    let _guard = rt.enter();
    let endpoint = "http://127.0.0.1:10000";
    let x_token = "";
    let res = GeyserGrpcClient::connect(endpoint, Some(x_token), None);
    assert!(matches!(
        res,
        Err(GeyserGrpcClientError::InvalidXTokenLength(_))
    ));
}

#[test]
fn test_channel_invalid_token_none() {
    let rt = runtime();
    let _guard = rt.enter();
    let endpoint = "http://127.0.0.1:10000";
    let res = GeyserGrpcClient::connect(endpoint, None, None);
    assert!(res.is_ok());
}

#[test]
fn test_channel_invalid_uri() {
    let rt = runtime();
    let _guard = rt.enter();
    let endpoint = "sites/files/images/picture.png";
    let x_token = "1234567891012141618202224268";
    let res = GeyserGrpcClient::connect(endpoint, Some(x_token), None);
    assert!(matches!(res, Err(GeyserGrpcClientError::InvalidUri(_))));
}

#[test]
fn secure_scheme_gets_default_encryption() {
    let rt = runtime();
    let _guard = rt.enter();
    let client =
        GeyserGrpcClient::connect("https://ams17.rpcpool.com:443", Some("abc"), None).unwrap();
    assert_eq!(client.transport(), TransportSecurity::DefaultTls);
}

#[test]
fn insecure_scheme_gets_no_encryption() {
    let rt = runtime();
    let _guard = rt.enter();
    let client = GeyserGrpcClient::connect("http://127.0.0.1:10000", Some("abc"), None).unwrap();
    assert_eq!(client.transport(), TransportSecurity::Plain);
}

#[test]
fn explicit_settings_win_over_scheme() {
    let rt = runtime();
    let _guard = rt.enter();
    let client = GeyserGrpcClient::connect(
        "http://127.0.0.1:10000",
        Some("abc"),
        Some(ClientTlsConfig::new()),
    )
    .unwrap();
    assert_eq!(client.transport(), TransportSecurity::ExplicitTls);
}

#[test]
fn unreachable_endpoint_still_connects() {
    let rt = runtime();
    let _guard = rt.enter();
    let res = GeyserGrpcClient::connect("http://10.255.255.1:1", Some("token"), None);
    assert!(res.is_ok());
}

#[test]
fn credential_with_newline_is_malformed() {
    let rt = runtime();
    let _guard = rt.enter();
    let res = GeyserGrpcClient::connect("http://127.0.0.1:10000", Some("bad\ntoken"), None);
    assert!(matches!(res, Err(GeyserGrpcClientError::MetadataValueError(_))));
}

#[test]
fn credential_with_delete_is_malformed() {
    let rt = runtime();
    let _guard = rt.enter();
    let res = GeyserGrpcClient::connect("http://127.0.0.1:10000", Some("ab\u{7f}"), None);
    assert!(matches!(
        res,
        Err(GeyserGrpcClientError::MetadataValueError(CredentialFormatError { index: 2, byte: 127 }))
    ));
}

#[test]
fn credential_with_tab_or_non_ascii_is_malformed() {
    let rt = runtime();
    let _guard = rt.enter();
    let tab = GeyserGrpcClient::connect("http://127.0.0.1:10000", Some("a\tb"), None);
    assert!(matches!(
        tab,
        Err(GeyserGrpcClientError::MetadataValueError(CredentialFormatError { index: 1, byte: 9 }))
    ));
    let umlaut = GeyserGrpcClient::connect("http://127.0.0.1:10000", Some("t\u{f6}ken"), None);
    assert!(matches!(
        umlaut,
        Err(GeyserGrpcClientError::MetadataValueError(CredentialFormatError {
            index: 1,
            byte: 0xc3
        }))
    ));
    let single = GeyserGrpcClient::connect("http://127.0.0.1:10000", Some("\u{f6}"), None);
    assert!(matches!(single, Err(GeyserGrpcClientError::MetadataValueError(_))));
}

#[test]
fn printable_ascii_credential_is_accepted() {
    let rt = runtime();
    let _guard = rt.enter();
    let res = GeyserGrpcClient::connect("http://127.0.0.1:10000", Some(" !~tok3n"), None);
    assert!(res.is_ok());
}

#[test]
fn without_runtime_connect_reports_it() {
    let res = GeyserGrpcClient::connect("http://127.0.0.1:10000", Some("abc"), None);
    assert!(matches!(res, Err(GeyserGrpcClientError::NoAsyncRuntime)));
    let bad = GeyserGrpcClient::connect("http://127.0.0.1:10000", Some(""), None);
    assert!(matches!(bad, Err(GeyserGrpcClientError::InvalidXTokenLength(0))));
}

#[test]
fn from_channel_without_channel_reports_no_runtime() {
    let interceptor = InterceptorFn::new(Some("abc")).unwrap();
    let res = GeyserGrpcClient::from_channel(None, interceptor, TransportSecurity::Plain);
    assert!(matches!(res, Err(GeyserGrpcClientError::NoAsyncRuntime)));
}

#[test]
fn uri_error_comes_before_credential_error() {
    let rt = runtime();
    let _guard = rt.enter();
    let res = GeyserGrpcClient::connect("not a uri", Some(""), None);
    assert!(matches!(res, Err(GeyserGrpcClientError::InvalidUri(_))));
}

#[test]
fn secure_scheme_without_host_fails_in_transport_setup() {
    let rt = runtime();
    let _guard = rt.enter();
    let res = GeyserGrpcClient::connect("https:/path-only", Some("abc"), None);
    assert!(matches!(
        res,
        Err(GeyserGrpcClientError::InvalidUri(_)) | Err(GeyserGrpcClientError::TonicError(_))
    ));
}

#[test]
fn failed_encryption_step_is_a_transport_error() {
    let rt = runtime();
    let _guard = rt.enter();
    let res = GeyserGrpcClient::connect("/no/host", Some("abc"), Some(ClientTlsConfig::new()));
    assert!(matches!(res, Err(GeyserGrpcClientError::TonicError(_))));
}

#[test]
fn configured_endpoint_failure_is_passed_on() {
    let rt = runtime();
    let _guard = rt.enter();
    let configured = tonic::transport::Channel::from_shared("/no/host")
        .unwrap()
        .tls_config(ClientTlsConfig::new());
    let res =
        GeyserGrpcClient::from_configured_endpoint(configured, TransportSecurity::ExplicitTls, None);
    assert!(matches!(res, Err(GeyserGrpcClientError::TonicError(_))));
}

#[test]
fn configured_endpoint_then_credential_decides() {
    let rt = runtime();
    let _guard = rt.enter();
    let endpoint = tonic::transport::Channel::from_shared("http://127.0.0.1:10000").unwrap();
    let ok = GeyserGrpcClient::from_configured_endpoint(
        Ok(endpoint.clone()),
        TransportSecurity::Plain,
        Some("abc"),
    );
    assert_eq!(ok.unwrap().transport(), TransportSecurity::Plain);
    let empty =
        GeyserGrpcClient::from_configured_endpoint(Ok(endpoint), TransportSecurity::Plain, Some(""));
    assert!(matches!(empty, Err(GeyserGrpcClientError::InvalidXTokenLength(0))));
}
