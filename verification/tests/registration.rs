use fractal::login::registration::{
    checked_client_registration_data, client_registration_data, native_client_metadata,
    ApplicationType, GrantType, RegistrationError, IPV4_LOCALHOST_URI, IPV6_LOCALHOST_URI,
};

#[test]
fn metadata_of_a_native_client() {
    let metadata = native_client_metadata("App", "home");
    assert_eq!(metadata.application_type, ApplicationType::Native);
    assert_eq!(metadata.grant_types.len(), 1);
    let GrantType::AuthorizationCode { redirect_uris } = &metadata.grant_types[0];
    assert_eq!(*redirect_uris, ["http://127.0.0.1/", "http://[::1]/"]);
    assert_eq!(metadata.client_uri.non_localized, "home");
    assert!(metadata.client_uri.localized.is_empty());
    let client_name = metadata.client_name.unwrap();
    assert_eq!(client_name.non_localized, "App");
    assert!(client_name.localized.is_empty());
}

#[test]
fn localhost_uris() {
    assert_eq!(IPV4_LOCALHOST_URI, "http://127.0.0.1/");
    assert_eq!(IPV6_LOCALHOST_URI, "http://[::1]/");
}

const EXPECTED: &str = "{\"redirect_uris\":[\"http://127.0.0.1/\",\"http://[::1]/\"],\
    \"token_endpoint_auth_method\":\"none\",\
    \"grant_types\":[\"authorization_code\",\"refresh_token\"],\
    \"response_types\":[\"code\"],\"application_type\":\"native\",\
    \"client_uri\":\"https://example.org/app\",\"client_name\":\"An \\\"app\\\"\"}";

#[test]
fn registration_data_is_json() {
    let json = client_registration_data("An \"app\"", "https://example.org/app");
    assert_eq!(json, EXPECTED);
    let json = checked_client_registration_data("An \"app\"", "HTTPS://Example.org/app");
    assert_eq!(json.as_deref(), Ok(EXPECTED));
}

#[test]
fn registration_data_needs_a_valid_homepage() {
    assert_eq!(
        checked_client_registration_data("App", "example").unwrap_err(),
        RegistrationError::InvalidClientUri
    );
}
