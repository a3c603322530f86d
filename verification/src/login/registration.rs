//! Identifiers and metadata that are exchanged with the homeserver.

use vstd::prelude::*;

use matrix_sdk::authentication::oauth::registration::{
    ApplicationType as OAuthApplicationType, ClientMetadata as OAuthMetadata,
    Localized as OAuthLocalized, OAuthGrantType,
};
use matrix_sdk::ruma::serde::Raw;
use url::Url;

use crate::text::{optional_text, texts};

verus! {

/// What `url::Url::parse` makes of a text, written out again; nothing if it is not a valid URL.
pub uninterp spec fn parsed_url(text: Seq<char>) -> Option<Seq<char>>;

/// What `matrix_sdk::sanitize_server_name` makes of a text; nothing if it is not a valid server
/// name.
pub uninterp spec fn sanitized_server_name(text: Seq<char>) -> Option<Seq<char>>;

/// The JSON that `matrix_sdk::ruma::serde::Raw::new` makes of a
/// `matrix_sdk::authentication::oauth::registration::ClientMetadata` with the given content; nothing
/// if it cannot be built or serialized.
pub uninterp spec fn client_metadata_json(metadata: MetadataContent) -> Option<Seq<char>>;

/// Parses a URL with `url::Url::parse`.
///
/// That function is trusted to depend on nothing but the text. What it accepts and how it
/// normalizes a URL is not stated.
#[verifier::external_body]
pub(crate) fn parse_url(text: &str) -> (url: Option<String>)
    ensures
        optional_text(url) == parsed_url(text@),
{
    Url::parse(text).ok().map(String::from)
}

/// Makes a server name of what the user entered with `matrix_sdk::sanitize_server_name`.
///
/// That function is trusted to depend on nothing but the text. It removes whitespace, the scheme
/// and trailing slashes before it parses the rest; which server names it accepts is not stated.
#[verifier::external_body]
pub(crate) fn sanitize_server_name(text: &str) -> (server_name: Option<String>)
    ensures
        optional_text(server_name) == sanitized_server_name(text@),
{
    matrix_sdk::sanitize_server_name(text).ok().map(|name| name.to_string())
}

/// The type of an application.
#[derive(Debug, Clone, Copy, PartialEq, Eq, Structural)]
pub enum ApplicationType {
    /// The application is a web client.
    Web,
    /// The application is a native client.
    Native,
}

/// A way to get a token from an OAuth 2.0 authorization server, of those that can be used here.
#[derive(Debug)]
pub enum GrantType {
    /// With an authorization code.
    AuthorizationCode {
        /// The URIs that the user can be redirected to.
        redirect_uris: Vec<String>,
    },
}

/// A text, and its variants in some languages.
#[derive(Debug, Clone)]
pub struct Localized {
    /// The text for all the other languages.
    pub non_localized: String,
    /// The language tags and the variants for them.
    pub localized: Vec<(String, String)>,
}

/// The metadata to register a client with an OAuth 2.0 authorization server.
#[derive(Debug)]
pub struct ClientMetadata {
    /// The type of the application.
    pub application_type: ApplicationType,
    /// The grant types that the client uses.
    pub grant_types: Vec<GrantType>,
    /// The URL of the home page of the client.
    pub client_uri: Localized,
    /// The name of the client.
    pub client_name: Option<Localized>,
}

/// The content of a grant type.
#[verifier::ext_equal]
pub enum GrantContent {
    /// With an authorization code, and the given redirect URIs.
    AuthorizationCode(Seq<Seq<char>>),
}

/// The content of a text with variants.
#[verifier::ext_equal]
pub struct LocalizedContent {
    /// The text for all the other languages.
    pub non_localized: Seq<char>,
    /// The language tags and the variants for them.
    pub localized: Seq<(Seq<char>, Seq<char>)>,
}

/// The content of client metadata.
#[verifier::ext_equal]
pub struct MetadataContent {
    /// The type of the application.
    pub application_type: ApplicationType,
    /// The grant types that the client uses.
    pub grant_types: Seq<GrantContent>,
    /// The URL of the home page of the client.
    pub client_uri: LocalizedContent,
    /// The name of the client.
    pub client_name: Option<LocalizedContent>,
}

impl View for GrantType {
    type V = GrantContent;

    open spec fn view(&self) -> GrantContent {
        match self {
            GrantType::AuthorizationCode { redirect_uris } => GrantContent::AuthorizationCode(
                texts(redirect_uris@),
            ),
        }
    }
}

impl View for Localized {
    type V = LocalizedContent;

    open spec fn view(&self) -> LocalizedContent {
        LocalizedContent {
            non_localized: self.non_localized@,
            localized: self.localized@.map_values(
                |variant: (String, String)| (variant.0@, variant.1@),
            ),
        }
    }
}

impl View for ClientMetadata {
    type V = MetadataContent;

    open spec fn view(&self) -> MetadataContent {
        MetadataContent {
            application_type: self.application_type,
            grant_types: self.grant_types@.map_values(|grant_type: GrantType| grant_type@),
            client_uri: self.client_uri@,
            client_name: match self.client_name {
                Some(client_name) => Some(client_name@),
                None => None,
            },
        }
    }
}

impl LocalizedContent {
    /// A text without variants.
    pub open spec fn plain(text: Seq<char>) -> LocalizedContent {
        LocalizedContent { non_localized: text, localized: seq![] }
    }
}

impl MetadataContent {
    /// Whether no text has variants.
    pub open spec fn is_not_localized(self) -> bool {
        &&& self.client_uri.localized.len() == 0
        &&& self.client_name is Some ==> self.client_name->0.localized.len() == 0
    }

    /// Whether `uri` is the home page or one of the redirect URIs.
    pub open spec fn has_uri(self, uri: Seq<char>) -> bool {
        ||| uri == self.client_uri.non_localized
        ||| exists|i: int|
            {
                &&& 0 <= i < self.grant_types.len()
                &&& (#[trigger] self.grant_types[i])->0.contains(uri)
            }
    }
}

/// Serializes client metadata with `matrix_sdk::authentication::oauth::registration::ClientMetadata`
/// and `matrix_sdk::ruma::serde::Raw::new`.
///
/// They are trusted to depend on nothing but the metadata, and the URIs are parsed with
/// `url::Url::parse`, so that there is no JSON for a URI that is not valid. The JSON is not stated.
/// The variants of a text are written in the order of a hash map: metadata with variants is left
/// out here.
#[verifier::external_body]
pub(crate) fn serialize_client_metadata(metadata: &ClientMetadata) -> (json: Option<String>)
    requires
        metadata@.is_not_localized(),
    ensures
        optional_text(json) == client_metadata_json(metadata@),
        (exists|uri: Seq<char>| #[trigger] metadata@.has_uri(uri) && parsed_url(uri) is None) ==> json
            is None,
{
    let grants = metadata.grant_types.iter().map(|GrantType::AuthorizationCode { redirect_uris }| {
        let uris = redirect_uris.iter().map(|uri| Url::parse(uri).ok()).collect::<Option<_>>()?;
        Some(OAuthGrantType::AuthorizationCode { redirect_uris: uris })
    });
    let mut outside = OAuthMetadata::new(
        match metadata.application_type {
            ApplicationType::Web => OAuthApplicationType::Web,
            ApplicationType::Native => OAuthApplicationType::Native
        },
        grants.collect::<Option<_>>()?,
        OAuthLocalized::new(Url::parse(&metadata.client_uri.non_localized).ok()?, None)
    );
    outside.client_name = metadata.client_name.clone()
        .map(|name| OAuthLocalized::new(name.non_localized, None));
    Some(Raw::new(&outside).ok()?.json().get().to_owned())
}

/// The URI of a local server at the IPv4 loopback address.
pub const IPV4_LOCALHOST_URI: &'static str = "http://127.0.0.1/";

/// The URI of a local server at the IPv6 loopback address.
pub const IPV6_LOCALHOST_URI: &'static str = "http://[::1]/";

/// Why there is no client registration data.
#[derive(Debug, Clone, Copy, PartialEq, Eq, Structural)]
pub enum RegistrationError {
    /// The IPv4 localhost address is not a valid URL.
    InvalidIpv4Uri,
    /// The IPv6 localhost address is not a valid URL.
    InvalidIpv6Uri,
    /// The application homepage URL is not a valid URL.
    InvalidClientUri,
    /// The client metadata does not serialize to JSON.
    NotSerializable,
}

/// The metadata of a native application with the given name and homepage, that is redirected to a
/// local server with an authorization code. Nothing is localized.
pub open spec fn native_metadata(app_name: Seq<char>, homepage_url: Seq<char>) -> MetadataContent {
    MetadataContent {
        application_type: ApplicationType::Native,
        grant_types: seq![
            GrantContent::AuthorizationCode(seq![IPV4_LOCALHOST_URI@, IPV6_LOCALHOST_URI@]),
        ],
        client_uri: LocalizedContent::plain(homepage_url),
        client_name: Some(LocalizedContent::plain(app_name)),
    }
}

/// The client registration data, as JSON, or why there is none.
pub open spec fn registration_data(
    app_name: Seq<char>,
    homepage_url: Seq<char>,
) -> Result<Seq<char>, RegistrationError> {
    if parsed_url(IPV4_LOCALHOST_URI@) is None {
        Err(RegistrationError::InvalidIpv4Uri)
    } else if parsed_url(IPV6_LOCALHOST_URI@) is None {
        Err(RegistrationError::InvalidIpv6Uri)
    } else if parsed_url(homepage_url) is None {
        Err(RegistrationError::InvalidClientUri)
    } else {
        match client_metadata_json(native_metadata(app_name, homepage_url)) {
            Some(json) => Ok(json),
            None => Err(RegistrationError::NotSerializable),
        }
    }
}

/// The metadata of a native application that is redirected to a local server.
pub fn native_client_metadata(app_name: &str, homepage_url: &str) -> (metadata: ClientMetadata)
    ensures
        metadata@ == native_metadata(app_name@, homepage_url@),
{
    // Register the IPv4 and IPv6 localhost APIs as we use a local server for the redirection.
    let redirect_uris = vec![IPV4_LOCALHOST_URI.to_owned(), IPV6_LOCALHOST_URI.to_owned()];
    assert(texts(redirect_uris@) =~= seq![IPV4_LOCALHOST_URI@, IPV6_LOCALHOST_URI@]);
    let grant_type = GrantType::AuthorizationCode { redirect_uris };
    let metadata = ClientMetadata {
        application_type: ApplicationType::Native,
        grant_types: vec![grant_type],
        client_uri: Localized { non_localized: homepage_url.to_owned(), localized: Vec::new() },
        client_name: Some(Localized { non_localized: app_name.to_owned(), localized: Vec::new() }),
    };
    assert(metadata@ =~~= native_metadata(app_name@, homepage_url@));
    metadata
}

/// Client registration data for the OAuth 2.0 API, as JSON.
pub fn client_registration_data(app_name: &str, homepage_url: &str) -> (json: String)
    requires
        registration_data(app_name@, homepage_url@) is Ok,
    ensures
        registration_data(app_name@, homepage_url@) == Ok::<Seq<char>, RegistrationError>(json@),
        client_metadata_json(native_metadata(app_name@, homepage_url@)) == Some(json@),
{
    serialize_client_metadata(&native_client_metadata(app_name, homepage_url)).unwrap()
}

/// Client registration data for the OAuth 2.0 API, as JSON, or why there is none.
pub fn checked_client_registration_data(app_name: &str, homepage_url: &str) -> (json: Result<
    String,
    RegistrationError,
>)
    ensures
        match json {
            Ok(json) => registration_data(app_name@, homepage_url@) == Ok::<
                Seq<char>,
                RegistrationError,
            >(json@),
            Err(error) => registration_data(app_name@, homepage_url@) == Err::<
                Seq<char>,
                RegistrationError,
            >(error),
        },
{
    if parse_url(IPV4_LOCALHOST_URI).is_none() {
        return Err(RegistrationError::InvalidIpv4Uri);
    }
    if parse_url(IPV6_LOCALHOST_URI).is_none() {
        return Err(RegistrationError::InvalidIpv6Uri);
    }
    if parse_url(homepage_url).is_none() {
        return Err(RegistrationError::InvalidClientUri);
    }
    match serialize_client_metadata(&native_client_metadata(app_name, homepage_url)) {
        Some(_) => Ok(client_registration_data(app_name, homepage_url)),
        None => Err(RegistrationError::NotSerializable),
    }
}

/// The URIs of a native application are its home page and those of the local server. There is no
/// registration data unless all of them are valid.
pub proof fn native_metadata_uris(app_name: Seq<char>, homepage_url: Seq<char>)
    ensures
        forall|uri: Seq<char>| #[trigger]
            native_metadata(app_name, homepage_url).has_uri(uri) <==> uri == homepage_url || uri
                == IPV4_LOCALHOST_URI@ || uri == IPV6_LOCALHOST_URI@,
        registration_data(app_name, homepage_url) is Ok ==> forall|uri: Seq<char>| #[trigger]
            native_metadata(app_name, homepage_url).has_uri(uri) ==> parsed_url(uri) is Some,
{
    let metadata = native_metadata(app_name, homepage_url);
    let redirect_uris = seq![IPV4_LOCALHOST_URI@, IPV6_LOCALHOST_URI@];
    assert(metadata.grant_types[0] == GrantContent::AuthorizationCode(redirect_uris));
    assert(redirect_uris[0] == IPV4_LOCALHOST_URI@ && redirect_uris[1] == IPV6_LOCALHOST_URI@);
}

/// Whatever the name and the home page, the metadata is the one of a native application with that
/// name and home page, neither of which has variants, and with one grant: an authorization code that
/// is sent to the IPv4 or to the IPv6 loopback address.
pub proof fn native_metadata_is_complete(
    metadata: ClientMetadata,
    app_name: Seq<char>,
    homepage_url: Seq<char>,
)
    requires
        metadata@ == native_metadata(app_name, homepage_url),
    ensures
        metadata.application_type is Native,
        metadata.grant_types@.len() == 1,
        metadata.grant_types@[0] is AuthorizationCode,
        metadata.grant_types@[0]->redirect_uris@.len() == 2,
        metadata.grant_types@[0]->redirect_uris@[0]@ == "http://127.0.0.1/"@,
        metadata.grant_types@[0]->redirect_uris@[1]@ == "http://[::1]/"@,
        metadata.client_uri.non_localized@ == homepage_url,
        metadata.client_uri.localized@.len() == 0,
        metadata.client_name is Some,
        metadata.client_name->0.non_localized@ == app_name,
        metadata.client_name->0.localized@.len() == 0,
        metadata@.is_not_localized(),
{
    let grant_types = metadata@.grant_types;
    assert(grant_types.len() == 1);
    let grant_type = metadata.grant_types@[0];
    assert(grant_type@ == grant_types[0]);
    let uris = texts(grant_type->redirect_uris@);
    assert(uris == seq![IPV4_LOCALHOST_URI@, IPV6_LOCALHOST_URI@]);
    assert(uris.len() == 2);
    assert(uris[0] == grant_type->redirect_uris@[0]@);
    assert(uris[1] == grant_type->redirect_uris@[1]@);
    assert(metadata@.client_uri.localized.len() == metadata.client_uri.localized@.len());
    assert(metadata@.client_name->0.localized.len() == metadata.client_name->0.localized@.len());
}

/// There is registration data exactly if the three URIs are valid and the metadata can be serialized.
/// It is the JSON of that metadata, and otherwise the first thing that is wrong is reported.
pub proof fn registration_data_is_the_metadata(
    metadata: ClientMetadata,
    app_name: Seq<char>,
    homepage_url: Seq<char>,
    data: Result<Seq<char>, RegistrationError>,
)
    requires
        metadata@ == native_metadata(app_name, homepage_url),
        data == registration_data(app_name, homepage_url),
    ensures
        ({
            let ipv4 = parsed_url("http://127.0.0.1/"@) is Some;
            let ipv6 = parsed_url("http://[::1]/"@) is Some;
            let homepage = parsed_url(homepage_url) is Some;
            let json = client_metadata_json(metadata@);
            &&& data is Ok <==> ipv4 && ipv6 && homepage && json is Some
            &&& data is Ok ==> json == Some(data->Ok_0)
            &&& data is Err && data->Err_0 is InvalidIpv4Uri <==> !ipv4
            &&& data is Err && data->Err_0 is InvalidIpv6Uri <==> ipv4 && !ipv6
            &&& data is Err && data->Err_0 is InvalidClientUri <==> ipv4 && ipv6 && !homepage
            &&& data is Err && data->Err_0 is NotSerializable <==> ipv4 && ipv6 && homepage && json
                is None
        }),
{
}

} // verus!
