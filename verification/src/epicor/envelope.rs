//! The envelope that every call to the case API travels in: where it goes,
//! the headers that authenticate it, and its body.

use vstd::prelude::*;
use vstd::string::*;
use vstd::utf8::encode_utf8;
use crate::epicor::error::{ApiError, ConfigFault, ErrorSpec, Setting};
use crate::text::result_view;

verus! {

/// The three values that the API needs from the environment.
#[derive(Debug, Clone, PartialEq, Eq)]
pub struct ApiCredentials {
    pub api_key: String,
    pub basic_auth: String,
    pub base_url: String,
}

pub struct CredentialsSpec {
    pub api_key: Seq<char>,
    pub basic_auth: Seq<char>,
    pub base_url: Seq<char>,
}

impl View for ApiCredentials {
    type V = CredentialsSpec;

    open spec fn view(&self) -> CredentialsSpec {
        CredentialsSpec {
            api_key: self.api_key@,
            basic_auth: self.basic_auth@,
            base_url: self.base_url@,
        }
    }
}

/// The credentials that the environment yields: all three values have to be
/// there, and the first that is not is the one reported.
pub open spec fn credentials_from(
    api_key: Option<Seq<char>>,
    basic_auth: Option<Seq<char>>,
    base_url: Option<Seq<char>>,
) -> Result<CredentialsSpec, ErrorSpec> {
    match (api_key, basic_auth, base_url) {
        (None, _, _) => Err(ErrorSpec::Configuration(ConfigFault::Missing(Setting::ApiKey))),
        (Some(_), None, _) => Err(
            ErrorSpec::Configuration(ConfigFault::Missing(Setting::BasicAuth)),
        ),
        (Some(_), Some(_), None) => Err(
            ErrorSpec::Configuration(ConfigFault::Missing(Setting::BaseUrl)),
        ),
        (Some(api_key), Some(basic_auth), Some(base_url)) => Ok(
            CredentialsSpec { api_key, basic_auth, base_url },
        ),
    }
}

impl ApiCredentials {
    /// Takes the three values as the environment holds them.
    pub fn from_environment(
        api_key: Option<String>,
        basic_auth: Option<String>,
        base_url: Option<String>,
    ) -> (credentials: Result<ApiCredentials, ApiError>)
        ensures
            result_view(credentials) == credentials_from(
                crate::text::optional_text(api_key),
                crate::text::optional_text(basic_auth),
                crate::text::optional_text(base_url),
            ),
    {
        let api_key = match api_key {
            Some(value) => value,
            None => {
                return Err(ApiError::Configuration(ConfigFault::Missing(Setting::ApiKey)));
            },
        };
        let basic_auth = match basic_auth {
            Some(value) => value,
            None => {
                return Err(ApiError::Configuration(ConfigFault::Missing(Setting::BasicAuth)));
            },
        };
        let base_url = match base_url {
            Some(value) => value,
            None => {
                return Err(ApiError::Configuration(ConfigFault::Missing(Setting::BaseUrl)));
            },
        };
        Ok(ApiCredentials { api_key, basic_auth, base_url })
    }
}

/// One header of a request.
#[derive(Debug, Clone, PartialEq, Eq)]
pub struct Header {
    pub name: String,
    pub value: String,
}

pub struct HeaderSpec {
    pub name: Seq<char>,
    pub value: Seq<char>,
}

impl View for Header {
    type V = HeaderSpec;

    open spec fn view(&self) -> HeaderSpec {
        HeaderSpec { name: self.name@, value: self.value@ }
    }
}

/// A request, ready to be posted.
#[derive(Debug, Clone, PartialEq, Eq)]
pub struct Envelope {
    pub url: String,
    pub headers: Vec<Header>,
    pub body: String,
}

pub struct EnvelopeSpec {
    pub url: Seq<char>,
    pub headers: Seq<HeaderSpec>,
    pub body: Seq<char>,
}

impl View for Envelope {
    type V = EnvelopeSpec;

    open spec fn view(&self) -> EnvelopeSpec {
        EnvelopeSpec {
            url: self.url@,
            headers: self.headers@.map_values(|header: Header| header@),
            body: self.body@,
        }
    }
}

/// The bytes that an HTTP header value may hold: the tab, and anything from
/// the space upwards except DEL.
pub open spec fn header_byte(byte: u8) -> bool {
    byte >= 32 && byte != 127 || byte == 9
}

/// Whether a text can be sent as a header value: each byte of its UTF-8
/// encoding has to be one that a header value may hold.
pub open spec fn header_text(text: Seq<char>) -> bool {
    forall|i: int| 0 <= i < encode_utf8(text).len() ==> header_byte(#[trigger] encode_utf8(text)[i])
}

/// `reqwest::header::HeaderValue::from_str`: the text is taken as a header
/// value exactly when each byte of it is the tab, or at least 32 and not 127.
#[verifier::external_body]
fn header_value_accepts(value: &str) -> (accepted: bool)
    ensures
        accepted == header_text(value@),
{
    reqwest::header::HeaderValue::from_str(value).is_ok()
}

/// Where a call goes: the action's path below `/api/v2/` at the base URL.
pub open spec fn url_of(base_url: Seq<char>, endpoint: Seq<char>) -> Seq<char> {
    base_url + "/api/v2/"@ + endpoint
}

/// The envelope for a body: the URL, and the three headers that every call
/// carries. A key or an authorization that no header can carry is refused,
/// the key first.
pub open spec fn envelope(credentials: CredentialsSpec, endpoint: Seq<char>, body: Seq<char>) -> Result<
    EnvelopeSpec,
    ErrorSpec,
> {
    if !header_text(credentials.api_key) {
        Err(ErrorSpec::Configuration(ConfigFault::Unencodable(Setting::ApiKey)))
    } else if !header_text(credentials.basic_auth) {
        Err(ErrorSpec::Configuration(ConfigFault::Unencodable(Setting::BasicAuth)))
    } else {
        Ok(
            EnvelopeSpec {
                url: url_of(credentials.base_url, endpoint),
                headers: seq![
                    HeaderSpec { name: "X-API-Key"@, value: credentials.api_key },
                    HeaderSpec { name: "Authorization"@, value: credentials.basic_auth },
                    HeaderSpec {
                        name: "Content-Type"@,
                        value: "application/json; charset=utf-8"@,
                    },
                ],
                body,
            },
        )
    }
}

/// Puts a body into its envelope.
pub fn build_envelope(credentials: &ApiCredentials, api_endpoint: &str, body: String) -> (built: Result<
    Envelope,
    ApiError,
>)
    ensures
        result_view(built) == envelope(credentials@, api_endpoint@, body@),
{
    if !header_value_accepts(credentials.api_key.as_str()) {
        return Err(ApiError::Configuration(ConfigFault::Unencodable(Setting::ApiKey)));
    }
    if !header_value_accepts(credentials.basic_auth.as_str()) {
        return Err(ApiError::Configuration(ConfigFault::Unencodable(Setting::BasicAuth)));
    }
    let mut url = credentials.base_url.clone();
    url.append("/api/v2/");
    url.append(api_endpoint);
    let mut headers: Vec<Header> = Vec::new();
    headers.push(
        Header { name: String::from_str("X-API-Key"), value: credentials.api_key.clone() },
    );
    headers.push(
        Header { name: String::from_str("Authorization"), value: credentials.basic_auth.clone() },
    );
    headers.push(
        Header {
            name: String::from_str("Content-Type"),
            value: String::from_str("application/json; charset=utf-8"),
        },
    );
    let built = Envelope { url, headers, body };
    assert(built@.headers =~= envelope(credentials@, api_endpoint@, body@)->Ok_0.headers);
    Ok(built)
}

} // verus!
