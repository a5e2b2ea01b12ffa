//! The network protocol of a login attempt, as data.
//!
//! The identity service is reached twice: a prelogin lookup that answers with
//! the account's KDF descriptor, and a password-grant token exchange that
//! answers with a session, a second-factor challenge, or a typed failure.
//! The HTTP transport itself lives outside this library; here stand the
//! request a token exchange carries, field by field, and the interpretation
//! of both responses — each verified against the raw status and body.

use vstd::prelude::*;
use vstd::utf8::encode_utf8;

use crate::crypto::{Base64, spec_base64_standard, spec_base64_url_safe_no_pad};
use crate::error::LoginError;
use crate::kdf::{KdfConfig, PreloginFields, decode_kdf_config, spec_decoded_config,
    spec_fields_fit, spec_kind_known};
use crate::provider::{TwoFactorProvider, TwoFactorVerification, WireValue,
    spec_decode_wire_value, spec_wire_code_str};

verus! {

// ----- the values a token exchange carries -----

/// The OAuth grant kinds the token endpoint knows.
#[derive(Debug, Clone, Copy, PartialEq, Eq, Structural)]
pub enum GrantKind {
    RefreshToken,
    Password,
    ClientCredentials,
}

/// The snake_case name each grant kind has on the wire.
pub open spec fn spec_grant_kind_str(g: GrantKind) -> Seq<char> {
    match g {
        GrantKind::RefreshToken => "refresh_token"@,
        GrantKind::Password => "password"@,
        GrantKind::ClientCredentials => "client_credentials"@,
    }
}

impl GrantKind {
    /// The wire name of this grant kind.
    pub fn wire_name(&self) -> (r: &'static str)
        ensures
            r@ == spec_grant_kind_str(*self),
    {
        match self {
            GrantKind::RefreshToken => "refresh_token",
            GrantKind::Password => "password",
            GrantKind::ClientCredentials => "client_credentials",
        }
    }
}

/// The client platforms the identity service distinguishes.
#[derive(Debug, Clone, Copy, PartialEq, Eq, Structural)]
pub enum ClientKind {
    Web,
    Browser,
    Desktop,
    Cli,
}

/// The snake_case identifier each client kind has on the wire.
pub open spec fn spec_client_kind_str(c: ClientKind) -> Seq<char> {
    match c {
        ClientKind::Web => "web"@,
        ClientKind::Browser => "browser"@,
        ClientKind::Desktop => "desktop"@,
        ClientKind::Cli => "cli"@,
    }
}

impl ClientKind {
    /// The wire identifier of this client kind.
    pub fn wire_name(&self) -> (r: &'static str)
        ensures
            r@ == spec_client_kind_str(*self),
    {
        match self {
            ClientKind::Web => "web",
            ClientKind::Browser => "browser",
            ClientKind::Desktop => "desktop",
            ClientKind::Cli => "cli",
        }
    }
}

/// The device taxonomy of the protocol, in wire-code order starting at zero.
#[allow(non_camel_case_types)]
#[derive(Debug, Clone, Copy, PartialEq, Eq, Structural)]
pub enum DeviceKind {
    Android,
    iOS,
    ChromeExtension,
    FirefoxExtension,
    OperaExtension,
    EdgeExtension,
    WindowsDesktop,
    MacOsDesktop,
    LinuxDesktop,
    ChromeBrowser,
    FirefoxBrowser,
    OperaBrowser,
    EdgeBrowser,
    IEBrowser,
    UnknownBrowser,
    AndroidAmazon,
    UWP,
    SafariBrowser,
    VivaldiBrowser,
    VivaldiExtension,
    SafariExtension,
    SDK,
    Server,
    WindowsCLI,
    MacOsCLI,
    LinuxCLI,
}

/// The decimal wire code of each device kind, as the form field carries it.
pub open spec fn spec_device_kind_str(d: DeviceKind) -> Seq<char> {
    match d {
        DeviceKind::Android => "0"@,
        DeviceKind::iOS => "1"@,
        DeviceKind::ChromeExtension => "2"@,
        DeviceKind::FirefoxExtension => "3"@,
        DeviceKind::OperaExtension => "4"@,
        DeviceKind::EdgeExtension => "5"@,
        DeviceKind::WindowsDesktop => "6"@,
        DeviceKind::MacOsDesktop => "7"@,
        DeviceKind::LinuxDesktop => "8"@,
        DeviceKind::ChromeBrowser => "9"@,
        DeviceKind::FirefoxBrowser => "10"@,
        DeviceKind::OperaBrowser => "11"@,
        DeviceKind::EdgeBrowser => "12"@,
        DeviceKind::IEBrowser => "13"@,
        DeviceKind::UnknownBrowser => "14"@,
        DeviceKind::AndroidAmazon => "15"@,
        DeviceKind::UWP => "16"@,
        DeviceKind::SafariBrowser => "17"@,
        DeviceKind::VivaldiBrowser => "18"@,
        DeviceKind::VivaldiExtension => "19"@,
        DeviceKind::SafariExtension => "20"@,
        DeviceKind::SDK => "21"@,
        DeviceKind::Server => "22"@,
        DeviceKind::WindowsCLI => "23"@,
        DeviceKind::MacOsCLI => "24"@,
        DeviceKind::LinuxCLI => "25"@,
    }
}

impl DeviceKind {
    /// The decimal wire code of this device kind.
    pub fn wire_code_str(&self) -> (r: &'static str)
        ensures
            r@ == spec_device_kind_str(*self),
    {
        match self {
            DeviceKind::Android => "0",
            DeviceKind::iOS => "1",
            DeviceKind::ChromeExtension => "2",
            DeviceKind::FirefoxExtension => "3",
            DeviceKind::OperaExtension => "4",
            DeviceKind::EdgeExtension => "5",
            DeviceKind::WindowsDesktop => "6",
            DeviceKind::MacOsDesktop => "7",
            DeviceKind::LinuxDesktop => "8",
            DeviceKind::ChromeBrowser => "9",
            DeviceKind::FirefoxBrowser => "10",
            DeviceKind::OperaBrowser => "11",
            DeviceKind::EdgeBrowser => "12",
            DeviceKind::IEBrowser => "13",
            DeviceKind::UnknownBrowser => "14",
            DeviceKind::AndroidAmazon => "15",
            DeviceKind::UWP => "16",
            DeviceKind::SafariBrowser => "17",
            DeviceKind::VivaldiBrowser => "18",
            DeviceKind::VivaldiExtension => "19",
            DeviceKind::SafariExtension => "20",
            DeviceKind::SDK => "21",
            DeviceKind::Server => "22",
            DeviceKind::WindowsCLI => "23",
            DeviceKind::MacOsCLI => "24",
            DeviceKind::LinuxCLI => "25",
        }
    }
}

/// The device block of a token request: the platform code, a per-process
/// identifier, and the client's name.
#[derive(Debug, Clone, PartialEq, Eq)]
pub struct ConnectDevice {
    pub kind: DeviceKind,
    pub id: String,
    pub name: String,
}

/// The credential block of a token request.
#[derive(Debug, Clone, PartialEq, Eq)]
pub enum ConnectAuth {
    Password { username: String, password: String },
}

/// One password-grant token request, field by field.
#[derive(Debug, Clone, PartialEq, Eq)]
pub struct ConnectRequest {
    pub scope: String,
    pub grant_type: GrantKind,
    pub client_id: ClientKind,
    pub device: Option<ConnectDevice>,
    pub auth: ConnectAuth,
    pub two_factor: Option<TwoFactorVerification>,
}

/// The exact sequence of form fields a request serializes to: the fixed
/// scope, grant and client fields, then the device fields when a device
/// block is present, the credential fields, and last the two second-factor
/// fields when a verification is attached.
pub open spec fn spec_form_fields(r: ConnectRequest) -> Seq<(Seq<char>, Seq<char>)> {
    let base = seq![
        ("scope"@, r.scope@),
        ("grant_type"@, spec_grant_kind_str(r.grant_type)),
        ("client_id"@, spec_client_kind_str(r.client_id)),
    ];
    let with_device = if r.device is Some {
        base + seq![
            ("deviceType"@, spec_device_kind_str(r.device->0.kind)),
            ("deviceIdentifier"@, r.device->0.id@),
            ("deviceName"@, r.device->0.name@),
        ]
    } else {
        base
    };
    let with_auth = match r.auth {
        ConnectAuth::Password { username, password } => with_device + seq![
            ("username"@, username@),
            ("password"@, password@),
        ],
    };
    if r.two_factor is Some {
        with_auth + seq![
            ("twoFactorToken"@, r.two_factor->0.token@),
            ("twoFactorProvider"@, spec_wire_code_str(r.two_factor->0.provider)),
        ]
    } else {
        with_auth
    }
}

impl ConnectRequest {
    /// Serialize the request into its ordered form fields, exactly as
    /// [`spec_form_fields`] lays them out.
    pub fn to_form_fields(&self) -> (r: Vec<(String, String)>)
        ensures
            r.deep_view() == spec_form_fields(*self),
    {
        let mut out: Vec<(String, String)> = Vec::new();
        out.push(("scope".to_owned(), self.scope.clone()));
        out.push(("grant_type".to_owned(), self.grant_type.wire_name().to_owned()));
        out.push(("client_id".to_owned(), self.client_id.wire_name().to_owned()));
        match &self.device {
            Some(d) => {
                out.push(("deviceType".to_owned(), d.kind.wire_code_str().to_owned()));
                out.push(("deviceIdentifier".to_owned(), d.id.clone()));
                out.push(("deviceName".to_owned(), d.name.clone()));
            },
            None => {},
        }
        match &self.auth {
            ConnectAuth::Password { username, password } => {
                out.push(("username".to_owned(), username.clone()));
                out.push(("password".to_owned(), password.clone()));
            },
        }
        match &self.two_factor {
            Some(tf) => {
                out.push(("twoFactorToken".to_owned(), tf.token.clone()));
                out.push(("twoFactorProvider".to_owned(), tf.provider.wire_code_str().to_owned()));
            },
            None => {},
        }
        proof {
            assert(out.deep_view() =~= spec_form_fields(*self));
        }
        out
    }
}

/// The fixed scope every password-grant request asks for.
pub fn request_scope() -> (r: String)
    ensures
        r@ == "api offline_access"@,
{
    "api offline_access".to_owned()
}

/// Build the one token request of an attempt: fixed scope, password grant,
/// CLI client tag, the caller's device block, the email as username, the
/// base64 of the server verification hash as password, and the optional
/// second-factor verification.
pub fn build_token_request(
    email: &str,
    server_hash: &Vec<u8>,
    device: ConnectDevice,
    two_factor: Option<TwoFactorVerification>,
) -> (r: ConnectRequest)
    ensures
        r.scope@ == "api offline_access"@,
        r.grant_type == GrantKind::Password,
        r.client_id == ClientKind::Cli,
        r.device == Some(device),
        (r.auth matches ConnectAuth::Password { username, password }
            && username@ == email@ && password@ == spec_base64_standard(server_hash@)),
        r.two_factor == two_factor,
{
    ConnectRequest {
        scope: request_scope(),
        grant_type: GrantKind::Password,
        client_id: ClientKind::Cli,
        device: Some(device),
        auth: ConnectAuth::Password {
            username: email.to_owned(),
            password: Base64::encode(server_hash.as_slice()),
        },
        two_factor,
    }
}

/// The value of the `Auth-Email` header: the URL-safe, unpadded base64 of
/// the email's bytes.
pub fn auth_email_header(email: &str) -> (r: String)
    ensures
        r@ == spec_base64_url_safe_no_pad(encode_utf8(email@)),
{
    Base64::encode_url_safe(email.as_bytes())
}

/// Relies on `uuid::Uuid::new_v4` and its `Display` form: a freshly
/// generated random identifier in the 36-character hyphenated form. The
/// value is random, so nothing is claimed about which identifier comes back.
#[verifier::external_body]
pub fn new_device_id() -> (r: String)
    ensures
        r@.len() == 36,
{
    uuid::Uuid::new_v4().to_string()
}

// ----- the values a response carries -----

/// An authenticated session, created only by a successful token exchange.
#[derive(Debug, Clone, PartialEq, Eq)]
pub struct Session {
    pub access_token: String,
}

/// The provider list embedded in a two-factor-required response.
#[derive(Debug, Clone, PartialEq, Eq)]
pub struct TwoFactorRequiredResponse {
    pub providers: Vec<TwoFactorProvider>,
}

/// What a single token exchange can answer: a session, or a challenge with
/// the providers the account may use.
#[derive(Debug, Clone, PartialEq, Eq)]
pub enum LoginResult {
    NeedsTwoFactor(Vec<TwoFactorProvider>),
    Success(Session),
}

// ----- reading the response bodies -----

/// The `access_token` field of a token-exchange success body, when the body
/// is JSON and carries one as a string: a function of the body alone.
pub uninterp spec fn spec_access_token_of(body: Seq<char>) -> Option<Seq<char>>;

/// Relies on `serde_json::from_str` and `serde_json::Value::get`: extracts
/// the `access_token` string field of a JSON body, absent when the body is
/// not JSON or the field is not a string.
#[verifier::external_body]
fn parse_access_token(body: &str) -> (r: Option<String>)
    ensures
        r is Some <==> spec_access_token_of(body@) is Some,
        r is Some ==> r->0@ == spec_access_token_of(body@)->0,
{
    let v: serde_json::Value = serde_json::from_str(body).ok()?;
    match v.get("access_token") {
        Some(serde_json::Value::String(s)) => Some(s.clone()),
        _ => None,
    }
}

/// The `TwoFactorProviders` array of a challenge body, each element kept as
/// the number or string the wire had there: a function of the body alone.
pub uninterp spec fn spec_provider_wires_of(body: Seq<char>) -> Option<Seq<WireValue>>;

/// Relies on `serde_json::from_str` and `serde_json::Value::get`: extracts
/// the `TwoFactorProviders` array of a JSON body, keeping each element as
/// the number or string it is on the wire; absent when the body is not JSON
/// or the field is not an array.
#[verifier::external_body]
fn parse_provider_wires(body: &str) -> (r: Option<Vec<WireValue>>)
    ensures
        r is Some <==> spec_provider_wires_of(body@) is Some,
        r is Some ==> r->0@ == spec_provider_wires_of(body@)->0,
{
    let v: serde_json::Value = serde_json::from_str(body).ok()?;
    let arr = match v.get("TwoFactorProviders") {
        Some(serde_json::Value::Array(a)) => a,
        _ => return None,
    };
    Some(arr.iter().map(|e| match e {
        serde_json::Value::Number(n) => n.as_u64().map_or(WireValue::Other, WireValue::Num),
        serde_json::Value::String(s) => WireValue::Text(s.clone()),
        _ => WireValue::Other,
    }).collect())
}

/// The four KDF fields of a prelogin body, verbatim: a function of the body
/// alone.
pub uninterp spec fn spec_prelogin_fields_of(body: Seq<char>) -> Option<PreloginFields>;

/// Relies on `serde_json::from_str`, `serde_json::Value::get` and
/// `serde_json::Value::as_u64`: extracts the `kdf` and `kdfIterations`
/// integers (both required) and the optional `kdfMemory` and
/// `kdfParallelism` integers of a JSON prelogin body. A `null` or absent
/// optional field is absent in the result; one present with another type
/// makes the whole body malformed, like a wrongly typed required field.
#[verifier::external_body]
fn parse_prelogin_fields(body: &str) -> (r: Option<PreloginFields>)
    ensures
        r is Some <==> spec_prelogin_fields_of(body@) is Some,
        r is Some ==> r->0 == spec_prelogin_fields_of(body@)->0,
{
    let v: serde_json::Value = serde_json::from_str(body).ok()?;
    let kdf = v.get("kdf")?.as_u64()?;
    let iterations = v.get("kdfIterations")?.as_u64()?;
    let memory = match v.get("kdfMemory") {
        None | Some(serde_json::Value::Null) => None,
        Some(x) => Some(x.as_u64()?),
    };
    let parallelism = match v.get("kdfParallelism") {
        None | Some(serde_json::Value::Null) => None,
        Some(x) => Some(x.as_u64()?),
    };
    Some(PreloginFields { kdf, iterations, memory, parallelism })
}

/// A needle occurs somewhere in the haystack.
pub open spec fn spec_contains_seq(hay: Seq<char>, needle: Seq<char>) -> bool {
    exists|i: int|
        0 <= i <= hay.len() - needle.len()
            && #[trigger] hay.subrange(i, i + needle.len()) == needle
}

/// Relies on `str::contains` with a `&str` pattern: true exactly when the
/// needle occurs as a substring of the haystack.
#[verifier::external_body]
fn contains_phrase(hay: &str, needle: &str) -> (r: bool)
    ensures
        r == spec_contains_seq(hay@, needle@),
{
    hay.contains(needle)
}

// ----- interpreting the two responses -----

/// A 400 body that demands a second factor.
pub open spec fn spec_two_factor_required(body: Seq<char>) -> bool {
    spec_contains_seq(body, "Two factor required"@)
}

/// A 400 body that rejects the submitted second-factor token.
pub open spec fn spec_token_rejected(body: Seq<char>) -> bool {
    spec_contains_seq(body, "Two-step token is invalid"@)
}

/// A 400 body that rejects the credentials.
pub open spec fn spec_credentials_rejected(body: Seq<char>) -> bool {
    spec_contains_seq(body, "Username or password is incorrect"@)
}

/// Every element of a challenge's provider list decodes.
pub open spec fn spec_all_wires_known(ws: Seq<WireValue>) -> bool {
    forall|i: int| 0 <= i < ws.len() ==> #[trigger] spec_decode_wire_value(ws[i]) is Some
}

/// The providers a fully-known wire list decodes to, in order.
pub open spec fn spec_decoded_providers(ws: Seq<WireValue>) -> Seq<TwoFactorProvider>
    recommends
        spec_all_wires_known(ws),
{
    ws.map_values(|w: WireValue| spec_decode_wire_value(w)->0)
}

/// Decode a challenge's provider list with the one wire-value parser; any
/// element outside the catalogue makes the whole list an unknown-provider
/// error.
pub fn decode_provider_list(wires: &Vec<WireValue>) -> (r: Result<TwoFactorRequiredResponse, LoginError>)
    ensures
        r is Ok <==> spec_all_wires_known(wires@),
        r is Ok ==> r->Ok_0.providers@ == spec_decoded_providers(wires@),
        r is Err ==> r->Err_0 == LoginError::UnsupportedSecondFactorProvider,
{
    let mut providers: Vec<TwoFactorProvider> = Vec::new();
    let n = wires.len();
    let mut i: usize = 0;
    while i < n
        invariant
            n == wires@.len(),
            0 <= i <= n,
            providers@.len() == i,
            forall|j: int| 0 <= j < i ==> #[trigger] spec_decode_wire_value(wires@[j]) is Some,
            forall|j: int| 0 <= j < i ==> providers@[j] == spec_decode_wire_value(wires@[j])->0,
        decreases n - i,
    {
        match TwoFactorProvider::from_wire_value(&wires[i]) {
            Ok(p) => providers.push(p),
            Err(e) => {
                return Err(e);
            },
        }
        i = i + 1;
    }
    proof {
        assert(providers@ =~= spec_decoded_providers(wires@));
    }
    Ok(TwoFactorRequiredResponse { providers })
}

/// Interpret a token-exchange response from its raw status and body.
///
/// A 200 with a JSON `access_token` is a session; a 400 whose body demands a
/// second factor becomes the decoded provider list; a 400 naming an invalid
/// second-factor token or bad credentials becomes the matching distinct
/// failure; everything else is a generic protocol failure carrying the raw
/// status and body. Never retries: the orchestrator decides what happens
/// next.
pub fn interpret_login_response(status: u16, body: &str) -> (r: Result<LoginResult, LoginError>)
    ensures
        status == 200 && spec_access_token_of(body@) is Some ==> (
            r matches Ok(LoginResult::Success(s))
                && s.access_token@ == spec_access_token_of(body@)->0
        ),
        status == 200 && spec_access_token_of(body@) is None ==> (
            r matches Err(LoginError::ProtocolFailure { status: st, detail })
                && st == 200 && detail@ == body@
        ),
        status == 400 && spec_two_factor_required(body@)
            && spec_provider_wires_of(body@) is Some
            && spec_all_wires_known(spec_provider_wires_of(body@)->0) ==> (
            r matches Ok(LoginResult::NeedsTwoFactor(ps))
                && ps@ == spec_decoded_providers(spec_provider_wires_of(body@)->0)
        ),
        status == 400 && spec_two_factor_required(body@)
            && spec_provider_wires_of(body@) is Some
            && !spec_all_wires_known(spec_provider_wires_of(body@)->0)
            ==> r == Err::<LoginResult, LoginError>(LoginError::UnsupportedSecondFactorProvider),
        status == 400 && spec_two_factor_required(body@)
            && spec_provider_wires_of(body@) is None ==> (
            r matches Err(LoginError::ProtocolFailure { status: st, detail })
                && st == 400 && detail@ == body@
        ),
        status == 400 && !spec_two_factor_required(body@) && spec_token_rejected(body@)
            ==> r == Err::<LoginResult, LoginError>(LoginError::InvalidSecondFactorToken),
        status == 400 && !spec_two_factor_required(body@) && !spec_token_rejected(body@)
            && spec_credentials_rejected(body@)
            ==> r == Err::<LoginResult, LoginError>(LoginError::InvalidCredentials),
        status == 400 && !spec_two_factor_required(body@) && !spec_token_rejected(body@)
            && !spec_credentials_rejected(body@) ==> (
            r matches Err(LoginError::ProtocolFailure { status: st, detail })
                && st == 400 && detail@ == body@
        ),
        status != 200 && status != 400 ==> (
            r matches Err(LoginError::ProtocolFailure { status: st, detail })
                && st == status && detail@ == body@
        ),
{
    if status == 200 {
        match parse_access_token(body) {
            Some(access_token) => Ok(LoginResult::Success(Session { access_token })),
            None => Err(LoginError::ProtocolFailure { status, detail: body.to_owned() }),
        }
    } else if status == 400 {
        if contains_phrase(body, "Two factor required") {
            match parse_provider_wires(body) {
                Some(wires) => match decode_provider_list(&wires) {
                    Ok(resp) => Ok(LoginResult::NeedsTwoFactor(resp.providers)),
                    Err(e) => Err(e),
                },
                None => Err(LoginError::ProtocolFailure { status, detail: body.to_owned() }),
            }
        } else if contains_phrase(body, "Two-step token is invalid") {
            Err(LoginError::InvalidSecondFactorToken)
        } else if contains_phrase(body, "Username or password is incorrect") {
            Err(LoginError::InvalidCredentials)
        } else {
            Err(LoginError::ProtocolFailure { status, detail: body.to_owned() })
        }
    } else {
        Err(LoginError::ProtocolFailure { status, detail: body.to_owned() })
    }
}

/// Interpret a prelogin response from its raw status and body.
///
/// Any status but 200 is a protocol failure carrying both, and so is a 200
/// body without the required JSON shape; a recognized body decodes by
/// [`decode_kdf_config`]'s rules, so an unknown kind discriminant is an
/// unsupported-KDF failure.
pub fn interpret_prelogin_response(status: u16, body: &str) -> (r: Result<KdfConfig, LoginError>)
    ensures
        status != 200 ==> (
            r matches Err(LoginError::ProtocolFailure { status: st, detail })
                && st == status && detail@ == body@
        ),
        status == 200 && spec_prelogin_fields_of(body@) is None ==> (
            r matches Err(LoginError::ProtocolFailure { status: st, detail })
                && st == 200 && detail@ == body@
        ),
        status == 200 ==> (spec_prelogin_fields_of(body@) matches Some(f) ==> {
            &&& (r is Ok <==> spec_kind_known(f) && spec_fields_fit(f))
            &&& (r is Ok ==> r->Ok_0 == spec_decoded_config(f))
            &&& (!spec_kind_known(f) ==> r == Err::<KdfConfig, LoginError>(LoginError::UnsupportedKdf))
            &&& (spec_kind_known(f) && !spec_fields_fit(f)
                ==> r matches Err(LoginError::ProtocolFailure { .. }))
        }),
{
    if status != 200 {
        return Err(LoginError::ProtocolFailure { status, detail: body.to_owned() });
    }
    match parse_prelogin_fields(body) {
        Some(fields) => decode_kdf_config(&fields),
        None => Err(LoginError::ProtocolFailure { status, detail: body.to_owned() }),
    }
}

} // verus!
