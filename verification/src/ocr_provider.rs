//! Remote OCR provider profiles: validation of the persisted settings and
//! planning of every change (save, delete, activation) before it is written.
//! API keys never live here; a profile only holds an opaque credential id.

use vstd::prelude::*;

use crate::text::{
    chars_of, char_utf8_len, contains_control, exceeds_utf8_len, equals_ignore_ascii_case, eq_ignore_ascii_case,
    has_control, spec_trim, spec_trim_end_char, str_equals, trim, trim_end_char, utf8_len,
};

verus! {

broadcast use vstd::string::group_string_axioms;

pub const OCR_PROVIDER_SCHEMA_VERSION: u32 = 1;
pub const OCR_PROVIDER_FILENAME: &'static str = "ocr-providers.json";
pub const ALIYUN_BAILIAN_BASE_URL: &'static str = "https://dashscope.aliyuncs.com/compatible-mode/v1";
pub const ALIYUN_BAILIAN_MODEL: &'static str = "qwen3.5-ocr";
pub const OPEN_AI_BASE_URL: &'static str = "https://api.openai.com/v1";
pub const OPEN_AI_MODEL: &'static str = "gpt-5-mini";

/// Longest profile name, in UTF-8 bytes.
pub const MAX_NAME_LEN: usize = 80;
/// Longest model name, in UTF-8 bytes.
pub const MAX_MODEL_LEN: usize = 256;
/// Longest base URL, in UTF-8 bytes.
pub const MAX_BASE_URL_LEN: usize = 2048;
/// Longest opaque id, in UTF-8 bytes.
pub const MAX_OPAQUE_ID_LEN: usize = 128;

/// Known OCR services.
#[derive(Debug, Clone, Copy, PartialEq, Eq, Structural)]
pub enum OcrProviderPreset {
    AliyunBailian,
    OpenAi,
    CustomOpenAi,
}

/// Default base URL and model of a preset; a custom provider has neither.
pub open spec fn spec_preset_defaults(preset: OcrProviderPreset) -> (Seq<char>, Seq<char>) {
    match preset {
        OcrProviderPreset::AliyunBailian => (ALIYUN_BAILIAN_BASE_URL@, ALIYUN_BAILIAN_MODEL@),
        OcrProviderPreset::OpenAi => (OPEN_AI_BASE_URL@, OPEN_AI_MODEL@),
        OcrProviderPreset::CustomOpenAi => (""@, ""@),
    }
}

impl OcrProviderPreset {
    /// The preset's default base URL and model.
    pub fn defaults(self) -> (defaults: (&'static str, &'static str))
        ensures
            (defaults.0@, defaults.1@) == spec_preset_defaults(self),
    {
        match self {
            OcrProviderPreset::AliyunBailian => (ALIYUN_BAILIAN_BASE_URL, ALIYUN_BAILIAN_MODEL),
            OcrProviderPreset::OpenAi => (OPEN_AI_BASE_URL, OPEN_AI_MODEL),
            OcrProviderPreset::CustomOpenAi => ("", ""),
        }
    }
}

/// The request protocol a provider speaks.
#[derive(Debug, Clone, Copy, PartialEq, Eq, Structural)]
pub enum OcrProviderProtocol {
    OpenAiChatCompletions,
}

/// The engine that recognizes text: on-device, or a saved profile.
#[derive(Debug, PartialEq, Eq)]
pub enum OcrEngineRef {
    Local,
    Profile { profile_id: String },
}

/// Mathematical form of an engine reference.
pub enum EngineView {
    Local,
    Profile(Seq<char>),
}

impl View for OcrEngineRef {
    type V = EngineView;

    open spec fn view(&self) -> EngineView {
        match self {
            OcrEngineRef::Local => EngineView::Local,
            OcrEngineRef::Profile { profile_id } => EngineView::Profile(profile_id@),
        }
    }
}

/// Metadata of one provider profile.
#[derive(Debug, PartialEq, Eq)]
pub struct OcrProviderProfileMetadata {
    pub id: String,
    pub revision: u64,
    pub name: String,
    pub provider: OcrProviderPreset,
    pub protocol: OcrProviderProtocol,
    pub base_url: String,
    pub model: String,
    /// Opaque pointer into the OS credential store; never sent to the frontend.
    pub credential_id: Option<String>,
}

/// Mathematical form of a profile.
pub struct ProfileView {
    pub id: Seq<char>,
    pub revision: u64,
    pub name: Seq<char>,
    pub provider: OcrProviderPreset,
    pub protocol: OcrProviderProtocol,
    pub base_url: Seq<char>,
    pub model: Seq<char>,
    pub credential_id: Option<Seq<char>>,
}

pub open spec fn option_string_view(value: Option<String>) -> Option<Seq<char>> {
    match value {
        Some(s) => Some(s@),
        None => None,
    }
}

impl View for OcrProviderProfileMetadata {
    type V = ProfileView;

    open spec fn view(&self) -> ProfileView {
        ProfileView {
            id: self.id@,
            revision: self.revision,
            name: self.name@,
            provider: self.provider,
            protocol: self.protocol,
            base_url: self.base_url@,
            model: self.model@,
            credential_id: option_string_view(self.credential_id),
        }
    }
}

/// The settings file: its version, the active engine and every profile.
#[derive(Debug, PartialEq, Eq)]
pub struct PersistedOcrProviderSettings {
    pub schema_version: u32,
    pub active_engine: OcrEngineRef,
    pub profiles: Vec<OcrProviderProfileMetadata>,
}

/// Mathematical form of the settings.
pub struct SettingsView {
    pub schema_version: u32,
    pub active_engine: EngineView,
    pub profiles: Seq<ProfileView>,
}

impl View for PersistedOcrProviderSettings {
    type V = SettingsView;

    open spec fn view(&self) -> SettingsView {
        SettingsView {
            schema_version: self.schema_version,
            active_engine: self.active_engine@,
            profiles: self.profiles@.map_values(|p: OcrProviderProfileMetadata| p@),
        }
    }
}

/// Settings before anything was saved: on-device OCR and no profiles.
pub open spec fn default_settings() -> SettingsView {
    SettingsView {
        schema_version: 1,
        active_engine: EngineView::Local,
        profiles: Seq::empty(),
    }
}

impl Default for PersistedOcrProviderSettings {
    fn default() -> (settings: Self)
        ensures
            settings@ == default_settings(),
    {
        let settings = PersistedOcrProviderSettings {
            schema_version: OCR_PROVIDER_SCHEMA_VERSION,
            active_engine: OcrEngineRef::Local,
            profiles: Vec::new(),
        };
        assert(settings@.profiles =~= Seq::<ProfileView>::empty());
        settings
    }
}

/// A profile as the settings form submits it: without id and revision for a
/// new profile, with both for an update.
pub struct SaveProfileMetadata {
    pub id: Option<String>,
    pub revision: Option<u64>,
    pub name: String,
    pub provider: OcrProviderPreset,
    pub protocol: OcrProviderProtocol,
    pub base_url: String,
    pub model: String,
}

/// What happens to a profile's credential pointer.
#[derive(Debug)]
pub enum CredentialMetadataChange {
    Preserve,
    Replace(String),
}

/// Why a provider operation was refused.
#[derive(Debug, Clone, Copy, PartialEq, Eq, Structural)]
pub enum OcrProviderError {
    StorageUnavailable,
    InvalidSettings,
    InvalidRequest,
    ProfileNotFound,
    RevisionConflict,
}

// ---------------------------------------------------------------------------
// Text validation
// ---------------------------------------------------------------------------

/// A name or model: trimmed, nonempty, at most `max_len` UTF-8 bytes, without
/// control characters.
pub open spec fn spec_validate_text(value: Seq<char>, max_len: nat) -> Result<Seq<char>, OcrProviderError> {
    let trimmed = spec_trim(value);
    if trimmed.len() == 0 || utf8_len(trimmed) > max_len || has_control(trimmed) {
        Err(OcrProviderError::InvalidRequest)
    } else {
        Ok(trimmed)
    }
}

pub open spec fn string_result_view<E>(result: Result<String, E>) -> Result<Seq<char>, E> {
    match result {
        Ok(s) => Ok(s@),
        Err(e) => Err(e),
    }
}

/// Trims `value` and checks it as a name or model.
pub fn validate_text(value: String, max_len: usize) -> (result: Result<String, OcrProviderError>)
    ensures
        string_result_view(result) == spec_validate_text(value@, max_len as nat),
{
    let trimmed = trim(value.as_str());
    if trimmed.as_str().is_empty() || exceeds_utf8_len(trimmed.as_str(), max_len)
        || contains_control(trimmed.as_str()) {
        return Err(OcrProviderError::InvalidRequest);
    }
    Ok(trimmed)
}

/// Characters allowed in opaque ids.
pub open spec fn is_id_char(c: char) -> bool {
    ('0' <= c && c <= '9') || ('a' <= c && c <= 'z') || ('A' <= c && c <= 'Z') || c == '-'
}

/// A profile or credential id: 1 to 128 bytes of ASCII letters, digits and `-`.
pub open spec fn spec_valid_opaque_id(value: Seq<char>) -> bool {
    &&& value.len() > 0
    &&& utf8_len(value) <= MAX_OPAQUE_ID_LEN
    &&& forall|i: int| 0 <= i < value.len() ==> is_id_char(#[trigger] value[i])
}

/// Checks an opaque id and hands it back unchanged when it is valid.
pub fn validate_opaque_id(value: String) -> (result: Result<String, OcrProviderError>)
    ensures
        spec_valid_opaque_id(value@) ==> result == Ok::<String, OcrProviderError>(value),
        !spec_valid_opaque_id(value@) ==> result == Err::<String, OcrProviderError>(OcrProviderError::InvalidRequest),
{
    if value.as_str().is_empty() || exceeds_utf8_len(value.as_str(), MAX_OPAQUE_ID_LEN) {
        return Err(OcrProviderError::InvalidRequest);
    }
    let chars = chars_of(value.as_str());
    let mut i: usize = 0;
    while i < chars.len()
        invariant
            chars@ == value@,
            i <= chars@.len(),
            forall|j: int| 0 <= j < i ==> is_id_char(#[trigger] chars@[j]),
        decreases chars@.len() - i,
    {
        let c = chars[i];
        if !(('0' <= c && c <= '9') || ('a' <= c && c <= 'z') || ('A' <= c && c <= 'Z') || c == '-') {
            return Err(OcrProviderError::InvalidRequest);
        }
        i = i + 1;
    }
    Ok(value)
}

// ---------------------------------------------------------------------------
// Base URLs
// ---------------------------------------------------------------------------

/// Host of a parsed URL.
#[derive(Debug)]
pub enum UrlHost {
    Domain(String),
    Ipv4([u8; 4]),
    Ipv6([u16; 8]),
}

/// Mathematical form of a URL host.
pub enum UrlHostView {
    Domain(Seq<char>),
    Ipv4(Seq<u8>),
    Ipv6(Seq<u16>),
}

impl View for UrlHost {
    type V = UrlHostView;

    open spec fn view(&self) -> UrlHostView {
        match self {
            UrlHost::Domain(name) => UrlHostView::Domain(name@),
            UrlHost::Ipv4(octets) => UrlHostView::Ipv4(octets@),
            UrlHost::Ipv6(segments) => UrlHostView::Ipv6(segments@),
        }
    }
}

/// The parts of a parsed URL that base-URL validation reads.
#[derive(Debug)]
pub struct UrlParts {
    pub scheme: String,
    pub host: Option<UrlHost>,
    pub username: String,
    pub has_password: bool,
    pub has_query: bool,
    pub has_fragment: bool,
    pub path: String,
}

/// Mathematical form of the parts of a URL.
pub struct UrlPartsView {
    pub scheme: Seq<char>,
    pub host: Option<UrlHostView>,
    pub username: Seq<char>,
    pub has_password: bool,
    pub has_query: bool,
    pub has_fragment: bool,
    pub path: Seq<char>,
}

impl View for UrlParts {
    type V = UrlPartsView;

    open spec fn view(&self) -> UrlPartsView {
        UrlPartsView {
            scheme: self.scheme@,
            host: match self.host {
                Some(host) => Some(host@),
                None => None,
            },
            username: self.username@,
            has_password: self.has_password,
            has_query: self.has_query,
            has_fragment: self.has_fragment,
            path: self.path@,
        }
    }
}

/// What `url::Url::parse` makes of `input`, when it accepts it.
pub uninterp spec fn url_parts(input: Seq<char>) -> Option<UrlPartsView>;

/// The serialization of `input`, parsed by `url::Url::parse`, after
/// `Url::set_path(path)`; none when `input` does not parse.
pub uninterp spec fn url_with_path(input: Seq<char>, path: Seq<char>) -> Option<Seq<char>>;

/// `Origin::ascii_serialization` of `input` parsed by `url::Url::parse`;
/// none when `input` does not parse.
pub uninterp spec fn url_origin(input: Seq<char>) -> Option<Seq<char>>;

pub open spec fn option_parts_view(parts: Option<UrlParts>) -> Option<UrlPartsView> {
    match parts {
        Some(p) => Some(p@),
        None => None,
    }
}

/// `url::Url::parse`, with the scheme, host, user name, password, query,
/// fragment and path of the result copied out.
#[verifier::external_body]
fn parse_url(input: &str) -> (parts: Option<UrlParts>)
    ensures
        option_parts_view(parts) == url_parts(input@),
{
    let Ok(url) = url::Url::parse(input) else { return None };
    let host = match url.host() {
        Some(url::Host::Domain(name)) => Some(UrlHost::Domain(name.to_string())),
        Some(url::Host::Ipv4(address)) => Some(UrlHost::Ipv4(address.octets())),
        Some(url::Host::Ipv6(address)) => Some(UrlHost::Ipv6(address.segments())),
        None => None,
    };
    Some(UrlParts { scheme: url.scheme().to_string(), host, username: url.username().to_string(),
        has_password: url.password().is_some(), has_query: url.query().is_some(),
        has_fragment: url.fragment().is_some(), path: url.path().to_string() })
}

/// `url::Url::set_path` on `input` parsed by `url::Url::parse`, serialized.
#[verifier::external_body]
fn serialize_with_path(input: &str, path: &str) -> (serialized: Option<String>)
    ensures
        option_string_view(serialized) == url_with_path(input@, path@),
{
    let Ok(mut url) = url::Url::parse(input) else { return None };
    url.set_path(path);
    Some(url.as_str().to_string())
}

/// `Origin::ascii_serialization` of `input` parsed by `url::Url::parse`.
#[verifier::external_body]
fn serialize_origin(input: &str) -> (origin: Option<String>)
    ensures
        option_string_view(origin) == url_origin(input@),
{
    let Ok(url) = url::Url::parse(input) else { return None };
    Some(url.origin().ascii_serialization())
}

/// Exactly `localhost` (in any ASCII case), `127.0.0.1` or `::1`.
pub open spec fn spec_is_loopback_host(host: Option<UrlHostView>) -> bool {
    match host {
        Some(UrlHostView::Domain(name)) => eq_ignore_ascii_case(name, "localhost"@),
        Some(UrlHostView::Ipv4(octets)) => octets == seq![127u8, 0u8, 0u8, 1u8],
        Some(UrlHostView::Ipv6(segments)) => segments == seq![0u16, 0u16, 0u16, 0u16, 0u16, 0u16, 0u16, 1u16],
        None => false,
    }
}

/// A usable provider base URL: it has a host, carries no credentials, query
/// or fragment, and uses HTTPS, or plain HTTP to a loopback host.
pub open spec fn spec_base_url_parts_ok(parts: UrlPartsView) -> bool {
    &&& parts.host is Some
    &&& parts.username.len() == 0
    &&& !parts.has_password
    &&& !parts.has_query
    &&& !parts.has_fragment
    &&& (parts.scheme == "https"@ || (parts.scheme == "http"@ && spec_is_loopback_host(parts.host)))
}

/// The parts of `value` when it is a usable base URL.
pub open spec fn spec_validate_base_url(value: Seq<char>) -> Result<UrlPartsView, OcrProviderError> {
    match url_parts(value) {
        Some(parts) => if spec_base_url_parts_ok(parts) {
            Ok(parts)
        } else {
            Err(OcrProviderError::InvalidRequest)
        },
        None => Err(OcrProviderError::InvalidRequest),
    }
}

fn is_loopback_host(host: &Option<UrlHost>) -> (loopback: bool)
    ensures
        loopback == spec_is_loopback_host(match host {
            Some(h) => Some(h@),
            None => None,
        }),
{
    match host {
        Some(UrlHost::Domain(name)) => equals_ignore_ascii_case(name.as_str(), "localhost"),
        Some(UrlHost::Ipv4(octets)) => {
            let loopback = octets[0] == 127 && octets[1] == 0 && octets[2] == 0 && octets[3] == 1;
            assert(loopback == (octets@ =~= seq![127u8, 0u8, 0u8, 1u8]));
            loopback
        },
        Some(UrlHost::Ipv6(segments)) => {
            let loopback = segments[0] == 0 && segments[1] == 0 && segments[2] == 0 && segments[3] == 0
                && segments[4] == 0 && segments[5] == 0 && segments[6] == 0 && segments[7] == 1;
            assert(loopback == (segments@ =~= seq![0u16, 0u16, 0u16, 0u16, 0u16, 0u16, 0u16, 1u16]));
            loopback
        },
        None => false,
    }
}

/// Parses `value` and checks it as a provider base URL.
pub fn validate_base_url(value: &str) -> (result: Result<UrlParts, OcrProviderError>)
    ensures
        match result {
            Ok(parts) => spec_validate_base_url(value@) == Ok::<UrlPartsView, OcrProviderError>(parts@),
            Err(e) => spec_validate_base_url(value@) == Err::<UrlPartsView, OcrProviderError>(e),
        },
{
    let parts = match parse_url(value) {
        Some(parts) => parts,
        None => return Err(OcrProviderError::InvalidRequest),
    };
    if !check_base_url_parts(&parts) {
        return Err(OcrProviderError::InvalidRequest);
    }
    Ok(parts)
}

/// Whether the parsed URL `parts` make a usable provider base URL.
pub fn check_base_url_parts(parts: &UrlParts) -> (ok: bool)
    ensures
        ok == spec_base_url_parts_ok(parts@),
{
    let scheme_ok = str_equals(parts.scheme.as_str(), "https")
        || (str_equals(parts.scheme.as_str(), "http") && is_loopback_host(&parts.host));
    !(parts.host.is_none() || !parts.username.as_str().is_empty() || parts.has_password || parts.has_query
        || parts.has_fragment || !scheme_ok)
}

/// Whether `base_url` parses to a URL whose host is exactly loopback.
pub fn is_loopback_url(base_url: &str) -> (loopback: bool)
    ensures
        loopback == match url_parts(base_url@) {
            Some(parts) => spec_is_loopback_host(parts.host),
            None => false,
        },
{
    match parse_url(base_url) {
        Some(parts) => is_loopback_host(&parts.host),
        None => false,
    }
}

/// The canonical form of a base URL: `value` must be at most 2048 bytes,
/// untrimmed-equal to itself and usable; its path loses trailing slashes (an
/// empty path becomes `/`), and the serialization loses trailing slashes.
pub open spec fn spec_normalize_base_url(value: Seq<char>) -> Result<Seq<char>, OcrProviderError> {
    if utf8_len(value) > MAX_BASE_URL_LEN || spec_trim(value) != value {
        Err(OcrProviderError::InvalidRequest)
    } else {
        match spec_validate_base_url(value) {
            Ok(parts) => {
                let path = spec_trim_end_char(parts.path, '/');
                let path = if path.len() == 0 { "/"@ } else { path };
                match url_with_path(value, path) {
                    Some(serialized) => Ok(spec_trim_end_char(serialized, '/')),
                    None => Err(OcrProviderError::InvalidRequest),
                }
            },
            Err(e) => Err(e),
        }
    }
}

/// Validates a base URL and returns its canonical form.
pub fn normalize_base_url(value: &str) -> (result: Result<String, OcrProviderError>)
    ensures
        string_result_view(result) == spec_normalize_base_url(value@),
{
    if exceeds_utf8_len(value, MAX_BASE_URL_LEN) {
        return Err(OcrProviderError::InvalidRequest);
    }
    let trimmed = trim(value);
    if !str_equals(trimmed.as_str(), value) {
        return Err(OcrProviderError::InvalidRequest);
    }
    let parts = validate_base_url(value)?;
    let path = trim_end_char(parts.path.as_str(), '/');
    let serialized = if path.as_str().is_empty() {
        serialize_with_path(value, "/")
    } else {
        serialize_with_path(value, path.as_str())
    };
    match serialized {
        Some(serialized) => Ok(trim_end_char(serialized.as_str(), '/')),
        None => Err(OcrProviderError::InvalidRequest),
    }
}

/// The chat-completions endpoint below a usable base URL.
pub open spec fn spec_endpoint(base_url: Seq<char>) -> Result<Seq<char>, OcrProviderError> {
    match spec_validate_base_url(base_url) {
        Err(e) => Err(e),
        Ok(parts) => match url_with_path(base_url, spec_trim_end_char(parts.path, '/') + "/chat/completions"@) {
            Some(endpoint) => Ok(endpoint),
            None => Err(OcrProviderError::InvalidRequest),
        },
    }
}

/// The ASCII origin of a usable base URL.
pub open spec fn spec_origin(base_url: Seq<char>) -> Result<Seq<char>, OcrProviderError> {
    match spec_validate_base_url(base_url) {
        Err(e) => Err(e),
        Ok(_) => match url_origin(base_url) {
            Some(origin) => Ok(origin),
            None => Err(OcrProviderError::InvalidRequest),
        },
    }
}

impl OcrProviderProfileMetadata {
    /// The chat-completions URL of this profile, serialized.
    pub fn endpoint(&self) -> (endpoint: Result<String, OcrProviderError>)
        ensures
            string_result_view(endpoint) == spec_endpoint(self.base_url@),
    {
        let parts = validate_base_url(self.base_url.as_str())?;
        let mut path = trim_end_char(parts.path.as_str(), '/');
        path.append("/chat/completions");
        match serialize_with_path(self.base_url.as_str(), path.as_str()) {
            Some(endpoint) => Ok(endpoint),
            None => Err(OcrProviderError::InvalidRequest),
        }
    }

    /// The origin (scheme, host and port) requests of this profile go to.
    pub fn origin(&self) -> (origin: Result<String, OcrProviderError>)
        ensures
            string_result_view(origin) == spec_origin(self.base_url@),
    {
        validate_base_url(self.base_url.as_str())?;
        match serialize_origin(self.base_url.as_str()) {
            Some(origin) => Ok(origin),
            None => Err(OcrProviderError::InvalidRequest),
        }
    }
}

// ---------------------------------------------------------------------------
// Settings validation
// ---------------------------------------------------------------------------

/// Whether some profile in `profiles` has id `id`.
pub open spec fn has_profile_id(profiles: Seq<ProfileView>, id: Seq<char>) -> bool {
    exists|j: int| 0 <= j < profiles.len() && (#[trigger] profiles[j]).id == id
}

/// The first problem with profile `p`, given the profiles stored before it.
pub open spec fn spec_profile_error(p: ProfileView, earlier: Seq<ProfileView>) -> Option<OcrProviderError> {
    if !spec_valid_opaque_id(p.id) {
        Some(OcrProviderError::InvalidRequest)
    } else if has_profile_id(earlier, p.id) || p.revision == 0 {
        Some(OcrProviderError::InvalidSettings)
    } else if spec_validate_text(p.name, MAX_NAME_LEN as nat) is Err {
        Some(OcrProviderError::InvalidRequest)
    } else if spec_validate_text(p.model, MAX_MODEL_LEN as nat) is Err {
        Some(OcrProviderError::InvalidRequest)
    } else {
        match spec_normalize_base_url(p.base_url) {
            Err(e) => Some(e),
            Ok(normalized) => if normalized != p.base_url {
                Some(OcrProviderError::InvalidSettings)
            } else {
                match p.credential_id {
                    Some(credential) => if spec_valid_opaque_id(credential) {
                        None
                    } else {
                        Some(OcrProviderError::InvalidRequest)
                    },
                    None => None,
                }
            },
        }
    }
}

/// The first problem among `profiles`, checked in order.
pub open spec fn spec_profiles_error(profiles: Seq<ProfileView>) -> Option<OcrProviderError>
    decreases profiles.len(),
{
    if profiles.len() == 0 {
        None
    } else {
        match spec_profiles_error(profiles.drop_last()) {
            Some(e) => Some(e),
            None => spec_profile_error(profiles.last(), profiles.drop_last()),
        }
    }
}

proof fn lemma_profiles_error_prefix(profiles: Seq<ProfileView>, k: int)
    requires
        0 <= k <= profiles.len(),
        spec_profiles_error(profiles.take(k)) is Some,
    ensures
        spec_profiles_error(profiles) == spec_profiles_error(profiles.take(k)),
    decreases profiles.len() - k,
{
    if k < profiles.len() {
        assert(profiles.drop_last().take(k) =~= profiles.take(k));
        lemma_profiles_error_prefix(profiles.drop_last(), k);
    } else {
        assert(profiles.take(k) =~= profiles);
    }
}

/// The first problem with the settings: the schema version, then each
/// profile, then an active profile that does not exist.
pub open spec fn spec_settings_error(settings: SettingsView) -> Option<OcrProviderError> {
    if settings.schema_version != OCR_PROVIDER_SCHEMA_VERSION {
        Some(OcrProviderError::InvalidSettings)
    } else {
        match spec_profiles_error(settings.profiles) {
            Some(e) => Some(e),
            None => match settings.active_engine {
                EngineView::Profile(id) => if has_profile_id(settings.profiles, id) {
                    None
                } else {
                    Some(OcrProviderError::InvalidSettings)
                },
                EngineView::Local => None,
            },
        }
    }
}

/// Settings that may be stored.
pub open spec fn valid_settings(settings: SettingsView) -> bool {
    spec_settings_error(settings) is None
}

pub open spec fn unit_result(error: Option<OcrProviderError>) -> Result<(), OcrProviderError> {
    match error {
        Some(e) => Err(e),
        None => Ok(()),
    }
}

fn copy_string(s: &String) -> (copy: String)
    ensures
        copy@ == s@,
{
    s.clone()
}

fn copy_option_string(s: &Option<String>) -> (copy: Option<String>)
    ensures
        option_string_view(copy) == option_string_view(*s),
{
    match s {
        Some(v) => Some(v.clone()),
        None => None,
    }
}

impl OcrProviderProfileMetadata {
    /// A copy with the same view.
    pub fn duplicate(&self) -> (copy: Self)
        ensures
            copy@ == self@,
    {
        OcrProviderProfileMetadata {
            id: copy_string(&self.id),
            revision: self.revision,
            name: copy_string(&self.name),
            provider: self.provider,
            protocol: self.protocol,
            base_url: copy_string(&self.base_url),
            model: copy_string(&self.model),
            credential_id: copy_option_string(&self.credential_id),
        }
    }
}

impl OcrEngineRef {
    /// A copy with the same view.
    pub fn duplicate(&self) -> (copy: Self)
        ensures
            copy@ == self@,
    {
        match self {
            OcrEngineRef::Local => OcrEngineRef::Local,
            OcrEngineRef::Profile { profile_id } => OcrEngineRef::Profile { profile_id: copy_string(profile_id) },
        }
    }
}

impl PersistedOcrProviderSettings {
    /// A copy with the same view.
    pub fn duplicate(&self) -> (copy: Self)
        ensures
            copy@ == self@,
    {
        let mut profiles: Vec<OcrProviderProfileMetadata> = Vec::new();
        let mut i: usize = 0;
        while i < self.profiles.len()
            invariant
                i <= self.profiles@.len(),
                profiles@.len() == i,
                forall|j: int| 0 <= j < i ==> (#[trigger] profiles@[j])@ == self.profiles@[j]@,
            decreases self.profiles@.len() - i,
        {
            profiles.push(self.profiles[i].duplicate());
            i = i + 1;
        }
        let copy = PersistedOcrProviderSettings {
            schema_version: self.schema_version,
            active_engine: self.active_engine.duplicate(),
            profiles,
        };
        assert(copy@.profiles =~= self@.profiles);
        copy
    }
}

/// Index of the first profile with id `id`.
fn find_profile(profiles: &Vec<OcrProviderProfileMetadata>, end: usize, id: &str) -> (index: Option<usize>)
    requires
        end <= profiles@.len(),
    ensures
        match index {
            Some(i) => i < end && profiles@[i as int].id@ == id@
                && forall|j: int| 0 <= j < i ==> profiles@[j].id@ != id@,
            None => forall|j: int| 0 <= j < end ==> profiles@[j].id@ != id@,
        },
{
    let mut i: usize = 0;
    while i < end
        invariant
            i <= end,
            end <= profiles@.len(),
            forall|j: int| 0 <= j < i ==> profiles@[j].id@ != id@,
        decreases end - i,
    {
        if str_equals(profiles[i].id.as_str(), id) {
            return Some(i);
        }
        i = i + 1;
    }
    None
}

proof fn lemma_has_profile_id(profiles: Seq<OcrProviderProfileMetadata>, end: int, id: Seq<char>)
    requires
        0 <= end <= profiles.len(),
    ensures
        has_profile_id(profiles.take(end).map_values(|p: OcrProviderProfileMetadata| p@), id)
            == exists|j: int| 0 <= j < end && profiles[j].id@ == id,
{
    let view = profiles.take(end).map_values(|p: OcrProviderProfileMetadata| p@);
    if exists|j: int| 0 <= j < end && profiles[j].id@ == id {
        let j = choose|j: int| 0 <= j < end && profiles[j].id@ == id;
        assert(view[j].id == id);
    }
}

fn check_profile(profiles: &Vec<OcrProviderProfileMetadata>, index: usize) -> (result: Result<(), OcrProviderError>)
    requires
        index < profiles@.len(),
    ensures
        result == unit_result(spec_profile_error(
            profiles@[index as int]@,
            profiles@.take(index as int).map_values(|p: OcrProviderProfileMetadata| p@),
        )),
{
    let profile = &profiles[index];
    proof {
        lemma_has_profile_id(profiles@, index as int, profile.id@);
    }
    validate_opaque_id(copy_string(&profile.id))?;
    if find_profile(profiles, index, profile.id.as_str()).is_some() || profile.revision == 0 {
        return Err(OcrProviderError::InvalidSettings);
    }
    if validate_text(copy_string(&profile.name), MAX_NAME_LEN).is_err() {
        return Err(OcrProviderError::InvalidRequest);
    }
    if validate_text(copy_string(&profile.model), MAX_MODEL_LEN).is_err() {
        return Err(OcrProviderError::InvalidRequest);
    }
    let normalized = normalize_base_url(profile.base_url.as_str())?;
    if !str_equals(normalized.as_str(), profile.base_url.as_str()) {
        return Err(OcrProviderError::InvalidSettings);
    }
    match &profile.credential_id {
        Some(credential) => {
            validate_opaque_id(copy_string(credential))?;
        },
        None => {},
    }
    Ok(())
}

/// Checks stored or planned settings.
pub fn validate_settings(settings: &PersistedOcrProviderSettings) -> (result: Result<(), OcrProviderError>)
    ensures
        result == unit_result(spec_settings_error(settings@)),
{
    if settings.schema_version != OCR_PROVIDER_SCHEMA_VERSION {
        return Err(OcrProviderError::InvalidSettings);
    }
    let ghost all = settings@.profiles;
    let mut i: usize = 0;
    while i < settings.profiles.len()
        invariant
            i <= settings.profiles@.len(),
            all == settings@.profiles,
            settings.schema_version == OCR_PROVIDER_SCHEMA_VERSION,
            spec_profiles_error(all.take(i as int)) is None,
        decreases settings.profiles@.len() - i,
    {
        let checked = check_profile(&settings.profiles, i);
        proof {
            assert(all.take(i + 1).drop_last() =~= all.take(i as int));
            assert(all.take(i as int) =~= settings.profiles@.take(i as int).map_values(|p: OcrProviderProfileMetadata| p@));
            assert(all.take(i + 1).last() == settings.profiles@[i as int]@);
            assert(spec_profiles_error(all.take(i + 1)) == spec_profile_error(
                all.take(i + 1).last(),
                all.take(i + 1).drop_last(),
            ));
        }
        if checked.is_err() {
            proof {
                lemma_profiles_error_prefix(all, i + 1);
            }
            return checked;
        }
        i = i + 1;
    }
    assert(all.take(i as int) =~= all);
    match &settings.active_engine {
        OcrEngineRef::Profile { profile_id } => {
            let found = find_profile(&settings.profiles, settings.profiles.len(), profile_id.as_str());
            proof {
                lemma_has_profile_id(settings.profiles@, settings.profiles@.len() as int, profile_id@);
                assert(settings.profiles@.take(settings.profiles@.len() as int) =~= settings.profiles@);
            }
            if found.is_none() {
                return Err(OcrProviderError::InvalidSettings);
            }
            Ok(())
        },
        OcrEngineRef::Local => Ok(()),
    }
}

// ---------------------------------------------------------------------------
// The store
// ---------------------------------------------------------------------------

/// Index of the first profile with id `id`.
pub open spec fn spec_find_profile(profiles: Seq<ProfileView>, id: Seq<char>) -> Option<int>
    decreases profiles.len(),
{
    if profiles.len() == 0 {
        None
    } else {
        match spec_find_profile(profiles.drop_last(), id) {
            Some(i) => Some(i),
            None => if profiles.last().id == id {
                Some(profiles.len() - 1)
            } else {
                None
            },
        }
    }
}

proof fn lemma_find_profile(profiles: Seq<ProfileView>, id: Seq<char>)
    ensures
        match spec_find_profile(profiles, id) {
            Some(i) => 0 <= i < profiles.len() && profiles[i].id == id
                && forall|j: int| 0 <= j < i ==> (#[trigger] profiles[j]).id != id,
            None => forall|j: int| 0 <= j < profiles.len() ==> (#[trigger] profiles[j]).id != id,
        },
    decreases profiles.len(),
{
    if profiles.len() > 0 {
        lemma_find_profile(profiles.drop_last(), id);
        assert forall|j: int| 0 <= j < profiles.len() - 1 implies profiles.drop_last()[j] == profiles[j] by {}
    }
}

/// `profiles` without the profiles whose id is `id`.
pub open spec fn spec_remove_profile(profiles: Seq<ProfileView>, id: Seq<char>) -> Seq<ProfileView>
    decreases profiles.len(),
{
    if profiles.len() == 0 {
        Seq::empty()
    } else {
        let rest = spec_remove_profile(profiles.drop_last(), id);
        if profiles.last().id == id { rest } else { rest.push(profiles.last()) }
    }
}

/// The settings after deleting profile `id` at `revision`: the profile must
/// exist at that revision; an engine that used it falls back to `Local`.
pub open spec fn spec_plan_delete(settings: SettingsView, id: Seq<char>, revision: u64) -> Result<(SettingsView, ProfileView), OcrProviderError> {
    match spec_find_profile(settings.profiles, id) {
        None => Err(OcrProviderError::ProfileNotFound),
        Some(i) => if settings.profiles[i].revision != revision {
            Err(OcrProviderError::RevisionConflict)
        } else {
            let next = SettingsView {
                schema_version: settings.schema_version,
                active_engine: match settings.active_engine {
                    EngineView::Profile(active) => if active == id { EngineView::Local } else { EngineView::Profile(active) },
                    EngineView::Local => EngineView::Local,
                },
                profiles: spec_remove_profile(settings.profiles, id),
            };
            match spec_settings_error(next) {
                Some(e) => Err(e),
                None => Ok((next, settings.profiles[i])),
            }
        },
    }
}

/// The settings with `engine` active; a profile engine must name a profile.
pub open spec fn spec_plan_set_active(settings: SettingsView, engine: EngineView) -> Result<SettingsView, OcrProviderError> {
    if engine matches EngineView::Profile(id) && !has_profile_id(settings.profiles, id) {
        Err(OcrProviderError::ProfileNotFound)
    } else {
        let next = SettingsView { active_engine: engine, ..settings };
        match spec_settings_error(next) {
            Some(e) => Err(e),
            None => Ok(next),
        }
    }
}

/// Mathematical form of a save request.
pub struct SaveRequestView {
    pub id: Option<Seq<char>>,
    pub revision: Option<u64>,
    pub name: Seq<char>,
    pub provider: OcrProviderPreset,
    pub protocol: OcrProviderProtocol,
    pub base_url: Seq<char>,
    pub model: Seq<char>,
}

impl View for SaveProfileMetadata {
    type V = SaveRequestView;

    open spec fn view(&self) -> SaveRequestView {
        SaveRequestView {
            id: option_string_view(self.id),
            revision: self.revision,
            name: self.name@,
            provider: self.provider,
            protocol: self.protocol,
            base_url: self.base_url@,
            model: self.model@,
        }
    }
}

/// The credential id a saved profile gets, given its current one.
pub open spec fn spec_credential(change: CredentialMetadataChange, current: Option<Seq<char>>) -> Result<Option<Seq<char>>, OcrProviderError> {
    match change {
        CredentialMetadataChange::Preserve => Ok(current),
        CredentialMetadataChange::Replace(id) => if spec_valid_opaque_id(id@) {
            Ok(Some(id@))
        } else {
            Err(OcrProviderError::InvalidRequest)
        },
    }
}

/// A blank field falls back to the preset's default, when it has one.
pub open spec fn with_default(value: Seq<char>, default: Seq<char>) -> Seq<char> {
    if spec_trim(value).len() == 0 && default.len() > 0 { default } else { value }
}

/// `profiles` with the profile of the same id replaced, or `profile` appended.
pub open spec fn spec_upsert_profile(profiles: Seq<ProfileView>, profile: ProfileView) -> Seq<ProfileView> {
    match spec_find_profile(profiles, profile.id) {
        Some(i) => profiles.update(i, profile),
        None => profiles.push(profile),
    }
}

/// The saved profile before it is stored: a new one (no id, no revision) gets
/// `fresh_id` and revision 1; an update must name an existing profile at its
/// current revision and gets the next revision; anything else is invalid.
pub open spec fn spec_saved_profile(
    settings: SettingsView,
    request: SaveRequestView,
    change: CredentialMetadataChange,
    fresh_id: Seq<char>,
    name: Seq<char>,
    base_url: Seq<char>,
    model: Seq<char>,
) -> Result<ProfileView, OcrProviderError> {
    match (request.id, request.revision) {
        (None, None) => match spec_credential(change, None) {
            Ok(credential) => Ok(ProfileView {
                id: fresh_id,
                revision: 1,
                name,
                provider: request.provider,
                protocol: request.protocol,
                base_url,
                model,
                credential_id: credential,
            }),
            Err(e) => Err(e),
        },
        (Some(id), Some(revision)) => match spec_find_profile(settings.profiles, id) {
            None => Err(OcrProviderError::ProfileNotFound),
            Some(i) => {
                let current = settings.profiles[i];
                if current.revision != revision || current.revision == u64::MAX {
                    Err(OcrProviderError::RevisionConflict)
                } else {
                    match spec_credential(change, current.credential_id) {
                        Ok(credential) => Ok(ProfileView {
                            id: current.id,
                            revision: (current.revision + 1) as u64,
                            name,
                            provider: request.provider,
                            protocol: request.protocol,
                            base_url,
                            model,
                            credential_id: credential,
                        }),
                        Err(e) => Err(e),
                    }
                }
            },
        },
        _ => Err(OcrProviderError::InvalidRequest),
    }
}

/// The settings after saving `request`: name, model (or the preset's default
/// model) and base URL (or the preset's default) are validated first, then the
/// profile is created or updated and the result validated as a whole.
pub open spec fn spec_plan_save(
    settings: SettingsView,
    request: SaveRequestView,
    change: CredentialMetadataChange,
    fresh_id: Seq<char>,
) -> Result<(SettingsView, ProfileView), OcrProviderError> {
    let defaults = spec_preset_defaults(request.provider);
    match spec_validate_text(request.name, MAX_NAME_LEN as nat) {
        Err(e) => Err(e),
        Ok(name) => match spec_validate_text(with_default(request.model, defaults.1), MAX_MODEL_LEN as nat) {
            Err(e) => Err(e),
            Ok(model) => match spec_normalize_base_url(with_default(request.base_url, defaults.0)) {
                Err(e) => Err(e),
                Ok(base_url) => match spec_saved_profile(settings, request, change, fresh_id, name, base_url, model) {
                    Err(e) => Err(e),
                    Ok(profile) => {
                        let next = SettingsView {
                            profiles: spec_upsert_profile(settings.profiles, profile),
                            ..settings
                        };
                        match spec_settings_error(next) {
                            Some(e) => Err(e),
                            None => Ok((next, profile)),
                        }
                    },
                },
            },
        },
    }
}

/// A hyphenated lowercase UUID: 36 characters, hyphens at 8, 13, 18 and 23,
/// lowercase hexadecimal digits elsewhere.
pub open spec fn is_hyphenated_uuid(s: Seq<char>) -> bool {
    &&& s.len() == 36
    &&& forall|i: int| 0 <= i < 36 ==> {
        let c = #[trigger] s[i];
        if i == 8 || i == 13 || i == 18 || i == 23 {
            c == '-'
        } else {
            ('0' <= c && c <= '9') || ('a' <= c && c <= 'f')
        }
    }
}

/// `uuid::Uuid::new_v4`, written out by its `Display` impl (hyphenated,
/// lowercase). The value is random; only its textual shape is stated.
#[verifier::external_body]
fn new_profile_id() -> (id: String)
    ensures
        is_hyphenated_uuid(id@),
{
    uuid::Uuid::new_v4().to_string()
}

proof fn lemma_removed_ids(profiles: Seq<ProfileView>, id: Seq<char>, other: Seq<char>)
    ensures
        has_profile_id(spec_remove_profile(profiles, id), other) <==> (has_profile_id(profiles, other) && other != id),
    decreases profiles.len(),
{
    if profiles.len() > 0 {
        let rest = profiles.drop_last();
        lemma_removed_ids(rest, id, other);
        let removed = spec_remove_profile(rest, id);
        if has_profile_id(profiles, other) && other != id {
            let j = choose|j: int| 0 <= j < profiles.len() && (#[trigger] profiles[j]).id == other;
            if j < profiles.len() - 1 {
                assert(rest[j] == profiles[j]);
                assert(has_profile_id(rest, other));
                let k = choose|k: int| 0 <= k < removed.len() && (#[trigger] removed[k]).id == other;
                if profiles.last().id != id {
                    assert(removed.push(profiles.last())[k] == removed[k]);
                }
            } else {
                assert(removed.push(profiles.last())[removed.len() as int] == profiles.last());
            }
        }
        if has_profile_id(spec_remove_profile(profiles, id), other) {
            let whole = spec_remove_profile(profiles, id);
            let k = choose|k: int| 0 <= k < whole.len() && (#[trigger] whole[k]).id == other;
            if profiles.last().id != id && k == removed.len() {
                assert(profiles[profiles.len() - 1].id == other);
            } else {
                assert(whole[k] == removed[k]);
                let j = choose|j: int| 0 <= j < rest.len() && (#[trigger] rest[j]).id == other;
                assert(profiles[j] == rest[j]);
            }
        }
    }
}

proof fn lemma_profile_error_depends_on_ids(p: ProfileView, a: Seq<ProfileView>, b: Seq<ProfileView>)
    requires
        has_profile_id(a, p.id) == has_profile_id(b, p.id),
    ensures
        spec_profile_error(p, a) == spec_profile_error(p, b),
{
}

proof fn lemma_remove_keeps_profiles_valid(profiles: Seq<ProfileView>, id: Seq<char>)
    requires
        spec_profiles_error(profiles) is None,
    ensures
        spec_profiles_error(spec_remove_profile(profiles, id)) is None,
    decreases profiles.len(),
{
    if profiles.len() > 0 {
        let rest = profiles.drop_last();
        let last = profiles.last();
        lemma_remove_keeps_profiles_valid(rest, id);
        let removed = spec_remove_profile(rest, id);
        if last.id != id {
            lemma_removed_ids(rest, id, last.id);
            lemma_profile_error_depends_on_ids(last, removed, rest);
            assert(removed.push(last).drop_last() =~= removed);
        }
    }
}

/// Deleting an existing profile at its current revision from valid settings
/// always succeeds: the profile is gone, the other profiles stay, and an
/// engine that used it falls back to on-device OCR.
pub proof fn lemma_delete_existing_profile(settings: SettingsView, id: Seq<char>)
    requires
        valid_settings(settings),
        has_profile_id(settings.profiles, id),
    ensures
        ({
            let i = spec_find_profile(settings.profiles, id)->0;
            let outcome = spec_plan_delete(settings, id, settings.profiles[i].revision);
            &&& outcome is Ok
            &&& valid_settings(outcome->Ok_0.0)
            &&& !has_profile_id(outcome->Ok_0.0.profiles, id)
            &&& forall|other: Seq<char>| other != id ==> (has_profile_id(outcome->Ok_0.0.profiles, other) == has_profile_id(settings.profiles, other))
            &&& outcome->Ok_0.0.active_engine != EngineView::Profile(id)
            &&& outcome->Ok_0.1.id == id
        }),
{
    lemma_find_profile(settings.profiles, id);
    let j = choose|j: int| 0 <= j < settings.profiles.len() && (#[trigger] settings.profiles[j]).id == id;
    assert(spec_find_profile(settings.profiles, id) is Some);
    lemma_remove_keeps_profiles_valid(settings.profiles, id);
    lemma_removed_ids(settings.profiles, id, id);
    assert forall|other: Seq<char>| other != id implies (has_profile_id(spec_remove_profile(settings.profiles, id), other) == has_profile_id(settings.profiles, other)) by {
        lemma_removed_ids(settings.profiles, id, other);
    }
    if let EngineView::Profile(active) = settings.active_engine {
        lemma_removed_ids(settings.profiles, id, active);
    }
}

/// From valid settings, activating on-device OCR or any existing profile
/// always succeeds and changes nothing but the active engine; activating a
/// missing profile is refused.
pub proof fn lemma_set_active(settings: SettingsView, engine: EngineView)
    requires
        valid_settings(settings),
    ensures
        (engine matches EngineView::Profile(id) && !has_profile_id(settings.profiles, id))
            ==> spec_plan_set_active(settings, engine) == Err::<SettingsView, OcrProviderError>(OcrProviderError::ProfileNotFound),
        !(engine matches EngineView::Profile(id) && !has_profile_id(settings.profiles, id))
            ==> spec_plan_set_active(settings, engine) == Ok::<SettingsView, OcrProviderError>(SettingsView { active_engine: engine, ..settings }),
{
}

proof fn lemma_find_after_upsert(profiles: Seq<ProfileView>, profile: ProfileView)
    ensures
        ({
            let next = spec_upsert_profile(profiles, profile);
            spec_find_profile(next, profile.id) matches Some(i) && next[i] == profile
        }),
{
    lemma_find_profile(profiles, profile.id);
    let next = spec_upsert_profile(profiles, profile);
    lemma_find_profile(next, profile.id);
    match spec_find_profile(profiles, profile.id) {
        Some(i) => {
            match spec_find_profile(next, profile.id) {
                Some(k) => {
                    if k < i {
                        assert(next[k] == profiles[k]);
                    } else if i < k {
                        assert(next[i] == profile);
                    }
                },
                None => {
                    assert(next[i] == profile);
                },
            }
        },
        None => {
            let n = profiles.len() as int;
            assert(next[n] == profile);
            match spec_find_profile(next, profile.id) {
                Some(k) => {
                    if k < n {
                        assert(next[k] == profiles[k]);
                    }
                },
                None => {},
            }
        },
    }
}

/// A planned save that succeeds stores exactly the returned profile: looking
/// its id up in the next settings gives it back. An update keeps the profile
/// id, increments the revision and, with `Preserve`, keeps the credential id.
pub proof fn lemma_saved_profile_is_found(
    settings: SettingsView,
    request: SaveRequestView,
    change: CredentialMetadataChange,
    fresh_id: Seq<char>,
)
    requires
        spec_plan_save(settings, request, change, fresh_id) is Ok,
    ensures
        ({
            let (next, profile) = spec_plan_save(settings, request, change, fresh_id)->Ok_0;
            &&& valid_settings(next)
            &&& spec_find_profile(next.profiles, profile.id) matches Some(i) && next.profiles[i] == profile
            &&& (request.id is None ==> profile.id == fresh_id && profile.revision == 1)
            &&& (request.id matches Some(id) ==> {
                let current = settings.profiles[spec_find_profile(settings.profiles, id)->0];
                &&& profile.id == id
                &&& request.revision == Some(current.revision)
                &&& profile.revision == current.revision + 1
                &&& (change is Preserve ==> profile.credential_id == current.credential_id)
            })
        }),
{
    let (next, profile) = spec_plan_save(settings, request, change, fresh_id)->Ok_0;
    lemma_find_after_upsert(settings.profiles, profile);
    if let Some(id) = request.id {
        lemma_find_profile(settings.profiles, id);
    }
}

/// A fixed UUID-shaped text, used where no fresh id is drawn.
pub open spec fn nil_uuid_text() -> Seq<char> {
    Seq::new(36, |i: int| if i == 8 || i == 13 || i == 18 || i == 23 { '-' } else { '0' })
}

fn default_or(value: String, default: &'static str) -> (chosen: String)
    ensures
        chosen@ == with_default(value@, default@),
{
    let trimmed = trim(value.as_str());
    if trimmed.as_str().is_empty() && !default.is_empty() {
        String::from_str(default)
    } else {
        value
    }
}

fn credential_for(change: CredentialMetadataChange, current: &Option<String>) -> (credential: Result<Option<String>, OcrProviderError>)
    ensures
        match credential {
            Ok(c) => spec_credential(change, option_string_view(*current)) == Ok::<Option<Seq<char>>, OcrProviderError>(option_string_view(c)),
            Err(e) => spec_credential(change, option_string_view(*current)) == Err::<Option<Seq<char>>, OcrProviderError>(e),
        },
{
    match change {
        CredentialMetadataChange::Preserve => Ok(copy_option_string(current)),
        CredentialMetadataChange::Replace(id) => {
            let ghost view = id@;
            match validate_opaque_id(id) {
                Ok(valid) => Ok(Some(valid)),
                Err(e) => Err(e),
            }
        },
    }
}

pub open spec fn plan_view(
    result: Result<(PersistedOcrProviderSettings, OcrProviderProfileMetadata), OcrProviderError>,
) -> Result<(SettingsView, ProfileView), OcrProviderError> {
    match result {
        Ok((settings, profile)) => Ok((settings@, profile@)),
        Err(e) => Err(e),
    }
}

pub open spec fn settings_result_view(
    result: Result<PersistedOcrProviderSettings, OcrProviderError>,
) -> Result<SettingsView, OcrProviderError> {
    match result {
        Ok(settings) => Ok(settings@),
        Err(e) => Err(e),
    }
}

fn find_profile_index(profiles: &Vec<OcrProviderProfileMetadata>, id: &str) -> (index: Option<usize>)
    ensures
        match index {
            Some(i) => i < profiles@.len() && spec_find_profile(profiles@.map_values(|p: OcrProviderProfileMetadata| p@), id@) == Some(i as int),
            None => spec_find_profile(profiles@.map_values(|p: OcrProviderProfileMetadata| p@), id@) is None,
        },
{
    let found = find_profile(profiles, profiles.len(), id);
    let ghost view = profiles@.map_values(|p: OcrProviderProfileMetadata| p@);
    proof {
        lemma_find_profile(view, id@);
        match spec_find_profile(view, id@) {
            Some(i) => {
                if let Some(k) = found {
                    assert(view[k as int].id == id@);
                    assert(view[i].id == id@);
                    if i < k {
                        assert(profiles@[i].id@ == id@);
                    } else if k < i {
                        assert(view[k as int].id == id@);
                    }
                } else {
                    assert(profiles@[i].id@ == id@);
                }
            },
            None => {
                if let Some(k) = found {
                    assert(view[k as int].id == id@);
                }
            },
        }
    }
    found
}

/// The validated OCR provider settings of this installation. Every value of
/// the store holds settings that pass `validate_settings`.
pub struct OcrProviderStore {
    settings: PersistedOcrProviderSettings,
}

impl View for OcrProviderStore {
    type V = SettingsView;

    closed spec fn view(&self) -> SettingsView {
        self.settings@
    }
}

impl OcrProviderStore {
    #[verifier::type_invariant]
    spec fn stored_settings_valid(self) -> bool {
        valid_settings(self.settings@)
    }

    /// A store with the default settings: on-device OCR, no profiles.
    pub fn new() -> (store: Self)
        ensures
            store@ == default_settings(),
    {
        let settings = PersistedOcrProviderSettings::default();
        assert(spec_profiles_error(settings@.profiles) is None);
        OcrProviderStore { settings }
    }

    /// A store holding previously persisted `settings`, when they are valid.
    pub fn from_settings(settings: PersistedOcrProviderSettings) -> (store: Result<Self, OcrProviderError>)
        ensures
            match store {
                Ok(store) => store@ == settings@ && valid_settings(settings@),
                Err(e) => spec_settings_error(settings@) == Some(e),
            },
    {
        match validate_settings(&settings) {
            Ok(()) => Ok(OcrProviderStore { settings }),
            Err(e) => Err(e),
        }
    }

    /// The current settings, which are always valid.
    pub fn settings(&self) -> (settings: &PersistedOcrProviderSettings)
        ensures
            settings@ == self@,
            valid_settings(self@),
    {
        proof {
            use_type_invariant(self);
        }
        &self.settings
    }

    /// The first profile with id `id`.
    pub fn profile(&self, id: &str) -> (profile: Option<&OcrProviderProfileMetadata>)
        ensures
            match spec_find_profile(self@.profiles, id@) {
                Some(i) => profile matches Some(p) && p@ == self@.profiles[i],
                None => profile is None,
            },
    {
        match find_profile_index(&self.settings.profiles, id) {
            Some(i) => Some(&self.settings.profiles[i]),
            None => None,
        }
    }

    /// Plans deleting profile `profile_id` at `revision`; returns the next
    /// settings and the deleted profile.
    pub fn plan_delete(&self, profile_id: &str, revision: u64) -> (result: Result<(PersistedOcrProviderSettings, OcrProviderProfileMetadata), OcrProviderError>)
        ensures
            plan_view(result) == spec_plan_delete(self@, profile_id@, revision),
            has_profile_id(self@.profiles, profile_id@) && revision == self@.profiles[spec_find_profile(
                self@.profiles,
                profile_id@,
            )->0].revision ==> (result matches Ok((next, _)) && valid_settings(next@) && !has_profile_id(
                next@.profiles,
                profile_id@,
            )),
    {
        proof {
            use_type_invariant(self);
            if has_profile_id(self@.profiles, profile_id@) {
                lemma_delete_existing_profile(self@, profile_id@);
            }
        }
        let index = match find_profile_index(&self.settings.profiles, profile_id) {
            Some(i) => i,
            None => return Err(OcrProviderError::ProfileNotFound),
        };
        let current = self.settings.profiles[index].duplicate();
        if current.revision != revision {
            return Err(OcrProviderError::RevisionConflict);
        }
        let ghost all = self@.profiles;
        let mut profiles: Vec<OcrProviderProfileMetadata> = Vec::new();
        let mut i: usize = 0;
        while i < self.settings.profiles.len()
            invariant
                i <= self.settings.profiles@.len(),
                all == self.settings.profiles@.map_values(|p: OcrProviderProfileMetadata| p@),
                profiles@.map_values(|p: OcrProviderProfileMetadata| p@) == spec_remove_profile(all.take(i as int), profile_id@),
            decreases self.settings.profiles@.len() - i,
        {
            let ghost before = profiles@;
            assert(all.take(i + 1).drop_last() =~= all.take(i as int));
            if !str_equals(self.settings.profiles[i].id.as_str(), profile_id) {
                profiles.push(self.settings.profiles[i].duplicate());
                assert(profiles@.map_values(|p: OcrProviderProfileMetadata| p@) =~= before.map_values(|p: OcrProviderProfileMetadata| p@).push(all[i as int]));
            }
            i = i + 1;
        }
        assert(all.take(i as int) =~= all);
        let active_engine = match &self.settings.active_engine {
            OcrEngineRef::Profile { profile_id: active } => if str_equals(active.as_str(), profile_id) {
                OcrEngineRef::Local
            } else {
                OcrEngineRef::Profile { profile_id: copy_string(active) }
            },
            OcrEngineRef::Local => OcrEngineRef::Local,
        };
        let next = PersistedOcrProviderSettings { schema_version: self.settings.schema_version, active_engine, profiles };
        validate_settings(&next)?;
        Ok((next, current))
    }

    /// Plans making `active_engine` the engine in use.
    pub fn plan_set_active(&self, active_engine: OcrEngineRef) -> (result: Result<PersistedOcrProviderSettings, OcrProviderError>)
        ensures
            settings_result_view(result) == spec_plan_set_active(self@, active_engine@),
            !(active_engine@ matches EngineView::Profile(id) && !has_profile_id(self@.profiles, id)) ==> (result matches Ok(
                next,
            ) && next@ == SettingsView { active_engine: active_engine@, ..self@ } && valid_settings(next@)),
    {
        proof {
            use_type_invariant(self);
            lemma_set_active(self@, active_engine@);
        }
        if let OcrEngineRef::Profile { profile_id } = &active_engine {
            let found = find_profile(&self.settings.profiles, self.settings.profiles.len(), profile_id.as_str());
            proof {
                lemma_has_profile_id(self.settings.profiles@, self.settings.profiles@.len() as int, profile_id@);
                assert(self.settings.profiles@.take(self.settings.profiles@.len() as int) =~= self.settings.profiles@);
            }
            if found.is_none() {
                return Err(OcrProviderError::ProfileNotFound);
            }
        }
        let mut next = self.settings.duplicate();
        next.active_engine = active_engine;
        validate_settings(&next)?;
        Ok(next)
    }

    /// Plans saving `request`; returns the next settings and the saved profile.
    /// A new profile's id is a fresh random UUID.
    pub fn plan_save(&self, request: SaveProfileMetadata, credential_change: CredentialMetadataChange) -> (result: Result<(PersistedOcrProviderSettings, OcrProviderProfileMetadata), OcrProviderError>)
        ensures
            exists|fresh_id: Seq<char>|
                is_hyphenated_uuid(fresh_id) && plan_view(result) == #[trigger] spec_plan_save(self@, request@, credential_change, fresh_id),
    {
        let ghost req = request@;
        let ghost change = credential_change;
        assert(is_hyphenated_uuid(nil_uuid_text()));
        let SaveProfileMetadata { id, revision, name, provider, protocol, base_url, model } = request;
        let name = match validate_text(name, MAX_NAME_LEN) {
            Ok(v) => v,
            Err(e) => {
                assert(plan_view(Err(e)) == spec_plan_save(self@, req, change, nil_uuid_text()));
                return Err(e);
            },
        };
        let (default_base_url, default_model) = provider.defaults();
        let model_source = default_or(model, default_model);
        let base_url_source = default_or(base_url, default_base_url);
        let model = match validate_text(model_source, MAX_MODEL_LEN) {
            Ok(v) => v,
            Err(e) => {
                assert(plan_view(Err(e)) == spec_plan_save(self@, req, change, nil_uuid_text()));
                return Err(e);
            },
        };
        let base_url = match normalize_base_url(base_url_source.as_str()) {
            Ok(v) => v,
            Err(e) => {
                assert(plan_view(Err(e)) == spec_plan_save(self@, req, change, nil_uuid_text()));
                return Err(e);
            },
        };
        let ghost mut fresh = nil_uuid_text();
        let profile = match (id, revision) {
            (None, None) => {
                let credential_id = match credential_for(credential_change, &None) {
                    Ok(c) => c,
                    Err(e) => {
                        assert(plan_view(Err(e)) == spec_plan_save(self@, req, change, nil_uuid_text()));
                        return Err(e);
                    },
                };
                let new_id = new_profile_id();
                proof {
                    fresh = new_id@;
                }
                OcrProviderProfileMetadata { id: new_id, revision: 1, name, provider, protocol, base_url, model, credential_id }
            },
            (Some(id), Some(revision)) => {
                let index = match find_profile_index(&self.settings.profiles, id.as_str()) {
                    Some(i) => i,
                    None => {
                        assert(plan_view(Err(OcrProviderError::ProfileNotFound)) == spec_plan_save(self@, req, change, nil_uuid_text()));
                        return Err(OcrProviderError::ProfileNotFound);
                    },
                };
                let current = &self.settings.profiles[index];
                if current.revision != revision || current.revision == u64::MAX {
                    assert(plan_view(Err(OcrProviderError::RevisionConflict)) == spec_plan_save(self@, req, change, nil_uuid_text()));
                    return Err(OcrProviderError::RevisionConflict);
                }
                let credential_id = match credential_for(credential_change, &current.credential_id) {
                    Ok(c) => c,
                    Err(e) => {
                        assert(plan_view(Err(e)) == spec_plan_save(self@, req, change, nil_uuid_text()));
                        return Err(e);
                    },
                };
                OcrProviderProfileMetadata {
                    id: copy_string(&current.id),
                    revision: current.revision + 1,
                    name,
                    provider,
                    protocol,
                    base_url,
                    model,
                    credential_id,
                }
            },
            (_, _) => {
                assert(plan_view(Err(OcrProviderError::InvalidRequest)) == spec_plan_save(self@, req, change, nil_uuid_text()));
                return Err(OcrProviderError::InvalidRequest);
            },
        };
        let mut next = self.settings.duplicate();
        let ghost before = next@.profiles;
        match find_profile_index(&next.profiles, profile.id.as_str()) {
            Some(i) => {
                next.profiles.set(i, profile.duplicate());
                assert(next@.profiles =~= before.update(i as int, profile@));
            },
            None => {
                next.profiles.push(profile.duplicate());
                assert(next@.profiles =~= before.push(profile@));
            },
        }
        match validate_settings(&next) {
            Ok(()) => {},
            Err(e) => {
                assert(plan_view(Err(e)) == spec_plan_save(self@, req, change, fresh));
                return Err(e);
            },
        }
        assert(plan_view(Ok((next, profile))) == spec_plan_save(self@, req, change, fresh));
        Ok((next, profile))
    }

    /// Replaces the settings with `settings` after they pass validation and
    /// `persist` has stored them; on any failure the store is unchanged.
    pub fn commit<W: FnOnce(&PersistedOcrProviderSettings) -> Result<(), OcrProviderError>>(
        &mut self,
        settings: PersistedOcrProviderSettings,
        persist: W,
    ) -> (result: Result<(), OcrProviderError>)
        requires
            persist.requires((&settings,)),
        ensures
            match spec_settings_error(settings@) {
                Some(e) => result == Err::<(), OcrProviderError>(e) && final(self)@ == old(self)@,
                None => persist.ensures((&settings,), result) && if result is Ok {
                    final(self)@ == settings@
                } else {
                    final(self)@ == old(self)@
                },
            },
    {
        validate_settings(&settings)?;
        persist(&settings)?;
        self.settings = settings;
        Ok(())
    }
}

} // verus!
