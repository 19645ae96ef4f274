//! The pure parts of the streaming-service client: audio qualities, the
//! service's web addresses, endpoints, signed stream-address requests,
//! paging through long playlists and picking a working secret.
use vstd::prelude::*;

use crate::text::{
    concat, decimal, has_prefix, i32_text, i64_text, parse_i32, parse_i64, parsed_i32, parsed_i64,
    signed_decimal, split_char, split_on, str_eq, u32_text, usize_text, char_text,
};

verus! {

/// The audio quality the service streams at.
#[derive(Debug, Clone, Copy, PartialEq, Eq, Structural)]
pub enum AudioQuality {
    Mp3,
    CD,
    HIFI96,
    HIFI192,
    Unknown,
}

impl Default for AudioQuality {
    fn default() -> (r: Self)
        ensures
            r == AudioQuality::Mp3,
    {
        AudioQuality::Mp3
    }
}

/// The format id the service uses for a quality.
pub open spec fn quality_number(q: AudioQuality) -> u32 {
    match q {
        AudioQuality::Mp3 => 5,
        AudioQuality::CD => 6,
        AudioQuality::HIFI96 => 7,
        AudioQuality::HIFI192 => 27,
        AudioQuality::Unknown => 28,
    }
}

/// The quality a format id stands for.
pub open spec fn quality_of(id: i64) -> AudioQuality {
    if id == 5 {
        AudioQuality::Mp3
    } else if id == 6 {
        AudioQuality::CD
    } else if id == 7 {
        AudioQuality::HIFI96
    } else if id == 27 {
        AudioQuality::HIFI192
    } else {
        AudioQuality::Unknown
    }
}

impl AudioQuality {
    /// The format id of the quality (5, 6, 7, 27, and 28 for an unknown one).
    pub fn quality_id(&self) -> (r: u32)
        ensures
            r == quality_number(*self),
    {
        match self {
            AudioQuality::Mp3 => 5,
            AudioQuality::CD => 6,
            AudioQuality::HIFI96 => 7,
            AudioQuality::HIFI192 => 27,
            AudioQuality::Unknown => 28,
        }
    }

    /// The quality a format id stands for; ids the service does not know are `Unknown`.
    pub fn from_id(quality_id: i64) -> (r: AudioQuality)
        ensures
            r == quality_of(quality_id),
    {
        if quality_id == 5 {
            AudioQuality::Mp3
        } else if quality_id == 6 {
            AudioQuality::CD
        } else if quality_id == 7 {
            AudioQuality::HIFI96
        } else if quality_id == 27 {
            AudioQuality::HIFI192
        } else {
            AudioQuality::Unknown
        }
    }

    /// The format id as text, as the quality shows itself.
    pub fn to_text(&self) -> (r: String)
        ensures
            r@ == decimal(quality_number(*self) as nat),
    {
        u32_text(self.quality_id())
    }
}

impl From<i64> for AudioQuality {
    fn from(quality_id: i64) -> (r: AudioQuality) {
        AudioQuality::from_id(quality_id)
    }
}

impl vstd::std_specs::convert::FromSpecImpl<i64> for AudioQuality {
    open spec fn obeys_from_spec() -> bool {
        true
    }

    open spec fn from_spec(v: i64) -> AudioQuality {
        quality_of(v)
    }
}

/// The name a quality goes by on the command line.
pub open spec fn quality_name(q: AudioQuality) -> Seq<char> {
    match q {
        AudioQuality::Mp3 => "mp3"@,
        AudioQuality::CD => "cd"@,
        AudioQuality::HIFI96 => "hifi96"@,
        AudioQuality::HIFI192 => "hifi192"@,
        AudioQuality::Unknown => "unknown"@,
    }
}

/// The quality a command-line name selects, if any.
pub open spec fn quality_named(name: Seq<char>) -> Option<AudioQuality> {
    if name == "mp3"@ {
        Some(AudioQuality::Mp3)
    } else if name == "cd"@ {
        Some(AudioQuality::CD)
    } else if name == "hifi96"@ {
        Some(AudioQuality::HIFI96)
    } else if name == "hifi192"@ {
        Some(AudioQuality::HIFI192)
    } else if name == "unknown"@ {
        Some(AudioQuality::Unknown)
    } else {
        None
    }
}

impl AudioQuality {
    /// The quality's name on the command line: "mp3", "cd", "hifi96",
    /// "hifi192" or "unknown".
    pub fn name(&self) -> (r: &'static str)
        ensures
            r@ == quality_name(*self),
    {
        match self {
            AudioQuality::Mp3 => "mp3",
            AudioQuality::CD => "cd",
            AudioQuality::HIFI96 => "hifi96",
            AudioQuality::HIFI192 => "hifi192",
            AudioQuality::Unknown => "unknown",
        }
    }

    /// The quality a command-line name selects; `None` for any other text.
    pub fn from_name(name: &str) -> (r: Option<AudioQuality>)
        ensures
            r == quality_named(name@),
    {
        if str_eq(name, "mp3") {
            Some(AudioQuality::Mp3)
        } else if str_eq(name, "cd") {
            Some(AudioQuality::CD)
        } else if str_eq(name, "hifi96") {
            Some(AudioQuality::HIFI96)
        } else if str_eq(name, "hifi192") {
            Some(AudioQuality::HIFI192)
        } else if str_eq(name, "unknown") {
            Some(AudioQuality::Unknown)
        } else {
            None
        }
    }
}

/// The host and path of a parsed web address.
#[derive(Debug, Clone)]
pub struct UrlParts {
    pub host: Option<String>,
    pub path: String,
}

/// The text of a parsed web address's host and path.
pub struct UrlPartsView {
    pub host: Option<Seq<char>>,
    pub path: Seq<char>,
}

impl View for UrlParts {
    type V = UrlPartsView;

    open spec fn view(&self) -> UrlPartsView {
        UrlPartsView { host: crate::service::opt_str(self.host), path: self.path@ }
    }
}

/// The host and path that parsing `s` as a web address gives, or `None` if
/// `s` is not a web address.
pub uninterp spec fn url_parts_of(s: Seq<char>) -> Option<UrlPartsView>;

/// Parses `s` as a web address (`url::Url::parse`) and takes its host
/// (`host_str`) and path (`path`); `None` when parsing fails. The contract
/// only names the result: the address grammar is not written out here.
#[verifier::external_body]
fn parse_web_address(s: &str) -> (r: Option<UrlParts>)
    ensures
        match r {
            Some(p) => url_parts_of(s@) == Some(p@),
            None => url_parts_of(s@) is None,
        },
{
    match url::Url::parse(s) {
        Ok(u) => Some(UrlParts {
            host: match u.host_str() {
                Some(h) => Some(h.to_string()),
                None => None,
            },
            path: u.path().to_string(),
        }),
        Err(_) => None,
    }
}

/// The path segments of a path: `None` unless it starts with '/', else the
/// pieces of the rest between slashes (`Url::path_segments`).
pub open spec fn path_segments_of(path: Seq<char>) -> Option<Seq<Seq<char>>> {
    if has_prefix(path, "/"@) {
        Some(split_on(path.drop_first(), '/'))
    } else {
        None
    }
}

/// The path segments of `path`.
pub fn path_segments(path: &str) -> (r: Option<Vec<String>>)
    ensures
        match r {
            Some(v) => path_segments_of(path@) == Some(v@.map_values(|p: String| p@)),
            None => path_segments_of(path@) is None,
        },
{
    proof {
        reveal_strlit("/");
    }
    if crate::text::starts_with(path, "/") {
        let n = vstd::string::StrSliceExecFns::unicode_len(path);
        let rest = vstd::string::StrSliceExecFns::substring_char(path, 1, n);
        proof {
            assert(rest@ =~= path@.drop_first());
        }
        Some(split_char(rest, '/'))
    } else {
        None
    }
}

/// What a service web address points at.
#[derive(Debug, Clone, PartialEq, Eq)]
pub enum UrlType {
    Album { id: String },
    Playlist { id: i64 },
    Track { id: i32 },
}

/// What a service web address points at, as values.
pub enum UrlTarget {
    Album(Seq<char>),
    Playlist(i64),
    Track(i32),
}

impl View for UrlType {
    type V = UrlTarget;

    open spec fn view(&self) -> UrlTarget {
        match self {
            UrlType::Album { id } => UrlTarget::Album(id@),
            UrlType::Playlist { id } => UrlTarget::Playlist(*id),
            UrlType::Track { id } => UrlTarget::Track(*id),
        }
    }
}

/// Why a web address was not taken.
#[derive(Debug, Clone, Copy, PartialEq, Eq, Structural)]
pub enum UrlTypeError {
    WrongDomain,
    InvalidPath,
    InvalidUrl,
    Unknown,
}

impl UrlTypeError {
    /// The message of the error.
    pub fn message(&self) -> (r: &'static str)
        ensures
            r@ == (match *self {
                UrlTypeError::WrongDomain => "This uri contains an unfamiliar domain."@,
                UrlTypeError::InvalidPath => "the url contains an invalid path"@,
                UrlTypeError::InvalidUrl => "the url is invalid."@,
                UrlTypeError::Unknown => "an unknown error has occurred"@,
            }),
    {
        match self {
            UrlTypeError::WrongDomain => "This uri contains an unfamiliar domain.",
            UrlTypeError::InvalidPath => "the url contains an invalid path",
            UrlTypeError::InvalidUrl => "the url is invalid.",
            UrlTypeError::Unknown => "an unknown error has occurred",
        }
    }
}

/// Whether a host is one of the service's player hosts.
pub open spec fn service_host(h: Seq<char>) -> bool {
    h == "play.qobuz.com"@ || h == "open.qobuz.com"@
}

/// Whether the segments of a service address can be read: an album, playlist
/// or track address has an id after its kind, a numeric one for playlists
/// and tracks.
pub open spec fn segments_readable(segs: Seq<Seq<char>>) -> bool {
    segs.len() > 0 ==> {
        &&& segs[0] == "album"@ ==> segs.len() >= 2
        &&& segs[0] == "playlist"@ ==> segs.len() >= 2 && parsed_i64(segs[1]) is Some
        &&& segs[0] == "track"@ ==> segs.len() >= 2 && parsed_i32(segs[1]) is Some
    }
}

/// Whether the parts of an address can be read: the host is a service host
/// and the path is readable, or else the address is rejected anyway.
pub open spec fn parts_readable(p: UrlPartsView) -> bool {
    match (p.host, path_segments_of(p.path)) {
        (Some(h), Some(segs)) => service_host(h) ==> segments_readable(segs),
        _ => true,
    }
}

/// What the segments of a service address point at.
pub open spec fn segments_target(segs: Seq<Seq<char>>) -> Result<UrlTarget, UrlTypeError> {
    if segs.len() == 0 {
        Err(UrlTypeError::InvalidPath)
    } else if segs[0] == "album"@ {
        Ok(UrlTarget::Album(segs[1]))
    } else if segs[0] == "playlist"@ {
        Ok(UrlTarget::Playlist(parsed_i64(segs[1]).unwrap()))
    } else if segs[0] == "track"@ {
        Ok(UrlTarget::Track(parsed_i32(segs[1]).unwrap()))
    } else {
        Err(UrlTypeError::Unknown)
    }
}

/// What the parts of an address point at: an address without a host or a
/// path that splits is invalid, one off the service's hosts is on the wrong
/// domain, and a service address points at what its segments say.
pub open spec fn parts_target(p: UrlPartsView) -> Result<UrlTarget, UrlTypeError> {
    match (p.host, path_segments_of(p.path)) {
        (Some(h), Some(segs)) => if service_host(h) {
            segments_target(segs)
        } else {
            Err(UrlTypeError::WrongDomain)
        },
        _ => Err(UrlTypeError::InvalidUrl),
    }
}

/// The view of a result of reading an address.
pub open spec fn target_view(r: Result<UrlType, UrlTypeError>) -> Result<UrlTarget, UrlTypeError> {
    match r {
        Ok(t) => Ok(t@),
        Err(e) => Err(e),
    }
}

/// What a parsed address points at.
pub fn url_type_of(parts: &UrlParts) -> (r: Result<UrlType, UrlTypeError>)
    requires
        parts_readable(parts@),
    ensures
        target_view(r) == parts_target(parts@),
{
    proof {
        reveal_strlit("play.qobuz.com");
        reveal_strlit("open.qobuz.com");
        reveal_strlit("album");
        reveal_strlit("playlist");
        reveal_strlit("track");
    }
    let host = match &parts.host {
        Some(h) => h,
        None => {
            return Err(UrlTypeError::InvalidUrl);
        },
    };
    let segs = match path_segments(parts.path.as_str()) {
        Some(s) => s,
        None => {
            return Err(UrlTypeError::InvalidUrl);
        },
    };
    let ghost sv = segs@.map_values(|p: String| p@);
    if !(str_eq(host.as_str(), "play.qobuz.com") || str_eq(host.as_str(), "open.qobuz.com")) {
        return Err(UrlTypeError::WrongDomain);
    }
    if segs.len() == 0 {
        return Err(UrlTypeError::InvalidPath);
    }
    assert(sv[0] == segs@[0]@);
    let kind = segs[0].as_str();
    if str_eq(kind, "album") {
        assert(sv[1] == segs@[1]@);
        Ok(UrlType::Album { id: segs[1].clone() })
    } else if str_eq(kind, "playlist") {
        assert(sv[1] == segs@[1]@);
        match parse_i64(segs[1].as_str()) {
            Some(id) => Ok(UrlType::Playlist { id }),
            None => Err(UrlTypeError::Unknown),
        }
    } else if str_eq(kind, "track") {
        assert(sv[1] == segs@[1]@);
        match parse_i32(segs[1].as_str()) {
            Some(id) => Ok(UrlType::Track { id }),
            None => Err(UrlTypeError::Unknown),
        }
    } else {
        Err(UrlTypeError::Unknown)
    }
}

/// Reads a service web address: what it points at, or why it was not taken.
pub fn parse_url(string_url: &str) -> (r: Result<UrlType, UrlTypeError>)
    requires
        match url_parts_of(string_url@) {
            Some(p) => parts_readable(p),
            None => true,
        },
    ensures
        target_view(r) == (match url_parts_of(string_url@) {
            Some(p) => parts_target(p),
            None => Err(UrlTypeError::InvalidUrl),
        }),
{
    match parse_web_address(string_url) {
        Some(parts) => url_type_of(&parts),
        None => Err(UrlTypeError::InvalidUrl),
    }
}

/// Reads a service web address where it can be read; `None` for an address
/// of the service whose id is missing or not a number where one is needed.
pub fn try_parse_url(string_url: &str) -> (r: Option<Result<UrlType, UrlTypeError>>)
    ensures
        match url_parts_of(string_url@) {
            Some(p) => if parts_readable(p) {
                r matches Some(res) && target_view(res) == parts_target(p)
            } else {
                r is None
            },
            None => r matches Some(res) && target_view(res) == Err::<UrlTarget, UrlTypeError>(UrlTypeError::InvalidUrl),
        },
{
    match parse_web_address(string_url) {
        Some(parts) => {
            if readable(&parts) {
                Some(parse_url(string_url))
            } else {
                None
            }
        },
        None => Some(parse_url(string_url)),
    }
}

proof fn lemma_kind_names_distinct()
    ensures
        "album"@ != "playlist"@,
        "album"@ != "track"@,
        "playlist"@ != "track"@,
{
    reveal_strlit("album");
    reveal_strlit("playlist");
    reveal_strlit("track");
    assert("album"@.len() != "playlist"@.len());
    assert("album"@[0] != "track"@[0]);
    assert("playlist"@.len() != "track"@.len());
}

/// Whether the parts of an address can be read.
fn readable(parts: &UrlParts) -> (r: bool)
    ensures
        r == parts_readable(parts@),
{
    proof {
        reveal_strlit("play.qobuz.com");
        reveal_strlit("open.qobuz.com");
        reveal_strlit("album");
        reveal_strlit("playlist");
        reveal_strlit("track");
        lemma_kind_names_distinct();
    }
    let host = match &parts.host {
        Some(h) => h,
        None => {
            return true;
        },
    };
    let segs = match path_segments(parts.path.as_str()) {
        Some(s) => s,
        None => {
            return true;
        },
    };
    let ghost sv = segs@.map_values(|p: String| p@);
    if !(str_eq(host.as_str(), "play.qobuz.com") || str_eq(host.as_str(), "open.qobuz.com")) {
        return true;
    }
    if segs.len() == 0 {
        return true;
    }
    assert(sv[0] == segs@[0]@);
    let kind = segs[0].as_str();
    if str_eq(kind, "album") {
        segs.len() >= 2
    } else if str_eq(kind, "playlist") {
        if segs.len() < 2 {
            return false;
        }
        assert(sv[1] == segs@[1]@);
        parse_i64(segs[1].as_str()).is_some()
    } else if str_eq(kind, "track") {
        if segs.len() < 2 {
            return false;
        }
        assert(sv[1] == segs@[1]@);
        parse_i32(segs[1].as_str()).is_some()
    } else {
        true
    }
}

/// The text with its first character upper-cased when it is an ASCII
/// lower-case letter.
pub open spec fn capitalized(s: Seq<char>) -> Seq<char> {
    if s.len() > 0 && 'a' <= s[0] <= 'z' {
        s.update(0, ((s[0] as int) - 32) as char)
    } else {
        s
    }
}

/// `s` with its first character upper-cased when it is an ASCII lower-case letter.
pub fn capitalize(s: &str) -> (r: String)
    ensures
        r@ == capitalized(s@),
{
    let n = vstd::string::StrSliceExecFns::unicode_len(s);
    if n == 0 {
        return s.to_string();
    }
    let c = vstd::string::StrSliceExecFns::get_char(s, 0);
    if 'a' <= c && c <= 'z' {
        let code: u8 = c as u8;
        let upper: char = (code - 32) as char;
        let head = char_text(upper);
        let rest = vstd::string::StrSliceExecFns::substring_char(s, 1, n);
        let r = concat(head.as_str(), rest);
        proof {
            assert(r@ =~= capitalized(s@));
        }
        r
    } else {
        s.to_string()
    }
}

/// The service endpoints the client calls.
#[derive(Debug, Clone, Copy, PartialEq, Eq, Structural)]
pub enum Endpoint {
    Album,
    Artist,
    Login,
    Track,
    UserPlaylist,
    SearchArtists,
    SearchAlbums,
    TrackURL,
    Playlist,
    Search,
}

/// The path of an endpoint below the service's base address.
pub open spec fn endpoint_path(e: Endpoint) -> Seq<char> {
    match e {
        Endpoint::Album => "album/get"@,
        Endpoint::Artist => "artist/get"@,
        Endpoint::Login => "user/login"@,
        Endpoint::Track => "track/get"@,
        Endpoint::SearchArtists => "artist/search"@,
        Endpoint::UserPlaylist => "playlist/getUserPlaylists"@,
        Endpoint::SearchAlbums => "album/search"@,
        Endpoint::Search => "catalog/search"@,
        Endpoint::TrackURL => "track/getFileUrl"@,
        Endpoint::Playlist => "playlist/get"@,
    }
}

impl Endpoint {
    /// The path of the endpoint below the service's base address.
    pub fn as_str(&self) -> (r: &'static str)
        ensures
            r@ == endpoint_path(*self),
    {
        match self {
            Endpoint::Album => "album/get",
            Endpoint::Artist => "artist/get",
            Endpoint::Login => "user/login",
            Endpoint::Track => "track/get",
            Endpoint::SearchArtists => "artist/search",
            Endpoint::UserPlaylist => "playlist/getUserPlaylists",
            Endpoint::SearchAlbums => "album/search",
            Endpoint::Search => "catalog/search",
            Endpoint::TrackURL => "track/getFileUrl",
            Endpoint::Playlist => "playlist/get",
        }
    }
}

/// Why the client failed.
#[derive(Debug, Clone, PartialEq, Eq)]
pub enum ClientError {
    NoPassword,
    NoUsername,
    NoCredentials,
    NoQuality,
    /// No secret to sign requests with.
    ActiveSecret,
    AppID,
    Login,
    Authorization,
    Create,
    /// The service refused a request.
    Api { message: String },
    DeserializeJSON { message: String },
    /// The system clock reads before 1970, or too far on for a timestamp.
    Clock,
}

/// The text an error shows.
pub open spec fn error_text(e: ClientError) -> Seq<char> {
    match e {
        ClientError::NoPassword => "No username provided."@,
        ClientError::NoUsername => "No password provided."@,
        ClientError::NoCredentials => "No username or password provided."@,
        ClientError::NoQuality => "No audio quality provided."@,
        ClientError::ActiveSecret => "Failed to get a usable secret from Qobuz."@,
        ClientError::AppID => "Failed to get an app id from Qobuz."@,
        ClientError::Login => "Failed to login."@,
        ClientError::Authorization => "Authorization missing."@,
        ClientError::Create => "Failed to create client"@,
        ClientError::Api { message } => message@,
        ClientError::DeserializeJSON { message } => "Failed to deserialize json: "@ + message@,
        ClientError::Clock => "The system clock cannot give the time."@,
    }
}

impl ClientError {
    /// The text the error shows.
    pub fn message(&self) -> (r: String)
        ensures
            r@ == error_text(*self),
    {
        match self {
            ClientError::NoPassword => "No username provided.".to_string(),
            ClientError::NoUsername => "No password provided.".to_string(),
            ClientError::NoCredentials => "No username or password provided.".to_string(),
            ClientError::NoQuality => "No audio quality provided.".to_string(),
            ClientError::ActiveSecret => "Failed to get a usable secret from Qobuz.".to_string(),
            ClientError::AppID => "Failed to get an app id from Qobuz.".to_string(),
            ClientError::Login => "Failed to login.".to_string(),
            ClientError::Authorization => "Authorization missing.".to_string(),
            ClientError::Create => "Failed to create client".to_string(),
            ClientError::Api { message } => message.clone(),
            ClientError::DeserializeJSON { message } => concat("Failed to deserialize json: ", message.as_str()),
            ClientError::Clock => "The system clock cannot give the time.".to_string(),
        }
    }
}

/// The message of the error the service's answer with `status` is read
/// as, if it is one: 400, 401 and 404 are errors, 200 is not.
pub open spec fn refusal_message(status: u16) -> Option<Seq<char>> {
    if status == 400 {
        Some("Bad request"@)
    } else if status == 401 {
        Some("Unauthorized request"@)
    } else if status == 404 {
        Some("Item not found"@)
    } else {
        None
    }
}

/// Reads the service's answer: its body when the status is 200 (OK), and
/// an API error naming the refusal for 400, 401 and 404. No other status
/// is expected of the service.
pub fn handle_response(status: u16, body: String) -> (r: Result<String, ClientError>)
    requires
        status == 200 || status == 400 || status == 401 || status == 404,
    ensures
        status == 200 ==> r == Ok::<String, ClientError>(body),
        refusal_message(status) matches Some(m) ==> r matches Err(ClientError::Api { message }) && message@ == m,
{
    if status == 400 {
        Err(ClientError::Api { message: "Bad request".to_string() })
    } else if status == 401 {
        Err(ClientError::Api { message: "Unauthorized request".to_string() })
    } else if status == 404 {
        Err(ClientError::Api { message: "Item not found".to_string() })
    } else {
        Ok(body)
    }
}

/// The lower-case hexadecimal MD5 digest of the UTF-8 bytes of a text.
pub uninterp spec fn md5_hex_of(s: Seq<char>) -> Seq<char>;

/// The MD5 digest of `s` in lower-case hexadecimal (`md5::compute`,
/// formatted with `{:x}`). The contract names the digest; the hash itself
/// is not written out here.
#[verifier::external_body]
fn md5_hex(s: &str) -> (r: String)
    ensures
        r@ == md5_hex_of(s@),
{
    format!("{:x}", md5::compute(s.as_bytes()))
}

/// The current time in whole seconds since the epoch
/// (`std::time::SystemTime::now`, `duration_since(UNIX_EPOCH)`, then
/// `as_secs`); `None` when the system clock reads before the epoch. Nothing
/// is promised of the value: it is the clock's.
#[verifier::external_body]
fn now_seconds() -> (r: Option<u64>) {
    match std::time::SystemTime::now().duration_since(std::time::UNIX_EPOCH) {
        Ok(d) => Some(d.as_secs()),
        Err(_) => None,
    }
}

/// The form a password is kept in: its MD5 digest in lower-case hexadecimal.
pub fn password_digest(password: &str) -> (r: String)
    ensures
        r@ == md5_hex_of(password@),
{
    md5_hex(password)
}

/// The message shown when a web address cannot be played.
pub fn failed_to_play_message(err: UrlTypeError) -> (r: String)
    ensures
        r@ == "Failed to play item. "@ + (match err {
            UrlTypeError::WrongDomain => "This uri contains an unfamiliar domain."@,
            UrlTypeError::InvalidPath => "the url contains an invalid path"@,
            UrlTypeError::InvalidUrl => "the url is invalid."@,
            UrlTypeError::Unknown => "an unknown error has occurred"@,
        }),
{
    concat("Failed to play item. ", err.message())
}

/// The message shown when the item a web address names cannot be fetched.
pub open spec fn fetch_failure_text(target: UrlType, err: ClientError) -> Seq<char> {
    match target {
        UrlType::Album { id } => "Failed to play album "@ + id@ + ", "@ + error_text(err) + ". Is the ID correct?"@,
        UrlType::Playlist { id } => "Failed to play playlsit "@ + signed_decimal(id as int) + ", "@ + error_text(err)
            + ". Is the ID correct?"@,
        UrlType::Track { id } => "Failed to play track "@ + signed_decimal(id as int) + ", "@ + error_text(err)
            + ". Is the ID correct?"@,
    }
}

/// The message shown when the album, playlist or track a web address names
/// cannot be fetched, with the client's error.
pub fn fetch_failure_message(target: &UrlType, err: &ClientError) -> (r: String)
    ensures
        r@ == fetch_failure_text(*target, *err),
{
    let (head, id) = match target {
        UrlType::Album { id } => ("Failed to play album ", id.clone()),
        UrlType::Playlist { id } => ("Failed to play playlsit ", i64_text(*id)),
        UrlType::Track { id } => ("Failed to play track ", i32_text(*id)),
    };
    let text = concat(
        concat(concat(concat(head, id.as_str()).as_str(), ", ").as_str(), err.message().as_str()).as_str(),
        ". Is the ID correct?",
    );
    proof {
        match target {
            UrlType::Album { id: a } => assert(text@ =~= fetch_failure_text(*target, *err)),
            UrlType::Playlist { id: p } => assert(text@ =~= fetch_failure_text(*target, *err)),
            UrlType::Track { id: t } => assert(text@ =~= fetch_failure_text(*target, *err)),
        }
    }
    text
}

/// The text a stream-address request is signed over.
pub open spec fn signature_text(format_id: AudioQuality, track_id: i32, now: Seq<char>, secret: Seq<char>) -> Seq<char> {
    "trackgetFileUrlformat_id"@ + decimal(quality_number(format_id) as nat) + "intentstreamtrack_id"@
        + signed_decimal(track_id as int) + now + secret
}

/// A request to the service: the address to call and its query parameters.
#[derive(Debug, Clone)]
pub struct ApiRequest {
    pub endpoint: String,
    pub params: Vec<(String, String)>,
}

/// The text of a request's query parameters.
pub open spec fn params_view(p: Seq<(String, String)>) -> Seq<(Seq<char>, Seq<char>)> {
    p.map_values(|e: (String, String)| (e.0@, e.1@))
}

/// The secret a stream-address request is signed with: the one handed in,
/// else the client's active one.
pub open spec fn chosen_secret(sec: Option<Seq<char>>, active: Option<Seq<char>>) -> Option<Seq<char>> {
    match sec {
        Some(s) => Some(s),
        None => active,
    }
}

/// The quality a stream-address request asks for: the one handed in, else the default.
pub open spec fn chosen_quality(fmt_id: Option<AudioQuality>, default_quality: AudioQuality) -> AudioQuality {
    match fmt_id {
        Some(q) => q,
        None => default_quality,
    }
}

/// The query parameters of a stream-address request.
pub open spec fn track_url_params(track_id: i32, quality: AudioQuality, now: Seq<char>, secret: Seq<char>) -> Seq<(Seq<char>, Seq<char>)> {
    seq![
        ("request_ts"@, now),
        ("request_sig"@, md5_hex_of(signature_text(quality, track_id, now, secret))),
        ("track_id"@, signed_decimal(track_id as int)),
        ("format_id"@, decimal(quality_number(quality) as nat)),
        ("intent"@, "stream"@),
    ]
}

fn pair(a: &str, b: String) -> (r: (String, String))
    ensures
        r.0@ == a@,
        r.1@ == b@,
{
    (a.to_string(), b)
}

/// The stream-address request for `track_id` at time `now` (seconds since
/// the epoch), signed with `sec` or else the active secret, at quality
/// `fmt_id` or else the default one; an error when there is no secret.
pub fn track_url_request_at(
    base_url: &str,
    track_id: i32,
    fmt_id: Option<AudioQuality>,
    default_quality: AudioQuality,
    sec: Option<String>,
    active_secret: &Option<String>,
    now: i64,
) -> (r: Result<ApiRequest, ClientError>)
    ensures
        match chosen_secret(crate::service::opt_str(sec), crate::service::opt_str(*active_secret)) {
            Some(secret) => r matches Ok(req) && req.endpoint@ == base_url@ + endpoint_path(Endpoint::TrackURL)
                && params_view(req.params@) == track_url_params(
                    track_id,
                    chosen_quality(fmt_id, default_quality),
                    signed_decimal(now as int),
                    secret,
                ),
            None => r == Err::<ApiRequest, ClientError>(ClientError::ActiveSecret),
        },
{
    let endpoint = concat(base_url, Endpoint::TrackURL.as_str());
    let now_text = i64_text(now);
    let secret = match sec {
        Some(s) => s,
        None => match active_secret {
            Some(s) => s.clone(),
            None => {
                return Err(ClientError::ActiveSecret);
            },
        },
    };
    let quality = match fmt_id {
        Some(q) => q,
        None => default_quality,
    };
    let format_text = quality.to_text();
    let track_text = i32_text(track_id);
    let sig = concat(
        concat(
            concat(concat(concat("trackgetFileUrlformat_id", format_text.as_str()).as_str(), "intentstreamtrack_id").as_str(), track_text.as_str()).as_str(),
            now_text.as_str(),
        ).as_str(),
        secret.as_str(),
    );
    let hashed_sig = md5_hex(sig.as_str());
    let mut params: Vec<(String, String)> = Vec::new();
    params.push(pair("request_ts", now_text));
    params.push(pair("request_sig", hashed_sig));
    params.push(pair("track_id", track_text));
    params.push(pair("format_id", format_text));
    params.push(pair("intent", "stream".to_string()));
    proof {
        assert(sig@ =~= signature_text(quality, track_id, signed_decimal(now as int), secret@));
        assert(params_view(params@) =~= track_url_params(track_id, quality, signed_decimal(now as int), secret@));
    }
    Ok(ApiRequest { endpoint, params })
}

/// The stream-address request for `track_id`, signed at the current time:
/// `track_url_request_at` at whatever time the clock gives. Without a
/// secret it is the missing-secret error; when the clock cannot give a time
/// since 1970 that fits a timestamp, it is the clock error.
pub fn track_url_request(
    base_url: &str,
    track_id: i32,
    fmt_id: Option<AudioQuality>,
    default_quality: AudioQuality,
    sec: Option<String>,
    active_secret: &Option<String>,
) -> (r: Result<ApiRequest, ClientError>)
    ensures
        match chosen_secret(crate::service::opt_str(sec), crate::service::opt_str(*active_secret)) {
            Some(secret) => r == Err::<ApiRequest, ClientError>(ClientError::Clock) || (r matches Ok(req)
                && req.endpoint@ == base_url@ + endpoint_path(Endpoint::TrackURL) && exists|now: i64|
                0 <= now && params_view(req.params@) == track_url_params(
                    track_id,
                    chosen_quality(fmt_id, default_quality),
                    signed_decimal(now as int),
                    secret,
                )),
            None => r == Err::<ApiRequest, ClientError>(ClientError::ActiveSecret),
        },
{
    let now = match now_seconds() {
        Some(t) => {
            if t > 0x7fff_ffff_ffff_ffff {
                return match chosen_secret_of(&sec, active_secret) {
                    true => Err(ClientError::Clock),
                    false => Err(ClientError::ActiveSecret),
                };
            }
            t as i64
        },
        None => {
            return match chosen_secret_of(&sec, active_secret) {
                true => Err(ClientError::Clock),
                false => Err(ClientError::ActiveSecret),
            };
        },
    };
    track_url_request_at(base_url, track_id, fmt_id, default_quality, sec, active_secret, now)
}

/// Whether a secret is at hand: the one given, or else the active one.
fn chosen_secret_of(sec: &Option<String>, active_secret: &Option<String>) -> (r: bool)
    ensures
        r == chosen_secret(crate::service::opt_str(*sec), crate::service::opt_str(*active_secret)) is Some,
{
    sec.is_some() || active_secret.is_some()
}

/// The query parameters of the first page of a playlist.
pub open spec fn first_page_params(playlist_id: Seq<char>) -> Seq<(Seq<char>, Seq<char>)> {
    seq![("limit"@, "500"@), ("extra"@, "tracks"@), ("playlist_id"@, playlist_id), ("offset"@, "0"@)]
}

/// The query parameters of a further page of a playlist.
pub open spec fn page_params(playlist_id: Seq<char>, limit: nat, offset: nat) -> Seq<(Seq<char>, Seq<char>)> {
    seq![
        ("limit"@, decimal(limit)),
        ("extra"@, "tracks"@),
        ("playlist_id"@, playlist_id),
        ("offset"@, decimal(offset)),
    ]
}

/// The request for the first page of a playlist.
pub fn playlist_request(base_url: &str, playlist_id: &str) -> (r: ApiRequest)
    ensures
        r.endpoint@ == base_url@ + endpoint_path(Endpoint::Playlist),
        params_view(r.params@) == first_page_params(playlist_id@),
{
    let endpoint = concat(base_url, Endpoint::Playlist.as_str());
    let mut params: Vec<(String, String)> = Vec::new();
    params.push(pair("limit", "500".to_string()));
    params.push(pair("extra", "tracks".to_string()));
    params.push(pair("playlist_id", playlist_id.to_string()));
    params.push(pair("offset", "0".to_string()));
    proof {
        assert(params_view(params@) =~= first_page_params(playlist_id@));
    }
    ApiRequest { endpoint, params }
}

/// The limit a search asks for: the one given, else 100.
pub open spec fn limit_text(limit: Option<i32>) -> Seq<char> {
    match limit {
        Some(l) => signed_decimal(l as int),
        None => "100"@,
    }
}

fn limit_param(limit: Option<i32>) -> (r: String)
    ensures
        r@ == limit_text(limit),
{
    match limit {
        Some(l) => i32_text(l),
        None => "100".to_string(),
    }
}

/// The request for the user's playlists.
pub fn user_playlists_request(base_url: &str) -> (r: ApiRequest)
    ensures
        r.endpoint@ == base_url@ + endpoint_path(Endpoint::UserPlaylist),
        params_view(r.params@) == seq![("limit"@, "500"@), ("extra"@, "tracks"@), ("offset"@, "0"@)],
{
    let endpoint = concat(base_url, Endpoint::UserPlaylist.as_str());
    let mut params: Vec<(String, String)> = Vec::new();
    params.push(pair("limit", "500".to_string()));
    params.push(pair("extra", "tracks".to_string()));
    params.push(pair("offset", "0".to_string()));
    proof {
        assert(params_view(params@) =~= seq![("limit"@, "500"@), ("extra"@, "tracks"@), ("offset"@, "0"@)]);
    }
    ApiRequest { endpoint, params }
}

/// The request for a track's record.
pub fn track_request(base_url: &str, track_id: i32) -> (r: ApiRequest)
    ensures
        r.endpoint@ == base_url@ + endpoint_path(Endpoint::Track),
        params_view(r.params@) == seq![("track_id"@, signed_decimal(track_id as int))],
{
    let endpoint = concat(base_url, Endpoint::Track.as_str());
    let mut params: Vec<(String, String)> = Vec::new();
    params.push(pair("track_id", i32_text(track_id)));
    proof {
        assert(params_view(params@) =~= seq![("track_id"@, signed_decimal(track_id as int))]);
    }
    ApiRequest { endpoint, params }
}

/// The request for an album's record.
pub fn album_request(base_url: &str, album_id: &str) -> (r: ApiRequest)
    ensures
        r.endpoint@ == base_url@ + endpoint_path(Endpoint::Album),
        params_view(r.params@) == seq![("album_id"@, album_id@)],
{
    let endpoint = concat(base_url, Endpoint::Album.as_str());
    let mut params: Vec<(String, String)> = Vec::new();
    params.push(pair("album_id", album_id.to_string()));
    proof {
        assert(params_view(params@) =~= seq![("album_id"@, album_id@)]);
    }
    ApiRequest { endpoint, params }
}

/// The request for a search of the whole catalog.
pub fn search_all_request(base_url: &str, query: &str) -> (r: ApiRequest)
    ensures
        r.endpoint@ == base_url@ + endpoint_path(Endpoint::Search),
        params_view(r.params@) == seq![("query"@, query@), ("limit"@, "500"@)],
{
    let endpoint = concat(base_url, Endpoint::Search.as_str());
    let mut params: Vec<(String, String)> = Vec::new();
    params.push(pair("query", query.to_string()));
    params.push(pair("limit", "500".to_string()));
    proof {
        assert(params_view(params@) =~= seq![("query"@, query@), ("limit"@, "500"@)]);
    }
    ApiRequest { endpoint, params }
}

/// The request for a search of albums, for `limit` of them (100 when
/// none is given).
pub fn search_albums_request(base_url: &str, query: &str, limit: Option<i32>) -> (r: ApiRequest)
    ensures
        r.endpoint@ == base_url@ + endpoint_path(Endpoint::SearchAlbums),
        params_view(r.params@) == seq![("query"@, query@), ("limit"@, limit_text(limit))],
{
    let endpoint = concat(base_url, Endpoint::SearchAlbums.as_str());
    let mut params: Vec<(String, String)> = Vec::new();
    params.push(pair("query", query.to_string()));
    params.push(pair("limit", limit_param(limit)));
    proof {
        assert(params_view(params@) =~= seq![("query"@, query@), ("limit"@, limit_text(limit))]);
    }
    ApiRequest { endpoint, params }
}

/// The request for a search of artists, for `limit` of them (100 when
/// none is given).
pub fn search_artists_request(base_url: &str, query: &str, limit: Option<i32>) -> (r: ApiRequest)
    ensures
        r.endpoint@ == base_url@ + endpoint_path(Endpoint::SearchArtists),
        params_view(r.params@) == seq![("query"@, query@), ("limit"@, limit_text(limit))],
{
    let endpoint = concat(base_url, Endpoint::SearchArtists.as_str());
    let mut params: Vec<(String, String)> = Vec::new();
    params.push(pair("query", query.to_string()));
    params.push(pair("limit", limit_param(limit)));
    proof {
        assert(params_view(params@) =~= seq![("query"@, query@), ("limit"@, limit_text(limit))]);
    }
    ApiRequest { endpoint, params }
}

/// The query parameters of an artist's request.
pub open spec fn artist_params(artist_id: i32, app_id: Seq<char>, limit: Option<i32>) -> Seq<(Seq<char>, Seq<char>)> {
    seq![
        ("artist_id"@, signed_decimal(artist_id as int)),
        ("app_id"@, app_id),
        ("limit"@, limit_text(limit)),
        ("offset"@, "0"@),
        ("extra"@, "albums"@),
    ]
}

/// The request for an artist's record with `limit` of their albums (100
/// when none is given). It names the app, so the app id must be known.
pub fn artist_request(base_url: &str, artist_id: i32, app_id: Option<&str>, limit: Option<i32>) -> (r: ApiRequest)
    requires
        app_id is Some,
    ensures
        r.endpoint@ == base_url@ + endpoint_path(Endpoint::Artist),
        params_view(r.params@) == artist_params(artist_id, app_id.unwrap()@, limit),
{
    let endpoint = concat(base_url, Endpoint::Artist.as_str());
    let app = app_id.unwrap();
    let mut params: Vec<(String, String)> = Vec::new();
    params.push(pair("artist_id", i32_text(artist_id)));
    params.push(pair("app_id", app.to_string()));
    params.push(pair("limit", limit_param(limit)));
    params.push(pair("offset", "0".to_string()));
    params.push(pair("extra", "albums".to_string()));
    proof {
        assert(params_view(params@) =~= artist_params(artist_id, app@, limit));
    }
    ApiRequest { endpoint, params }
}

/// The query parameters of a login.
pub open spec fn login_params(username: Seq<char>, password: Seq<char>, app_id: Seq<char>) -> Seq<(Seq<char>, Seq<char>)> {
    seq![("email"@, username), ("password"@, password), ("app_id"@, app_id)]
}

/// The login request: the user's e-mail and password, and the app id. A
/// login needs all three.
pub fn login_request(base_url: &str, app_id: Option<&str>, username: Option<&str>, password: Option<&str>) -> (r: ApiRequest)
    requires
        app_id is Some,
        username is Some,
        password is Some,
    ensures
        r.endpoint@ == base_url@ + endpoint_path(Endpoint::Login),
        params_view(r.params@) == login_params(username.unwrap()@, password.unwrap()@, app_id.unwrap()@),
{
    let endpoint = concat(base_url, Endpoint::Login.as_str());
    let mut params: Vec<(String, String)> = Vec::new();
    params.push(pair("email", username.unwrap().to_string()));
    params.push(pair("password", password.unwrap().to_string()));
    params.push(pair("app_id", app_id.unwrap().to_string()));
    proof {
        assert(params_view(params@) =~= login_params(username.unwrap()@, password.unwrap()@, app_id.unwrap()@));
    }
    ApiRequest { endpoint, params }
}

/// The JSON text of the member `key` of the object that `text` holds in
/// JSON, `null` when there is no such member; `None` when `text` is not
/// JSON.
pub uninterp spec fn json_member_text(text: Seq<char>, key: Seq<char>) -> Option<Seq<char>>;

/// Parses `text` as JSON (`serde_json::from_str` into a `Value`), indexes
/// it by `key` and writes that member back as JSON text (`to_string`).
/// The contract names the result; JSON itself is not written out here.
#[verifier::external_body]
fn json_member(text: &str, key: &str) -> (r: Option<String>)
    ensures
        r.is_some() == json_member_text(text@, key@).is_some(),
        r matches Some(m) ==> m@ == json_member_text(text@, key@).unwrap(),
{
    match serde_json::from_str::<serde_json::Value>(text) {
        Ok(v) => Some(v[key].to_string()),
        Err(_) => None,
    }
}

/// Whether a member's text can be stripped of its first and last
/// characters as bytes: at least two characters, both ends one byte long.
pub open spec fn quoted(field: Seq<char>) -> bool {
    field.len() >= 2 && (field[0] as u32) < 0x80 && (field.last() as u32) < 0x80
}

/// The token a login answer's member text holds: the text without its
/// quotes, the first and the last character.
pub fn auth_token(field: &str) -> (r: String)
    requires
        quoted(field@),
    ensures
        r@ == field@.subrange(1, field@.len() - 1),
{
    let n = vstd::string::StrSliceExecFns::unicode_len(field);
    vstd::string::StrSliceExecFns::substring_char(field, 1, n - 1).to_string()
}

/// The token in the answer to a login: the text of its `user_auth_token`
/// member without its first and last characters, when it can be stripped.
pub open spec fn login_token_of(response: Seq<char>) -> Option<Seq<char>> {
    match json_member_text(response, "user_auth_token"@) {
        Some(f) => if quoted(f) {
            Some(f.subrange(1, f.len() - 1))
        } else {
            None
        },
        None => None,
    }
}

/// The user's token in the service's answer to a login: its
/// `user_auth_token` member without the quotes; `None` when the answer is
/// not JSON or the member's text cannot be stripped so.
pub fn login_token(response: &str) -> (r: Option<String>)
    ensures
        r.is_some() == login_token_of(response@).is_some(),
        r matches Some(t) ==> t@ == login_token_of(response@).unwrap(),
{
    match json_member(response, "user_auth_token") {
        Some(field) => {
            let n = vstd::string::StrSliceExecFns::unicode_len(field.as_str());
            if n >= 2 {
                let first = vstd::string::StrSliceExecFns::get_char(field.as_str(), 0);
                let last = vstd::string::StrSliceExecFns::get_char(field.as_str(), n - 1);
                if (first as u32) < 0x80 && (last as u32) < 0x80 {
                    return Some(auth_token(field.as_str()));
                }
            }
            None
        },
        None => None,
    }
}

/// The error a failed request to the service is read as: the refusal its
/// status names for 400, 401 and 404, and a general one otherwise or when
/// there is no status.
pub fn api_error_of(status: Option<u16>) -> (r: ClientError)
    ensures
        r matches ClientError::Api { message } && message@ == (match status {
            Some(s) => match refusal_message(s) {
                Some(m) => m,
                None => "Error calling the API."@,
            },
            None => "Error calling the API."@,
        }),
{
    let message = match status {
        Some(400) => "Bad request",
        Some(401) => "Unauthorized request",
        Some(404) => "Item not found",
        _ => "Error calling the API.",
    };
    ClientError::Api { message: message.to_string() }
}

/// The error a call reports when its request failed: an API error with
/// the failure's text.
pub fn call_error(error: &ClientError) -> (r: ClientError)
    ensures
        r matches ClientError::Api { message } && message@ == error_text(*error),
{
    ClientError::Api { message: error.message() }
}

/// The request for the next page of a playlist that has `have` of its
/// `total` tracks: the rest of them, from where the list stops; `None`
/// once all are in.
pub fn next_page_request(base_url: &str, playlist_id: i64, have: usize, total: usize) -> (r: Option<ApiRequest>)
    ensures
        have < total ==> (r matches Some(req) && req.endpoint@ == base_url@ + endpoint_path(Endpoint::Playlist)
            && params_view(req.params@) == page_params(signed_decimal(playlist_id as int), (total - have) as nat, have as nat)),
        have >= total ==> r is None,
{
    if have >= total {
        return None;
    }
    let endpoint = concat(base_url, Endpoint::Playlist.as_str());
    let id = i64_text(playlist_id);
    let mut params: Vec<(String, String)> = Vec::new();
    params.push(pair("limit", usize_text(total - have)));
    params.push(pair("extra", "tracks".to_string()));
    params.push(pair("playlist_id", id));
    params.push(pair("offset", usize_text(have)));
    proof {
        assert(params_view(params@) =~= page_params(signed_decimal(playlist_id as int), (total - have) as nat, have as nat));
    }
    Some(ApiRequest { endpoint, params })
}

/// The secret to keep: the first candidate the service accepted, or an
/// error when it accepted none.
pub fn active_secret_of(candidates: &Vec<String>, accepted: &Vec<bool>) -> (r: Result<String, ClientError>)
    requires
        candidates@.len() == accepted@.len(),
    ensures
        match r {
            Ok(s) => exists|i: int| {
                &&& 0 <= i < accepted@.len()
                &&& accepted@[i]
                &&& s@ == candidates@[i]@
                &&& forall|j: int| 0 <= j < i ==> !accepted@[j]
            },
            Err(e) => e == ClientError::ActiveSecret && forall|j: int| 0 <= j < accepted@.len() ==> !accepted@[j],
        },
{
    let mut i: usize = 0;
    while i < accepted.len()
        invariant
            candidates@.len() == accepted@.len(),
            i <= accepted@.len(),
            forall|j: int| 0 <= j < i ==> !accepted@[j],
        decreases accepted@.len() - i,
    {
        if accepted[i] {
            return Ok(candidates[i].clone());
        }
        i = i + 1;
    }
    Err(ClientError::ActiveSecret)
}

/// The client settings kept between runs.
#[derive(Debug, Clone, Default)]
pub struct ApiConfig {
    pub username: Option<String>,
    pub password: Option<String>,
    pub default_quality: Option<i64>,
    pub user_token: Option<String>,
    pub app_id: Option<String>,
    pub active_secret: Option<String>,
}

/// How the client is to be set up from the kept settings.
#[derive(Debug, Clone)]
pub struct SetupPlan {
    /// The default quality to use, if one was kept.
    pub quality: Option<AudioQuality>,
    /// The kept app id to use.
    pub app_id: Option<String>,
    /// The kept secret to use.
    pub active_secret: Option<String>,
    /// The kept sign-in token to use, unless credentials were given.
    pub token: Option<String>,
    /// Whether the app id and secrets must be fetched again.
    pub refresh: bool,
    /// The user name and password to sign in with.
    pub login: Option<(String, String)>,
}

/// The credentials to sign in with: the ones given, when both are, else
/// the kept ones, when both are.
pub open spec fn chosen_login(
    username: Option<Seq<char>>,
    password: Option<Seq<char>>,
    kept_user: Option<Seq<char>>,
    kept_password: Option<Seq<char>>,
) -> Option<(Seq<char>, Seq<char>)> {
    if username is Some && password is Some {
        Some((username.unwrap(), password.unwrap()))
    } else if kept_user is Some && kept_password is Some {
        Some((kept_user.unwrap(), kept_password.unwrap()))
    } else {
        None
    }
}

/// The sign-in a setup plans: credentials given (both of them) override
/// anything kept, a kept token is used otherwise, and without one the kept
/// credentials sign in.
pub open spec fn planned_login(
    token: Option<Seq<char>>,
    username: Option<Seq<char>>,
    password: Option<Seq<char>>,
    kept_user: Option<Seq<char>>,
    kept_password: Option<Seq<char>>,
) -> Option<(Seq<char>, Seq<char>)> {
    if username is Some && password is Some {
        Some((username.unwrap(), password.unwrap()))
    } else if token is Some {
        None
    } else {
        chosen_login(username, password, kept_user, kept_password)
    }
}

/// The text of an optional string argument.
pub open spec fn opt_arg(s: Option<&str>) -> Option<Seq<char>> {
    match s {
        Some(v) => Some(v@),
        None => None,
    }
}

/// How to set the client up from `config` and the credentials given: the
/// kept quality, app id and secret are used, and the app id and secrets
/// are fetched again when either is missing. A user name and password given
/// together override the kept values: the client signs in with them and
/// the kept token is not used. Otherwise the kept token is used, and
/// without one the client signs in with the kept credentials.
pub fn setup_plan(config: &ApiConfig, username: Option<&str>, password: Option<&str>) -> (r: SetupPlan)
    ensures
        r.quality == (match config.default_quality {
            Some(q) => Some(quality_of(q)),
            None => None,
        }),
        crate::service::opt_str(r.app_id) == crate::service::opt_str(config.app_id),
        crate::service::opt_str(r.active_secret) == crate::service::opt_str(config.active_secret),
        crate::service::opt_str(r.token) == (if username is Some && password is Some {
            None
        } else {
            crate::service::opt_str(config.user_token)
        }),
        r.refresh == (config.app_id is None || config.active_secret is None),
        r.login is Some == planned_login(
            crate::service::opt_str(config.user_token),
            opt_arg(username),
            opt_arg(password),
            crate::service::opt_str(config.username),
            crate::service::opt_str(config.password),
        ) is Some,
        r.login matches Some(l) ==> planned_login(
            crate::service::opt_str(config.user_token),
            opt_arg(username),
            opt_arg(password),
            crate::service::opt_str(config.username),
            crate::service::opt_str(config.password),
        ) == Some((l.0@, l.1@)),
{
    let quality = match config.default_quality {
        Some(q) => Some(AudioQuality::from_id(q)),
        None => None,
    };
    let refresh = config.app_id.is_none() || config.active_secret.is_none();
    let (login, token) = match (username, password) {
        (Some(u), Some(p)) => (Some((u.to_string(), p.to_string())), None),
        _ => {
            let login = if config.user_token.is_some() {
                None
            } else {
                match (&config.username, &config.password) {
                    (Some(u), Some(p)) => Some((u.clone(), p.clone())),
                    _ => None,
                }
            };
            (login, crate::service::copy_opt_string(&config.user_token))
        },
    };
    SetupPlan {
        quality,
        app_id: crate::service::copy_opt_string(&config.app_id),
        active_secret: crate::service::copy_opt_string(&config.active_secret),
        token,
        refresh,
        login,
    }
}

} // verus!
