//! The client's side of the desktop control service: where its descriptor is, which
//! descriptors are trusted, what is requested and what a response means.
use vstd::prelude::*;
use vstd::utf8::encode_utf8;

use crate::json::decode;
use crate::json::decoded;
use crate::json::encode;
use crate::json::json_parsed;
use crate::json::json_text;
use crate::json::Json;
use crate::json::JsonTree;
use crate::text::cat2;
use crate::text::cat4;
use crate::text::cat5;
use crate::text::decimal;
use crate::text::decimal_text;
use crate::text::opt_text;
use crate::text::same_text;

verus! {

/// The directory of the app's data below that of the platform.
pub open spec fn bundle_identifier() -> Seq<char> {
    "xyz.block.buzz.app"@
}

/// The file that tells how to reach the control service.
pub open spec fn descriptor_file() -> Seq<char> {
    "desktop-control.json"@
}

/// The shortest token that a descriptor may hold, in bytes.
pub const MIN_TOKEN_BYTES: usize = 32;

/// The version of the descriptors that are understood.
pub const SCHEMA_VERSION: u8 = 1;

/// Why a command failed.
#[derive(Debug, PartialEq)]
pub enum CliError {
    Other(String),
    NotFound(String),
    Auth(String),
    Usage(String),
    /// The service answered, and refused.
    Relay { status: u16, body: String },
    /// The exchange with the service did not come about.
    Transport(String),
}

/// What a [`CliError`] says.
pub enum CliFault {
    Other(Seq<char>),
    NotFound(Seq<char>),
    Auth(Seq<char>),
    Usage(Seq<char>),
    Relay { status: u16, body: Seq<char> },
    Transport(Seq<char>),
}

impl View for CliError {
    type V = CliFault;

    open spec fn view(&self) -> CliFault {
        match self {
            CliError::Other(message) => CliFault::Other(message@),
            CliError::NotFound(message) => CliFault::NotFound(message@),
            CliError::Auth(message) => CliFault::Auth(message@),
            CliError::Usage(message) => CliFault::Usage(message@),
            CliError::Relay { status, body } => CliFault::Relay { status: *status, body: body@ },
            CliError::Transport(message) => CliFault::Transport(message@),
        }
    }
}

/// Where the descriptor is.
#[derive(Debug, PartialEq)]
pub enum DescriptorPlace<P> {
    /// At the path that was given.
    Given(P),
    /// Below a directory: in the app's own directory, under the descriptor's name.
    Below { dir: P, bundle: String, file: String },
}

/// Where the descriptor is: at the path that was given, else in the data directory of
/// the platform.
pub fn resolve_descriptor_path<P>(override_path: Option<P>, data_dir: Option<P>) -> (r: Result<
    DescriptorPlace<P>,
    CliError,
>)
    ensures
        match r {
            Ok(DescriptorPlace::Given(path)) => override_path == Some(path),
            Ok(DescriptorPlace::Below { dir, bundle, file }) => override_path is None && data_dir
                == Some(dir) && bundle@ == bundle_identifier() && file@ == descriptor_file(),
            Err(error) => override_path is None && data_dir is None && error@ == CliFault::Other(
                "could not resolve platform app-data directory"@,
            ),
        },
{
    match override_path {
        Some(path) => Ok(DescriptorPlace::Given(path)),
        None => match data_dir {
            Some(dir) => Ok(
                DescriptorPlace::Below {
                    dir,
                    bundle: "xyz.block.buzz.app".to_owned(),
                    file: "desktop-control.json".to_owned(),
                },
            ),
            None => Err(
                CliError::Other("could not resolve platform app-data directory".to_owned()),
            ),
        },
    }
}

/// The error of a descriptor that could not be read.
pub fn descriptor_unavailable(path: &str, error: &str) -> (r: CliError)
    ensures
        r@ == CliFault::NotFound(
            "Buzz Desktop control service is unavailable at "@ + path@ + ": "@ + error@
                + "; start Buzz Desktop first"@,
        ),
{
    CliError::NotFound(
        cat5(
            "Buzz Desktop control service is unavailable at ",
            path,
            ": ",
            error,
            "; start Buzz Desktop first",
        ),
    )
}

/// The error of a descriptor that does not have the right form.
pub fn descriptor_malformed(path: &str, error: &str) -> (r: CliError)
    ensures
        r@ == CliFault::Other(
            "invalid Buzz Desktop control descriptor at "@ + path@ + ": "@ + error@,
        ),
{
    CliError::Other(cat4("invalid Buzz Desktop control descriptor at ", path, ": ", error))
}

/// The scheme and the host of a URL.
#[derive(Debug, PartialEq)]
pub struct UrlParts {
    pub scheme: String,
    pub host: Option<String>,
}

/// What [`UrlParts`] say.
pub struct UrlView {
    pub scheme: Seq<char>,
    pub host: Option<Seq<char>>,
}

impl View for UrlParts {
    type V = UrlView;

    open spec fn view(&self) -> UrlView {
        UrlView { scheme: self.scheme@, host: opt_text(self.host) }
    }
}

/// The view of a parsed URL.
pub open spec fn url_result(r: Result<UrlParts, String>) -> Result<UrlView, Seq<char>> {
    match r {
        Ok(parts) => Ok(parts@),
        Err(error) => Err(error@),
    }
}

/// Where a request goes: the URL, and its parts.
#[derive(Debug, PartialEq)]
pub struct Target {
    pub url: String,
    pub parts: UrlParts,
}

/// What a [`Target`] says.
pub struct TargetView {
    pub url: Seq<char>,
    pub parts: UrlView,
}

impl View for Target {
    type V = TargetView;

    open spec fn view(&self) -> TargetView {
        TargetView { url: self.url@, parts: self.parts@ }
    }
}

/// The view of a joined URL.
pub open spec fn join_result(r: Result<Target, String>) -> Result<TargetView, Seq<char>> {
    match r {
        Ok(target) => Ok(target@),
        Err(error) => Err(error@),
    }
}

/// A route of the control service: a relative reference that begins with a name.
pub open spec fn service_route(route: Seq<char>) -> bool {
    route.len() >= 3 && route[0] == 'v' && route[1] == '1' && route[2] == '/'
}

/// A joined URL has the scheme and the host of an HTTP base.
pub open spec fn keeps_origin(r: Result<Target, String>, base: Result<UrlView, Seq<char>>) -> bool {
    r is Ok && base is Ok && base->Ok_0.scheme == "http"@ ==> r->Ok_0.parts@ == base->Ok_0
}

/// The parts of the URL that a text spells, or what is wrong with it.
pub uninterp spec fn url_parsed(raw: Seq<char>) -> Result<UrlView, Seq<char>>;

/// The URL of a service on a port of the loopback address.
pub open spec fn loopback_url(port: u16) -> Seq<char> {
    "http://"@ + ("127.0.0.1:"@ + decimal(port as nat))
}

/// A text that is the URL of a service on a port of the loopback address.
pub open spec fn plain_loopback(raw: Seq<char>) -> bool {
    exists|port: u16| raw == #[trigger] loopback_url(port)
}

/// The parts of a URL of a service on the loopback address.
pub open spec fn loopback_parts(r: Result<UrlParts, String>) -> bool {
    &&& r is Ok
    &&& r->Ok_0.scheme@ == "http"@
    &&& opt_text(r->Ok_0.host) == Some("127.0.0.1"@)
}

/// `reqwest::Url::parse`, with the URL's `scheme` and `host_str`. HTTP on the address
/// 127.0.0.1 and a port is a URL, with that scheme and that host; what other texts
/// give is not said here.
#[verifier::external_body]
pub(crate) fn parse_url(raw: &str) -> (r: Result<UrlParts, String>)
    ensures
        url_result(r) == url_parsed(raw@),
        plain_loopback(raw@) ==> loopback_parts(r),
{
    match reqwest::Url::parse(raw) {
        Ok(url) => Ok(
            UrlParts {
                scheme: url.scheme().to_owned(),
                host: url.host_str().map(|host: &str| host.to_owned()),
            },
        ),
        Err(error) => Err(error.to_string()),
    }
}

/// The URL that a reference has relative to a base, or what is wrong with it.
pub uninterp spec fn url_joined(base: Seq<char>, route: Seq<char>) -> Result<TargetView, Seq<char>>;

/// `reqwest::Url::join` on the URL that the base spells, with the `scheme` and the
/// `host_str` of the URL that comes out. A reference that begins with a name and a
/// slash has no scheme and no host of its own: it is a path below the base, and the
/// scheme and the host stay those of the base.
#[verifier::external_body]
pub(crate) fn join_url(base: &str, route: &str) -> (r: Result<Target, String>)
    ensures
        join_result(r) == url_joined(base@, route@),
        service_route(route@) ==> keeps_origin(r, url_parsed(base@)),
{
    match reqwest::Url::parse(base).and_then(|base: reqwest::Url| base.join(route)) {
        Ok(url) => {
            let host = url.host_str().map(|host: &str| host.to_owned());
            let parts = UrlParts { scheme: url.scheme().to_owned(), host };
            Ok(Target { url: url.to_string(), parts })
        },
        Err(error) => Err(error.to_string()),
    }
}

/// A URL of a service on this machine, reached without leaving it.
pub open spec fn on_loopback(url: UrlView) -> bool {
    &&& url.scheme == "http"@
    &&& url.host == Some("127.0.0.1"@) || url.host == Some("::1"@) || url.host == Some("[::1]"@)
}

/// Whether the parts of a URL are those of a service on this machine.
pub fn is_loopback(url: &UrlParts) -> (r: bool)
    ensures
        r == on_loopback(url@),
{
    if !same_text(url.scheme.as_str(), "http") {
        return false;
    }
    match &url.host {
        Some(host) => same_text(host.as_str(), "127.0.0.1") || same_text(host.as_str(), "::1")
            || same_text(host.as_str(), "[::1]"),
        None => false,
    }
}

/// What is wrong with the URL of a control service, if anything.
pub open spec fn url_fault(parsed: Result<UrlView, Seq<char>>) -> Option<CliFault> {
    match parsed {
        Err(error) => Some(CliFault::Other("invalid desktop control URL: "@ + error)),
        Ok(url) => if on_loopback(url) {
            None
        } else {
            Some(CliFault::Auth("desktop control URL must use HTTP on loopback"@))
        },
    }
}

/// What a parsed URL of a control service is worth.
pub fn loopback_verdict(parsed: Result<UrlParts, String>) -> (r: Result<UrlParts, CliError>)
    ensures
        match r {
            Ok(url) => url_fault(url_result(parsed)) is None && url_result(parsed) == Ok::<
                UrlView,
                Seq<char>,
            >(url@),
            Err(error) => url_fault(url_result(parsed)) == Some(error@),
        },
{
    match parsed {
        Err(error) => Err(
            CliError::Other(cat2("invalid desktop control URL: ", error.as_str())),
        ),
        Ok(url) => {
            if is_loopback(&url) {
                Ok(url)
            } else {
                Err(CliError::Auth("desktop control URL must use HTTP on loopback".to_owned()))
            }
        },
    }
}

/// The URL of a control service must be HTTP on a loopback address.
pub fn validate_loopback_url(raw: &str) -> (r: Result<UrlParts, CliError>)
    ensures
        match r {
            Ok(url) => url_fault(url_parsed(raw@)) is None && url_parsed(raw@) == Ok::<
                UrlView,
                Seq<char>,
            >(url@),
            Err(error) => url_fault(url_parsed(raw@)) == Some(error@),
        },
        plain_loopback(raw@) ==> r is Ok,
{
    loopback_verdict(parse_url(raw))
}

/// How to reach the control service.
#[derive(Debug, PartialEq)]
pub struct ControlDescriptor {
    pub schema_version: u8,
    pub url: String,
    pub token: String,
}

/// What is wrong with a descriptor whose URL was parsed, if anything.
pub open spec fn descriptor_fault(
    descriptor: ControlDescriptor,
    parsed: Result<UrlView, Seq<char>>,
) -> Option<CliFault> {
    if descriptor.schema_version != SCHEMA_VERSION {
        Some(
            CliFault::Other(
                "unsupported Buzz Desktop control schema "@ + decimal(
                    descriptor.schema_version as nat,
                ),
            ),
        )
    } else if url_fault(parsed) is Some {
        url_fault(parsed)
    } else if encode_utf8(descriptor.token@).len() < MIN_TOKEN_BYTES {
        Some(CliFault::Auth("Buzz Desktop control descriptor contains an invalid token"@))
    } else {
        None
    }
}

/// Which descriptor is trusted, given what parsing its URL gave.
pub fn descriptor_verdict(
    descriptor: &ControlDescriptor,
    parsed: Result<UrlParts, String>,
) -> (r: Result<(), CliError>)
    ensures
        match r {
            Ok(_) => descriptor_fault(*descriptor, url_result(parsed)) is None,
            Err(error) => descriptor_fault(*descriptor, url_result(parsed)) == Some(error@),
        },
{
    if descriptor.schema_version != SCHEMA_VERSION {
        let version = decimal_text(descriptor.schema_version as u64);
        return Err(
            CliError::Other(
                cat2("unsupported Buzz Desktop control schema ", version.as_str()),
            ),
        );
    }
    match loopback_verdict(parsed) {
        Err(error) => return Err(error),
        Ok(_) => {},
    }
    let length: usize = descriptor.token.as_str().as_bytes().len();
    if length < MIN_TOKEN_BYTES {
        return Err(
            CliError::Auth(
                "Buzz Desktop control descriptor contains an invalid token".to_owned(),
            ),
        );
    }
    Ok(())
}

/// A descriptor of a service on a port of the loopback address, of the known version
/// and with a token that is long enough.
pub open spec fn sound_descriptor(descriptor: ControlDescriptor) -> bool {
    &&& descriptor.schema_version == SCHEMA_VERSION
    &&& plain_loopback(descriptor.url@)
    &&& encode_utf8(descriptor.token@).len() >= MIN_TOKEN_BYTES
}

/// A descriptor is trusted where its version is known, its URL is that of a service
/// on this machine and its token is long enough.
pub fn check_descriptor(descriptor: &ControlDescriptor) -> (r: Result<(), CliError>)
    ensures
        match r {
            Ok(_) => descriptor_fault(*descriptor, url_parsed(descriptor.url@)) is None,
            Err(error) => descriptor_fault(*descriptor, url_parsed(descriptor.url@)) == Some(
                error@,
            ),
        },
        sound_descriptor(*descriptor) ==> r is Ok,
{
    descriptor_verdict(descriptor, parse_url(descriptor.url.as_str()))
}

/// Where a request goes, given what parsing the base and joining the route gave.
pub open spec fn target_of(
    parsed: Result<UrlView, Seq<char>>,
    joined: Result<TargetView, Seq<char>>,
) -> Result<TargetView, CliFault> {
    match url_fault(parsed) {
        Some(fault) => Err(fault),
        None => match joined {
            Ok(target) => Ok(target),
            Err(error) => Err(CliFault::Other("build desktop control URL: "@ + error)),
        },
    }
}

/// The view of where a request goes.
pub open spec fn target_view(r: Result<Target, CliError>) -> Result<TargetView, CliFault> {
    match r {
        Ok(target) => Ok(target@),
        Err(error) => Err(error@),
    }
}

/// Where a request goes, given what parsing the base and joining the route gave.
pub fn target_verdict(parsed: Result<UrlParts, String>, joined: Result<Target, String>) -> (r:
    Result<Target, CliError>)
    ensures
        target_view(r) == target_of(url_result(parsed), join_result(joined)),
{
    match loopback_verdict(parsed) {
        Err(error) => Err(error),
        Ok(_) => match joined {
            Ok(target) => Ok(target),
            Err(error) => Err(
                CliError::Other(cat2("build desktop control URL: ", error.as_str())),
            ),
        },
    }
}

/// Where a request to a route of the service at a base URL goes. A request to a
/// route of the service never leaves the machine.
pub fn request_url(base: &str, route: &str) -> (r: Result<Target, CliError>)
    ensures
        target_view(r) == target_of(url_parsed(base@), url_joined(base@, route@)),
        service_route(route@) && r is Ok ==> on_loopback(r->Ok_0.parts@),
{
    let parsed = parse_url(base);
    let joined = join_url(base, route);
    target_verdict(parsed, joined)
}

/// How a request is made.
#[derive(Debug, PartialEq, Eq, Clone, Copy, Structural)]
pub enum Method {
    Get,
    Post,
    Delete,
}

/// A request to the control service.
#[derive(Debug, PartialEq)]
pub struct ControlRequest {
    pub method: Method,
    pub route: String,
    pub body: Option<Json>,
}

/// What a [`ControlRequest`] says.
pub struct RequestView {
    pub method: Method,
    pub route: Seq<char>,
    pub body: Option<JsonTree>,
}

impl View for ControlRequest {
    type V = RequestView;

    open spec fn view(&self) -> RequestView {
        RequestView {
            method: self.method,
            route: self.route@,
            body: match self.body {
                Some(body) => Some(body@),
                None => None,
            },
        }
    }
}

/// A request that is ready to be sent: where to, with which token and which text.
#[derive(Debug, PartialEq)]
pub struct Outgoing {
    pub method: Method,
    pub target: Target,
    pub token: String,
    pub body: Option<String>,
}

/// What an [`Outgoing`] says.
pub struct OutgoingView {
    pub method: Method,
    pub target: TargetView,
    pub token: Seq<char>,
    pub body: Option<Seq<char>>,
}

impl View for Outgoing {
    type V = OutgoingView;

    open spec fn view(&self) -> OutgoingView {
        OutgoingView {
            method: self.method,
            target: self.target@,
            token: self.token@,
            body: opt_text(self.body),
        }
    }
}

/// The view of a request that was made ready.
pub open spec fn outgoing_view(r: Result<Outgoing, CliError>) -> Result<OutgoingView, CliFault> {
    match r {
        Ok(outgoing) => Ok(outgoing@),
        Err(error) => Err(error@),
    }
}

/// What is sent for a request to the service of a descriptor, given what parsing its
/// URL and joining the route gave.
pub open spec fn outgoing_of(
    descriptor: ControlDescriptor,
    request: RequestView,
    parsed: Result<UrlView, Seq<char>>,
    joined: Result<TargetView, Seq<char>>,
) -> Result<OutgoingView, CliFault> {
    match descriptor_fault(descriptor, parsed) {
        Some(fault) => Err(fault),
        None => match target_of(parsed, joined) {
            Err(fault) => Err(fault),
            Ok(target) => Ok(
                OutgoingView {
                    method: request.method,
                    target,
                    token: descriptor.token@,
                    body: match request.body {
                        Some(body) => Some(json_text(body)),
                        None => None,
                    },
                },
            ),
        },
    }
}

/// Makes a request to the service of a descriptor ready. Only a descriptor that is
/// trusted is used, and the token of a request to a route of the service goes to
/// this machine alone.
pub fn prepare(descriptor: ControlDescriptor, request: &ControlRequest) -> (r: Result<
    Outgoing,
    CliError,
>)
    ensures
        outgoing_view(r) == outgoing_of(
            descriptor,
            request@,
            url_parsed(descriptor.url@),
            url_joined(descriptor.url@, request.route@),
        ),
        service_route(request.route@) && r is Ok ==> on_loopback(r->Ok_0.target.parts@),
{
    match check_descriptor(&descriptor) {
        Err(error) => return Err(error),
        Ok(_) => {},
    }
    match request_url(descriptor.url.as_str(), request.route.as_str()) {
        Err(error) => Err(error),
        Ok(target) => {
            let body = match &request.body {
                Some(body) => Some(encode(body)),
                None => None,
            };
            Ok(Outgoing { method: request.method, target, token: descriptor.token, body })
        },
    }
}

/// What the response to a request means, given what parsing its text gave.
pub open spec fn response_of(
    status: u16,
    text: Seq<char>,
    parsed: Result<JsonTree, Seq<char>>,
) -> Result<JsonTree, CliFault> {
    if 200 <= status < 300 {
        match parsed {
            Ok(value) => Ok(value),
            Err(error) => Err(CliFault::Other("invalid desktop control response: "@ + error)),
        }
    } else {
        Err(CliFault::Relay { status, body: text })
    }
}

/// The view of a response.
pub open spec fn reply_view(r: Result<Json, CliError>) -> Result<JsonTree, CliFault> {
    match r {
        Ok(value) => Ok(value@),
        Err(error) => Err(error@),
    }
}

/// What the response to a request means, given what reading its text as JSON gave.
pub fn response_verdict(status: u16, text: &str, parsed: Result<Json, String>) -> (r: Result<
    Json,
    CliError,
>)
    ensures
        reply_view(r) == response_of(status, text@, decoded(parsed)),
{
    if !(200 <= status && status < 300) {
        return Err(CliError::Relay { status, body: text.to_owned() });
    }
    match parsed {
        Ok(value) => Ok(value),
        Err(error) => Err(
            CliError::Other(cat2("invalid desktop control response: ", error.as_str())),
        ),
    }
}

/// The value that a response holds; an error where the service refused or did not
/// answer in JSON.
pub fn response_value(status: u16, text: &str) -> (r: Result<Json, CliError>)
    ensures
        reply_view(r) == response_of(status, text@, json_parsed(encode_utf8(text@))),
{
    response_verdict(status, text, decode(text.as_bytes()))
}

/// A descriptor that is trusted names a service on this machine, speaks the known
/// version and carries a long token: whatever else it holds, nothing is sent off the
/// machine.
pub proof fn trusted_descriptor_is_on_loopback(
    descriptor: ControlDescriptor,
    parsed: Result<UrlView, Seq<char>>,
)
    ensures
        descriptor_fault(descriptor, parsed) is None <==> {
            &&& descriptor.schema_version == SCHEMA_VERSION
            &&& parsed is Ok
            &&& on_loopback(parsed->Ok_0)
            &&& encode_utf8(descriptor.token@).len() >= MIN_TOKEN_BYTES
        },
{
}

/// A response is taken where its status is that of a success and its text is JSON: then it
/// is the value that the text spells. Any other status is a refusal, which is passed on with
/// its text; text that is not JSON is an error.
pub proof fn only_successes_are_taken(
    status: u16,
    text: Seq<char>,
    parsed: Result<JsonTree, Seq<char>>,
)
    ensures
        200 <= status <= 299 ==> match parsed {
            Ok(value) => response_of(status, text, parsed) == Ok::<JsonTree, CliFault>(value),
            Err(error) => response_of(status, text, parsed) == Err::<JsonTree, CliFault>(
                CliFault::Other("invalid desktop control response: "@ + error),
            ),
        },
        status < 200 || status > 299 ==> response_of(status, text, parsed) == Err::<
            JsonTree,
            CliFault,
        >(CliFault::Relay { status, body: text }),
{
}

/// The URL of a service on this machine has the scheme `http` and a loopback address, of
/// either version, as its host. Any other URL is not trusted, and what is no URL is wrong.
pub proof fn only_loopback_urls_are_trusted(url: UrlView, error: Seq<char>)
    ensures
        on_loopback(url) <==> url.scheme == "http"@ && url.host is Some && seq![
            "127.0.0.1"@,
            "::1"@,
            "[::1]"@,
        ].contains(url.host->0),
        on_loopback(url) <==> url_fault(Ok(url)) is None,
        !on_loopback(url) ==> url_fault(Ok(url)) == Some(
            CliFault::Auth("desktop control URL must use HTTP on loopback"@),
        ),
        url_fault(Err(error)) == Some(CliFault::Other("invalid desktop control URL: "@ + error)),
{
    let hosts = seq!["127.0.0.1"@, "::1"@, "[::1]"@];
    assert(hosts[0] == "127.0.0.1"@ && hosts[1] == "::1"@ && hosts[2] == "[::1]"@);
}

/// What is wrong with a descriptor is told, the version before the URL, and the URL before
/// the token.
pub proof fn descriptor_faults_are_told_in_order(
    descriptor: ControlDescriptor,
    parsed: Result<UrlView, Seq<char>>,
)
    ensures
        descriptor.schema_version != 1 ==> descriptor_fault(descriptor, parsed) == Some(
            CliFault::Other(
                "unsupported Buzz Desktop control schema "@ + decimal(
                    descriptor.schema_version as nat,
                ),
            ),
        ),
        descriptor.schema_version == 1 && url_fault(parsed) is Some ==> descriptor_fault(
            descriptor,
            parsed,
        ) == url_fault(parsed),
        descriptor.schema_version == 1 && url_fault(parsed) is None ==> (descriptor_fault(
            descriptor,
            parsed,
        ) is Some <==> encode_utf8(descriptor.token@).len() < 32),
        descriptor.schema_version == 1 && url_fault(parsed) is None && encode_utf8(
            descriptor.token@,
        ).len() < 32 ==> descriptor_fault(descriptor, parsed) == Some(
            CliFault::Auth("Buzz Desktop control descriptor contains an invalid token"@),
        ),
{
}

/// What is sent is the request, to where its route leads from the URL of the descriptor, with
/// the token of the descriptor and with the text of the request's own body. Nothing is sent
/// for a descriptor that is not trusted, or where the route leads nowhere.
pub proof fn requests_are_sent_as_they_are(
    descriptor: ControlDescriptor,
    request: RequestView,
    parsed: Result<UrlView, Seq<char>>,
    joined: Result<TargetView, Seq<char>>,
)
    ensures
        match outgoing_of(descriptor, request, parsed, joined) {
            Ok(outgoing) => {
                &&& descriptor_fault(descriptor, parsed) is None
                &&& joined == Ok::<TargetView, Seq<char>>(outgoing.target)
                &&& outgoing.method == request.method
                &&& outgoing.token == descriptor.token@
                &&& outgoing.body is Some <==> request.body is Some
                &&& request.body is Some ==> outgoing.body == Some(json_text(request.body->0))
            },
            Err(fault) => if descriptor_fault(descriptor, parsed) is Some {
                descriptor_fault(descriptor, parsed) == Some(fault)
            } else {
                joined matches Err(error) && fault == CliFault::Other(
                    "build desktop control URL: "@ + error,
                )
            },
        },
        descriptor_fault(descriptor, parsed) is None && joined is Ok ==> outgoing_of(
            descriptor,
            request,
            parsed,
            joined,
        ) is Ok,
{
}

/// A route goes somewhere only from a URL on this machine, and then to where it leads.
pub proof fn targets_start_from_this_machine(
    parsed: Result<UrlView, Seq<char>>,
    joined: Result<TargetView, Seq<char>>,
)
    ensures
        match target_of(parsed, joined) {
            Ok(target) => {
                &&& parsed matches Ok(url) && on_loopback(url)
                &&& joined == Ok::<TargetView, Seq<char>>(target)
            },
            Err(fault) => if url_fault(parsed) is Some {
                url_fault(parsed) == Some(fault)
            } else {
                joined matches Err(error) && fault == CliFault::Other(
                    "build desktop control URL: "@ + error,
                )
            },
        },
{
}

/// The routes of the service are those that begin with its version.
pub proof fn service_routes_begin_with_the_version(route: Seq<char>)
    ensures
        service_route(route) <==> "v1/"@.is_prefix_of(route),
{
    reveal_strlit("v1/");
    if service_route(route) {
        assert(route.subrange(0, 3) =~= "v1/"@);
    }
    if "v1/"@.is_prefix_of(route) {
        assert(route.subrange(0, 3)[0] == route[0] && route.subrange(0, 3)[1] == route[1]
            && route.subrange(0, 3)[2] == route[2]);
    }
}

/// The descriptor is a file of this name, in the directory of the app.
pub proof fn descriptor_has_its_place()
    ensures
        bundle_identifier() == "xyz.block.buzz.app"@,
        descriptor_file() == "desktop-control.json"@,
{
}

/// What the client says and hears is seen as it is.
pub proof fn exchanges_are_seen_as_they_are(
    error: CliError,
    parts: UrlParts,
    target: Target,
    request: ControlRequest,
    outgoing: Outgoing,
)
    ensures
        match error {
            CliError::Other(message) => error@ == CliFault::Other(message@),
            CliError::NotFound(message) => error@ == CliFault::NotFound(message@),
            CliError::Auth(message) => error@ == CliFault::Auth(message@),
            CliError::Usage(message) => error@ == CliFault::Usage(message@),
            CliError::Relay { status, body } => error@ == (CliFault::Relay { status, body: body@ }),
            CliError::Transport(message) => error@ == CliFault::Transport(message@),
        },
        parts@.scheme == parts.scheme@,
        parts@.host == opt_text(parts.host),
        target@.url == target.url@,
        target@.parts == target.parts@,
        request@.method == request.method,
        request@.route == request.route@,
        request@.body is Some <==> request.body is Some,
        request.body is Some ==> request@.body == Some(request.body->0@),
        outgoing@.method == outgoing.method,
        outgoing@.target == outgoing.target@,
        outgoing@.token == outgoing.token@,
        outgoing@.body == opt_text(outgoing.body),
{
}

/// What came of a question is seen as it is: its error, or what was found.
pub proof fn results_are_seen_as_they_are(
    parsed: Result<UrlParts, String>,
    joined: Result<Target, String>,
    target: Result<Target, CliError>,
    ready: Result<Outgoing, CliError>,
    reply: Result<Json, CliError>,
)
    ensures
        match parsed {
            Ok(parts) => url_result(parsed) == Ok::<UrlView, Seq<char>>(parts@),
            Err(error) => url_result(parsed) == Err::<UrlView, Seq<char>>(error@),
        },
        match joined {
            Ok(target) => join_result(joined) == Ok::<TargetView, Seq<char>>(target@),
            Err(error) => join_result(joined) == Err::<TargetView, Seq<char>>(error@),
        },
        match target {
            Ok(found) => target_view(target) == Ok::<TargetView, CliFault>(found@),
            Err(error) => target_view(target) == Err::<TargetView, CliFault>(error@),
        },
        match ready {
            Ok(outgoing) => outgoing_view(ready) == Ok::<OutgoingView, CliFault>(outgoing@),
            Err(error) => outgoing_view(ready) == Err::<OutgoingView, CliFault>(error@),
        },
        match reply {
            Ok(value) => reply_view(reply) == Ok::<JsonTree, CliFault>(value@),
            Err(error) => reply_view(reply) == Err::<JsonTree, CliFault>(error@),
        },
{
}

/// The descriptor is where it is said to be, and else below the data directory of the
/// platform, in the directory of the app; where that is not known either, it is nowhere.
pub proof fn descriptors_are_looked_for<P>(
    override_path: Option<P>,
    data_dir: Option<P>,
    r: Result<DescriptorPlace<P>, CliError>,
)
    requires
        call_ensures(resolve_descriptor_path::<P>, (override_path, data_dir), r),
    ensures
        override_path matches Some(path) ==> r == Ok::<DescriptorPlace<P>, CliError>(
            DescriptorPlace::Given(path),
        ),
        override_path is None && data_dir is Some ==> (r matches Ok(
            DescriptorPlace::Below { dir, bundle, file },
        ) && Some(dir) == data_dir && bundle@ == "xyz.block.buzz.app"@ && file@
            == "desktop-control.json"@),
        override_path is None && data_dir is None ==> r is Err && r->Err_0@ == CliFault::Other(
            "could not resolve platform app-data directory"@,
        ),
{
}

/// A descriptor that cannot be read, or not understood, is named, with why.
pub proof fn missing_descriptors_are_named(
    path: &str,
    error: &str,
    unavailable: CliError,
    malformed: CliError,
)
    requires
        call_ensures(descriptor_unavailable, (path, error), unavailable),
        call_ensures(descriptor_malformed, (path, error), malformed),
    ensures
        unavailable@ == CliFault::NotFound(
            "Buzz Desktop control service is unavailable at "@ + path@ + ": "@ + error@
                + "; start Buzz Desktop first"@,
        ),
        malformed@ == CliFault::Other(
            "invalid Buzz Desktop control descriptor at "@ + path@ + ": "@ + error@,
        ),
{
}

/// What is made ready is the request itself, with the token of the descriptor, for the place
/// to which its route leads from the descriptor's URL. A request to a route of the service
/// goes to this machine.
pub proof fn prepared_requests_stay_on_this_machine(
    descriptor: ControlDescriptor,
    request: &ControlRequest,
    r: Result<Outgoing, CliError>,
)
    requires
        call_ensures(prepare, (descriptor, request), r),
    ensures
        r matches Ok(outgoing) ==> {
            &&& outgoing.method == request.method
            &&& outgoing.token@ == descriptor.token@
            &&& outgoing.body is Some <==> request.body is Some
            &&& request.body is Some ==> outgoing.body->0@ == json_text(request.body->0@)
            &&& url_joined(descriptor.url@, request.route@) == Ok::<TargetView, Seq<char>>(
                outgoing.target@,
            )
            &&& descriptor.schema_version == 1
            &&& encode_utf8(descriptor.token@).len() >= 32
            &&& service_route(request.route@) ==> on_loopback(outgoing.target.parts@)
        },
        r is Ok <==> descriptor_fault(descriptor, url_parsed(descriptor.url@)) is None
            && url_joined(descriptor.url@, request.route@) is Ok,
{
    requests_are_sent_as_they_are(
        descriptor,
        request@,
        url_parsed(descriptor.url@),
        url_joined(descriptor.url@, request.route@),
    );
}

/// The value of a response is the one that its text spells, where its status is that of a
/// success.
pub proof fn responses_are_their_text(status: u16, text: &str, r: Result<Json, CliError>)
    requires
        call_ensures(response_value, (status, text), r),
    ensures
        r is Ok <==> 200 <= status <= 299 && json_parsed(encode_utf8(text@)) is Ok,
        r matches Ok(value) ==> json_parsed(encode_utf8(text@)) == Ok::<JsonTree, Seq<char>>(
            value@,
        ),
        !(200 <= status <= 299) ==> r->Err_0@ == (CliFault::Relay { status, body: text@ }),
{
}

} // verus!
