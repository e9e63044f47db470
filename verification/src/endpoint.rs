//! The update server's addresses, and the request that checks for an update.

use vstd::prelude::*;

use crate::failure::{outcome, ErrorView, Failure, UpdateError};
use crate::platform::{
    known_channel, law_channel, law_platform_name, law_platform_names_differ, platform_name,
    update_channel, update_platform,
};
use crate::text::joined;

verus! {

/// Where the newest version is announced.
pub const UPDATE_SERVER_LATEST_URL: &'static str = "https://update.axlmc.org/latest";

/// The catalog of all published versions.
pub const UPDATE_SERVER_API: &'static str = "https://update.axlmc.org/api/versions";

/// What the catalog's relative paths are appended to.
pub const UPDATE_SERVER_BASE: &'static str = "https://update.axlmc.org/";

/// How long a whole request may take, in seconds: a stalled connection would
/// otherwise hang the download forever.
pub const UPDATE_DOWNLOAD_TIMEOUT_SECS: u64 = 15 * 60;

/// What `Url::parse` makes of a text: the serialised URL, or the error's message.
pub uninterp spec fn parsed_url(text: Seq<char>) -> Result<Seq<char>, Seq<char>>;

/// The characters of a text, or of an error message.
pub open spec fn text_result(res: Result<String, String>) -> Result<Seq<char>, Seq<char>> {
    match res {
        Ok(text) => Ok(text@),
        Err(error) => Err(error@),
    }
}

/// The text lies below the update server's address: scheme `https`, the server's
/// host, its default port, and a path.
pub open spec fn on_server(text: Seq<char>) -> bool {
    UPDATE_SERVER_BASE@.is_prefix_of(text)
}

/// Whatever is appended to the server's address, the text lies below it.
pub proof fn law_appended_path_is_on_server(path: Seq<char>)
    ensures
        on_server(UPDATE_SERVER_BASE@ + path),
{
    assert(UPDATE_SERVER_BASE@ =~= (UPDATE_SERVER_BASE@ + path).subrange(
        0,
        UPDATE_SERVER_BASE@.len() as int,
    ));
}

/// `url::Url::parse`. The URL comes back in its serialised form, an error as the
/// message that it displays; both depend on the text alone. A text below the
/// server's address gives a URL below it: the authority ends at the address's own
/// slash, which no `..` in the path removes.
#[verifier::external_body]
pub(crate) fn parse_url(text: &str) -> (res: Result<String, String>)
    ensures
        text_result(res) == parsed_url(text@),
        on_server(text@) ==> (res matches Ok(url) ==> on_server(url@)),
{
    match url::Url::parse(text) {
        Ok(url) => Ok(String::from(url)),
        Err(error) => Err(error.to_string()),
    }
}

/// A parsed URL, or the failure that tells the parser's message.
pub open spec fn url_or_failure(
    parsed: Result<Seq<char>, Seq<char>>,
) -> Result<Seq<char>, ErrorView> {
    match parsed {
        Ok(url) => Ok(url),
        Err(error) => Err(Failure::InvalidUrl { error }),
    }
}

/// A parsed URL, or the failure that tells the parser's message.
pub fn valid_url(parsed: Result<String, String>) -> (res: Result<String, UpdateError>)
    ensures
        outcome(res) == url_or_failure(text_result(parsed)),
{
    match parsed {
        Ok(url) => Ok(url),
        Err(error) => Err(Failure::InvalidUrl { error }),
    }
}

/// The URL that announces the newest version.
pub fn update_endpoint() -> (res: Result<String, UpdateError>)
    ensures
        outcome(res) == url_or_failure(parsed_url(UPDATE_SERVER_LATEST_URL@)),
        res matches Ok(url) ==> on_server(url@),
{
    proof {
        reveal_strlit("https://update.axlmc.org/latest");
        reveal_strlit("https://update.axlmc.org/");
        assert(on_server(UPDATE_SERVER_LATEST_URL@));
    }
    valid_url(parse_url(UPDATE_SERVER_LATEST_URL))
}

/// A header of the check request.
#[derive(Debug, PartialEq, Eq)]
pub struct HeaderField {
    pub name: String,
    pub value: String,
}

impl View for HeaderField {
    type V = (Seq<char>, Seq<char>);

    open spec fn view(&self) -> (Seq<char>, Seq<char>) {
        (self.name@, self.value@)
    }
}

fn header_field(name: &str, value: &str) -> (res: HeaderField)
    ensures
        res@ == (name@, value@),
{
    HeaderField { name: name.to_owned(), value: value.to_owned() }
}

/// A request to the update server: is there a newer version?
#[derive(Debug, PartialEq, Eq)]
pub struct CheckRequest {
    /// The only endpoint that is asked.
    pub endpoint: String,
    /// The headers, in the order in which they are set.
    pub headers: Vec<HeaderField>,
}

/// A check request as contracts speak of it.
#[verifier::ext_equal]
pub struct CheckRequestView {
    pub endpoint: Seq<char>,
    pub headers: Seq<(Seq<char>, Seq<char>)>,
}

impl View for CheckRequest {
    type V = CheckRequestView;

    open spec fn view(&self) -> CheckRequestView {
        CheckRequestView {
            endpoint: self.endpoint@,
            headers: self.headers@.map_values(|field: HeaderField| field@),
        }
    }
}

/// The headers that tell the server who asks.
pub open spec fn check_headers(
    channel: Seq<char>,
    platform: Seq<char>,
    current_version: Seq<char>,
) -> Seq<(Seq<char>, Seq<char>)> {
    seq![
        ("Accept"@, "application/json"@),
        ("X-Axolotl-Channel"@, channel),
        ("X-Axolotl-Platform"@, platform),
        ("X-Axolotl-Version"@, current_version),
    ]
}

/// The check request: refused for an unknown channel first, then for a platform
/// without updates, then for an endpoint that does not parse.
pub open spec fn check_request_of(
    channel: Seq<char>,
    os: Seq<char>,
    arch: Seq<char>,
    current_version: Seq<char>,
    endpoint: Result<Seq<char>, ErrorView>,
) -> Result<CheckRequestView, ErrorView> {
    match (known_channel(channel), platform_name(os, arch), endpoint) {
        (Err(error), _, _) => Err(error),
        (Ok(_), Err(error), _) => Err(error),
        (Ok(_), Ok(_), Err(error)) => Err(error),
        (Ok(channel), Ok(platform), Ok(endpoint)) => Ok(
            CheckRequestView {
                endpoint,
                headers: check_headers(channel, platform, current_version),
            },
        ),
    }
}

/// The check request to a given endpoint.
pub fn check_request_to(
    channel: &str,
    os: &str,
    arch: &str,
    current_version: &str,
    endpoint: Result<String, UpdateError>,
) -> (res: Result<CheckRequest, UpdateError>)
    ensures
        outcome(res) == check_request_of(
            channel@,
            os@,
            arch@,
            current_version@,
            outcome(endpoint),
        ),
{
    let channel = match update_channel(channel) {
        Ok(channel) => channel,
        Err(error) => return Err(error),
    };
    let platform = match update_platform(os, arch) {
        Ok(platform) => platform,
        Err(error) => return Err(error),
    };
    let endpoint = match endpoint {
        Ok(endpoint) => endpoint,
        Err(error) => return Err(error),
    };
    let mut headers: Vec<HeaderField> = Vec::new();
    headers.push(header_field("Accept", "application/json"));
    headers.push(header_field("X-Axolotl-Channel", channel));
    headers.push(header_field("X-Axolotl-Platform", platform));
    headers.push(header_field("X-Axolotl-Version", current_version));
    let request = CheckRequest { endpoint, headers };
    assert(request@.headers =~= check_headers(channel@, platform@, current_version@));
    Ok(request)
}

/// The check request to the update server.
pub open spec fn check_request(
    channel: Seq<char>,
    os: Seq<char>,
    arch: Seq<char>,
    current_version: Seq<char>,
) -> Result<CheckRequestView, ErrorView> {
    check_request_of(
        channel,
        os,
        arch,
        current_version,
        url_or_failure(parsed_url(UPDATE_SERVER_LATEST_URL@)),
    )
}

/// The request that asks the update server for a newer version than the current
/// one, on a channel and for a platform.
pub fn check_with_endpoints(channel: &str, os: &str, arch: &str, current_version: &str) -> (res:
    Result<CheckRequest, UpdateError>)
    ensures
        outcome(res) == check_request(channel@, os@, arch@, current_version@),
        res matches Ok(request) ==> on_server(request@.endpoint),
{
    check_request_to(channel, os, arch, current_version, update_endpoint())
}

/// What is known of the directory of the running executable.
#[derive(Debug, PartialEq, Eq)]
pub enum ExecutableDir {
    /// The executable's path could not be had, for this reason.
    Unresolved(String),
    /// The path has no parent.
    NoParent,
    /// The directory.
    Found(String),
}

/// The installer argument for the directory of the running executable.
pub open spec fn install_dir_arg(dir: ExecutableDir) -> Result<Seq<char>, ErrorView> {
    match dir {
        ExecutableDir::Unresolved(error) => Err(Failure::UnresolvedExecutable { error: error@ }),
        ExecutableDir::NoParent => Err(Failure::ExecutableWithoutParent),
        ExecutableDir::Found(path) => Ok("/INSTALL_DIR=\""@ + path@ + "\""@),
    }
}

/// The argument that makes the Windows installer update the running executable's
/// own directory.
pub fn windows_installer_arg(dir: ExecutableDir) -> (res: Result<String, UpdateError>)
    ensures
        outcome(res) == install_dir_arg(dir),
{
    match dir {
        ExecutableDir::Unresolved(error) => Err(Failure::UnresolvedExecutable { error }),
        ExecutableDir::NoParent => Err(Failure::ExecutableWithoutParent),
        ExecutableDir::Found(path) => {
            let mut text = joined("/INSTALL_DIR=\"", path.as_str());
            text.append("\"");
            Ok(text)
        },
    }
}

/// A check request is refused exactly for an unknown channel, for a platform
/// without updates, or for an endpoint that failed.
pub proof fn law_check_request_granted(
    channel: Seq<char>,
    os: Seq<char>,
    arch: Seq<char>,
    current_version: Seq<char>,
    endpoint: Result<Seq<char>, ErrorView>,
)
    ensures
        check_request_of(channel, os, arch, current_version, endpoint) is Ok <==> known_channel(
            channel,
        ) is Ok && platform_name(os, arch) is Ok && endpoint is Ok,
{
}

/// A header of the name is there, and the value of every one is the given one.
pub open spec fn only_value(
    headers: Seq<(Seq<char>, Seq<char>)>,
    name: Seq<char>,
    value: Seq<char>,
) -> bool {
    &&& exists|i: int| 0 <= i < headers.len() && (#[trigger] headers[i]).0 == name
    &&& forall|i: int|
        0 <= i < headers.len() && (#[trigger] headers[i]).0 == name ==> headers[i].1 == value
}

/// A granted check request goes to the given endpoint. It tells the channel that was
/// asked for, the name of the given system and the current version, asks for JSON,
/// and has no other header.
pub proof fn law_granted_request_tells_its_arguments(
    channel: Seq<char>,
    os: Seq<char>,
    arch: Seq<char>,
    current_version: Seq<char>,
    endpoint: Result<Seq<char>, ErrorView>,
)
    requires
        check_request_of(channel, os, arch, current_version, endpoint) is Ok,
    ensures
        ({
            let request = check_request_of(channel, os, arch, current_version, endpoint)->Ok_0;
            &&& endpoint == Ok::<_, ErrorView>(request.endpoint)
            &&& only_value(request.headers, "X-Axolotl-Channel"@, channel)
            &&& only_value(
                request.headers,
                "X-Axolotl-Platform"@,
                (if os == "macos"@ {
                    "darwin"@
                } else {
                    os
                }) + "-"@ + arch,
            )
            &&& only_value(request.headers, "X-Axolotl-Version"@, current_version)
            &&& only_value(request.headers, "Accept"@, "application/json"@)
            &&& request.headers.len() == 4
        }),
{
    lemma_header_names_differ();
    law_platform_name(os, arch);
    let headers = check_request_of(channel, os, arch, current_version, endpoint)->Ok_0.headers;
    assert(headers[0].0 == "Accept"@);
    assert(headers[1].0 == "X-Axolotl-Channel"@);
    assert(headers[2].0 == "X-Axolotl-Platform"@);
    assert(headers[3].0 == "X-Axolotl-Version"@);
}

proof fn lemma_header_names_differ()
    ensures
        "Accept"@.len() == 6,
        "X-Axolotl-Channel"@.len() == 17,
        "X-Axolotl-Platform"@.len() == 18,
        "X-Axolotl-Version"@.len() == 17,
        "X-Axolotl-Channel"@ != "X-Axolotl-Version"@,
{
    reveal_strlit("Accept");
    reveal_strlit("X-Axolotl-Channel");
    reveal_strlit("X-Axolotl-Platform");
    reveal_strlit("X-Axolotl-Version");
    assert("X-Axolotl-Channel"@[10] == 'C' && "X-Axolotl-Version"@[10] == 'V');
}

/// Granted check requests that are the same were asked for the same channel, system,
/// version and endpoint.
pub proof fn law_different_checks_give_different_requests(
    first: (Seq<char>, Seq<char>, Seq<char>, Seq<char>),
    first_endpoint: Result<Seq<char>, ErrorView>,
    second: (Seq<char>, Seq<char>, Seq<char>, Seq<char>),
    second_endpoint: Result<Seq<char>, ErrorView>,
)
    requires
        check_request_of(first.0, first.1, first.2, first.3, first_endpoint) is Ok,
        check_request_of(first.0, first.1, first.2, first.3, first_endpoint) == check_request_of(
            second.0,
            second.1,
            second.2,
            second.3,
            second_endpoint,
        ),
    ensures
        first == second,
        first_endpoint == second_endpoint,
{
    let ours = check_request_of(first.0, first.1, first.2, first.3, first_endpoint)->Ok_0.headers;
    let theirs = check_request_of(
        second.0,
        second.1,
        second.2,
        second.3,
        second_endpoint,
    )->Ok_0.headers;
    assert(ours[1] == theirs[1]);
    assert(ours[2] == theirs[2]);
    assert(ours[3] == theirs[3]);
    law_platform_names_differ(first.1, first.2, second.1, second.2);
}

/// A refused check request tells the first thing that stood against it: a channel
/// that is neither of the two, quoted; else the system, quoted, where no updates are
/// published for it; else the failure of the endpoint.
pub proof fn law_check_request_refused(
    channel: Seq<char>,
    os: Seq<char>,
    arch: Seq<char>,
    current_version: Seq<char>,
    endpoint: Result<Seq<char>, ErrorView>,
)
    ensures
        ({
            let refusal = check_request_of(channel, os, arch, current_version, endpoint);
            let channel_known = channel == "release"@ || channel == "beta"@;
            let published = platform_name(os, arch) is Ok;
            &&& !channel_known ==> refusal == Err::<CheckRequestView, _>(
                Failure::UnknownChannel { channel },
            )
            &&& channel_known && !published ==> refusal == Err::<CheckRequestView, _>(
                Failure::UnsupportedPlatform { os, arch },
            )
            &&& channel_known && published ==> (endpoint matches Err(error) ==> refusal == Err::<
                CheckRequestView,
                _,
            >(error))
            &&& channel_known && published && endpoint is Ok ==> refusal is Ok
        }),
{
    law_channel(channel);
    law_platform_name(os, arch);
}

/// A URL that parsed is handed on as it is, and the parser's message is the only
/// failure.
pub proof fn law_parsed_url_is_handed_on(text: Seq<char>)
    ensures
        url_or_failure(Ok(text)) == Ok::<_, ErrorView>(text),
        url_or_failure(Err(text)) == Err::<Seq<char>, _>(Failure::InvalidUrl { error: text }),
{
}

/// Every address of the server lies below its base, and a request gets a quarter of
/// an hour.
pub proof fn law_addresses()
    ensures
        UPDATE_SERVER_BASE@ == "https://"@ + "update.axlmc.org"@ + "/"@,
        UPDATE_SERVER_LATEST_URL@ == UPDATE_SERVER_BASE@ + "latest"@,
        UPDATE_SERVER_API@ == UPDATE_SERVER_BASE@ + "api/versions"@,
        UPDATE_DOWNLOAD_TIMEOUT_SECS * 4 == 3600,
{
    reveal_strlit("https://");
    reveal_strlit("update.axlmc.org");
    reveal_strlit("/");
    reveal_strlit("latest");
    reveal_strlit("api/versions");
    reveal_strlit("https://update.axlmc.org/");
    reveal_strlit("https://update.axlmc.org/latest");
    reveal_strlit("https://update.axlmc.org/api/versions");
}

/// The installer argument holds the directory whole, between a pair of double quotes
/// that ends the argument; what stands before the directory is the same whatever the
/// directory. Without a directory there is no argument but the failure to find it.
pub proof fn law_install_dir_is_quoted(a: String, b: String)
    ensures
        ({
            let first = install_dir_arg(ExecutableDir::Found(a));
            let second = install_dir_arg(ExecutableDir::Found(b));
            &&& first is Ok && second is Ok
            &&& exists|lead: Seq<char>|
                #![trigger lead.last()]
                lead.len() > 0 && lead.last() == '"' && first->Ok_0 == lead + a@ + seq!['"']
                    && second->Ok_0 == lead + b@ + seq!['"']
        }),
        install_dir_arg(ExecutableDir::Unresolved(a)) == Err::<Seq<char>, _>(
            Failure::UnresolvedExecutable { error: a@ },
        ),
        install_dir_arg(ExecutableDir::NoParent) == Err::<Seq<char>, ErrorView>(
            Failure::ExecutableWithoutParent,
        ),
{
    reveal_strlit("/INSTALL_DIR=\"");
    reveal_strlit("\"");
    let lead = "/INSTALL_DIR=\""@;
    assert(lead.last() == '"');
    assert("\""@ =~= seq!['"']);
}

/// A check that is granted asks the server's address for the newest version, and
/// tells it the channel, the system and the version that it was asked with.
pub proof fn law_check_asks_the_server(
    channel: Seq<char>,
    os: Seq<char>,
    arch: Seq<char>,
    current_version: Seq<char>,
)
    requires
        check_request(channel, os, arch, current_version) is Ok,
    ensures
        ({
            let request = check_request(channel, os, arch, current_version)->Ok_0;
            &&& parsed_url("https://update.axlmc.org/latest"@) == Ok::<_, Seq<char>>(
                request.endpoint,
            )
            &&& only_value(request.headers, "X-Axolotl-Channel"@, channel)
            &&& platform_name(os, arch) is Ok
            &&& only_value(
                request.headers,
                "X-Axolotl-Platform"@,
                platform_name(os, arch)->Ok_0,
            )
            &&& only_value(request.headers, "X-Axolotl-Version"@, current_version)
        }),
{
    law_granted_request_tells_its_arguments(
        channel,
        os,
        arch,
        current_version,
        url_or_failure(parsed_url(UPDATE_SERVER_LATEST_URL@)),
    );
    law_platform_name(os, arch);
}

/// A check is granted wherever the channel is one of the two, updates are published
/// for the system, and the server's address parses.
pub proof fn law_check_is_granted(
    channel: Seq<char>,
    os: Seq<char>,
    arch: Seq<char>,
    current_version: Seq<char>,
)
    ensures
        check_request(channel, os, arch, current_version) is Ok <==> {
            &&& channel == "release"@ || channel == "beta"@
            &&& platform_name(os, arch) is Ok
            &&& parsed_url("https://update.axlmc.org/latest"@) is Ok
        },
{
    law_channel(channel);
}

} // verus!
