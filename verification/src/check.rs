//! From an announced update to what the user interface is told of it.

use vstd::prelude::*;

use crate::catalog::{deb_asset, fetch_apt_deb_asset, VersionEntry, VersionsResponse};
use crate::endpoint::{on_server, UPDATE_DOWNLOAD_TIMEOUT_SECS};
use crate::failure::UpdateError;

verus! {

/// `serde_json::Value`, any JSON value.
#[verifier::external_type_specification]
#[verifier::external_body]
pub struct ExValue(serde_json::Value);

/// A member of a JSON object, as far as the updater reads it, with texts of type
/// `S`.
#[verifier::ext_equal]
#[derive(Debug, PartialEq, Eq)]
pub enum RawField<S> {
    Null,
    Bool(bool),
    Number,
    Text(S),
    Array,
    Object,
}

impl View for RawField<String> {
    type V = RawField<Seq<char>>;

    open spec fn view(&self) -> RawField<Seq<char>> {
        match self {
            RawField::Null => RawField::Null,
            RawField::Bool(value) => RawField::Bool(*value),
            RawField::Number => RawField::Number,
            RawField::Text(text) => RawField::Text(text@),
            RawField::Array => RawField::Array,
            RawField::Object => RawField::Object,
        }
    }
}

/// The members of a JSON object by their keys; of any other JSON value, none.
pub uninterp spec fn json_members(json: serde_json::Value) -> Map<Seq<char>, RawField<Seq<char>>>;

/// The member under a key.
pub open spec fn member_of(
    members: Map<Seq<char>, RawField<Seq<char>>>,
    key: Seq<char>,
) -> Option<RawField<Seq<char>>> {
    if members.contains_key(key) {
        Some(members[key])
    } else {
        None
    }
}

/// The view of a member, where there is one.
pub open spec fn field_view(field: Option<RawField<String>>) -> Option<RawField<Seq<char>>> {
    match field {
        Some(field) => Some(field@),
        None => None,
    }
}

/// `serde_json::Value::get` with a text key: the member of an object under the
/// key. The member comes back as the variant of `Value` that it is, without the
/// contents of numbers, arrays and objects.
#[verifier::external_body]
pub(crate) fn json_member(json: &serde_json::Value, key: &str) -> (res: Option<RawField<String>>)
    ensures
        field_view(res) == member_of(json_members(*json), key@),
{
    json.get(key).map(
        |member| match member {
            serde_json::Value::Null => RawField::Null,
            serde_json::Value::Bool(value) => RawField::Bool(*value),
            serde_json::Value::Number(_) => RawField::Number,
            serde_json::Value::String(text) => RawField::Text(text.clone()),
            serde_json::Value::Array(_) => RawField::Array,
            serde_json::Value::Object(_) => RawField::Object,
        },
    )
}

/// The text of a member that is one.
pub open spec fn text_of(field: Option<RawField<Seq<char>>>) -> Option<Seq<char>> {
    match field {
        Some(RawField::Text(text)) => Some(text),
        _ => None,
    }
}

/// The characters of a text, where there is one.
pub open spec fn optional_text(text: Option<String>) -> Option<Seq<char>> {
    match text {
        Some(text) => Some(text@),
        None => None,
    }
}

/// The publication date that a member tells, where it is a text.
pub fn published_at(field: Option<RawField<String>>) -> (res: Option<String>)
    ensures
        optional_text(res) == text_of(field_view(field)),
{
    match field {
        Some(RawField::Text(text)) => Some(text),
        _ => None,
    }
}

/// Only the JSON value `true` forces the update.
pub open spec fn forces_update(field: Option<RawField<Seq<char>>>) -> bool {
    field == Some(RawField::<Seq<char>>::Bool(true))
}

/// Whether a member forces the update: only the JSON value `true` does.
pub fn force_update(field: Option<RawField<String>>) -> (res: bool)
    ensures
        res == forces_update(field_view(field)),
{
    match field {
        Some(RawField::Bool(value)) => value,
        _ => false,
    }
}

/// An update that the server announced, as far as the updater reads and changes it.
#[derive(Debug)]
pub struct UpdateInfo {
    pub current_version: String,
    pub version: String,
    pub body: Option<String>,
    pub raw_json: serde_json::Value,
    /// Where the package is downloaded from.
    pub download_url: String,
    /// How long the whole download may take, in seconds; without a bound, `None`.
    pub timeout_secs: Option<u64>,
}

/// What the user interface is told of an update.
#[derive(Debug)]
pub struct UpdateMetadata {
    /// The handle under which the application keeps the update.
    pub rid: u32,
    pub current_version: String,
    pub version: String,
    pub date: Option<String>,
    pub body: Option<String>,
    pub published_at: Option<String>,
    pub force_update: bool,
    pub raw_json: serde_json::Value,
}

/// What is to be done with the answer to a check.
#[derive(Debug)]
pub enum CheckStep {
    /// The current version is the newest.
    UpToDate,
    /// The update's package is to be looked up in the catalog.
    FetchCatalog(UpdateInfo),
    /// The update is to be offered.
    Offer(UpdateInfo),
}

/// The update with its download bounded.
pub open spec fn bounded(update: UpdateInfo) -> UpdateInfo {
    UpdateInfo { timeout_secs: Some(UPDATE_DOWNLOAD_TIMEOUT_SECS), ..update }
}

/// What is to be done with the server's answer.
pub open spec fn check_step(announced: Option<UpdateInfo>, apt_linux: bool) -> CheckStep {
    match announced {
        None => CheckStep::UpToDate,
        Some(update) => if apt_linux {
            CheckStep::FetchCatalog(bounded(update))
        } else {
            CheckStep::Offer(bounded(update))
        },
    }
}

/// What is to be done with the server's answer: an announced update gets a bounded
/// download, and where apt is in charge its package comes from the catalog, since
/// the announced one cannot be validated there.
pub fn check_app_update(announced: Option<UpdateInfo>, apt_linux: bool) -> (res: CheckStep)
    ensures
        res == check_step(announced, apt_linux),
{
    match announced {
        None => CheckStep::UpToDate,
        Some(update) => {
            let mut update = update;
            update.timeout_secs = Some(UPDATE_DOWNLOAD_TIMEOUT_SECS);
            if apt_linux {
                CheckStep::FetchCatalog(update)
            } else {
                CheckStep::Offer(update)
            }
        },
    }
}

/// The result is the update, its download pointed at the catalog's Debian package
/// and all else kept; or the failure to find that package.
pub open spec fn pointed_at_deb(
    res: Result<UpdateInfo, UpdateError>,
    update: UpdateInfo,
    versions: Seq<VersionEntry>,
    arch: Seq<char>,
) -> bool {
    match (res, deb_asset(versions, update.version@, arch)) {
        (Ok(offered), Ok(asset)) => {
            &&& offered.download_url@ == asset.url
            &&& offered == UpdateInfo { download_url: offered.download_url, ..update }
        },
        (Err(error), Err(failure)) => error@ == failure,
        _ => false,
    }
}

/// The update with its download pointed at the Debian package of the catalog.
pub fn use_catalog_deb(update: UpdateInfo, catalog: &VersionsResponse, arch: &str) -> (res: Result<
    UpdateInfo,
    UpdateError,
>)
    ensures
        pointed_at_deb(res, update, catalog.versions@, arch@),
        res matches Ok(offered) ==> on_server(offered.download_url@),
{
    match fetch_apt_deb_asset(catalog, update.version.as_str(), arch) {
        Ok(asset) => {
            let mut update = update;
            update.download_url = asset.url;
            Ok(update)
        },
        Err(error) => Err(error),
    }
}

/// The metadata tells of an update what its own fields and the members of its raw
/// JSON hold.
pub open spec fn tells_of(metadata: UpdateMetadata, rid: u32, update: UpdateInfo) -> bool {
    let members = json_members(update.raw_json);
    &&& metadata.rid == rid
    &&& metadata.current_version == update.current_version
    &&& metadata.version == update.version
    &&& metadata.date is None
    &&& metadata.body == update.body
    &&& optional_text(metadata.published_at) == text_of(member_of(members, "published_at"@))
    &&& metadata.force_update == forces_update(member_of(members, "force_update"@))
    &&& metadata.raw_json == update.raw_json
}

/// What the user interface is told of an update that the application keeps under a
/// handle.
pub fn update_metadata(rid: u32, update: UpdateInfo) -> (res: UpdateMetadata)
    ensures
        tells_of(res, rid, update),
{
    let published_at = published_at(json_member(&update.raw_json, "published_at"));
    let force_update = force_update(json_member(&update.raw_json, "force_update"));
    UpdateMetadata {
        rid,
        current_version: update.current_version,
        version: update.version,
        date: None,
        body: update.body,
        published_at,
        force_update,
        raw_json: update.raw_json,
    }
}

/// Every update that is offered, at once or after a look into the catalog, has its
/// whole download bounded.
pub proof fn law_every_offer_is_bounded(
    update: UpdateInfo,
    offered: UpdateInfo,
    versions: Seq<VersionEntry>,
    arch: Seq<char>,
)
    ensures
        bounded(update).timeout_secs == Some(UPDATE_DOWNLOAD_TIMEOUT_SECS),
        pointed_at_deb(Ok(offered), bounded(update), versions, arch) ==> offered.timeout_secs
            == Some(UPDATE_DOWNLOAD_TIMEOUT_SECS),
{
}

/// An update whose download points into the catalog points at the very package
/// that the same catalog gives the digest and the size of.
pub proof fn law_offer_points_at_the_vouched_package(
    update: UpdateInfo,
    offered: UpdateInfo,
    versions: Seq<VersionEntry>,
    arch: Seq<char>,
)
    requires
        pointed_at_deb(Ok(offered), update, versions, arch),
    ensures
        deb_asset(versions, offered.version@, arch) matches Ok(asset) && asset.url
            == offered.download_url@,
{
}

/// A member tells a text exactly where it is one, and then that text.
pub proof fn law_text_members(text: Seq<char>, field: Option<RawField<Seq<char>>>)
    ensures
        text_of(Some(RawField::Text(text))) == Some(text),
        text_of(field) matches Some(told) ==> field == Some(RawField::Text(told)),
{
}

/// A member forces the update exactly where it is the JSON value `true`.
pub proof fn law_forcing_members(field: Option<RawField<Seq<char>>>)
    ensures
        forces_update(Some(RawField::Bool(true))),
        forces_update(field) ==> field == Some(RawField::<Seq<char>>::Bool(true)),
{
}

/// Nothing is done where nothing was announced. An announced update goes on to the
/// catalog where apt is in charge, and is offered at once elsewhere; either way its
/// download gets a quarter of an hour and it is otherwise as it was announced.
pub proof fn law_announced_update_goes_on(update: UpdateInfo, apt_linux: bool)
    ensures
        check_step(None, apt_linux) is UpToDate,
        check_step(Some(update), apt_linux) is FetchCatalog <==> apt_linux,
        check_step(Some(update), apt_linux) is Offer <==> !apt_linux,
        ({
            let kept = match check_step(Some(update), apt_linux) {
                CheckStep::FetchCatalog(kept) => kept,
                CheckStep::Offer(kept) => kept,
                CheckStep::UpToDate => update,
            };
            &&& kept.timeout_secs == Some(900u64)
            &&& kept.current_version == update.current_version
            &&& kept.version == update.version
            &&& kept.body == update.body
            &&& kept.raw_json == update.raw_json
            &&& kept.download_url == update.download_url
        }),
{
}

/// An update whose package is in the catalog is offered with that package's URL, and
/// is otherwise as it was; one whose package is not found is not offered, and the
/// failure is that of the lookup.
pub proof fn law_only_the_download_is_pointed_elsewhere(
    res: Result<UpdateInfo, UpdateError>,
    update: UpdateInfo,
    versions: Seq<VersionEntry>,
    arch: Seq<char>,
)
    requires
        pointed_at_deb(res, update, versions, arch),
    ensures
        res is Ok <==> deb_asset(versions, update.version@, arch) is Ok,
        res matches Ok(offered) ==> {
            &&& offered.download_url@ == deb_asset(versions, update.version@, arch)->Ok_0.url
            &&& offered.timeout_secs == update.timeout_secs
            &&& offered.current_version == update.current_version
            &&& offered.version == update.version
            &&& offered.body == update.body
            &&& offered.raw_json == update.raw_json
        },
        res matches Err(error) ==> error@ == deb_asset(versions, update.version@, arch)->Err_0,
{
}

/// The metadata carries the handle, and what the update itself carries; no date. The
/// member `published_at` of the raw JSON is told exactly where it is a text, and the
/// update is forced exactly where the member `force_update` is the JSON value `true`.
pub proof fn law_metadata(metadata: UpdateMetadata, rid: u32, update: UpdateInfo, text: Seq<char>)
    requires
        tells_of(metadata, rid, update),
    ensures
        metadata.rid == rid,
        metadata.current_version == update.current_version,
        metadata.version == update.version,
        metadata.body == update.body,
        metadata.raw_json == update.raw_json,
        metadata.date is None,
        ({
            let members = json_members(update.raw_json);
            let published = members.contains_key("published_at"@) && members["published_at"@]
                == RawField::Text(text);
            let forced = members.contains_key("force_update"@) && members["force_update"@]
                == RawField::<Seq<char>>::Bool(true);
            &&& published <==> (metadata.published_at is Some && metadata.published_at->0@ == text)
            &&& forced <==> metadata.force_update
        }),
{
}

} // verus!
