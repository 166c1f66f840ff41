//! What the two ends of a session tell each other: agent identities, status
//! reports, and the parameters of the download and activate calls.

use crate::json::{entry_values, push_entry, Json, JsonValue};
use uuid::Uuid;
use vstd::prelude::*;

verus! {

/// The durable identity of an agent: 128 bits, made once on the agent's first
/// start.
#[derive(Clone, Copy, Debug, PartialEq, Eq, Structural, PartialOrd, Ord, Hash)]
pub struct AgentId(pub u128);

impl View for AgentId {
    type V = u128;

    open spec fn view(&self) -> u128 {
        self.0
    }
}

/// The text that `uuid::Uuid` displays for the identifier with these 128
/// bits.
pub uninterp spec fn uuid_text(bits: u128) -> Seq<char>;

/// The 128 bits of the identifier that `uuid::Uuid::parse_str` reads from a
/// text, or `None` where it reports an error.
pub uninterp spec fn uuid_parsed(text: Seq<char>) -> Option<u128>;

/// `uuid::Uuid::from_u128` and the `Display` of the result: the identifier
/// in hyphenated lower-case hexadecimal. The result is a function of the
/// bits alone.
#[verifier::external_body]
fn display_uuid(bits: u128) -> (text: String)
    ensures
        text@ == uuid_text(bits),
{
    Uuid::from_u128(bits).to_string()
}

/// `uuid::Uuid::parse_str` and `as_u128` on its result. The result is a
/// function of the text alone.
#[verifier::external_body]
fn parse_uuid(text: &str) -> (bits: Option<u128>)
    ensures
        bits == uuid_parsed(text@),
{
    Uuid::parse_str(text).ok().map(|uuid| uuid.as_u128())
}

/// Whether `bits` are those of a random identifier: the version field holds
/// 4, and the variant field holds the two bits 1 and 0.
pub open spec fn is_random(bits: u128) -> bool {
    bits & 0x0000_0000_0000_f000_c000_0000_0000_0000
        == 0x0000_0000_0000_4000_8000_0000_0000_0000
}

impl AgentId {
    /// A new random identity: a version 4 identifier of the RFC variant.
    pub fn generate() -> (id: AgentId)
        ensures
            is_random(id@),
    {
        AgentId(random_uuid())
    }

    /// The identity that a text names, if it names one.
    pub fn parse(text: &str) -> (id: Option<AgentId>)
        ensures
            match id {
                Some(id) => uuid_parsed(text@) == Some(id@),
                None => uuid_parsed(text@) is None,
            },
    {
        match parse_uuid(text) {
            Some(bits) => Some(AgentId(bits)),
            None => None,
        }
    }

    /// The text that names this identity.
    pub fn to_text(&self) -> (text: String)
        ensures
            text@ == uuid_text(self@),
    {
        display_uuid(self.0)
    }
}

/// `uuid::Uuid::new_v4` and `as_u128` on its result: the bits of a random
/// identifier. `new_v4` takes 128 random bits and sets the version field to
/// 4 and the variant field to the bits 1 and 0; of the other bits nothing is
/// known.
#[verifier::external_body]
fn random_uuid() -> (bits: u128)
    ensures
        is_random(bits),
{
    Uuid::new_v4().as_u128()
}

/// The two systems an agent knows of: the one that runs and the one that was
/// booted, each as a store path.
#[derive(Debug, PartialEq, Eq)]
pub struct System {
    pub current: String,
    pub booted: String,
}

/// What an agent reports of itself.
#[derive(Debug, PartialEq, Eq)]
pub struct Status {
    pub id: AgentId,
    pub system: System,
    pub version: String,
}

/// The parameters of `$/download`: the store path to fetch and the
/// substituter to fetch it from.
#[derive(Debug, PartialEq, Eq)]
pub struct DownloadParams {
    pub store_path: String,
    pub from: String,
}

/// The parameters of `$/activate`: the store path of the system to switch
/// to.
#[derive(Debug, PartialEq, Eq)]
pub struct ActivateParams {
    pub store_path: String,
}

/// The mathematical value of a [`System`].
pub struct SystemView {
    pub current: Seq<char>,
    pub booted: Seq<char>,
}

/// The mathematical value of a [`Status`].
pub struct StatusView {
    pub id: u128,
    pub system: SystemView,
    pub version: Seq<char>,
}

/// The mathematical value of a [`DownloadParams`].
pub struct DownloadParamsView {
    pub store_path: Seq<char>,
    pub from: Seq<char>,
}

/// The mathematical value of an [`ActivateParams`].
pub struct ActivateParamsView {
    pub store_path: Seq<char>,
}

impl View for System {
    type V = SystemView;

    open spec fn view(&self) -> SystemView {
        SystemView { current: self.current@, booted: self.booted@ }
    }
}

impl View for Status {
    type V = StatusView;

    open spec fn view(&self) -> StatusView {
        StatusView { id: self.id@, system: self.system@, version: self.version@ }
    }
}

impl View for DownloadParams {
    type V = DownloadParamsView;

    open spec fn view(&self) -> DownloadParamsView {
        DownloadParamsView { store_path: self.store_path@, from: self.from@ }
    }
}

impl View for ActivateParams {
    type V = ActivateParamsView;

    open spec fn view(&self) -> ActivateParamsView {
        ActivateParamsView { store_path: self.store_path@ }
    }
}

/// The string under `key`, where `json` is an object that has one there.
pub open spec fn text_field(json: JsonValue, key: Seq<char>) -> Option<Seq<char>> {
    match json.field(key) {
        Some(value) => value.text(),
        None => None,
    }
}

/// The string under `key`, where `json` is an object that has one there.
pub fn get_text(json: &Json, key: &str) -> (text: Option<String>)
    ensures
        match text {
            Some(text) => text_field(json@, key@) == Some(text@),
            None => text_field(json@, key@) is None,
        },
{
    match json.get(key) {
        Some(value) => match value.as_str() {
            Some(text) => Some(text.to_owned()),
            None => None,
        },
        None => None,
    }
}

impl SystemView {
    /// The JSON object `{current, booted}`.
    pub open spec fn to_json(self) -> JsonValue {
        JsonValue::Object(
            seq![
                ("current"@, JsonValue::Text(self.current)),
                ("booted"@, JsonValue::Text(self.booted)),
            ],
        )
    }

    /// The system that a JSON document describes: an object with the strings
    /// `current` and `booted`.
    pub open spec fn of_json(json: JsonValue) -> Option<SystemView> {
        match (text_field(json, "current"@), text_field(json, "booted"@)) {
            (Some(current), Some(booted)) => Some(SystemView { current, booted }),
            _ => None,
        }
    }
}

impl StatusView {
    /// The JSON object `{id, system, version}`, the id in its text form.
    pub open spec fn to_json(self) -> JsonValue {
        JsonValue::Object(
            seq![
                ("id"@, JsonValue::Text(uuid_text(self.id))),
                ("system"@, self.system.to_json()),
                ("version"@, JsonValue::Text(self.version)),
            ],
        )
    }

    /// The status that a JSON document describes: an object with an `id` that
    /// names an identity, a `system` and a string `version`.
    pub open spec fn of_json(json: JsonValue) -> Option<StatusView> {
        match text_field(json, "id"@) {
            Some(id) => match (uuid_parsed(id), json.field("system"@), text_field(json, "version"@)) {
                (Some(id), Some(system), Some(version)) => match SystemView::of_json(system) {
                    Some(system) => Some(StatusView { id, system, version }),
                    None => None,
                },
                _ => None,
            },
            None => None,
        }
    }
}

impl DownloadParamsView {
    /// The JSON object `{store_path, from}`.
    pub open spec fn to_json(self) -> JsonValue {
        JsonValue::Object(
            seq![
                ("store_path"@, JsonValue::Text(self.store_path)),
                ("from"@, JsonValue::Text(self.from)),
            ],
        )
    }

    /// The parameters that a JSON document describes: an object with the
    /// strings `store_path` and `from`.
    pub open spec fn of_json(json: JsonValue) -> Option<DownloadParamsView> {
        match (text_field(json, "store_path"@), text_field(json, "from"@)) {
            (Some(store_path), Some(from)) => Some(DownloadParamsView { store_path, from }),
            _ => None,
        }
    }
}

impl ActivateParamsView {
    /// The JSON object `{store_path}`.
    pub open spec fn to_json(self) -> JsonValue {
        JsonValue::Object(seq![("store_path"@, JsonValue::Text(self.store_path))])
    }

    /// The parameters that a JSON document describes: an object with the
    /// string `store_path`.
    pub open spec fn of_json(json: JsonValue) -> Option<ActivateParamsView> {
        match text_field(json, "store_path"@) {
            Some(store_path) => Some(ActivateParamsView { store_path }),
            None => None,
        }
    }
}

impl System {
    /// The JSON object that carries this system.
    pub fn to_json(&self) -> (json: Json)
        ensures
            json@ == self@.to_json(),
    {
        let mut entries: Vec<(String, Json)> = Vec::new();
        push_entry(&mut entries, "current", Json::text(self.current.as_str()));
        push_entry(&mut entries, "booted", Json::text(self.booted.as_str()));
        assert(entry_values(entries@) =~= self@.to_json()->Object_0);
        Json::object(entries)
    }

    /// The system that a JSON document describes, if it describes one.
    pub fn from_json(json: &Json) -> (system: Option<System>)
        ensures
            match system {
                Some(system) => SystemView::of_json(json@) == Some(system@),
                None => SystemView::of_json(json@) is None,
            },
    {
        match (get_text(json, "current"), get_text(json, "booted")) {
            (Some(current), Some(booted)) => Some(System { current, booted }),
            _ => None,
        }
    }
}

impl Status {
    /// The JSON object that carries this status.
    pub fn to_json(&self) -> (json: Json)
        ensures
            json@ == self@.to_json(),
    {
        let mut entries: Vec<(String, Json)> = Vec::new();
        push_entry(&mut entries, "id", Json::text(self.id.to_text().as_str()));
        push_entry(&mut entries, "system", self.system.to_json());
        push_entry(&mut entries, "version", Json::text(self.version.as_str()));
        assert(entry_values(entries@) =~= self@.to_json()->Object_0);
        Json::object(entries)
    }

    /// The status that a JSON document describes, if it describes one.
    pub fn from_json(json: &Json) -> (status: Option<Status>)
        ensures
            match status {
                Some(status) => StatusView::of_json(json@) == Some(status@),
                None => StatusView::of_json(json@) is None,
            },
    {
        let id = match get_text(json, "id") {
            Some(text) => match AgentId::parse(text.as_str()) {
                Some(id) => id,
                None => {
                    return None;
                },
            },
            None => {
                return None;
            },
        };
        let system = match json.get("system") {
            Some(system) => match System::from_json(system) {
                Some(system) => system,
                None => {
                    return None;
                },
            },
            None => {
                return None;
            },
        };
        match get_text(json, "version") {
            Some(version) => Some(Status { id, system, version }),
            None => None,
        }
    }
}

impl DownloadParams {
    /// The JSON object that carries these parameters.
    pub fn to_json(&self) -> (json: Json)
        ensures
            json@ == self@.to_json(),
    {
        let mut entries: Vec<(String, Json)> = Vec::new();
        push_entry(&mut entries, "store_path", Json::text(self.store_path.as_str()));
        push_entry(&mut entries, "from", Json::text(self.from.as_str()));
        assert(entry_values(entries@) =~= self@.to_json()->Object_0);
        Json::object(entries)
    }

    /// The parameters that a JSON document describes, if it describes any.
    pub fn from_json(json: &Json) -> (params: Option<DownloadParams>)
        ensures
            match params {
                Some(params) => DownloadParamsView::of_json(json@) == Some(params@),
                None => DownloadParamsView::of_json(json@) is None,
            },
    {
        match (get_text(json, "store_path"), get_text(json, "from")) {
            (Some(store_path), Some(from)) => Some(DownloadParams { store_path, from }),
            _ => None,
        }
    }
}

impl ActivateParams {
    /// The JSON object that carries these parameters.
    pub fn to_json(&self) -> (json: Json)
        ensures
            json@ == self@.to_json(),
    {
        let mut entries: Vec<(String, Json)> = Vec::new();
        push_entry(&mut entries, "store_path", Json::text(self.store_path.as_str()));
        assert(entry_values(entries@) =~= self@.to_json()->Object_0);
        Json::object(entries)
    }

    /// The parameters that a JSON document describes, if it describes any.
    pub fn from_json(json: &Json) -> (params: Option<ActivateParams>)
        ensures
            match params {
                Some(params) => ActivateParamsView::of_json(json@) == Some(params@),
                None => ActivateParamsView::of_json(json@) is None,
            },
    {
        match get_text(json, "store_path") {
            Some(store_path) => Some(ActivateParams { store_path }),
            None => None,
        }
    }
}

impl Clone for System {
    fn clone(&self) -> (copy: System)
        ensures
            copy@ == self@,
    {
        System { current: self.current.clone(), booted: self.booted.clone() }
    }
}

impl Clone for Status {
    fn clone(&self) -> (copy: Status)
        ensures
            copy@ == self@,
    {
        Status { id: self.id, system: self.system.clone(), version: self.version.clone() }
    }
}

impl Clone for DownloadParams {
    fn clone(&self) -> (copy: DownloadParams)
        ensures
            copy@ == self@,
    {
        DownloadParams { store_path: self.store_path.clone(), from: self.from.clone() }
    }
}

impl Clone for ActivateParams {
    fn clone(&self) -> (copy: ActivateParams)
        ensures
            copy@ == self@,
    {
        ActivateParams { store_path: self.store_path.clone() }
    }
}

/// The JSON library can hold what this crate puts on the wire as it is: the
/// forms of a status and of the parameters of a download and of an
/// activation have strings under keys that differ.
pub proof fn lemma_forms_representable(
    status: StatusView,
    download: DownloadParamsView,
    activate: ActivateParamsView,
)
    ensures
        status.system.to_json().representable(),
        status.to_json().representable(),
        download.to_json().representable(),
        activate.to_json().representable(),
{
    reveal_strlit("current");
    reveal_strlit("booted");
    reveal_strlit("id");
    reveal_strlit("system");
    reveal_strlit("version");
    reveal_strlit("store_path");
    reveal_strlit("from");
    assert("current"@.len() == 7 && "booted"@.len() == 6);
    assert("id"@.len() == 2 && "system"@.len() == 6 && "version"@.len() == 7);
    assert("store_path"@.len() == 10 && "from"@.len() == 4);
    let system = status.system.to_json()->Object_0;
    assert forall|k: int| 0 <= k < system.len() implies (
    #[trigger] system[k]).1.representable() by {}
    assert(status.system.to_json().representable());
    let told = status.to_json()->Object_0;
    assert forall|k: int| 0 <= k < told.len() implies (
    #[trigger] told[k]).1.representable() by {}
    let wanted = download.to_json()->Object_0;
    assert forall|k: int| 0 <= k < wanted.len() implies (
    #[trigger] wanted[k]).1.representable() by {}
    let asked = activate.to_json()->Object_0;
    assert forall|k: int| 0 <= k < asked.len() implies (
    #[trigger] asked[k]).1.representable() by {}
}

} // verus!
