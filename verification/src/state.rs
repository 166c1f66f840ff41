//! What an agent keeps between two runs: its identity.

use crate::json::{entry_values, push_entry, Json, JsonValue};
use crate::text::join_path;
use crate::types::{is_random, text_field, uuid_parsed, uuid_text, AgentId};
use vstd::prelude::*;

verus! {

/// The state of an agent.
#[derive(Clone, Copy, Debug, PartialEq, Eq, Structural)]
pub struct State {
    pub id: AgentId,
}

impl View for State {
    type V = u128;

    open spec fn view(&self) -> u128 {
        self.id@
    }
}

/// Why a text is no state.
#[derive(Debug, PartialEq, Eq)]
pub enum StateError {
    /// The text is not JSON; the parser's reason is inside.
    Syntax(String),
    /// The document is not an object whose `id` names an identity.
    Invalid,
}

/// What loading the state gave.
#[derive(Debug, PartialEq, Eq)]
pub enum Loaded {
    /// The state that the state file holds.
    Existing(State),
    /// There was no state file: a state with a new identity, and the text to
    /// write to the state file.
    Created(State, String),
}

/// The JSON object `{id}` that carries the state with the identity `id`.
pub open spec fn state_json(id: u128) -> JsonValue {
    JsonValue::Object(seq![("id"@, JsonValue::Text(uuid_text(id)))])
}

/// The identity of the state that a JSON document holds.
pub open spec fn state_of(json: JsonValue) -> Option<u128> {
    match text_field(json, "id"@) {
        Some(text) => uuid_parsed(text),
        None => None,
    }
}

/// The path of the state file in the directory `state_path`.
pub fn state_file(state_path: &str) -> (path: String)
    ensures
        path@ == crate::text::joined_path(state_path@, "state.json"@),
{
    join_path(state_path, "state.json")
}

impl State {
    /// A state with a new random identity.
    pub fn new() -> (state: State)
        ensures
            is_random(state@),
    {
        State { id: AgentId::generate() }
    }

    /// The JSON object that carries this state.
    pub fn to_json(&self) -> (json: Json)
        ensures
            json@ == state_json(self@),
    {
        let mut entries: Vec<(String, Json)> = Vec::new();
        push_entry(&mut entries, "id", Json::text(self.id.to_text().as_str()));
        assert(entry_values(entries@) =~= state_json(self@)->Object_0);
        Json::object(entries)
    }

    /// The state that a JSON document holds, if it holds one.
    pub fn from_json(json: &Json) -> (state: Option<State>)
        ensures
            match state {
                Some(state) => state_of(json@) == Some(state@),
                None => state_of(json@) is None,
            },
    {
        match crate::types::get_text(json, "id") {
            Some(text) => match AgentId::parse(text.as_str()) {
                Some(id) => Some(State { id }),
                None => None,
            },
            None => None,
        }
    }
}

/// Loads the state of an agent from the contents of its state file.
///
/// Where there is a file, the state is the one it holds. Where there is
/// none, the state has a new random identity, and it comes with the text
/// that the state file has to get.
pub fn load(contents: Option<&str>) -> (r: Result<Loaded, StateError>)
    ensures
        match contents {
            None => r matches Ok(Loaded::Created(state, text)) && is_random(state@) && text@
                == crate::json::printed(state_json(state@)),
            Some(text) => match crate::json::parsed(text@) {
                Err(reason) => r matches Err(StateError::Syntax(told)) && told@ == reason,
                Ok(json) => match state_of(json) {
                    Some(id) => r matches Ok(Loaded::Existing(state)) && state@ == id,
                    None => r == Err::<Loaded, StateError>(StateError::Invalid),
                },
            },
        },
{
    match contents {
        None => {
            let state = State::new();
            let text = state.to_json().print();
            Ok(Loaded::Created(state, text))
        },
        Some(text) => match Json::parse(text) {
            Err(reason) => Err(StateError::Syntax(reason)),
            Ok(json) => match State::from_json(&json) {
                Some(state) => Ok(Loaded::Existing(state)),
                None => Err(StateError::Invalid),
            },
        },
    }
}

/// The JSON library can hold the form of a state as it is: the text of a
/// state stands for the state's own object.
pub proof fn lemma_state_representable(id: u128)
    ensures
        state_json(id).representable(),
{
    let entries = state_json(id)->Object_0;
    assert forall|k: int| 0 <= k < entries.len() implies (
    #[trigger] entries[k]).1.representable() by {}
}

} // verus!
