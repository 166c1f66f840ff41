//! What the server keeps: flakes, their revisions, the configurations they
//! declare, what each configuration evaluates to at each revision, and the
//! agents.
//!
//! A [`Store`] keeps the rows in memory, in the order in which they were
//! written, and holds them to the rules of the schema: a flake URL occurs
//! once, a configuration name occurs once per flake, a pair of revision and
//! configuration has one evaluation, and no row points at a row that is not
//! there.

use crate::json::{Json, JsonValue};
use crate::table::{
    first_match, last_match, lemma_first_match_at, lemma_first_match_none, lemma_last_match_at,
    lemma_last_match_none, lemma_views_push, rows_since, views,
};
use crate::text::{optional_text, str_eq};
use crate::types::AgentId;
use vstd::prelude::*;

verus! {

/// A source tree that declares system configurations.
#[derive(Debug, PartialEq, Eq)]
pub struct Flake {
    pub flake_id: i64,
    pub flake_url: String,
}

/// One immutable snapshot of a flake.
#[derive(Debug, PartialEq, Eq)]
pub struct FlakeRevision {
    pub flake_revision_id: i64,
    pub flake_id: i64,
    /// The content hash of the snapshot.
    pub revision: String,
    /// Seconds since the Unix epoch.
    pub last_modified: i64,
    /// The URL that is pinned to this snapshot.
    pub url: String,
    /// Everything that the package system said of the snapshot.
    pub metadata: Json,
}

/// A named system description within a flake.
#[derive(Debug, PartialEq, Eq)]
pub struct Configuration {
    pub nixos_configuration_id: i64,
    pub flake_id: i64,
    pub name: String,
}

/// The store path that a configuration evaluates to at a revision.
#[derive(Debug, PartialEq, Eq)]
pub struct Evaluation {
    pub flake_revision_id: i64,
    pub nixos_configuration_id: i64,
    pub store_path: String,
}

/// What is kept of an agent.
#[derive(Debug, PartialEq, Eq)]
pub struct AgentRecord {
    pub agent_id: AgentId,
    /// The store path that the agent reported as its running system.
    pub current_system: Option<String>,
    /// The configuration that the agent is assigned to.
    pub nixos_configuration_id: Option<i64>,
}

/// The mathematical value of a [`Flake`].
pub struct FlakeView {
    pub flake_id: i64,
    pub flake_url: Seq<char>,
}

/// The mathematical value of a [`FlakeRevision`].
pub struct FlakeRevisionView {
    pub flake_revision_id: i64,
    pub flake_id: i64,
    pub revision: Seq<char>,
    pub last_modified: i64,
    pub url: Seq<char>,
    pub metadata: JsonValue,
}

/// The mathematical value of a [`Configuration`].
pub struct ConfigurationView {
    pub nixos_configuration_id: i64,
    pub flake_id: i64,
    pub name: Seq<char>,
}

/// The mathematical value of an [`Evaluation`].
pub struct EvaluationView {
    pub flake_revision_id: i64,
    pub nixos_configuration_id: i64,
    pub store_path: Seq<char>,
}

/// The mathematical value of an [`AgentRecord`].
pub struct AgentRecordView {
    pub agent_id: u128,
    pub current_system: Option<Seq<char>>,
    pub nixos_configuration_id: Option<i64>,
}

impl View for Flake {
    type V = FlakeView;

    open spec fn view(&self) -> FlakeView {
        FlakeView { flake_id: self.flake_id, flake_url: self.flake_url@ }
    }
}

impl View for FlakeRevision {
    type V = FlakeRevisionView;

    open spec fn view(&self) -> FlakeRevisionView {
        FlakeRevisionView {
            flake_revision_id: self.flake_revision_id,
            flake_id: self.flake_id,
            revision: self.revision@,
            last_modified: self.last_modified,
            url: self.url@,
            metadata: self.metadata@,
        }
    }
}

impl View for Configuration {
    type V = ConfigurationView;

    open spec fn view(&self) -> ConfigurationView {
        ConfigurationView {
            nixos_configuration_id: self.nixos_configuration_id,
            flake_id: self.flake_id,
            name: self.name@,
        }
    }
}

impl View for Evaluation {
    type V = EvaluationView;

    open spec fn view(&self) -> EvaluationView {
        EvaluationView {
            flake_revision_id: self.flake_revision_id,
            nixos_configuration_id: self.nixos_configuration_id,
            store_path: self.store_path@,
        }
    }
}

impl View for AgentRecord {
    type V = AgentRecordView;

    open spec fn view(&self) -> AgentRecordView {
        AgentRecordView {
            agent_id: self.agent_id@,
            current_system: optional_text(self.current_system),
            nixos_configuration_id: self.nixos_configuration_id,
        }
    }
}

impl Clone for Flake {
    fn clone(&self) -> (copy: Flake)
        ensures
            copy@ == self@,
    {
        Flake { flake_id: self.flake_id, flake_url: self.flake_url.clone() }
    }
}

impl Clone for FlakeRevision {
    fn clone(&self) -> (copy: FlakeRevision)
        ensures
            copy@ == self@,
    {
        FlakeRevision {
            flake_revision_id: self.flake_revision_id,
            flake_id: self.flake_id,
            revision: self.revision.clone(),
            last_modified: self.last_modified,
            url: self.url.clone(),
            metadata: self.metadata.clone(),
        }
    }
}

impl Clone for Configuration {
    fn clone(&self) -> (copy: Configuration)
        ensures
            copy@ == self@,
    {
        Configuration {
            nixos_configuration_id: self.nixos_configuration_id,
            flake_id: self.flake_id,
            name: self.name.clone(),
        }
    }
}

impl Clone for Evaluation {
    fn clone(&self) -> (copy: Evaluation)
        ensures
            copy@ == self@,
    {
        Evaluation {
            flake_revision_id: self.flake_revision_id,
            nixos_configuration_id: self.nixos_configuration_id,
            store_path: self.store_path.clone(),
        }
    }
}

impl Clone for AgentRecord {
    fn clone(&self) -> (copy: AgentRecord)
        ensures
            copy@ == self@,
    {
        AgentRecord {
            agent_id: self.agent_id,
            current_system: match &self.current_system {
                Some(system) => Some(system.clone()),
                None => None,
            },
            nixos_configuration_id: self.nixos_configuration_id,
        }
    }
}

/// Why the store refused to write.
#[derive(Clone, Copy, Debug, PartialEq, Eq, Structural)]
pub enum StoreError {
    /// The row is there already.
    Conflict,
    /// The row points at a row that is not there.
    Missing,
    /// The flake's latest revision is this one.
    Unchanged,
    /// Every id of the table has been given out.
    Exhausted,
}

/// The flakes at `flake_url`.
pub open spec fn flake_at(flake_url: Seq<char>) -> spec_fn(FlakeView) -> bool {
    |row: FlakeView| row.flake_url == flake_url
}

/// The flake with the id `flake_id`.
pub open spec fn flake_with(flake_id: i64) -> spec_fn(FlakeView) -> bool {
    |row: FlakeView| row.flake_id == flake_id
}

/// The revision with the id `flake_revision_id`.
pub open spec fn revision_with(flake_revision_id: i64) -> spec_fn(FlakeRevisionView) -> bool {
    |row: FlakeRevisionView| row.flake_revision_id == flake_revision_id
}

/// The revisions of the flake `flake_id`.
pub open spec fn revision_of(flake_id: i64) -> spec_fn(FlakeRevisionView) -> bool {
    |row: FlakeRevisionView| row.flake_id == flake_id
}

/// The configuration `name` of the flake `flake_id`.
pub open spec fn configuration_named(flake_id: i64, name: Seq<char>) -> spec_fn(
    ConfigurationView,
) -> bool {
    |row: ConfigurationView| row.flake_id == flake_id && row.name == name
}

/// The configuration with the id `nixos_configuration_id`.
pub open spec fn configuration_with(nixos_configuration_id: i64) -> spec_fn(
    ConfigurationView,
) -> bool {
    |row: ConfigurationView| row.nixos_configuration_id == nixos_configuration_id
}

/// The evaluation of a configuration at a revision.
pub open spec fn evaluation_of(flake_revision_id: i64, nixos_configuration_id: i64) -> spec_fn(
    EvaluationView,
) -> bool {
    |row: EvaluationView|
        row.flake_revision_id == flake_revision_id && row.nixos_configuration_id
            == nixos_configuration_id
}

/// The evaluations that gave `store_path`.
pub open spec fn evaluation_at(store_path: Seq<char>) -> spec_fn(EvaluationView) -> bool {
    |row: EvaluationView| row.store_path == store_path
}

/// The agent with the id `agent_id`.
pub open spec fn agent_with(agent_id: u128) -> spec_fn(AgentRecordView) -> bool {
    |row: AgentRecordView| row.agent_id == agent_id
}

/// The agents that are assigned to `nixos_configuration_id`.
pub open spec fn agent_assigned(nixos_configuration_id: i64) -> spec_fn(AgentRecordView) -> bool {
    |row: AgentRecordView| row.nixos_configuration_id == Some(nixos_configuration_id)
}

/// The mathematical value of a [`Store`]: its rows, oldest first, and the
/// ids that the next rows get.
pub struct StoreView {
    pub flakes: Seq<FlakeView>,
    pub revisions: Seq<FlakeRevisionView>,
    pub configurations: Seq<ConfigurationView>,
    pub evaluations: Seq<EvaluationView>,
    pub agents: Seq<AgentRecordView>,
    pub next_flake_id: i64,
    pub next_revision_id: i64,
    pub next_configuration_id: i64,
}

impl StoreView {
    /// The store without rows. Ids start at 1.
    pub open spec fn empty() -> StoreView {
        StoreView {
            flakes: Seq::empty(),
            revisions: Seq::empty(),
            configurations: Seq::empty(),
            evaluations: Seq::empty(),
            agents: Seq::empty(),
            next_flake_id: 1,
            next_revision_id: 1,
            next_configuration_id: 1,
        }
    }

    /// The id of the flake at `flake_url`.
    pub open spec fn flake_id_of(self, flake_url: Seq<char>) -> Option<i64> {
        match first_match(self.flakes, flake_at(flake_url)) {
            Some(at) => Some(self.flakes[at].flake_id),
            None => None,
        }
    }

    /// The flake with the id `flake_id`.
    pub open spec fn flake(self, flake_id: i64) -> Option<FlakeView> {
        match first_match(self.flakes, flake_with(flake_id)) {
            Some(at) => Some(self.flakes[at]),
            None => None,
        }
    }

    /// The revision with the id `flake_revision_id`.
    pub open spec fn revision(self, flake_revision_id: i64) -> Option<FlakeRevisionView> {
        match first_match(self.revisions, revision_with(flake_revision_id)) {
            Some(at) => Some(self.revisions[at]),
            None => None,
        }
    }

    /// The revision of the flake `flake_id` that was written last.
    pub open spec fn latest_revision(self, flake_id: i64) -> Option<FlakeRevisionView> {
        match last_match(self.revisions, revision_of(flake_id)) {
            Some(at) => Some(self.revisions[at]),
            None => None,
        }
    }

    /// The id of the configuration `name` of the flake `flake_id`.
    pub open spec fn configuration_id_of(self, flake_id: i64, name: Seq<char>) -> Option<i64> {
        match first_match(self.configurations, configuration_named(flake_id, name)) {
            Some(at) => Some(self.configurations[at].nixos_configuration_id),
            None => None,
        }
    }

    /// The configuration with the id `nixos_configuration_id`.
    pub open spec fn configuration(self, nixos_configuration_id: i64) -> Option<ConfigurationView> {
        match first_match(self.configurations, configuration_with(nixos_configuration_id)) {
            Some(at) => Some(self.configurations[at]),
            None => None,
        }
    }

    /// The store path that the configuration evaluates to at the revision.
    pub open spec fn store_path_of(self, flake_revision_id: i64, nixos_configuration_id: i64)
        -> Option<Seq<char>> {
        match first_match(
            self.evaluations,
            evaluation_of(flake_revision_id, nixos_configuration_id),
        ) {
            Some(at) => Some(self.evaluations[at].store_path),
            None => None,
        }
    }

    /// The configuration of the first evaluation that gave `store_path`.
    pub open spec fn configuration_at(self, store_path: Seq<char>) -> Option<i64> {
        match first_match(self.evaluations, evaluation_at(store_path)) {
            Some(at) => Some(self.evaluations[at].nixos_configuration_id),
            None => None,
        }
    }

    /// What is kept of the agent `agent_id`.
    pub open spec fn agent(self, agent_id: u128) -> Option<AgentRecordView> {
        match first_match(self.agents, agent_with(agent_id)) {
            Some(at) => Some(self.agents[at]),
            None => None,
        }
    }

    /// The first agent that is assigned to `nixos_configuration_id`.
    pub open spec fn agent_of(self, nixos_configuration_id: i64) -> Option<u128> {
        match first_match(self.agents, agent_assigned(nixos_configuration_id)) {
            Some(at) => Some(self.agents[at].agent_id),
            None => None,
        }
    }

    /// Writing a flake: refused where the URL is there already.
    pub open spec fn insert_flake(self, flake_url: Seq<char>) -> (StoreView, Result<
        i64,
        StoreError,
    >) {
        if self.flake_id_of(flake_url) is Some {
            (self, Err(StoreError::Conflict))
        } else if self.next_flake_id == i64::MAX {
            (self, Err(StoreError::Exhausted))
        } else {
            (
                StoreView {
                    flakes: self.flakes.push(
                        FlakeView { flake_id: self.next_flake_id, flake_url },
                    ),
                    next_flake_id: (self.next_flake_id + 1) as i64,
                    ..self
                },
                Ok(self.next_flake_id),
            )
        }
    }

    /// Writing a revision: refused where the flake is not there, and where
    /// the flake's latest revision has the same content hash.
    pub open spec fn insert_revision(
        self,
        flake_id: i64,
        revision: Seq<char>,
        last_modified: i64,
        url: Seq<char>,
        metadata: JsonValue,
    ) -> (StoreView, Result<i64, StoreError>) {
        if self.flake(flake_id) is None {
            (self, Err(StoreError::Missing))
        } else if self.latest_revision(flake_id) matches Some(latest) && latest.revision
            == revision {
            (self, Err(StoreError::Unchanged))
        } else if self.next_revision_id == i64::MAX {
            (self, Err(StoreError::Exhausted))
        } else {
            (
                StoreView {
                    revisions: self.revisions.push(
                        FlakeRevisionView {
                            flake_revision_id: self.next_revision_id,
                            flake_id,
                            revision,
                            last_modified,
                            url,
                            metadata,
                        },
                    ),
                    next_revision_id: (self.next_revision_id + 1) as i64,
                    ..self
                },
                Ok(self.next_revision_id),
            )
        }
    }

    /// Writing a flake together with its first revision, both or neither:
    /// refused where the URL is there already. Gives the ids of the flake and
    /// of the revision.
    pub open spec fn create_flake(
        self,
        flake_url: Seq<char>,
        revision: Seq<char>,
        last_modified: i64,
        url: Seq<char>,
        metadata: JsonValue,
    ) -> (StoreView, Result<(i64, i64), StoreError>) {
        if self.flake_id_of(flake_url) is Some {
            (self, Err(StoreError::Conflict))
        } else if self.next_flake_id == i64::MAX || self.next_revision_id == i64::MAX {
            (self, Err(StoreError::Exhausted))
        } else {
            (
                StoreView {
                    flakes: self.flakes.push(
                        FlakeView { flake_id: self.next_flake_id, flake_url },
                    ),
                    revisions: self.revisions.push(
                        FlakeRevisionView {
                            flake_revision_id: self.next_revision_id,
                            flake_id: self.next_flake_id,
                            revision,
                            last_modified,
                            url,
                            metadata,
                        },
                    ),
                    next_flake_id: (self.next_flake_id + 1) as i64,
                    next_revision_id: (self.next_revision_id + 1) as i64,
                    ..self
                },
                Ok((self.next_flake_id, self.next_revision_id)),
            )
        }
    }

    /// Writing a configuration unless it is there: gives the id of the
    /// configuration `name` of the flake either way.
    pub open spec fn upsert_configuration(self, flake_id: i64, name: Seq<char>) -> (
        StoreView,
        Result<i64, StoreError>,
    ) {
        match self.configuration_id_of(flake_id, name) {
            Some(id) => (self, Ok(id)),
            None => if self.flake(flake_id) is None {
                (self, Err(StoreError::Missing))
            } else if self.next_configuration_id == i64::MAX {
                (self, Err(StoreError::Exhausted))
            } else {
                (
                    StoreView {
                        configurations: self.configurations.push(
                            ConfigurationView {
                                nixos_configuration_id: self.next_configuration_id,
                                flake_id,
                                name,
                            },
                        ),
                        next_configuration_id: (self.next_configuration_id + 1) as i64,
                        ..self
                    },
                    Ok(self.next_configuration_id),
                )
            },
        }
    }

    /// Writing an evaluation: ignored where the pair of revision and
    /// configuration has one, refused where either is not there. The result
    /// says whether a row was written.
    pub open spec fn insert_evaluation(
        self,
        flake_revision_id: i64,
        nixos_configuration_id: i64,
        store_path: Seq<char>,
    ) -> (StoreView, Result<bool, StoreError>) {
        if self.store_path_of(flake_revision_id, nixos_configuration_id) is Some {
            (self, Ok(false))
        } else if self.revision(flake_revision_id) is None || self.configuration(
            nixos_configuration_id,
        ) is None {
            (self, Err(StoreError::Missing))
        } else {
            (
                StoreView {
                    evaluations: self.evaluations.push(
                        EvaluationView { flake_revision_id, nixos_configuration_id, store_path },
                    ),
                    ..self
                },
                Ok(true),
            )
        }
    }

    /// Writing an agent: refused where the agent is there already.
    pub open spec fn insert_agent(self, agent_id: u128) -> (StoreView, Result<(), StoreError>) {
        if self.agent(agent_id) is Some {
            (self, Err(StoreError::Conflict))
        } else {
            (
                StoreView {
                    agents: self.agents.push(
                        AgentRecordView {
                            agent_id,
                            current_system: None,
                            nixos_configuration_id: None,
                        },
                    ),
                    ..self
                },
                Ok(()),
            )
        }
    }

    /// Writing down the system that an agent runs: refused where the agent
    /// is not there.
    pub open spec fn set_current_system(self, agent_id: u128, current_system: Seq<char>) -> (
        StoreView,
        Result<(), StoreError>,
    ) {
        match first_match(self.agents, agent_with(agent_id)) {
            Some(at) => (
                StoreView {
                    agents: self.agents.update(
                        at,
                        AgentRecordView { current_system: Some(current_system), ..self.agents[at] },
                    ),
                    ..self
                },
                Ok(()),
            ),
            None => (self, Err(StoreError::Missing)),
        }
    }

    /// Assigning an agent to a configuration: refused where either is not
    /// there.
    pub open spec fn set_configuration(self, agent_id: u128, nixos_configuration_id: i64) -> (
        StoreView,
        Result<(), StoreError>,
    ) {
        match first_match(self.agents, agent_with(agent_id)) {
            Some(at) => if self.configuration(nixos_configuration_id) is None {
                (self, Err(StoreError::Missing))
            } else {
                (
                    StoreView {
                        agents: self.agents.update(
                            at,
                            AgentRecordView {
                                nixos_configuration_id: Some(nixos_configuration_id),
                                ..self.agents[at]
                            },
                        ),
                        ..self
                    },
                    Ok(()),
                )
            },
            None => (self, Err(StoreError::Missing)),
        }
    }

    /// What becomes of an agent's row when agents are matched to
    /// configurations: an agent without a configuration gets the
    /// configuration of the first evaluation that gave the system it runs,
    /// if there is one.
    pub open spec fn matched(self, row: AgentRecordView) -> AgentRecordView {
        match (row.nixos_configuration_id, row.current_system) {
            (None, Some(system)) => AgentRecordView {
                nixos_configuration_id: self.configuration_at(system),
                ..row
            },
            _ => row,
        }
    }

    /// Matching every agent to a configuration by the system it runs.
    pub open spec fn match_by_current_system(self) -> StoreView {
        StoreView {
            agents: Seq::new(self.agents.len(), |i: int| self.matched(self.agents[i])),
            ..self
        }
    }

    /// The configurations with the URLs of their flakes, for the rows whose
    /// flake is there.
    pub open spec fn configurations_with_url(self, upto: int) -> Seq<(ConfigurationView, Seq<char>)>
        decreases upto,
    {
        if upto <= 0 {
            Seq::empty()
        } else {
            let earlier = self.configurations_with_url(upto - 1);
            match self.flake(self.configurations[upto - 1].flake_id) {
                Some(flake) => earlier.push((self.configurations[upto - 1], flake.flake_url)),
                None => earlier,
            }
        }
    }

    /// The first `upto` flakes that have a revision, each with its latest
    /// one.
    pub open spec fn flakes_with_latest(self, upto: int) -> Seq<(FlakeView, FlakeRevisionView)>
        decreases upto,
    {
        if upto <= 0 {
            Seq::empty()
        } else {
            let earlier = self.flakes_with_latest(upto - 1);
            match self.latest_revision(self.flakes[upto - 1].flake_id) {
                Some(revision) => earlier.push((self.flakes[upto - 1], revision)),
                None => earlier,
            }
        }
    }
}

/// The values of pairs of rows.
pub open spec fn pair_views<A: View, B: View>(pairs: Seq<(A, B)>) -> Seq<(A::V, B::V)> {
    Seq::new(pairs.len(), |i: int| (pairs[i].0@, pairs[i].1@))
}

/// The server's rows, in memory.
#[derive(Debug)]
pub struct Store {
    flakes: Vec<Flake>,
    revisions: Vec<FlakeRevision>,
    configurations: Vec<Configuration>,
    evaluations: Vec<Evaluation>,
    agents: Vec<AgentRecord>,
    next_flake_id: i64,
    next_revision_id: i64,
    next_configuration_id: i64,
}

impl View for Store {
    type V = StoreView;

    closed spec fn view(&self) -> StoreView {
        StoreView {
            flakes: views(self.flakes@),
            revisions: views(self.revisions@),
            configurations: views(self.configurations@),
            evaluations: views(self.evaluations@),
            agents: views(self.agents@),
            next_flake_id: self.next_flake_id,
            next_revision_id: self.next_revision_id,
            next_configuration_id: self.next_configuration_id,
        }
    }
}

/// The value of an optional row.
pub open spec fn optional_view<T: View>(row: Option<T>) -> Option<T::V> {
    match row {
        Some(row) => Some(row@),
        None => None,
    }
}

impl Store {
    /// The store without rows.
    pub fn new() -> (store: Store)
        ensures
            store@ == StoreView::empty(),
    {
        let store = Store {
            flakes: Vec::new(),
            revisions: Vec::new(),
            configurations: Vec::new(),
            evaluations: Vec::new(),
            agents: Vec::new(),
            next_flake_id: 1,
            next_revision_id: 1,
            next_configuration_id: 1,
        };
        assert(store@.flakes =~= Seq::<FlakeView>::empty());
        assert(store@.revisions =~= Seq::<FlakeRevisionView>::empty());
        assert(store@.configurations =~= Seq::<ConfigurationView>::empty());
        assert(store@.evaluations =~= Seq::<EvaluationView>::empty());
        assert(store@.agents =~= Seq::<AgentRecordView>::empty());
        store
    }

    fn find_flake_at(&self, flake_url: &str) -> (at: Option<usize>)
        ensures
            at matches Some(at) ==> at < self.flakes.len(),
            match at {
                Some(at) => first_match(self@.flakes, flake_at(flake_url@)) == Some(at as int),
                None => first_match(self@.flakes, flake_at(flake_url@)) is None,
            },
    {
        let mut i: usize = 0;
        while i < self.flakes.len()
            invariant
                i <= self.flakes.len(),
                forall|k: int| 0 <= k < i ==> !flake_at(flake_url@)(#[trigger] self@.flakes[k]),
            decreases self.flakes.len() - i,
        {
            if str_eq(self.flakes[i].flake_url.as_str(), flake_url) {
                proof {
                    lemma_first_match_at(self@.flakes, flake_at(flake_url@), i as int);
                }
                return Some(i);
            }
            i += 1;
        }
        proof {
            lemma_first_match_none(self@.flakes, flake_at(flake_url@));
        }
        None
    }

    fn find_flake(&self, flake_id: i64) -> (at: Option<usize>)
        ensures
            at matches Some(at) ==> at < self.flakes.len(),
            match at {
                Some(at) => first_match(self@.flakes, flake_with(flake_id)) == Some(at as int),
                None => first_match(self@.flakes, flake_with(flake_id)) is None,
            },
    {
        let mut i: usize = 0;
        while i < self.flakes.len()
            invariant
                i <= self.flakes.len(),
                forall|k: int| 0 <= k < i ==> !flake_with(flake_id)(#[trigger] self@.flakes[k]),
            decreases self.flakes.len() - i,
        {
            if self.flakes[i].flake_id == flake_id {
                proof {
                    lemma_first_match_at(self@.flakes, flake_with(flake_id), i as int);
                }
                return Some(i);
            }
            i += 1;
        }
        proof {
            lemma_first_match_none(self@.flakes, flake_with(flake_id));
        }
        None
    }

    fn find_revision(&self, flake_revision_id: i64) -> (at: Option<usize>)
        ensures
            at matches Some(at) ==> at < self.revisions.len(),
            match at {
                Some(at) => first_match(self@.revisions, revision_with(flake_revision_id)) == Some(
                    at as int,
                ),
                None => first_match(self@.revisions, revision_with(flake_revision_id)) is None,
            },
    {
        let mut i: usize = 0;
        while i < self.revisions.len()
            invariant
                i <= self.revisions.len(),
                forall|k: int|
                    0 <= k < i ==> !revision_with(flake_revision_id)(
                        #[trigger] self@.revisions[k],
                    ),
            decreases self.revisions.len() - i,
        {
            if self.revisions[i].flake_revision_id == flake_revision_id {
                proof {
                    lemma_first_match_at(
                        self@.revisions,
                        revision_with(flake_revision_id),
                        i as int,
                    );
                }
                return Some(i);
            }
            i += 1;
        }
        proof {
            lemma_first_match_none(self@.revisions, revision_with(flake_revision_id));
        }
        None
    }

    fn find_latest_revision(&self, flake_id: i64) -> (at: Option<usize>)
        ensures
            at matches Some(at) ==> at < self.revisions.len(),
            match at {
                Some(at) => last_match(self@.revisions, revision_of(flake_id)) == Some(at as int),
                None => last_match(self@.revisions, revision_of(flake_id)) is None,
            },
    {
        let mut i: usize = self.revisions.len();
        while i > 0
            invariant
                i <= self.revisions.len(),
                forall|k: int|
                    i <= k < self.revisions.len() ==> !revision_of(flake_id)(
                        #[trigger] self@.revisions[k],
                    ),
            decreases i,
        {
            i -= 1;
            if self.revisions[i].flake_id == flake_id {
                proof {
                    lemma_last_match_at(self@.revisions, revision_of(flake_id), i as int);
                }
                return Some(i);
            }
        }
        proof {
            lemma_last_match_none(self@.revisions, revision_of(flake_id));
        }
        None
    }

    fn find_configuration_named(&self, flake_id: i64, name: &str) -> (at: Option<usize>)
        ensures
            at matches Some(at) ==> at < self.configurations.len(),
            match at {
                Some(at) => first_match(self@.configurations, configuration_named(flake_id, name@))
                    == Some(at as int),
                None => first_match(self@.configurations, configuration_named(flake_id, name@))
                    is None,
            },
    {
        let mut i: usize = 0;
        while i < self.configurations.len()
            invariant
                i <= self.configurations.len(),
                forall|k: int|
                    0 <= k < i ==> !configuration_named(flake_id, name@)(
                        #[trigger] self@.configurations[k],
                    ),
            decreases self.configurations.len() - i,
        {
            if self.configurations[i].flake_id == flake_id && str_eq(
                self.configurations[i].name.as_str(),
                name,
            ) {
                proof {
                    lemma_first_match_at(
                        self@.configurations,
                        configuration_named(flake_id, name@),
                        i as int,
                    );
                }
                return Some(i);
            }
            i += 1;
        }
        proof {
            lemma_first_match_none(self@.configurations, configuration_named(flake_id, name@));
        }
        None
    }

    fn find_configuration(&self, nixos_configuration_id: i64) -> (at: Option<usize>)
        ensures
            at matches Some(at) ==> at < self.configurations.len(),
            match at {
                Some(at) => first_match(
                    self@.configurations,
                    configuration_with(nixos_configuration_id),
                ) == Some(at as int),
                None => first_match(self@.configurations, configuration_with(nixos_configuration_id))
                    is None,
            },
    {
        let mut i: usize = 0;
        while i < self.configurations.len()
            invariant
                i <= self.configurations.len(),
                forall|k: int|
                    0 <= k < i ==> !configuration_with(nixos_configuration_id)(
                        #[trigger] self@.configurations[k],
                    ),
            decreases self.configurations.len() - i,
        {
            if self.configurations[i].nixos_configuration_id == nixos_configuration_id {
                proof {
                    lemma_first_match_at(
                        self@.configurations,
                        configuration_with(nixos_configuration_id),
                        i as int,
                    );
                }
                return Some(i);
            }
            i += 1;
        }
        proof {
            lemma_first_match_none(
                self@.configurations,
                configuration_with(nixos_configuration_id),
            );
        }
        None
    }

    fn find_evaluation(&self, flake_revision_id: i64, nixos_configuration_id: i64) -> (at: Option<
        usize,
    >)
        ensures
            at matches Some(at) ==> at < self.evaluations.len(),
            match at {
                Some(at) => first_match(
                    self@.evaluations,
                    evaluation_of(flake_revision_id, nixos_configuration_id),
                ) == Some(at as int),
                None => first_match(
                    self@.evaluations,
                    evaluation_of(flake_revision_id, nixos_configuration_id),
                ) is None,
            },
    {
        let ghost wanted = evaluation_of(flake_revision_id, nixos_configuration_id);
        let mut i: usize = 0;
        while i < self.evaluations.len()
            invariant
                i <= self.evaluations.len(),
                wanted == evaluation_of(flake_revision_id, nixos_configuration_id),
                forall|k: int| 0 <= k < i ==> !wanted(#[trigger] self@.evaluations[k]),
            decreases self.evaluations.len() - i,
        {
            if self.evaluations[i].flake_revision_id == flake_revision_id
                && self.evaluations[i].nixos_configuration_id == nixos_configuration_id {
                proof {
                    lemma_first_match_at(self@.evaluations, wanted, i as int);
                }
                return Some(i);
            }
            i += 1;
        }
        proof {
            lemma_first_match_none(self@.evaluations, wanted);
        }
        None
    }

    /// The id of the flake at `flake_url`.
    pub fn flake_id_of(&self, flake_url: &str) -> (id: Option<i64>)
        ensures
            id == self@.flake_id_of(flake_url@),
    {
        match self.find_flake_at(flake_url) {
            Some(at) => Some(self.flakes[at].flake_id),
            None => None,
        }
    }

    /// The flake with the id `flake_id`.
    pub fn flake(&self, flake_id: i64) -> (row: Option<Flake>)
        ensures
            optional_view(row) == self@.flake(flake_id),
    {
        match self.find_flake(flake_id) {
            Some(at) => Some(self.flakes[at].clone()),
            None => None,
        }
    }

    /// The revision with the id `flake_revision_id`.
    pub fn revision(&self, flake_revision_id: i64) -> (row: Option<FlakeRevision>)
        ensures
            optional_view(row) == self@.revision(flake_revision_id),
    {
        match self.find_revision(flake_revision_id) {
            Some(at) => Some(self.revisions[at].clone()),
            None => None,
        }
    }

    /// The revision of the flake `flake_id` that was written last.
    pub fn latest_revision(&self, flake_id: i64) -> (row: Option<FlakeRevision>)
        ensures
            optional_view(row) == self@.latest_revision(flake_id),
    {
        match self.find_latest_revision(flake_id) {
            Some(at) => Some(self.revisions[at].clone()),
            None => None,
        }
    }

    /// The id of the configuration `name` of the flake `flake_id`.
    pub fn configuration_id_of(&self, flake_id: i64, name: &str) -> (id: Option<i64>)
        ensures
            id == self@.configuration_id_of(flake_id, name@),
    {
        match self.find_configuration_named(flake_id, name) {
            Some(at) => Some(self.configurations[at].nixos_configuration_id),
            None => None,
        }
    }

    /// The configuration with the id `nixos_configuration_id`.
    pub fn configuration(&self, nixos_configuration_id: i64) -> (row: Option<Configuration>)
        ensures
            optional_view(row) == self@.configuration(nixos_configuration_id),
    {
        match self.find_configuration(nixos_configuration_id) {
            Some(at) => Some(self.configurations[at].clone()),
            None => None,
        }
    }

    /// The store path that the configuration evaluates to at the revision.
    pub fn store_path_of(&self, flake_revision_id: i64, nixos_configuration_id: i64) -> (path:
        Option<String>)
        ensures
            optional_text(path) == self@.store_path_of(flake_revision_id, nixos_configuration_id),
    {
        match self.find_evaluation(flake_revision_id, nixos_configuration_id) {
            Some(at) => Some(self.evaluations[at].store_path.clone()),
            None => None,
        }
    }

    /// Writes the flake at `flake_url` and gives its id. Refused with
    /// `Conflict` where the URL is there already.
    pub fn insert_flake(&mut self, flake_url: &str) -> (r: Result<i64, StoreError>)
        ensures
            (final(self)@, r) == old(self)@.insert_flake(flake_url@),
    {
        if self.find_flake_at(flake_url).is_some() {
            return Err(StoreError::Conflict);
        }
        if self.next_flake_id == i64::MAX {
            return Err(StoreError::Exhausted);
        }
        let id = self.next_flake_id;
        let row = Flake { flake_id: id, flake_url: flake_url.to_owned() };
        proof {
            lemma_views_push(self.flakes@, row);
        }
        self.flakes.push(row);
        self.next_flake_id = id + 1;
        Ok(id)
    }

    /// Writes the flake at `flake_url` together with its first revision, and
    /// gives the ids of both. Refused with `Conflict` where the URL is there
    /// already; nothing is written then.
    pub fn create_flake(
        &mut self,
        flake_url: &str,
        revision: &str,
        last_modified: i64,
        url: &str,
        metadata: Json,
    ) -> (r: Result<(i64, i64), StoreError>)
        ensures
            (final(self)@, r) == old(self)@.create_flake(
                flake_url@,
                revision@,
                last_modified,
                url@,
                metadata@,
            ),
    {
        if self.find_flake_at(flake_url).is_some() {
            return Err(StoreError::Conflict);
        }
        if self.next_flake_id == i64::MAX || self.next_revision_id == i64::MAX {
            return Err(StoreError::Exhausted);
        }
        let flake_id = self.next_flake_id;
        let flake_revision_id = self.next_revision_id;
        let flake = Flake { flake_id, flake_url: flake_url.to_owned() };
        let first = FlakeRevision {
            flake_revision_id,
            flake_id,
            revision: revision.to_owned(),
            last_modified,
            url: url.to_owned(),
            metadata,
        };
        proof {
            lemma_views_push(self.flakes@, flake);
            lemma_views_push(self.revisions@, first);
        }
        self.flakes.push(flake);
        self.revisions.push(first);
        self.next_flake_id = flake_id + 1;
        self.next_revision_id = flake_revision_id + 1;
        Ok((flake_id, flake_revision_id))
    }

    /// Writes a revision of the flake `flake_id` and gives its id. Refused
    /// with `Missing` where the flake is not there, and with `Unchanged`
    /// where the flake's latest revision has the same content hash.
    pub fn insert_revision(
        &mut self,
        flake_id: i64,
        revision: &str,
        last_modified: i64,
        url: &str,
        metadata: Json,
    ) -> (r: Result<i64, StoreError>)
        ensures
            (final(self)@, r) == old(self)@.insert_revision(
                flake_id,
                revision@,
                last_modified,
                url@,
                metadata@,
            ),
    {
        if self.find_flake(flake_id).is_none() {
            return Err(StoreError::Missing);
        }
        match self.find_latest_revision(flake_id) {
            Some(at) => {
                if str_eq(self.revisions[at].revision.as_str(), revision) {
                    return Err(StoreError::Unchanged);
                }
            },
            None => {},
        }
        if self.next_revision_id == i64::MAX {
            return Err(StoreError::Exhausted);
        }
        let id = self.next_revision_id;
        let row = FlakeRevision {
            flake_revision_id: id,
            flake_id,
            revision: revision.to_owned(),
            last_modified,
            url: url.to_owned(),
            metadata,
        };
        proof {
            lemma_views_push(self.revisions@, row);
        }
        self.revisions.push(row);
        self.next_revision_id = id + 1;
        Ok(id)
    }

    /// Gives the id of the configuration `name` of the flake `flake_id`, and
    /// writes the configuration first where it is not there. Refused with
    /// `Missing` where the flake is not there.
    pub fn upsert_nixos_configuration(&mut self, flake_id: i64, name: &str) -> (r: Result<
        i64,
        StoreError,
    >)
        ensures
            (final(self)@, r) == old(self)@.upsert_configuration(flake_id, name@),
    {
        match self.find_configuration_named(flake_id, name) {
            Some(at) => {
                return Ok(self.configurations[at].nixos_configuration_id);
            },
            None => {},
        }
        if self.find_flake(flake_id).is_none() {
            return Err(StoreError::Missing);
        }
        if self.next_configuration_id == i64::MAX {
            return Err(StoreError::Exhausted);
        }
        let id = self.next_configuration_id;
        let row = Configuration { nixos_configuration_id: id, flake_id, name: name.to_owned() };
        proof {
            lemma_views_push(self.configurations@, row);
        }
        self.configurations.push(row);
        self.next_configuration_id = id + 1;
        Ok(id)
    }

    /// Writes what a configuration evaluates to at a revision. Where the pair
    /// has an evaluation already, nothing is written and the result is
    /// `false`. Refused with `Missing` where the revision or the
    /// configuration is not there.
    pub fn insert_nixos_configutaion_evaluation(
        &mut self,
        flake_revision_id: i64,
        nixos_configuration_id: i64,
        store_path: &str,
    ) -> (r: Result<bool, StoreError>)
        ensures
            (final(self)@, r) == old(self)@.insert_evaluation(
                flake_revision_id,
                nixos_configuration_id,
                store_path@,
            ),
    {
        if self.find_evaluation(flake_revision_id, nixos_configuration_id).is_some() {
            return Ok(false);
        }
        if self.find_revision(flake_revision_id).is_none() || self.find_configuration(
            nixos_configuration_id,
        ).is_none() {
            return Err(StoreError::Missing);
        }
        let row = Evaluation {
            flake_revision_id,
            nixos_configuration_id,
            store_path: store_path.to_owned(),
        };
        proof {
            lemma_views_push(self.evaluations@, row);
        }
        self.evaluations.push(row);
        Ok(true)
    }

    fn find_agent(&self, agent_id: AgentId) -> (at: Option<usize>)
        ensures
            at matches Some(at) ==> at < self.agents.len(),
            match at {
                Some(at) => first_match(self@.agents, agent_with(agent_id@)) == Some(at as int),
                None => first_match(self@.agents, agent_with(agent_id@)) is None,
            },
    {
        let mut i: usize = 0;
        while i < self.agents.len()
            invariant
                i <= self.agents.len(),
                forall|k: int| 0 <= k < i ==> !agent_with(agent_id@)(#[trigger] self@.agents[k]),
            decreases self.agents.len() - i,
        {
            if self.agents[i].agent_id.0 == agent_id.0 {
                proof {
                    lemma_first_match_at(self@.agents, agent_with(agent_id@), i as int);
                }
                return Some(i);
            }
            i += 1;
        }
        proof {
            lemma_first_match_none(self@.agents, agent_with(agent_id@));
        }
        None
    }

    fn find_evaluation_at(&self, store_path: &str) -> (at: Option<usize>)
        ensures
            at matches Some(at) ==> at < self.evaluations.len(),
            match at {
                Some(at) => first_match(self@.evaluations, evaluation_at(store_path@)) == Some(
                    at as int,
                ),
                None => first_match(self@.evaluations, evaluation_at(store_path@)) is None,
            },
    {
        let mut i: usize = 0;
        while i < self.evaluations.len()
            invariant
                i <= self.evaluations.len(),
                forall|k: int|
                    0 <= k < i ==> !evaluation_at(store_path@)(#[trigger] self@.evaluations[k]),
            decreases self.evaluations.len() - i,
        {
            if str_eq(self.evaluations[i].store_path.as_str(), store_path) {
                proof {
                    lemma_first_match_at(self@.evaluations, evaluation_at(store_path@), i as int);
                }
                return Some(i);
            }
            i += 1;
        }
        proof {
            lemma_first_match_none(self@.evaluations, evaluation_at(store_path@));
        }
        None
    }

    /// What is kept of the agent `agent_id`.
    pub fn agent(&self, agent_id: AgentId) -> (row: Option<AgentRecord>)
        ensures
            optional_view(row) == self@.agent(agent_id@),
    {
        match self.find_agent(agent_id) {
            Some(at) => Some(self.agents[at].clone()),
            None => None,
        }
    }

    /// The first agent that is assigned to `nixos_configuration_id`.
    pub fn agent_of(&self, nixos_configuration_id: i64) -> (agent_id: Option<AgentId>)
        ensures
            match agent_id {
                Some(agent_id) => self@.agent_of(nixos_configuration_id) == Some(agent_id@),
                None => self@.agent_of(nixos_configuration_id) is None,
            },
    {
        let ghost wanted = agent_assigned(nixos_configuration_id);
        let mut i: usize = 0;
        while i < self.agents.len()
            invariant
                i <= self.agents.len(),
                wanted == agent_assigned(nixos_configuration_id),
                forall|k: int| 0 <= k < i ==> !wanted(#[trigger] self@.agents[k]),
            decreases self.agents.len() - i,
        {
            match self.agents[i].nixos_configuration_id {
                Some(assigned) => {
                    if assigned == nixos_configuration_id {
                        proof {
                            lemma_first_match_at(self@.agents, wanted, i as int);
                        }
                        return Some(self.agents[i].agent_id);
                    }
                },
                None => {},
            }
            i += 1;
        }
        proof {
            lemma_first_match_none(self@.agents, wanted);
        }
        None
    }

    /// The configuration of the first evaluation that gave `store_path`.
    pub fn configuration_at(&self, store_path: &str) -> (id: Option<i64>)
        ensures
            id == self@.configuration_at(store_path@),
    {
        match self.find_evaluation_at(store_path) {
            Some(at) => Some(self.evaluations[at].nixos_configuration_id),
            None => None,
        }
    }

    /// Writes the agent `agent_id`, which runs nothing yet that the store
    /// knows of and is assigned to nothing. Refused with `Conflict` where
    /// the agent is there already.
    pub fn insert_agent(&mut self, agent_id: AgentId) -> (r: Result<(), StoreError>)
        ensures
            (final(self)@, r) == old(self)@.insert_agent(agent_id@),
    {
        if self.find_agent(agent_id).is_some() {
            return Err(StoreError::Conflict);
        }
        let row = AgentRecord { agent_id, current_system: None, nixos_configuration_id: None };
        proof {
            lemma_views_push(self.agents@, row);
        }
        self.agents.push(row);
        Ok(())
    }

    /// Writes down the system that the agent `agent_id` runs. Refused with
    /// `Missing` where the agent is not there.
    pub fn set_current_system(&mut self, agent_id: AgentId, current_system: &str) -> (r: Result<
        (),
        StoreError,
    >)
        ensures
            (final(self)@, r) == old(self)@.set_current_system(agent_id@, current_system@),
    {
        match self.find_agent(agent_id) {
            Some(at) => {
                let row = AgentRecord {
                    agent_id: self.agents[at].agent_id,
                    current_system: Some(current_system.to_owned()),
                    nixos_configuration_id: self.agents[at].nixos_configuration_id,
                };
                let ghost before = self@.agents;
                self.agents.set(at, row);
                assert(self@.agents =~= before.update(at as int, row@));
                Ok(())
            },
            None => Err(StoreError::Missing),
        }
    }

    /// Assigns the agent `agent_id` to a configuration. Refused with
    /// `Missing` where the agent or the configuration is not there.
    pub fn set_configuration(&mut self, agent_id: AgentId, nixos_configuration_id: i64) -> (r:
        Result<(), StoreError>)
        ensures
            (final(self)@, r) == old(self)@.set_configuration(agent_id@, nixos_configuration_id),
    {
        match self.find_agent(agent_id) {
            Some(at) => {
                if self.find_configuration(nixos_configuration_id).is_none() {
                    return Err(StoreError::Missing);
                }
                let row = AgentRecord {
                    agent_id: self.agents[at].agent_id,
                    current_system: match &self.agents[at].current_system {
                        Some(system) => Some(system.clone()),
                        None => None,
                    },
                    nixos_configuration_id: Some(nixos_configuration_id),
                };
                let ghost before = self@.agents;
                self.agents.set(at, row);
                assert(self@.agents =~= before.update(at as int, row@));
                Ok(())
            },
            None => Err(StoreError::Missing),
        }
    }

    /// Assigns every agent that has no configuration to the configuration
    /// that evaluates to the system it runs, where there is one. Of several
    /// such configurations, the one that was evaluated first is taken.
    pub fn match_agent_to_configuration(&mut self)
        ensures
            final(self)@ == old(self)@.match_by_current_system(),
    {
        let ghost before = self@;
        let mut i: usize = 0;
        while i < self.agents.len()
            invariant
                i <= self.agents.len(),
                self@.agents.len() == before.agents.len(),
                self@.flakes == before.flakes,
                self@.revisions == before.revisions,
                self@.configurations == before.configurations,
                self@.evaluations == before.evaluations,
                self@.next_flake_id == before.next_flake_id,
                self@.next_revision_id == before.next_revision_id,
                self@.next_configuration_id == before.next_configuration_id,
                forall|k: int| 0 <= k < i ==> self@.agents[k] == before.matched(before.agents[k]),
                forall|k: int| i <= k < self.agents.len() ==> self@.agents[k] == before.agents[k],
            decreases self.agents.len() - i,
        {
            if self.agents[i].nixos_configuration_id.is_none() {
                let found = match &self.agents[i].current_system {
                    Some(system) => Some(self.configuration_at(system.as_str())),
                    None => None,
                };
                match found {
                    Some(assigned) => {
                        let row = AgentRecord {
                            agent_id: self.agents[i].agent_id,
                            current_system: match &self.agents[i].current_system {
                                Some(system) => Some(system.clone()),
                                None => None,
                            },
                            nixos_configuration_id: assigned,
                        };
                        let ghost rows = self@.agents;
                        self.agents.set(i, row);
                        assert(self@.agents =~= rows.update(i as int, row@));
                    },
                    None => {},
                }
            }
            i += 1;
        }
        assert(self@.agents =~= before.match_by_current_system().agents);
    }

    /// What is kept of every agent, oldest first.
    pub fn get_agents(&self) -> (rows: Vec<AgentRecord>)
        ensures
            views(rows@) == self@.agents,
    {
        let mut rows: Vec<AgentRecord> = Vec::new();
        let mut i: usize = 0;
        while i < self.agents.len()
            invariant
                i <= self.agents.len(),
                rows@.len() == i,
                forall|k: int| 0 <= k < i ==> rows@[k]@ == self@.agents[k],
            decreases self.agents.len() - i,
        {
            rows.push(self.agents[i].clone());
            i += 1;
        }
        assert(views(rows@) =~= self@.agents);
        rows
    }

    /// Every flake, oldest first.
    pub fn flakes(&self) -> (rows: Vec<Flake>)
        ensures
            views(rows@) == self@.flakes,
    {
        let rows = self.flakes_since(0);
        assert(rows_since(self@.flakes, 0) =~= self@.flakes);
        rows
    }

    /// The flakes from the place `from` of the table on, oldest first.
    pub fn flakes_since(&self, from: usize) -> (rows: Vec<Flake>)
        ensures
            views(rows@) == rows_since(self@.flakes, from as int),
            from + rows@.len() <= usize::MAX,
    {
        let mut rows: Vec<Flake> = Vec::new();
        let mut i: usize = from;
        while i < self.flakes.len()
            invariant
                from <= i,
                i <= self.flakes.len() || i == from,
                rows@.len() == i - from,
                forall|k: int| 0 <= k < i - from ==> rows@[k]@ == self@.flakes[from + k],
            decreases self.flakes.len() - i,
        {
            rows.push(self.flakes[i].clone());
            i += 1;
        }
        assert(views(rows@) =~= rows_since(self@.flakes, from as int));
        rows
    }

    /// Every revision, oldest first.
    pub fn revisions(&self) -> (rows: Vec<FlakeRevision>)
        ensures
            views(rows@) == self@.revisions,
    {
        let rows = self.revisions_since(0);
        assert(rows_since(self@.revisions, 0) =~= self@.revisions);
        rows
    }

    /// The revisions from the place `from` of the table on, oldest first.
    pub fn revisions_since(&self, from: usize) -> (rows: Vec<FlakeRevision>)
        ensures
            views(rows@) == rows_since(self@.revisions, from as int),
            from + rows@.len() <= usize::MAX,
    {
        let mut rows: Vec<FlakeRevision> = Vec::new();
        let mut i: usize = from;
        while i < self.revisions.len()
            invariant
                from <= i,
                i <= self.revisions.len() || i == from,
                rows@.len() == i - from,
                forall|k: int| 0 <= k < i - from ==> rows@[k]@ == self@.revisions[from + k],
            decreases self.revisions.len() - i,
        {
            rows.push(self.revisions[i].clone());
            i += 1;
        }
        assert(views(rows@) =~= rows_since(self@.revisions, from as int));
        rows
    }

    /// Every configuration, oldest first.
    pub fn configurations(&self) -> (rows: Vec<Configuration>)
        ensures
            views(rows@) == self@.configurations,
    {
        let rows = self.configurations_since(0);
        assert(rows_since(self@.configurations, 0) =~= self@.configurations);
        rows
    }

    /// The configurations from the place `from` of the table on, oldest first.
    pub fn configurations_since(&self, from: usize) -> (rows: Vec<Configuration>)
        ensures
            views(rows@) == rows_since(self@.configurations, from as int),
            from + rows@.len() <= usize::MAX,
    {
        let mut rows: Vec<Configuration> = Vec::new();
        let mut i: usize = from;
        while i < self.configurations.len()
            invariant
                from <= i,
                i <= self.configurations.len() || i == from,
                rows@.len() == i - from,
                forall|k: int| 0 <= k < i - from ==> rows@[k]@ == self@.configurations[from + k],
            decreases self.configurations.len() - i,
        {
            rows.push(self.configurations[i].clone());
            i += 1;
        }
        assert(views(rows@) =~= rows_since(self@.configurations, from as int));
        rows
    }

    /// Every evaluation, oldest first.
    pub fn evaluations(&self) -> (rows: Vec<Evaluation>)
        ensures
            views(rows@) == self@.evaluations,
    {
        let rows = self.evaluations_since(0);
        assert(rows_since(self@.evaluations, 0) =~= self@.evaluations);
        rows
    }

    /// The evaluations from the place `from` of the table on, oldest first.
    pub fn evaluations_since(&self, from: usize) -> (rows: Vec<Evaluation>)
        ensures
            views(rows@) == rows_since(self@.evaluations, from as int),
            from + rows@.len() <= usize::MAX,
    {
        let mut rows: Vec<Evaluation> = Vec::new();
        let mut i: usize = from;
        while i < self.evaluations.len()
            invariant
                from <= i,
                i <= self.evaluations.len() || i == from,
                rows@.len() == i - from,
                forall|k: int| 0 <= k < i - from ==> rows@[k]@ == self@.evaluations[from + k],
            decreases self.evaluations.len() - i,
        {
            rows.push(self.evaluations[i].clone());
            i += 1;
        }
        assert(views(rows@) =~= rows_since(self@.evaluations, from as int));
        rows
    }

    /// Every configuration with the URL of its flake, oldest first.
    pub fn list_configurations(&self) -> (rows: Vec<(Configuration, String)>)
        ensures
            pair_text_views(rows@) == self@.configurations_with_url(
                self@.configurations.len() as int,
            ),
    {
        let mut rows: Vec<(Configuration, String)> = Vec::new();
        let mut i: usize = 0;
        while i < self.configurations.len()
            invariant
                i <= self.configurations.len(),
                pair_text_views(rows@) == self@.configurations_with_url(i as int),
            decreases self.configurations.len() - i,
        {
            match self.find_flake(self.configurations[i].flake_id) {
                Some(at) => {
                    let ghost before = rows@;
                    let pair = (self.configurations[i].clone(), self.flakes[at].flake_url.clone());
                    rows.push(pair);
                    assert(pair_text_views(rows@) =~= pair_text_views(before).push(
                        (pair.0@, pair.1@),
                    ));
                },
                None => {},
            }
            i += 1;
        }
        rows
    }

    /// Every flake that has a revision, with its latest one, oldest flake
    /// first.
    pub fn get_flakes(&self) -> (rows: Vec<(Flake, FlakeRevision)>)
        ensures
            pair_views(rows@) == self@.flakes_with_latest(self@.flakes.len() as int),
    {
        let mut rows: Vec<(Flake, FlakeRevision)> = Vec::new();
        let mut i: usize = 0;
        while i < self.flakes.len()
            invariant
                i <= self.flakes.len(),
                pair_views(rows@) == self@.flakes_with_latest(i as int),
            decreases self.flakes.len() - i,
        {
            match self.find_latest_revision(self.flakes[i].flake_id) {
                Some(at) => {
                    let ghost before = rows@;
                    let pair = (self.flakes[i].clone(), self.revisions[at].clone());
                    rows.push(pair);
                    assert(pair_views(rows@) =~= pair_views(before).push((pair.0@, pair.1@)));
                },
                None => {},
            }
            i += 1;
        }
        rows
    }
}

/// The values of pairs of a row and a string.
pub open spec fn pair_text_views<A: View>(pairs: Seq<(A, String)>) -> Seq<(A::V, Seq<char>)> {
    Seq::new(pairs.len(), |i: int| (pairs[i].0@, pairs[i].1@))
}

} // verus!
