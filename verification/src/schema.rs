//! The rules of the schema, and the proof that every write keeps them.

use crate::json::JsonValue;
use crate::store::{
    agent_with, configuration_named, configuration_with, evaluation_of, flake_at, flake_with,
    revision_of, revision_with, ConfigurationView, FlakeRevisionView, FlakeView, StoreView,
};
use crate::table::{last_match, lemma_first_match, lemma_first_match_push, lemma_last_match};
use vstd::prelude::*;

verus! {

impl StoreView {
    /// Every id of a row was given out: it is at least 1 and below the id
    /// that the next row gets.
    pub open spec fn ids_issued(self) -> bool {
        &&& 1 <= self.next_flake_id
        &&& 1 <= self.next_revision_id
        &&& 1 <= self.next_configuration_id
        &&& forall|i: int|
            0 <= i < self.flakes.len() ==> 1 <= (#[trigger] self.flakes[i]).flake_id
                < self.next_flake_id
        &&& forall|i: int|
            0 <= i < self.revisions.len() ==> 1 <= (#[trigger] self.revisions[i]).flake_revision_id
                < self.next_revision_id
        &&& forall|i: int|
            0 <= i < self.configurations.len() ==> 1 <= (
            #[trigger] self.configurations[i]).nixos_configuration_id < self.next_configuration_id
    }

    /// No two flakes share an id or a URL.
    pub open spec fn flakes_unique(self) -> bool {
        forall|i: int, j: int|
            0 <= i < j < self.flakes.len() ==> (#[trigger] self.flakes[i]).flake_id != (
            #[trigger] self.flakes[j]).flake_id && self.flakes[i].flake_url
                != self.flakes[j].flake_url
    }

    /// No two revisions share an id.
    pub open spec fn revisions_unique(self) -> bool {
        forall|i: int, j: int|
            0 <= i < j < self.revisions.len() ==> (#[trigger] self.revisions[i]).flake_revision_id
                != (#[trigger] self.revisions[j]).flake_revision_id
    }

    /// No two configurations share an id, and no two configurations of one
    /// flake share a name.
    pub open spec fn configurations_unique(self) -> bool {
        forall|i: int, j: int|
            0 <= i < j < self.configurations.len() ==> (
            #[trigger] self.configurations[i]).nixos_configuration_id != (
            #[trigger] self.configurations[j]).nixos_configuration_id && !(
            self.configurations[i].flake_id == self.configurations[j].flake_id
                && self.configurations[i].name == self.configurations[j].name)
    }

    /// A pair of revision and configuration has at most one evaluation.
    pub open spec fn evaluations_unique(self) -> bool {
        forall|i: int, j: int|
            0 <= i < j < self.evaluations.len() ==> !((
            #[trigger] self.evaluations[i]).flake_revision_id == (
            #[trigger] self.evaluations[j]).flake_revision_id
                && self.evaluations[i].nixos_configuration_id
                == self.evaluations[j].nixos_configuration_id)
    }

    /// No two rows stand for one agent.
    pub open spec fn agents_unique(self) -> bool {
        forall|i: int, j: int|
            0 <= i < j < self.agents.len() ==> (#[trigger] self.agents[i]).agent_id != (
            #[trigger] self.agents[j]).agent_id
    }

    /// No row points at a row that is not there: a revision and a
    /// configuration have their flake, an evaluation has its revision and its
    /// configuration, and an agent has the configuration it is assigned to.
    pub open spec fn references_hold(self) -> bool {
        &&& forall|i: int|
            0 <= i < self.revisions.len() ==> self.flake(
                (#[trigger] self.revisions[i]).flake_id,
            ) is Some
        &&& forall|i: int|
            0 <= i < self.configurations.len() ==> self.flake(
                (#[trigger] self.configurations[i]).flake_id,
            ) is Some
        &&& forall|i: int|
            0 <= i < self.evaluations.len() ==> self.revision(
                (#[trigger] self.evaluations[i]).flake_revision_id,
            ) is Some && self.configuration(self.evaluations[i].nixos_configuration_id) is Some
        &&& forall|i: int|
            0 <= i < self.agents.len() ==> (
            (#[trigger] self.agents[i]).nixos_configuration_id matches Some(id)
                ==> self.configuration(id) is Some)
    }

    /// A revision differs from the revision of its flake that came just
    /// before it.
    pub open spec fn revisions_alternate(self) -> bool {
        forall|j: int|
            0 <= j < self.revisions.len() ==> (last_match(
                self.revisions.take(j),
                revision_of((#[trigger] self.revisions[j]).flake_id),
            ) matches Some(i) ==> self.revisions[i].revision != self.revisions[j].revision)
    }

    /// The rules of the schema.
    pub open spec fn well_formed(self) -> bool {
        &&& self.ids_issued()
        &&& self.flakes_unique()
        &&& self.revisions_unique()
        &&& self.configurations_unique()
        &&& self.evaluations_unique()
        &&& self.agents_unique()
        &&& self.references_hold()
        &&& self.revisions_alternate()
    }
}

/// One write to the store.
pub enum Write {
    CreateFlake {
        flake_url: Seq<char>,
        revision: Seq<char>,
        last_modified: i64,
        url: Seq<char>,
        metadata: JsonValue,
    },
    InsertFlake { flake_url: Seq<char> },
    InsertRevision {
        flake_id: i64,
        revision: Seq<char>,
        last_modified: i64,
        url: Seq<char>,
        metadata: JsonValue,
    },
    UpsertConfiguration { flake_id: i64, name: Seq<char> },
    InsertEvaluation { flake_revision_id: i64, nixos_configuration_id: i64, store_path: Seq<char> },
    InsertAgent { agent_id: u128 },
    SetCurrentSystem { agent_id: u128, current_system: Seq<char> },
    SetConfiguration { agent_id: u128, nixos_configuration_id: i64 },
    MatchByCurrentSystem,
}

impl StoreView {
    /// The store after one write, refused or not.
    pub open spec fn write(self, write: Write) -> StoreView {
        match write {
            Write::CreateFlake { flake_url, revision, last_modified, url, metadata } => {
                self.create_flake(flake_url, revision, last_modified, url, metadata).0
            },
            Write::InsertFlake { flake_url } => self.insert_flake(flake_url).0,
            Write::InsertRevision { flake_id, revision, last_modified, url, metadata } => {
                self.insert_revision(flake_id, revision, last_modified, url, metadata).0
            },
            Write::UpsertConfiguration { flake_id, name } => self.upsert_configuration(
                flake_id,
                name,
            ).0,
            Write::InsertEvaluation { flake_revision_id, nixos_configuration_id, store_path } => {
                self.insert_evaluation(flake_revision_id, nixos_configuration_id, store_path).0
            },
            Write::InsertAgent { agent_id } => self.insert_agent(agent_id).0,
            Write::SetCurrentSystem { agent_id, current_system } => self.set_current_system(
                agent_id,
                current_system,
            ).0,
            Write::SetConfiguration { agent_id, nixos_configuration_id } => self.set_configuration(
                agent_id,
                nixos_configuration_id,
            ).0,
            Write::MatchByCurrentSystem => self.match_by_current_system(),
        }
    }

    /// The store after `writes`, taken from the store without rows.
    pub open spec fn after(writes: Seq<Write>) -> StoreView
        decreases writes.len(),
    {
        if writes.len() == 0 {
            StoreView::empty()
        } else {
            StoreView::after(writes.drop_last()).write(writes.last())
        }
    }
}

/// A flake that is there stays there when a flake is written.
proof fn lemma_flake_stays(store: StoreView, row: FlakeView, flake_id: i64)
    requires
        store.flake(flake_id) is Some,
    ensures
        (StoreView { flakes: store.flakes.push(row), ..store }).flake(flake_id) is Some,
{
    lemma_first_match_push(store.flakes, flake_with(flake_id), row);
}

/// A revision that is there stays there when a revision is written.
proof fn lemma_revision_stays(store: StoreView, row: FlakeRevisionView, flake_revision_id: i64)
    requires
        store.revision(flake_revision_id) is Some,
    ensures
        (StoreView { revisions: store.revisions.push(row), ..store }).revision(flake_revision_id)
            is Some,
{
    lemma_first_match_push(store.revisions, revision_with(flake_revision_id), row);
}

/// A configuration that is there stays there when a configuration is
/// written.
proof fn lemma_configuration_stays(
    store: StoreView,
    row: ConfigurationView,
    nixos_configuration_id: i64,
)
    requires
        store.configuration(nixos_configuration_id) is Some,
    ensures
        (StoreView { configurations: store.configurations.push(row), ..store }).configuration(
            nixos_configuration_id,
        ) is Some,
{
    lemma_first_match_push(store.configurations, configuration_with(nixos_configuration_id), row);
}

/// Writing a flake keeps the rules.
pub proof fn lemma_insert_flake(store: StoreView, flake_url: Seq<char>)
    requires
        store.well_formed(),
    ensures
        store.insert_flake(flake_url).0.well_formed(),
{
    let after = store.insert_flake(flake_url).0;
    if after != store {
        let row = FlakeView { flake_id: store.next_flake_id, flake_url };
        lemma_first_match(store.flakes, flake_at(flake_url));
        assert(after.flakes_unique()) by {
            assert forall|i: int, j: int| 0 <= i < j < after.flakes.len() implies (
            #[trigger] after.flakes[i]).flake_id != (#[trigger] after.flakes[j]).flake_id
                && after.flakes[i].flake_url != after.flakes[j].flake_url by {
                if j == store.flakes.len() {
                    assert(!flake_at(flake_url)(store.flakes[i]));
                }
            }
        }
        assert(after.references_hold()) by {
            assert forall|i: int| 0 <= i < after.revisions.len() implies after.flake(
                (#[trigger] after.revisions[i]).flake_id,
            ) is Some by {
                lemma_flake_stays(store, row, store.revisions[i].flake_id);
            }
            assert forall|i: int| 0 <= i < after.configurations.len() implies after.flake(
                (#[trigger] after.configurations[i]).flake_id,
            ) is Some by {
                lemma_flake_stays(store, row, store.configurations[i].flake_id);
            }
        }
    }
}

/// Writing a flake together with its first revision keeps the rules: it is
/// writing the flake and then the revision.
pub proof fn lemma_create_flake(
    store: StoreView,
    flake_url: Seq<char>,
    revision: Seq<char>,
    last_modified: i64,
    url: Seq<char>,
    metadata: JsonValue,
)
    requires
        store.well_formed(),
    ensures
        store.create_flake(flake_url, revision, last_modified, url, metadata).0.well_formed(),
{
    let after = store.create_flake(flake_url, revision, last_modified, url, metadata).0;
    if after != store {
        let with_flake = store.insert_flake(flake_url).0;
        lemma_insert_flake(store, flake_url);
        lemma_first_match_push(
            store.flakes,
            flake_with(store.next_flake_id),
            FlakeView { flake_id: store.next_flake_id, flake_url },
        );
        lemma_last_match(with_flake.revisions, revision_of(store.next_flake_id));
        assert(with_flake.latest_revision(store.next_flake_id) is None) by {
            if last_match(with_flake.revisions, revision_of(store.next_flake_id)) is Some {
                let at = last_match(with_flake.revisions, revision_of(store.next_flake_id))->0;
                assert(store.flake(store.revisions[at].flake_id) is Some);
                lemma_first_match(store.flakes, flake_with(store.next_flake_id));
            }
        }
        lemma_insert_revision(
            with_flake,
            store.next_flake_id,
            revision,
            last_modified,
            url,
            metadata,
        );
        assert(after == with_flake.insert_revision(
            store.next_flake_id,
            revision,
            last_modified,
            url,
            metadata,
        ).0);
    }
}

/// Writing a revision keeps the rules.
pub proof fn lemma_insert_revision(
    store: StoreView,
    flake_id: i64,
    revision: Seq<char>,
    last_modified: i64,
    url: Seq<char>,
    metadata: JsonValue,
)
    requires
        store.well_formed(),
    ensures
        store.insert_revision(flake_id, revision, last_modified, url, metadata).0.well_formed(),
{
    let after = store.insert_revision(flake_id, revision, last_modified, url, metadata).0;
    if after != store {
        let row = FlakeRevisionView {
            flake_revision_id: store.next_revision_id,
            flake_id,
            revision,
            last_modified,
            url,
            metadata,
        };
        assert(after.references_hold()) by {
            assert forall|i: int| 0 <= i < after.evaluations.len() implies after.revision(
                (#[trigger] after.evaluations[i]).flake_revision_id,
            ) is Some && after.configuration(after.evaluations[i].nixos_configuration_id)
                is Some by {
                lemma_revision_stays(store, row, store.evaluations[i].flake_revision_id);
            }
        }
        assert(after.revisions_alternate()) by {
            assert forall|j: int| 0 <= j < after.revisions.len() implies (last_match(
                after.revisions.take(j),
                revision_of((#[trigger] after.revisions[j]).flake_id),
            ) matches Some(i) ==> after.revisions[i].revision != after.revisions[j].revision) by {
                if j < store.revisions.len() {
                    assert(after.revisions.take(j) =~= store.revisions.take(j));
                    lemma_last_match(store.revisions.take(j), revision_of(store.revisions[j].flake_id));
                } else {
                    assert(after.revisions.take(j) =~= store.revisions);
                    lemma_last_match(store.revisions, revision_of(flake_id));
                }
            }
        }
    }
}

/// Writing a configuration unless it is there keeps the rules.
pub proof fn lemma_upsert_configuration(store: StoreView, flake_id: i64, name: Seq<char>)
    requires
        store.well_formed(),
    ensures
        store.upsert_configuration(flake_id, name).0.well_formed(),
{
    let after = store.upsert_configuration(flake_id, name).0;
    if after != store {
        let row = ConfigurationView {
            nixos_configuration_id: store.next_configuration_id,
            flake_id,
            name,
        };
        lemma_first_match(store.configurations, configuration_named(flake_id, name));
        assert(after.configurations_unique()) by {
            assert forall|i: int, j: int| 0 <= i < j < after.configurations.len() implies (
            #[trigger] after.configurations[i]).nixos_configuration_id != (
            #[trigger] after.configurations[j]).nixos_configuration_id && !(
            after.configurations[i].flake_id == after.configurations[j].flake_id
                && after.configurations[i].name == after.configurations[j].name) by {
                if j == store.configurations.len() {
                    assert(!configuration_named(flake_id, name)(store.configurations[i]));
                }
            }
        }
        assert(after.references_hold()) by {
            assert forall|i: int| 0 <= i < after.evaluations.len() implies after.revision(
                (#[trigger] after.evaluations[i]).flake_revision_id,
            ) is Some && after.configuration(after.evaluations[i].nixos_configuration_id)
                is Some by {
                lemma_configuration_stays(
                    store,
                    row,
                    store.evaluations[i].nixos_configuration_id,
                );
            }
            assert forall|i: int| 0 <= i < after.agents.len() implies (
            (#[trigger] after.agents[i]).nixos_configuration_id matches Some(id)
                ==> after.configuration(id) is Some) by {
                match store.agents[i].nixos_configuration_id {
                    Some(id) => {
                        lemma_configuration_stays(store, row, id);
                    },
                    None => {},
                }
            }
        }
    }
}

/// Writing an evaluation keeps the rules.
pub proof fn lemma_insert_evaluation(
    store: StoreView,
    flake_revision_id: i64,
    nixos_configuration_id: i64,
    store_path: Seq<char>,
)
    requires
        store.well_formed(),
    ensures
        store.insert_evaluation(flake_revision_id, nixos_configuration_id, store_path).0.well_formed(),
{
    let after = store.insert_evaluation(flake_revision_id, nixos_configuration_id, store_path).0;
    if after != store {
        lemma_first_match(
            store.evaluations,
            evaluation_of(flake_revision_id, nixos_configuration_id),
        );
        assert(after.evaluations_unique()) by {
            assert forall|i: int, j: int| 0 <= i < j < after.evaluations.len() implies !((
            #[trigger] after.evaluations[i]).flake_revision_id == (
            #[trigger] after.evaluations[j]).flake_revision_id
                && after.evaluations[i].nixos_configuration_id
                == after.evaluations[j].nixos_configuration_id) by {
                if j == store.evaluations.len() {
                    assert(!evaluation_of(flake_revision_id, nixos_configuration_id)(
                        store.evaluations[i],
                    ));
                }
            }
        }
    }
}

/// Writing an agent keeps the rules.
pub proof fn lemma_insert_agent(store: StoreView, agent_id: u128)
    requires
        store.well_formed(),
    ensures
        store.insert_agent(agent_id).0.well_formed(),
{
    let after = store.insert_agent(agent_id).0;
    if after != store {
        lemma_first_match(store.agents, agent_with(agent_id));
        assert(after.agents_unique()) by {
            assert forall|i: int, j: int| 0 <= i < j < after.agents.len() implies (
            #[trigger] after.agents[i]).agent_id != (#[trigger] after.agents[j]).agent_id by {
                if j == store.agents.len() {
                    assert(!agent_with(agent_id)(store.agents[i]));
                }
            }
        }
    }
}

/// Writing down the system that an agent runs keeps the rules.
pub proof fn lemma_set_current_system(store: StoreView, agent_id: u128, current_system: Seq<char>)
    requires
        store.well_formed(),
    ensures
        store.set_current_system(agent_id, current_system).0.well_formed(),
{
    lemma_first_match(store.agents, agent_with(agent_id));
}

/// Assigning an agent to a configuration keeps the rules.
pub proof fn lemma_set_configuration(store: StoreView, agent_id: u128, nixos_configuration_id: i64)
    requires
        store.well_formed(),
    ensures
        store.set_configuration(agent_id, nixos_configuration_id).0.well_formed(),
{
    lemma_first_match(store.agents, agent_with(agent_id));
}

/// Matching agents to configurations keeps the rules.
pub proof fn lemma_match_by_current_system(store: StoreView)
    requires
        store.well_formed(),
    ensures
        store.match_by_current_system().well_formed(),
{
    let after = store.match_by_current_system();
    assert forall|i: int| 0 <= i < after.agents.len() implies (
    (#[trigger] after.agents[i]).nixos_configuration_id matches Some(id) ==> after.configuration(
        id,
    ) is Some) by {
        let row = store.agents[i];
        if row.nixos_configuration_id is None && row.current_system is Some {
            let system = row.current_system->0;
            lemma_first_match(store.evaluations, crate::store::evaluation_at(system));
        }
    }
}

/// Every write keeps the rules of the schema.
pub proof fn lemma_write_keeps_rules(store: StoreView, write: Write)
    requires
        store.well_formed(),
    ensures
        store.write(write).well_formed(),
{
    match write {
        Write::CreateFlake { flake_url, revision, last_modified, url, metadata } => {
            lemma_create_flake(store, flake_url, revision, last_modified, url, metadata)
        },
        Write::InsertFlake { flake_url } => lemma_insert_flake(store, flake_url),
        Write::InsertRevision { flake_id, revision, last_modified, url, metadata } => {
            lemma_insert_revision(store, flake_id, revision, last_modified, url, metadata)
        },
        Write::UpsertConfiguration { flake_id, name } => lemma_upsert_configuration(
            store,
            flake_id,
            name,
        ),
        Write::InsertEvaluation { flake_revision_id, nixos_configuration_id, store_path } => {
            lemma_insert_evaluation(store, flake_revision_id, nixos_configuration_id, store_path)
        },
        Write::InsertAgent { agent_id } => lemma_insert_agent(store, agent_id),
        Write::SetCurrentSystem { agent_id, current_system } => lemma_set_current_system(
            store,
            agent_id,
            current_system,
        ),
        Write::SetConfiguration { agent_id, nixos_configuration_id } => lemma_set_configuration(
            store,
            agent_id,
            nixos_configuration_id,
        ),
        Write::MatchByCurrentSystem => lemma_match_by_current_system(store),
    }
}

/// Whatever is written, in whatever order, the store keeps the rules of the
/// schema.
pub proof fn lemma_always_well_formed(writes: Seq<Write>)
    ensures
        StoreView::after(writes).well_formed(),
    decreases writes.len(),
{
    if writes.len() > 0 {
        lemma_always_well_formed(writes.drop_last());
        lemma_write_keeps_rules(StoreView::after(writes.drop_last()), writes.last());
    }
}

/// Whatever is written, a pair of revision and configuration has at most one
/// evaluation.
pub proof fn lemma_one_evaluation_per_pair(writes: Seq<Write>, i: int, j: int)
    requires
        0 <= i < StoreView::after(writes).evaluations.len(),
        0 <= j < StoreView::after(writes).evaluations.len(),
        StoreView::after(writes).evaluations[i].flake_revision_id == StoreView::after(
            writes,
        ).evaluations[j].flake_revision_id,
        StoreView::after(writes).evaluations[i].nixos_configuration_id == StoreView::after(
            writes,
        ).evaluations[j].nixos_configuration_id,
    ensures
        i == j,
{
    lemma_always_well_formed(writes);
    let rows = StoreView::after(writes).evaluations;
    if i < j {
        assert(!(rows[i].flake_revision_id == rows[j].flake_revision_id
            && rows[i].nixos_configuration_id == rows[j].nixos_configuration_id));
    } else if j < i {
        assert(!(rows[j].flake_revision_id == rows[i].flake_revision_id
            && rows[j].nixos_configuration_id == rows[i].nixos_configuration_id));
    }
}

} // verus!
