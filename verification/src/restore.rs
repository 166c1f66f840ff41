//! Bringing a store back from rows that were saved.
//!
//! A store is rebuilt by writing every saved row again, table by table and
//! oldest first. A row that its write would not give (an id out of sequence,
//! a flake URL for the second time, a pointer at a row that is not there)
//! shows that the rows are not those of a store, and nothing is rebuilt.

use crate::schema::{lemma_always_well_formed, lemma_write_keeps_rules, Write};
use crate::store::{
    agent_with, configuration_named, evaluation_of, flake_at, revision_of, AgentRecord,
    AgentRecordView, Configuration, ConfigurationView, Evaluation,
    EvaluationView, Flake, FlakeRevision, FlakeRevisionView, FlakeView, Store, StoreError,
    StoreView,
};
use crate::table::{
    first_match, lemma_first_match_none, lemma_first_match_push, lemma_last_match, rows_since,
    views,
};
use vstd::prelude::*;

verus! {

/// The store after `step` has taken each of `rows` in turn, unless a step
/// refused.
pub open spec fn replay<R>(
    store: StoreView,
    rows: Seq<R>,
    step: spec_fn(StoreView, R) -> Option<StoreView>,
) -> Option<StoreView>
    decreases rows.len(),
{
    if rows.len() == 0 {
        Some(store)
    } else {
        match replay(store, rows.drop_last(), step) {
            Some(before) => step(before, rows.last()),
            None => None,
        }
    }
}

/// Once a step has refused, the rows behind it change nothing.
pub proof fn lemma_replay_stops<R>(
    store: StoreView,
    rows: Seq<R>,
    step: spec_fn(StoreView, R) -> Option<StoreView>,
    upto: int,
)
    requires
        0 <= upto <= rows.len(),
        replay(store, rows.take(upto), step) is None,
    ensures
        replay(store, rows, step) is None,
    decreases rows.len(),
{
    if upto == rows.len() {
        assert(rows.take(upto) =~= rows);
    } else {
        assert(rows.drop_last().take(upto) =~= rows.take(upto));
        lemma_replay_stops(store, rows.drop_last(), step, upto);
    }
}

/// One more row: the step on what the rows before it gave.
pub proof fn lemma_replay_next<R>(
    store: StoreView,
    rows: Seq<R>,
    step: spec_fn(StoreView, R) -> Option<StoreView>,
    upto: int,
)
    requires
        0 <= upto < rows.len(),
    ensures
        replay(store, rows.take(upto + 1), step) == match replay(store, rows.take(upto), step) {
            Some(before) => step(before, rows[upto]),
            None => None,
        },
{
    assert(rows.take(upto + 1).drop_last() =~= rows.take(upto));
}

impl StoreView {
    /// Writing a saved flake again: the write has to give the row's id.
    pub open spec fn flake_again(self, row: FlakeView) -> Option<StoreView> {
        let (next, written) = self.insert_flake(row.flake_url);
        if written == Ok::<i64, StoreError>(row.flake_id) {
            Some(next)
        } else {
            None
        }
    }

    /// Writing a saved revision again: the write has to give the row's id.
    pub open spec fn revision_again(self, row: FlakeRevisionView) -> Option<StoreView> {
        let (next, written) = self.insert_revision(
            row.flake_id,
            row.revision,
            row.last_modified,
            row.url,
            row.metadata,
        );
        if written == Ok::<i64, StoreError>(row.flake_revision_id) {
            Some(next)
        } else {
            None
        }
    }

    /// Writing a saved configuration again: the flake has none of that name
    /// yet, and the write has to give the row's id.
    pub open spec fn configuration_again(self, row: ConfigurationView) -> Option<StoreView> {
        let (next, written) = self.upsert_configuration(row.flake_id, row.name);
        if self.configuration_id_of(row.flake_id, row.name) is None && written == Ok::<
            i64,
            StoreError,
        >(row.nixos_configuration_id) {
            Some(next)
        } else {
            None
        }
    }

    /// Writing a saved evaluation again: the write has to make a row.
    pub open spec fn evaluation_again(self, row: EvaluationView) -> Option<StoreView> {
        let (next, written) = self.insert_evaluation(
            row.flake_revision_id,
            row.nixos_configuration_id,
            row.store_path,
        );
        if written == Ok::<bool, StoreError>(true) {
            Some(next)
        } else {
            None
        }
    }

    /// The store after the system of a saved agent was written down, if the
    /// row has one.
    pub open spec fn system_again(self, row: AgentRecordView) -> (StoreView, Result<
        (),
        StoreError,
    >) {
        match row.current_system {
            Some(system) => self.set_current_system(row.agent_id, system),
            None => (self, Ok(())),
        }
    }

    /// The store after a saved agent was assigned to its configuration, if
    /// the row has one.
    pub open spec fn assignment_again(self, row: AgentRecordView) -> (StoreView, Result<
        (),
        StoreError,
    >) {
        match row.nixos_configuration_id {
            Some(id) => self.set_configuration(row.agent_id, id),
            None => (self, Ok(())),
        }
    }

    /// Writing a saved agent again: the agent, then the system it runs, then
    /// its configuration, none of them refused.
    pub open spec fn agent_again(self, row: AgentRecordView) -> Option<StoreView> {
        let (blank, inserted) = self.insert_agent(row.agent_id);
        let (running, system_set) = blank.system_again(row);
        let (assigned, configuration_set) = running.assignment_again(row);
        if inserted is Ok && system_set is Ok && configuration_set is Ok {
            Some(assigned)
        } else {
            None
        }
    }

    /// The store that holds the saved rows: each table written again, oldest
    /// row first, into the store without rows. `None` where a write does not
    /// give the row that was saved.
    pub open spec fn restored(
        flakes: Seq<FlakeView>,
        revisions: Seq<FlakeRevisionView>,
        configurations: Seq<ConfigurationView>,
        evaluations: Seq<EvaluationView>,
        agents: Seq<AgentRecordView>,
    ) -> Option<StoreView> {
        match replay(StoreView::empty(), flakes, flakes_step()) {
            Some(first) => match replay(first, revisions, revisions_step()) {
                Some(second) => match replay(second, configurations, configurations_step()) {
                    Some(third) => match replay(third, evaluations, evaluations_step()) {
                        Some(fourth) => replay(fourth, agents, agents_step()),
                        None => None,
                    },
                    None => None,
                },
                None => None,
            },
            None => None,
        }
    }
}

/// Writing saved flakes again.
pub open spec fn flakes_step() -> spec_fn(StoreView, FlakeView) -> Option<StoreView> {
    |store: StoreView, row: FlakeView| store.flake_again(row)
}

/// Writing saved revisions again.
pub open spec fn revisions_step() -> spec_fn(StoreView, FlakeRevisionView) -> Option<StoreView> {
    |store: StoreView, row: FlakeRevisionView| store.revision_again(row)
}

/// Writing saved configurations again.
pub open spec fn configurations_step() -> spec_fn(StoreView, ConfigurationView) -> Option<
    StoreView,
> {
    |store: StoreView, row: ConfigurationView| store.configuration_again(row)
}

/// Writing saved evaluations again.
pub open spec fn evaluations_step() -> spec_fn(StoreView, EvaluationView) -> Option<StoreView> {
    |store: StoreView, row: EvaluationView| store.evaluation_again(row)
}

/// Writing saved agents again.
pub open spec fn agents_step() -> spec_fn(StoreView, AgentRecordView) -> Option<StoreView> {
    |store: StoreView, row: AgentRecordView| store.agent_again(row)
}

/// Writes the saved flakes again. Says whether every write gave its row; the
/// store holds the rows up to the first that did not.
fn restore_flakes(store: &mut Store, rows: &Vec<Flake>) -> (done: bool)
    ensures
        match replay(old(store)@, views(rows@), flakes_step()) {
            Some(next) => done && final(store)@ == next,
            None => !done,
        },
{
    let mut i: usize = 0;
    while i < rows.len()
        invariant
            i <= rows.len(),
            replay(old(store)@, views(rows@).take(i as int), flakes_step()) == Some(store@),
        decreases rows.len() - i,
    {
        proof {
            lemma_replay_next(old(store)@, views(rows@), flakes_step(), i as int);
        }
        let written = store.insert_flake(rows[i].flake_url.as_str());
        let given = match written {
            Ok(id) => id == rows[i].flake_id,
            Err(_) => false,
        };
        if !given {
            proof {
                lemma_replay_stops(old(store)@, views(rows@), flakes_step(), i as int + 1);
            }
            return false;
        }
        i += 1;
    }
    proof {
        assert(views(rows@).take(i as int) =~= views(rows@));
    }
    true
}

/// Writes the saved revisions again. Says whether every write gave its row.
fn restore_revisions(store: &mut Store, rows: &Vec<FlakeRevision>) -> (done: bool)
    ensures
        match replay(old(store)@, views(rows@), revisions_step()) {
            Some(next) => done && final(store)@ == next,
            None => !done,
        },
{
    let mut i: usize = 0;
    while i < rows.len()
        invariant
            i <= rows.len(),
            replay(old(store)@, views(rows@).take(i as int), revisions_step()) == Some(store@),
        decreases rows.len() - i,
    {
        proof {
            lemma_replay_next(old(store)@, views(rows@), revisions_step(), i as int);
        }
        let row = &rows[i];
        let written = store.insert_revision(
            row.flake_id,
            row.revision.as_str(),
            row.last_modified,
            row.url.as_str(),
            row.metadata.clone(),
        );
        let given = match written {
            Ok(id) => id == row.flake_revision_id,
            Err(_) => false,
        };
        if !given {
            proof {
                lemma_replay_stops(old(store)@, views(rows@), revisions_step(), i as int + 1);
            }
            return false;
        }
        i += 1;
    }
    proof {
        assert(views(rows@).take(i as int) =~= views(rows@));
    }
    true
}

/// Writes the saved configurations again. Says whether every write gave its
/// row.
fn restore_configurations(store: &mut Store, rows: &Vec<Configuration>) -> (done: bool)
    ensures
        match replay(old(store)@, views(rows@), configurations_step()) {
            Some(next) => done && final(store)@ == next,
            None => !done,
        },
{
    let mut i: usize = 0;
    while i < rows.len()
        invariant
            i <= rows.len(),
            replay(old(store)@, views(rows@).take(i as int), configurations_step()) == Some(
                store@,
            ),
        decreases rows.len() - i,
    {
        proof {
            lemma_replay_next(old(store)@, views(rows@), configurations_step(), i as int);
        }
        let row = &rows[i];
        let fresh = store.configuration_id_of(row.flake_id, row.name.as_str()).is_none();
        let written = store.upsert_nixos_configuration(row.flake_id, row.name.as_str());
        let given = match written {
            Ok(id) => fresh && id == row.nixos_configuration_id,
            Err(_) => false,
        };
        if !given {
            proof {
                lemma_replay_stops(
                    old(store)@,
                    views(rows@),
                    configurations_step(),
                    i as int + 1,
                );
            }
            return false;
        }
        i += 1;
    }
    proof {
        assert(views(rows@).take(i as int) =~= views(rows@));
    }
    true
}

/// Writes the saved evaluations again. Says whether every write made its
/// row.
fn restore_evaluations(store: &mut Store, rows: &Vec<Evaluation>) -> (done: bool)
    ensures
        match replay(old(store)@, views(rows@), evaluations_step()) {
            Some(next) => done && final(store)@ == next,
            None => !done,
        },
{
    let mut i: usize = 0;
    while i < rows.len()
        invariant
            i <= rows.len(),
            replay(old(store)@, views(rows@).take(i as int), evaluations_step()) == Some(store@),
        decreases rows.len() - i,
    {
        proof {
            lemma_replay_next(old(store)@, views(rows@), evaluations_step(), i as int);
        }
        let row = &rows[i];
        let written = store.insert_nixos_configutaion_evaluation(
            row.flake_revision_id,
            row.nixos_configuration_id,
            row.store_path.as_str(),
        );
        let given = match written {
            Ok(made) => made,
            Err(_) => false,
        };
        if !given {
            proof {
                lemma_replay_stops(old(store)@, views(rows@), evaluations_step(), i as int + 1);
            }
            return false;
        }
        i += 1;
    }
    proof {
        assert(views(rows@).take(i as int) =~= views(rows@));
    }
    true
}

/// Writes one saved agent again. Says whether no write was refused.
fn restore_agent(store: &mut Store, row: &AgentRecord) -> (done: bool)
    ensures
        match old(store)@.agent_again(row@) {
            Some(next) => done && final(store)@ == next,
            None => !done,
        },
{
    if store.insert_agent(row.agent_id).is_err() {
        return false;
    }
    match &row.current_system {
        Some(system) => {
            if store.set_current_system(row.agent_id, system.as_str()).is_err() {
                return false;
            }
        },
        None => {},
    }
    match row.nixos_configuration_id {
        Some(id) => {
            if store.set_configuration(row.agent_id, id).is_err() {
                return false;
            }
        },
        None => {},
    }
    true
}

/// Writes the saved agents again. Says whether no write was refused.
fn restore_agents(store: &mut Store, rows: &Vec<AgentRecord>) -> (done: bool)
    ensures
        match replay(old(store)@, views(rows@), agents_step()) {
            Some(next) => done && final(store)@ == next,
            None => !done,
        },
{
    let mut i: usize = 0;
    while i < rows.len()
        invariant
            i <= rows.len(),
            replay(old(store)@, views(rows@).take(i as int), agents_step()) == Some(store@),
        decreases rows.len() - i,
    {
        proof {
            lemma_replay_next(old(store)@, views(rows@), agents_step(), i as int);
        }
        if !restore_agent(store, &rows[i]) {
            proof {
                lemma_replay_stops(old(store)@, views(rows@), agents_step(), i as int + 1);
            }
            return false;
        }
        i += 1;
    }
    proof {
        assert(views(rows@).take(i as int) =~= views(rows@));
    }
    true
}

/// The rows of a store, each table oldest first.
#[derive(Debug)]
pub struct Rows {
    pub flakes: Vec<Flake>,
    pub revisions: Vec<FlakeRevision>,
    pub configurations: Vec<Configuration>,
    pub evaluations: Vec<Evaluation>,
    pub agents: Vec<AgentRecord>,
}

/// How many rows of each table have been saved. The rows of these tables
/// never change once they are written, so a count says which are saved; the
/// agents change in place and are saved anew each time.
#[derive(Clone, Copy, Debug, PartialEq, Eq)]
pub struct Saved {
    pub flakes: usize,
    pub revisions: usize,
    pub configurations: usize,
    pub evaluations: usize,
}

impl Saved {
    /// The count when `rows` are all that was saved.
    pub fn of(rows: &Rows) -> (saved: Saved)
        ensures
            saved.flakes == rows.flakes@.len(),
            saved.revisions == rows.revisions@.len(),
            saved.configurations == rows.configurations@.len(),
            saved.evaluations == rows.evaluations@.len(),
    {
        Saved {
            flakes: rows.flakes.len(),
            revisions: rows.revisions.len(),
            configurations: rows.configurations.len(),
            evaluations: rows.evaluations.len(),
        }
    }
}

impl Store {
    /// The store that holds the saved rows, or `None` where they are not the
    /// rows of a store: where writing them again, table by table and oldest
    /// first, does not give each row as it was saved.
    pub fn restore(rows: &Rows) -> (r: Option<Store>)
        ensures
            match StoreView::restored(
                views(rows.flakes@),
                views(rows.revisions@),
                views(rows.configurations@),
                views(rows.evaluations@),
                views(rows.agents@),
            ) {
                Some(rebuilt) => r matches Some(store) && store@ == rebuilt,
                None => r is None,
            },
    {
        let mut store = Store::new();
        if restore_flakes(&mut store, &rows.flakes) && restore_revisions(
            &mut store,
            &rows.revisions,
        ) && restore_configurations(&mut store, &rows.configurations) && restore_evaluations(
            &mut store,
            &rows.evaluations,
        ) && restore_agents(&mut store, &rows.agents) {
            Some(store)
        } else {
            None
        }
    }

    /// The rows that are not saved yet: of each table those behind the
    /// count, and every agent. The count then takes them in.
    pub fn unsaved(&self, saved: &mut Saved) -> (rows: Rows)
        ensures
            views(rows.flakes@) == rows_since(self@.flakes, old(saved).flakes as int),
            views(rows.revisions@) == rows_since(self@.revisions, old(saved).revisions as int),
            views(rows.configurations@) == rows_since(
                self@.configurations,
                old(saved).configurations as int,
            ),
            views(rows.evaluations@) == rows_since(
                self@.evaluations,
                old(saved).evaluations as int,
            ),
            views(rows.agents@) == self@.agents,
            final(saved).flakes == old(saved).flakes + rows.flakes@.len(),
            final(saved).revisions == old(saved).revisions + rows.revisions@.len(),
            final(saved).configurations == old(saved).configurations + rows.configurations@.len(),
            final(saved).evaluations == old(saved).evaluations + rows.evaluations@.len(),
    {
        let rows = Rows {
            flakes: self.flakes_since(saved.flakes),
            revisions: self.revisions_since(saved.revisions),
            configurations: self.configurations_since(saved.configurations),
            evaluations: self.evaluations_since(saved.evaluations),
            agents: self.get_agents(),
        };
        saved.flakes = saved.flakes + rows.flakes.len();
        saved.revisions = saved.revisions + rows.revisions.len();
        saved.configurations = saved.configurations + rows.configurations.len();
        saved.evaluations = saved.evaluations + rows.evaluations.len();
        rows
    }
}

/// What every step keeps, every replay keeps.
pub proof fn lemma_replay_keeps<R>(
    store: StoreView,
    rows: Seq<R>,
    step: spec_fn(StoreView, R) -> Option<StoreView>,
    kept: spec_fn(StoreView) -> bool,
)
    requires
        kept(store),
        forall|before: StoreView, row: R|
            kept(before) ==> match #[trigger] step(before, row) {
                Some(next) => kept(next),
                None => true,
            },
    ensures
        match replay(store, rows, step) {
            Some(next) => kept(next),
            None => true,
        },
    decreases rows.len(),
{
    if rows.len() > 0 {
        lemma_replay_keeps(store, rows.drop_last(), step, kept);
    }
}

/// The stores that keep the rules of the schema.
pub open spec fn keeps_rules() -> spec_fn(StoreView) -> bool {
    |store: StoreView| store.well_formed()
}

/// Writing a saved agent again is three writes at most.
proof fn lemma_agent_again_keeps_rules(store: StoreView, row: AgentRecordView)
    requires
        store.well_formed(),
    ensures
        match store.agent_again(row) {
            Some(next) => next.well_formed(),
            None => true,
        },
{
    let blank = store.insert_agent(row.agent_id).0;
    lemma_write_keeps_rules(store, Write::InsertAgent { agent_id: row.agent_id });
    let running = blank.system_again(row).0;
    match row.current_system {
        Some(system) => {
            lemma_write_keeps_rules(
                blank,
                Write::SetCurrentSystem { agent_id: row.agent_id, current_system: system },
            );
        },
        None => {},
    }
    match row.nixos_configuration_id {
        Some(id) => {
            lemma_write_keeps_rules(
                running,
                Write::SetConfiguration { agent_id: row.agent_id, nixos_configuration_id: id },
            );
        },
        None => {},
    }
}

/// A store that was brought back keeps the rules of the schema.
pub proof fn lemma_restored_keeps_rules(
    flakes: Seq<FlakeView>,
    revisions: Seq<FlakeRevisionView>,
    configurations: Seq<ConfigurationView>,
    evaluations: Seq<EvaluationView>,
    agents: Seq<AgentRecordView>,
)
    ensures
        match StoreView::restored(flakes, revisions, configurations, evaluations, agents) {
            Some(store) => store.well_formed(),
            None => true,
        },
{
    lemma_always_well_formed(Seq::empty());
    assert forall|before: StoreView, row: FlakeView| keeps_rules()(before) implies match 
        #[trigger] flakes_step()(before, row) {
        Some(next) => keeps_rules()(next),
        None => true,
    } by {
        lemma_write_keeps_rules(before, Write::InsertFlake { flake_url: row.flake_url });
    }
    lemma_replay_keeps(StoreView::empty(), flakes, flakes_step(), keeps_rules());
    if let Some(first) = replay(StoreView::empty(), flakes, flakes_step()) {
        assert forall|before: StoreView, row: FlakeRevisionView|
            keeps_rules()(before) implies match #[trigger] revisions_step()(before, row) {
            Some(next) => keeps_rules()(next),
            None => true,
        } by {
            lemma_write_keeps_rules(
                before,
                Write::InsertRevision {
                    flake_id: row.flake_id,
                    revision: row.revision,
                    last_modified: row.last_modified,
                    url: row.url,
                    metadata: row.metadata,
                },
            );
        }
        lemma_replay_keeps(first, revisions, revisions_step(), keeps_rules());
        if let Some(second) = replay(first, revisions, revisions_step()) {
            assert forall|before: StoreView, row: ConfigurationView|
                keeps_rules()(before) implies match #[trigger] configurations_step()(
                before,
                row,
            ) {
                Some(next) => keeps_rules()(next),
                None => true,
            } by {
                lemma_write_keeps_rules(
                    before,
                    Write::UpsertConfiguration { flake_id: row.flake_id, name: row.name },
                );
            }
            lemma_replay_keeps(second, configurations, configurations_step(), keeps_rules());
            if let Some(third) = replay(second, configurations, configurations_step()) {
                assert forall|before: StoreView, row: EvaluationView|
                    keeps_rules()(before) implies match #[trigger] evaluations_step()(
                    before,
                    row,
                ) {
                    Some(next) => keeps_rules()(next),
                    None => true,
                } by {
                    lemma_write_keeps_rules(
                        before,
                        Write::InsertEvaluation {
                            flake_revision_id: row.flake_revision_id,
                            nixos_configuration_id: row.nixos_configuration_id,
                            store_path: row.store_path,
                        },
                    );
                }
                lemma_replay_keeps(third, evaluations, evaluations_step(), keeps_rules());
                if let Some(fourth) = replay(third, evaluations, evaluations_step()) {
                    assert forall|before: StoreView, row: AgentRecordView|
                        keeps_rules()(before) implies match #[trigger] agents_step()(
                        before,
                        row,
                    ) {
                        Some(next) => keeps_rules()(next),
                        None => true,
                    } by {
                        lemma_agent_again_keeps_rules(before, row);
                    }
                    lemma_replay_keeps(fourth, agents, agents_step(), keeps_rules());
                }
            }
        }
    }
}

/// Flakes that were written again are at the end of their table, as they
/// were saved, and no other table has changed.
proof fn lemma_flakes_again(store: StoreView, rows: Seq<FlakeView>)
    ensures
        match replay(store, rows, flakes_step()) {
            Some(next) => next == (StoreView {
                flakes: store.flakes + rows,
                next_flake_id: next.next_flake_id,
                ..store
            }) && next.next_flake_id == store.next_flake_id + rows.len(),
            None => true,
        },
    decreases rows.len(),
{
    if rows.len() == 0 {
        assert(store.flakes + rows =~= store.flakes);
    } else {
        lemma_flakes_again(store, rows.drop_last());
        if let Some(before) = replay(store, rows.drop_last(), flakes_step()) {
            if let Some(next) = before.flake_again(rows.last()) {
                assert(next.flakes =~= store.flakes + rows);
            }
        }
    }
}

/// Revisions that were written again are at the end of their table, as they
/// were saved, and no other table has changed.
proof fn lemma_revisions_again(store: StoreView, rows: Seq<FlakeRevisionView>)
    ensures
        match replay(store, rows, revisions_step()) {
            Some(next) => next == (StoreView {
                revisions: store.revisions + rows,
                next_revision_id: next.next_revision_id,
                ..store
            }) && next.next_revision_id == store.next_revision_id + rows.len(),
            None => true,
        },
    decreases rows.len(),
{
    if rows.len() == 0 {
        assert(store.revisions + rows =~= store.revisions);
    } else {
        lemma_revisions_again(store, rows.drop_last());
        if let Some(before) = replay(store, rows.drop_last(), revisions_step()) {
            if let Some(next) = before.revision_again(rows.last()) {
                assert(next.revisions =~= store.revisions + rows);
            }
        }
    }
}

/// Configurations that were written again are at the end of their table, as
/// they were saved, and no other table has changed.
proof fn lemma_configurations_again(store: StoreView, rows: Seq<ConfigurationView>)
    ensures
        match replay(store, rows, configurations_step()) {
            Some(next) => next == (StoreView {
                configurations: store.configurations + rows,
                next_configuration_id: next.next_configuration_id,
                ..store
            }) && next.next_configuration_id == store.next_configuration_id + rows.len(),
            None => true,
        },
    decreases rows.len(),
{
    if rows.len() == 0 {
        assert(store.configurations + rows =~= store.configurations);
    } else {
        lemma_configurations_again(store, rows.drop_last());
        if let Some(before) = replay(store, rows.drop_last(), configurations_step()) {
            if let Some(next) = before.configuration_again(rows.last()) {
                assert(next.configurations =~= store.configurations + rows);
            }
        }
    }
}

/// Evaluations that were written again are at the end of their table, as
/// they were saved, and no other table has changed.
proof fn lemma_evaluations_again(store: StoreView, rows: Seq<EvaluationView>)
    ensures
        match replay(store, rows, evaluations_step()) {
            Some(next) => next == (StoreView { evaluations: store.evaluations + rows, ..store }),
            None => true,
        },
    decreases rows.len(),
{
    if rows.len() == 0 {
        assert(store.evaluations + rows =~= store.evaluations);
    } else {
        lemma_evaluations_again(store, rows.drop_last());
        if let Some(before) = replay(store, rows.drop_last(), evaluations_step()) {
            if let Some(next) = before.evaluation_again(rows.last()) {
                assert(next.evaluations =~= store.evaluations + rows);
            }
        }
    }
}

/// An agent that was written again is the last row of its table, as it was
/// saved, and no other row has changed.
proof fn lemma_agent_again(store: StoreView, row: AgentRecordView)
    ensures
        match store.agent_again(row) {
            Some(next) => next == (StoreView { agents: store.agents.push(row), ..store }),
            None => true,
        },
{
    if let Some(next) = store.agent_again(row) {
        let wanted = agent_with(row.agent_id);
        let empty = AgentRecordView {
            agent_id: row.agent_id,
            current_system: None,
            nixos_configuration_id: None,
        };
        let at = store.agents.len() as int;
        let blank = store.insert_agent(row.agent_id).0;
        assert(blank.agents == store.agents.push(empty));
        lemma_first_match_push(store.agents, wanted, empty);
        assert(first_match(blank.agents, wanted) == Some(at));
        let running = blank.system_again(row).0;
        let told = AgentRecordView { current_system: row.current_system, ..empty };
        assert(running.agents =~= store.agents.push(told));
        lemma_first_match_push(store.agents, wanted, told);
        assert(first_match(running.agents, wanted) == Some(at));
        assert(next.agents =~= store.agents.push(row));
    }
}

/// Agents that were written again are at the end of their table, as they
/// were saved, and no other table has changed.
proof fn lemma_agents_again(store: StoreView, rows: Seq<AgentRecordView>)
    ensures
        match replay(store, rows, agents_step()) {
            Some(next) => next == (StoreView { agents: store.agents + rows, ..store }),
            None => true,
        },
    decreases rows.len(),
{
    if rows.len() == 0 {
        assert(store.agents + rows =~= store.agents);
    } else {
        lemma_agents_again(store, rows.drop_last());
        if let Some(before) = replay(store, rows.drop_last(), agents_step()) {
            lemma_agent_again(before, rows.last());
            if let Some(next) = before.agent_again(rows.last()) {
                assert(next.agents =~= store.agents + rows);
            }
        }
    }
}

/// A store that was brought back holds the saved rows, each table as it was
/// saved, and gives out next the ids that follow them.
pub proof fn lemma_restored_holds_the_rows(
    flakes: Seq<FlakeView>,
    revisions: Seq<FlakeRevisionView>,
    configurations: Seq<ConfigurationView>,
    evaluations: Seq<EvaluationView>,
    agents: Seq<AgentRecordView>,
)
    ensures
        match StoreView::restored(flakes, revisions, configurations, evaluations, agents) {
            Some(store) => store == (StoreView {
                flakes,
                revisions,
                configurations,
                evaluations,
                agents,
                next_flake_id: store.next_flake_id,
                next_revision_id: store.next_revision_id,
                next_configuration_id: store.next_configuration_id,
            }) && store.next_flake_id == flakes.len() + 1 && store.next_revision_id
                == revisions.len() + 1 && store.next_configuration_id == configurations.len() + 1,
            None => true,
        },
{
    let empty = StoreView::empty();
    lemma_flakes_again(empty, flakes);
    if let Some(first) = replay(empty, flakes, flakes_step()) {
        lemma_revisions_again(first, revisions);
        if let Some(second) = replay(first, revisions, revisions_step()) {
            lemma_configurations_again(second, configurations);
            if let Some(third) = replay(second, configurations, configurations_step()) {
                lemma_evaluations_again(third, evaluations);
                if let Some(fourth) = replay(third, evaluations, evaluations_step()) {
                    lemma_agents_again(fourth, agents);
                    if let Some(store) = replay(fourth, agents, agents_step()) {
                        assert(store.flakes =~= flakes);
                        assert(store.revisions =~= revisions);
                        assert(store.configurations =~= configurations);
                        assert(store.evaluations =~= evaluations);
                        assert(store.agents =~= agents);
                    }
                }
            }
        }
    }
}

impl StoreView {
    /// Ids are given out one by one, from 1: a flake, a revision or a
    /// configuration has the id of its place in its table.
    pub open spec fn ids_in_sequence(self) -> bool {
        &&& self.next_flake_id == self.flakes.len() + 1
        &&& self.next_revision_id == self.revisions.len() + 1
        &&& self.next_configuration_id == self.configurations.len() + 1
        &&& forall|i: int|
            0 <= i < self.flakes.len() ==> (#[trigger] self.flakes[i]).flake_id == i + 1
        &&& forall|i: int|
            0 <= i < self.revisions.len() ==> (#[trigger] self.revisions[i]).flake_revision_id == i
                + 1
        &&& forall|i: int|
            0 <= i < self.configurations.len() ==> (
            #[trigger] self.configurations[i]).nixos_configuration_id == i + 1
    }
}

/// Every write gives out ids in sequence.
pub proof fn lemma_write_keeps_sequence(store: StoreView, write: Write)
    requires
        store.ids_in_sequence(),
    ensures
        store.write(write).ids_in_sequence(),
{
}

/// Whatever is written, ids are given out in sequence.
pub proof fn lemma_always_in_sequence(writes: Seq<Write>)
    ensures
        StoreView::after(writes).ids_in_sequence(),
    decreases writes.len(),
{
    if writes.len() > 0 {
        lemma_always_in_sequence(writes.drop_last());
        lemma_write_keeps_sequence(StoreView::after(writes.drop_last()), writes.last());
    }
}

/// The flakes of a store, written again into the store without rows, up to
/// the flake at `upto`.
proof fn lemma_flakes_come_back(store: StoreView, upto: int)
    requires
        store.well_formed(),
        store.ids_in_sequence(),
        0 <= upto <= store.flakes.len(),
    ensures
        replay(StoreView::empty(), store.flakes.take(upto), flakes_step()) == Some(
            StoreView {
                flakes: store.flakes.take(upto),
                next_flake_id: (upto + 1) as i64,
                ..StoreView::empty()
            },
        ),
    decreases upto,
{
    let empty = StoreView::empty();
    if upto == 0 {
        assert(store.flakes.take(0) =~= empty.flakes);
    } else {
        let k = upto - 1;
        lemma_flakes_come_back(store, k);
        lemma_replay_next(empty, store.flakes, flakes_step(), k);
        let before = StoreView {
            flakes: store.flakes.take(k),
            next_flake_id: (k + 1) as i64,
            ..empty
        };
        let row = store.flakes[k];
        assert forall|i: int| 0 <= i < k implies !flake_at(row.flake_url)(
            #[trigger] before.flakes[i],
        ) by {
            assert(store.flakes[i].flake_url != store.flakes[k].flake_url);
        }
        lemma_first_match_none(before.flakes, flake_at(row.flake_url));
        assert(before.flake_again(row) is Some);
        assert(before.flake_again(row).unwrap().flakes =~= store.flakes.take(upto));
    }
}

/// The revisions of a store, written again into a store that holds its
/// flakes, up to the revision at `upto`.
proof fn lemma_revisions_come_back(store: StoreView, first: StoreView, upto: int)
    requires
        store.well_formed(),
        store.ids_in_sequence(),
        first.flakes == store.flakes,
        first.revisions == Seq::<FlakeRevisionView>::empty(),
        first.next_revision_id == 1,
        0 <= upto <= store.revisions.len(),
    ensures
        replay(first, store.revisions.take(upto), revisions_step()) == Some(
            StoreView {
                revisions: store.revisions.take(upto),
                next_revision_id: (upto + 1) as i64,
                ..first
            },
        ),
    decreases upto,
{
    if upto == 0 {
        assert(store.revisions.take(0) =~= first.revisions);
    } else {
        let k = upto - 1;
        lemma_revisions_come_back(store, first, k);
        lemma_replay_next(first, store.revisions, revisions_step(), k);
        let before = StoreView {
            revisions: store.revisions.take(k),
            next_revision_id: (k + 1) as i64,
            ..first
        };
        let row = store.revisions[k];
        assert(store.flake(row.flake_id) is Some);
        assert(before.flake(row.flake_id) is Some);
        lemma_last_match(before.revisions, revision_of(row.flake_id));
        assert(before.revision_again(row) is Some);
        assert(before.revision_again(row).unwrap().revisions =~= store.revisions.take(upto));
    }
}

/// The configurations of a store, written again into a store that holds its
/// flakes, up to the configuration at `upto`.
proof fn lemma_configurations_come_back(store: StoreView, second: StoreView, upto: int)
    requires
        store.well_formed(),
        store.ids_in_sequence(),
        second.flakes == store.flakes,
        second.configurations == Seq::<ConfigurationView>::empty(),
        second.next_configuration_id == 1,
        0 <= upto <= store.configurations.len(),
    ensures
        replay(second, store.configurations.take(upto), configurations_step()) == Some(
            StoreView {
                configurations: store.configurations.take(upto),
                next_configuration_id: (upto + 1) as i64,
                ..second
            },
        ),
    decreases upto,
{
    if upto == 0 {
        assert(store.configurations.take(0) =~= second.configurations);
    } else {
        let k = upto - 1;
        lemma_configurations_come_back(store, second, k);
        lemma_replay_next(second, store.configurations, configurations_step(), k);
        let before = StoreView {
            configurations: store.configurations.take(k),
            next_configuration_id: (k + 1) as i64,
            ..second
        };
        let row = store.configurations[k];
        assert(store.flake(row.flake_id) is Some);
        assert(before.flake(row.flake_id) is Some);
        assert forall|i: int| 0 <= i < k implies !configuration_named(row.flake_id, row.name)(
            #[trigger] before.configurations[i],
        ) by {
            assert(!(store.configurations[i].flake_id == store.configurations[k].flake_id
                && store.configurations[i].name == store.configurations[k].name));
        }
        lemma_first_match_none(before.configurations, configuration_named(row.flake_id, row.name));
        assert(before.configuration_again(row) is Some);
        assert(before.configuration_again(row).unwrap().configurations
            =~= store.configurations.take(upto));
    }
}

/// The evaluations of a store, written again into a store that holds its
/// revisions and configurations, up to the evaluation at `upto`.
proof fn lemma_evaluations_come_back(store: StoreView, third: StoreView, upto: int)
    requires
        store.well_formed(),
        third.revisions == store.revisions,
        third.configurations == store.configurations,
        third.evaluations == Seq::<EvaluationView>::empty(),
        0 <= upto <= store.evaluations.len(),
    ensures
        replay(third, store.evaluations.take(upto), evaluations_step()) == Some(
            StoreView { evaluations: store.evaluations.take(upto), ..third },
        ),
    decreases upto,
{
    if upto == 0 {
        assert(store.evaluations.take(0) =~= third.evaluations);
    } else {
        let k = upto - 1;
        lemma_evaluations_come_back(store, third, k);
        lemma_replay_next(third, store.evaluations, evaluations_step(), k);
        let before = StoreView { evaluations: store.evaluations.take(k), ..third };
        let row = store.evaluations[k];
        assert(store.revision(row.flake_revision_id) is Some);
        assert(store.configuration(row.nixos_configuration_id) is Some);
        assert(before.revision(row.flake_revision_id) is Some);
        assert(before.configuration(row.nixos_configuration_id) is Some);
        let wanted = evaluation_of(row.flake_revision_id, row.nixos_configuration_id);
        assert forall|i: int| 0 <= i < k implies !wanted(#[trigger] before.evaluations[i]) by {
            assert(!(store.evaluations[i].flake_revision_id
                == store.evaluations[k].flake_revision_id
                && store.evaluations[i].nixos_configuration_id
                == store.evaluations[k].nixos_configuration_id));
        }
        lemma_first_match_none(before.evaluations, wanted);
        assert(before.evaluation_again(row) is Some);
        assert(before.evaluation_again(row).unwrap().evaluations =~= store.evaluations.take(
            upto,
        ));
    }
}

/// An agent that is not there yet, and whose configuration is there, can be
/// written again.
proof fn lemma_agent_comes_back(store: StoreView, row: AgentRecordView)
    requires
        store.agent(row.agent_id) is None,
        row.nixos_configuration_id matches Some(id) ==> store.configuration(id) is Some,
    ensures
        store.agent_again(row) is Some,
{
    let wanted = agent_with(row.agent_id);
    let empty = AgentRecordView {
        agent_id: row.agent_id,
        current_system: None,
        nixos_configuration_id: None,
    };
    let blank = store.insert_agent(row.agent_id).0;
    assert(blank.agents == store.agents.push(empty));
    lemma_first_match_push(store.agents, wanted, empty);
    let running = blank.system_again(row).0;
    let told = AgentRecordView { current_system: row.current_system, ..empty };
    assert(running.agents =~= store.agents.push(told));
    lemma_first_match_push(store.agents, wanted, told);
    assert(first_match(running.agents, wanted) is Some);
    assert(running.configurations == store.configurations);
}

/// The agents of a store, written again into a store that holds its
/// configurations, up to the agent at `upto`.
proof fn lemma_agents_come_back(store: StoreView, fourth: StoreView, upto: int)
    requires
        store.well_formed(),
        fourth.configurations == store.configurations,
        fourth.agents == Seq::<AgentRecordView>::empty(),
        0 <= upto <= store.agents.len(),
    ensures
        replay(fourth, store.agents.take(upto), agents_step()) == Some(
            StoreView { agents: store.agents.take(upto), ..fourth },
        ),
    decreases upto,
{
    if upto == 0 {
        assert(store.agents.take(0) =~= fourth.agents);
    } else {
        let k = upto - 1;
        lemma_agents_come_back(store, fourth, k);
        lemma_replay_next(fourth, store.agents, agents_step(), k);
        let before = StoreView { agents: store.agents.take(k), ..fourth };
        let row = store.agents[k];
        assert forall|i: int| 0 <= i < k implies !agent_with(row.agent_id)(
            #[trigger] before.agents[i],
        ) by {
            assert(store.agents[i].agent_id != store.agents[k].agent_id);
        }
        lemma_first_match_none(before.agents, agent_with(row.agent_id));
        if let Some(id) = row.nixos_configuration_id {
            assert(store.configuration(id) is Some);
            assert(before.configuration(id) is Some);
        }
        lemma_agent_comes_back(before, row);
        lemma_agent_again(before, row);
        assert(before.agents.push(row) =~= store.agents.take(upto));
    }
}

/// A store that keeps the rules of the schema and gives out its ids in
/// sequence comes back from its own rows.
pub proof fn lemma_rows_restore_their_store(store: StoreView)
    requires
        store.well_formed(),
        store.ids_in_sequence(),
    ensures
        StoreView::restored(
            store.flakes,
            store.revisions,
            store.configurations,
            store.evaluations,
            store.agents,
        ) == Some(store),
{
    let empty = StoreView::empty();
    lemma_flakes_come_back(store, store.flakes.len() as int);
    assert(store.flakes.take(store.flakes.len() as int) =~= store.flakes);
    let first = StoreView { flakes: store.flakes, next_flake_id: store.next_flake_id, ..empty };
    lemma_revisions_come_back(store, first, store.revisions.len() as int);
    assert(store.revisions.take(store.revisions.len() as int) =~= store.revisions);
    let second = StoreView {
        revisions: store.revisions,
        next_revision_id: store.next_revision_id,
        ..first
    };
    lemma_configurations_come_back(store, second, store.configurations.len() as int);
    assert(store.configurations.take(store.configurations.len() as int)
        =~= store.configurations);
    let third = StoreView {
        configurations: store.configurations,
        next_configuration_id: store.next_configuration_id,
        ..second
    };
    lemma_evaluations_come_back(store, third, store.evaluations.len() as int);
    assert(store.evaluations.take(store.evaluations.len() as int) =~= store.evaluations);
    let fourth = StoreView { evaluations: store.evaluations, ..third };
    lemma_agents_come_back(store, fourth, store.agents.len() as int);
    assert(store.agents.take(store.agents.len() as int) =~= store.agents);
}

/// Whatever was written, the rows of the store bring the same store back.
pub proof fn lemma_saved_store_comes_back(writes: Seq<Write>)
    ensures
        StoreView::restored(
            StoreView::after(writes).flakes,
            StoreView::after(writes).revisions,
            StoreView::after(writes).configurations,
            StoreView::after(writes).evaluations,
            StoreView::after(writes).agents,
        ) == Some(StoreView::after(writes)),
{
    lemma_always_well_formed(writes);
    lemma_always_in_sequence(writes);
    lemma_rows_restore_their_store(StoreView::after(writes));
}

} // verus!
