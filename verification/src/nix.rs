//! The server's dealings with the package system, and the reconciliation of
//! flake revisions with the store.
//!
//! The package system is a program on the host. This module says which
//! commands to run, reads what they print, and writes down what was learned.
//! It runs nothing itself.

use crate::json::{item_values, Json, JsonValue};
use crate::process::{push_arg, Command, CommandView, Output, OutputView};
use crate::store::{Store, StoreError, StoreView};
use crate::table::{first_match, lemma_first_match_push};
use crate::text::{chain, string_views};
use crate::types::text_field;
use vstd::prelude::*;

verus! {

/// What the package system says of a flake.
#[derive(Debug, PartialEq, Eq)]
pub struct FlakeMetadata {
    /// The content hash of the flake's current snapshot.
    pub revision: String,
    /// When the snapshot was last modified, in seconds since the Unix epoch.
    pub last_modified: i64,
    /// The URL that is pinned to the snapshot.
    pub url: String,
}

/// The mathematical value of a [`FlakeMetadata`].
pub struct FlakeMetadataView {
    pub revision: Seq<char>,
    pub last_modified: i64,
    pub url: Seq<char>,
}

impl View for FlakeMetadata {
    type V = FlakeMetadataView;

    open spec fn view(&self) -> FlakeMetadataView {
        FlakeMetadataView {
            revision: self.revision@,
            last_modified: self.last_modified,
            url: self.url@,
        }
    }
}

impl FlakeMetadataView {
    /// The metadata that a JSON document holds: an object with the strings
    /// `revision` and `url` and the integer `lastModified`.
    pub open spec fn of_json(json: JsonValue) -> Option<FlakeMetadataView> {
        match (text_field(json, "revision"@), json.field("lastModified"@), text_field(json, "url"@)) {
            (Some(revision), Some(modified), Some(url)) => match modified.int_within(
                i64::MIN as int,
                i64::MAX as int,
            ) {
                Some(last_modified) => Some(
                    FlakeMetadataView { revision, last_modified: last_modified as i64, url },
                ),
                None => None,
            },
            _ => None,
        }
    }
}

impl FlakeMetadata {
    /// The metadata that a JSON document holds, if it holds any.
    pub fn from_json(json: &Json) -> (metadata: Option<FlakeMetadata>)
        ensures
            match metadata {
                Some(metadata) => FlakeMetadataView::of_json(json@) == Some(metadata@),
                None => FlakeMetadataView::of_json(json@) is None,
            },
    {
        let revision = match crate::types::get_text(json, "revision") {
            Some(revision) => revision,
            None => {
                return None;
            },
        };
        let last_modified = match json.get("lastModified") {
            Some(modified) => match modified.as_i64() {
                Some(last_modified) => last_modified,
                None => {
                    return None;
                },
            },
            None => {
                return None;
            },
        };
        match crate::types::get_text(json, "url") {
            Some(url) => Some(FlakeMetadata { revision, last_modified, url }),
            None => None,
        }
    }
}

/// Why a command of the package system gave nothing.
#[derive(Debug, PartialEq, Eq)]
pub enum NixError {
    /// The command exited with a status other than zero. What it wrote is
    /// inside.
    Failed { stdout: String, stderr: String },
    /// The command wrote no JSON. The parser's reason and what the command
    /// wrote are inside.
    Syntax { reason: String, stdout: String },
    /// The command wrote JSON of another shape than expected.
    Unexpected,
}

/// The mathematical value of a [`NixError`].
pub enum NixErrorView {
    Failed { stdout: Seq<char>, stderr: Seq<char> },
    Syntax { reason: Seq<char>, stdout: Seq<char> },
    Unexpected,
}

impl View for NixError {
    type V = NixErrorView;

    open spec fn view(&self) -> NixErrorView {
        match self {
            NixError::Failed { stdout, stderr } => NixErrorView::Failed {
                stdout: stdout@,
                stderr: stderr@,
            },
            NixError::Syntax { reason, stdout } => NixErrorView::Syntax {
                reason: reason@,
                stdout: stdout@,
            },
            NixError::Unexpected => NixErrorView::Unexpected,
        }
    }
}

/// The attribute of a flake that holds its system configurations.
pub open spec fn configurations_attribute(flake_url: Seq<char>) -> Seq<char> {
    flake_url + "#nixosConfigurations"@
}

/// The attribute of a flake that holds the system of the configuration
/// `name`.
pub open spec fn toplevel_attribute(flake_url: Seq<char>, name: Seq<char>) -> Seq<char> {
    flake_url + "#nixosConfigurations."@ + name + ".config.system.build.toplevel"@
}

/// The command that asks for the metadata of a flake.
pub open spec fn metadata_command(flake_url: Seq<char>) -> CommandView {
    CommandView { program: "nix"@, args: seq!["flake"@, "metadata"@, "--json"@, flake_url] }
}

/// The command that asks for the names of the configurations of a flake.
pub open spec fn names_command(flake_url: Seq<char>) -> CommandView {
    CommandView {
        program: "nix"@,
        args: seq![
            "eval"@,
            "--json"@,
            configurations_attribute(flake_url),
            "--apply"@,
            "builtins.attrNames"@,
        ],
    }
}

/// The command that asks for the store path of a configuration of a flake.
pub open spec fn store_path_command(flake_url: Seq<char>, name: Seq<char>) -> CommandView {
    CommandView {
        program: "nix"@,
        args: seq!["path-info"@, "--json"@, toplevel_attribute(flake_url, name)],
    }
}

/// The command `nix flake metadata --json <flake_url>`.
pub fn flake_metadata(flake_url: &str) -> (command: Command)
    ensures
        command@ == metadata_command(flake_url@),
{
    let mut args: Vec<String> = Vec::new();
    push_arg(&mut args, "flake");
    push_arg(&mut args, "metadata");
    push_arg(&mut args, "--json");
    push_arg(&mut args, flake_url);
    assert(string_views(args@) =~= metadata_command(flake_url@).args);
    Command::new("nix", args)
}

/// The command `nix eval --json <flake_url>#nixosConfigurations --apply
/// builtins.attrNames`.
pub fn list_configurations(flake_url: &str) -> (command: Command)
    ensures
        command@ == names_command(flake_url@),
{
    let mut args: Vec<String> = Vec::new();
    push_arg(&mut args, "eval");
    push_arg(&mut args, "--json");
    push_arg(&mut args, chain(flake_url, "#nixosConfigurations").as_str());
    push_arg(&mut args, "--apply");
    push_arg(&mut args, "builtins.attrNames");
    assert(string_views(args@) =~= names_command(flake_url@).args);
    Command::new("nix", args)
}

/// The command `nix path-info --json
/// <flake_url>#nixosConfigurations.<name>.config.system.build.toplevel`.
pub fn config_store_path(flake_url: &str, name: &str) -> (command: Command)
    ensures
        command@ == store_path_command(flake_url@, name@),
{
    let mut attribute = chain(flake_url, "#nixosConfigurations.");
    attribute.append(name);
    attribute.append(".config.system.build.toplevel");
    let mut args: Vec<String> = Vec::new();
    push_arg(&mut args, "path-info");
    push_arg(&mut args, "--json");
    push_arg(&mut args, attribute.as_str());
    assert(string_views(args@) =~= store_path_command(flake_url@, name@).args);
    Command::new("nix", args)
}

/// The command that asks for the store path of a configuration of a flake.
pub fn config_derivation(flake_url: &str, name: &str) -> (command: Command)
    ensures
        command@ == store_path_command(flake_url@, name@),
{
    config_store_path(flake_url, name)
}

/// What a finished command printed, read as JSON, as mathematical values.
pub open spec fn json_of_output(output: OutputView) -> Result<JsonValue, NixErrorView> {
    if !output.success {
        Err(NixErrorView::Failed { stdout: output.stdout, stderr: output.stderr })
    } else {
        match crate::json::parsed(output.stdout) {
            Ok(json) => Ok(json),
            Err(reason) => Err(NixErrorView::Syntax { reason, stdout: output.stdout }),
        }
    }
}

/// The view of what a command gave.
pub open spec fn json_outcome(r: Result<Json, NixError>) -> Result<JsonValue, NixErrorView> {
    match r {
        Ok(json) => Ok(json@),
        Err(e) => Err(e@),
    }
}

/// Reads what a finished command printed as JSON. A status other than zero
/// is an error that carries what the command wrote to both of its streams.
pub fn json_output(output: &Output) -> (r: Result<Json, NixError>)
    ensures
        json_outcome(r) == json_of_output(output@),
{
    if !output.success {
        return Err(
            NixError::Failed { stdout: output.stdout.clone(), stderr: output.stderr.clone() },
        );
    }
    match Json::parse(output.stdout.as_str()) {
        Ok(json) => Ok(json),
        Err(reason) => Err(NixError::Syntax { reason, stdout: output.stdout.clone() }),
    }
}

/// The strings of an array of strings, or `None` where an item is no string.
pub open spec fn texts_of(items: Seq<JsonValue>) -> Option<Seq<Seq<char>>>
    decreases items.len(),
{
    if items.len() == 0 {
        Some(Seq::empty())
    } else {
        match (texts_of(items.drop_last()), items.last().text()) {
            (Some(earlier), Some(text)) => Some(earlier.push(text)),
            _ => None,
        }
    }
}

/// The names that a JSON document lists: an array of strings.
pub open spec fn names_of(json: JsonValue) -> Option<Seq<Seq<char>>> {
    match json.items() {
        Some(items) => texts_of(items),
        None => None,
    }
}

/// The names of the configurations that the names command printed.
pub fn configuration_names(json: &Json) -> (names: Option<Vec<String>>)
    ensures
        match names {
            Some(names) => names_of(json@) == Some(string_views(names@)),
            None => names_of(json@) is None,
        },
{
    let items = match json.as_array() {
        Some(items) => items,
        None => {
            return None;
        },
    };
    let mut names: Vec<String> = Vec::new();
    let mut i: usize = 0;
    while i < items.len()
        invariant
            i <= items.len(),
            json@.items() == Some(item_values(items@)),
            texts_of(item_values(items@).take(i as int)) == Some(string_views(names@)),
        decreases items.len() - i,
    {
        let ghost all = item_values(items@);
        proof {
            assert(all.take(i as int + 1).drop_last() =~= all.take(i as int));
            assert(all.take(i as int + 1).last() == items@[i as int]@);
        }
        match items[i].as_str() {
            Some(name) => {
                let ghost before = names@;
                names.push(name.to_owned());
                proof {
                    assert(string_views(names@) =~= string_views(before).push(name@));
                }
            },
            None => {
                proof {
                    lemma_texts_of_prefix(all, i as int + 1);
                }
                return None;
            },
        }
        i += 1;
    }
    proof {
        assert(item_values(items@).take(items.len() as int) =~= item_values(items@));
    }
    Some(names)
}

/// An array with an item that is no string among its first `upto` has no
/// strings to give.
proof fn lemma_texts_of_prefix(items: Seq<JsonValue>, upto: int)
    requires
        0 <= upto <= items.len(),
        texts_of(items.take(upto)) is None,
    ensures
        texts_of(items) is None,
    decreases items.len(),
{
    if upto < items.len() {
        assert(items.drop_last().take(upto) =~= items.take(upto));
        lemma_texts_of_prefix(items.drop_last(), upto);
    } else {
        assert(items.take(upto) =~= items);
    }
}

/// The store path that a JSON document names: the `path` of the last item of
/// an array.
pub open spec fn path_of(json: JsonValue) -> Option<Seq<char>> {
    match json.items() {
        Some(items) => if items.len() > 0 {
            text_field(items.last(), "path"@)
        } else {
            None
        },
        None => None,
    }
}

/// The store path that the path-info command printed.
pub fn store_path(json: &Json) -> (path: Option<String>)
    ensures
        match path {
            Some(path) => path_of(json@) == Some(path@),
            None => path_of(json@) is None,
        },
{
    match json.as_array() {
        Some(items) => {
            if items.len() > 0 {
                crate::types::get_text(&items[items.len() - 1], "path")
            } else {
                None
            }
        },
        None => None,
    }
}

/// What reading the answer of a command gave, as mathematical values.
pub open spec fn read<A>(output: OutputView, shape: spec_fn(JsonValue) -> Option<A>) -> Result<
    A,
    NixErrorView,
> {
    match json_of_output(output) {
        Ok(json) => match shape(json) {
            Some(value) => Ok(value),
            None => Err(NixErrorView::Unexpected),
        },
        Err(e) => Err(e),
    }
}

/// The metadata in a JSON document, together with the document.
pub open spec fn metadata_of() -> spec_fn(JsonValue) -> Option<(FlakeMetadataView, JsonValue)> {
    |json: JsonValue|
        match FlakeMetadataView::of_json(json) {
            Some(metadata) => Some((metadata, json)),
            None => None,
        }
}

/// The names that a JSON document lists.
pub open spec fn listed_names() -> spec_fn(JsonValue) -> Option<Seq<Seq<char>>> {
    |json: JsonValue| names_of(json)
}

/// The store path that a JSON document names.
pub open spec fn named_path() -> spec_fn(JsonValue) -> Option<Seq<char>> {
    |json: JsonValue| path_of(json)
}

/// Reads what the metadata command left behind: the metadata of the flake,
/// and everything that the command printed, as JSON.
pub fn read_flake_metadata(output: &Output) -> (r: Result<(FlakeMetadata, Json), NixError>)
    ensures
        match r {
            Ok((metadata, meta)) => read(output@, metadata_of()) == Ok::<
                (FlakeMetadataView, JsonValue),
                NixErrorView,
            >((metadata@, meta@)),
            Err(e) => read(output@, metadata_of()) == Err::<
                (FlakeMetadataView, JsonValue),
                NixErrorView,
            >(e@),
        },
{
    match json_output(output) {
        Ok(meta) => match FlakeMetadata::from_json(&meta) {
            Some(metadata) => Ok((metadata, meta)),
            None => Err(NixError::Unexpected),
        },
        Err(e) => Err(e),
    }
}

/// Reads what the names command left behind: the names of the
/// configurations of the flake.
pub fn read_configurations(output: &Output) -> (r: Result<Vec<String>, NixError>)
    ensures
        match r {
            Ok(names) => read(output@, listed_names()) == Ok::<
                Seq<Seq<char>>,
                NixErrorView,
            >(string_views(names@)),
            Err(e) => read(output@, listed_names()) == Err::<
                Seq<Seq<char>>,
                NixErrorView,
            >(e@),
        },
{
    match json_output(output) {
        Ok(json) => match configuration_names(&json) {
            Some(names) => Ok(names),
            None => Err(NixError::Unexpected),
        },
        Err(e) => Err(e),
    }
}

/// Reads what the path-info command left behind: the store path of the
/// configuration.
pub fn read_store_path(output: &Output) -> (r: Result<String, NixError>)
    ensures
        match r {
            Ok(path) => read(output@, named_path()) == Ok::<
                Seq<char>,
                NixErrorView,
            >(path@),
            Err(e) => read(output@, named_path()) == Err::<
                Seq<char>,
                NixErrorView,
            >(e@),
        },
{
    match json_output(output) {
        Ok(json) => match store_path(&json) {
            Some(path) => Ok(path),
            None => Err(NixError::Unexpected),
        },
        Err(e) => Err(e),
    }
}

/// What evaluating one configuration gave: its name and its store path.
#[derive(Debug, PartialEq, Eq)]
pub struct Evaluated {
    pub name: String,
    pub store_path: String,
}

/// The mathematical value of an [`Evaluated`].
pub struct EvaluatedView {
    pub name: Seq<char>,
    pub store_path: Seq<char>,
}

impl View for Evaluated {
    type V = EvaluatedView;

    open spec fn view(&self) -> EvaluatedView {
        EvaluatedView { name: self.name@, store_path: self.store_path@ }
    }
}

impl StoreView {
    /// Writing down one evaluated configuration of a revision of the flake
    /// `flake_id`: the configuration is written unless it is there, then its
    /// evaluation unless the pair has one.
    pub open spec fn record(self, flake_id: i64, flake_revision_id: i64, evaluated: EvaluatedView)
        -> (StoreView, Result<(), StoreError>) {
        match self.upsert_configuration(flake_id, evaluated.name) {
            (with_configuration, Ok(id)) => match with_configuration.insert_evaluation(
                flake_revision_id,
                id,
                evaluated.store_path,
            ) {
                (with_evaluation, Ok(_)) => (with_evaluation, Ok(())),
                (unchanged, Err(e)) => (unchanged, Err(e)),
            },
            (unchanged, Err(e)) => (unchanged, Err(e)),
        }
    }

    /// Writing down the evaluated configurations of a revision, in their
    /// order, up to the first that the store refuses.
    pub open spec fn record_all(
        self,
        flake_id: i64,
        flake_revision_id: i64,
        evaluated: Seq<EvaluatedView>,
    ) -> (StoreView, Result<(), StoreError>)
        decreases evaluated.len(),
    {
        if evaluated.len() == 0 {
            (self, Ok(()))
        } else {
            match self.record_all(flake_id, flake_revision_id, evaluated.drop_last()) {
                (earlier, Ok(_)) => earlier.record(flake_id, flake_revision_id, evaluated.last()),
                (earlier, Err(e)) => (earlier, Err(e)),
            }
        }
    }

    /// Processing a revision: its evaluated configurations are written down
    /// for the flake of the revision. A revision that is not there is
    /// refused.
    pub open spec fn process_revision(self, flake_revision_id: i64, evaluated: Seq<EvaluatedView>)
        -> (StoreView, Result<(), StoreError>) {
        match self.revision(flake_revision_id) {
            Some(revision) => self.record_all(revision.flake_id, flake_revision_id, evaluated),
            None => (self, Err(StoreError::Missing)),
        }
    }

    /// Whether an evaluated configuration is written down: the configuration
    /// is there, and it has an evaluation at the revision.
    pub open spec fn holds(self, flake_id: i64, flake_revision_id: i64, evaluated: EvaluatedView)
        -> bool {
        match self.configuration_id_of(flake_id, evaluated.name) {
            Some(id) => self.store_path_of(flake_revision_id, id) is Some,
            None => false,
        }
    }

    /// Whether `later` is this store with more configurations and evaluations
    /// written behind those that are there.
    pub open spec fn grown_to(self, later: StoreView) -> bool {
        &&& self.configurations.len() <= later.configurations.len()
        &&& later.configurations.take(self.configurations.len() as int) == self.configurations
        &&& self.evaluations.len() <= later.evaluations.len()
        &&& later.evaluations.take(self.evaluations.len() as int) == self.evaluations
        &&& later.flakes == self.flakes
        &&& later.revisions == self.revisions
    }
}

/// The first match among more rows is the first match among the first of
/// them, where there is one.
proof fn lemma_first_match_grown<A>(rows: Seq<A>, more: Seq<A>, wanted: spec_fn(A) -> bool)
    requires
        rows.len() <= more.len(),
        more.take(rows.len() as int) == rows,
        first_match(rows, wanted) is Some,
    ensures
        first_match(more, wanted) == first_match(rows, wanted),
    decreases more.len(),
{
    if rows.len() < more.len() {
        assert(more.drop_last().take(rows.len() as int) =~= more.take(rows.len() as int));
        lemma_first_match_grown(rows, more.drop_last(), wanted);
    } else {
        assert(more.take(rows.len() as int) =~= more);
    }
}

/// What is written down stays written down while the store grows.
proof fn lemma_holds_grown(
    store: StoreView,
    later: StoreView,
    flake_id: i64,
    flake_revision_id: i64,
    evaluated: EvaluatedView,
)
    requires
        store.grown_to(later),
        store.holds(flake_id, flake_revision_id, evaluated),
    ensures
        later.holds(flake_id, flake_revision_id, evaluated),
{
    lemma_first_match_grown(
        store.configurations,
        later.configurations,
        crate::store::configuration_named(flake_id, evaluated.name),
    );
    crate::table::lemma_first_match(
        store.configurations,
        crate::store::configuration_named(flake_id, evaluated.name),
    );
    let at = first_match(
        store.configurations,
        crate::store::configuration_named(flake_id, evaluated.name),
    )->0;
    assert(later.configurations[at] == later.configurations.take(
        store.configurations.len() as int,
    )[at]);
    let id = store.configurations[at].nixos_configuration_id;
    lemma_first_match_grown(
        store.evaluations,
        later.evaluations,
        crate::store::evaluation_of(flake_revision_id, id),
    );
}

/// Writing down one evaluated configuration lets the store grow, and where
/// the store accepts it, it is written down then.
proof fn lemma_record(
    store: StoreView,
    flake_id: i64,
    flake_revision_id: i64,
    evaluated: EvaluatedView,
)
    ensures
        store.grown_to(store.record(flake_id, flake_revision_id, evaluated).0),
        store.record(flake_id, flake_revision_id, evaluated).1 is Ok ==> store.record(
            flake_id,
            flake_revision_id,
            evaluated,
        ).0.holds(flake_id, flake_revision_id, evaluated),
        store.holds(flake_id, flake_revision_id, evaluated) ==> store.record(
            flake_id,
            flake_revision_id,
            evaluated,
        ) == (store, Ok::<(), StoreError>(())),
{
    let named = crate::store::configuration_named(flake_id, evaluated.name);
    let (with_configuration, upserted) = store.upsert_configuration(flake_id, evaluated.name);
    assert(with_configuration.configurations.take(store.configurations.len() as int)
        =~= store.configurations);
    assert(with_configuration.evaluations.take(store.evaluations.len() as int)
        =~= store.evaluations);
    match upserted {
        Ok(id) => {
            if store.configuration_id_of(flake_id, evaluated.name) is None {
                lemma_first_match_push(
                    store.configurations,
                    named,
                    crate::store::ConfigurationView {
                        nixos_configuration_id: store.next_configuration_id,
                        flake_id,
                        name: evaluated.name,
                    },
                );
            }
            assert(with_configuration.configuration_id_of(flake_id, evaluated.name) == Some(id));
            let (with_evaluation, inserted) = with_configuration.insert_evaluation(
                flake_revision_id,
                id,
                evaluated.store_path,
            );
            assert(with_evaluation.evaluations.take(store.evaluations.len() as int)
                =~= store.evaluations);
            assert(with_evaluation.configurations.take(store.configurations.len() as int)
                =~= store.configurations);
            if inserted is Ok {
                if with_configuration.store_path_of(flake_revision_id, id) is None {
                    lemma_first_match_push(
                        with_configuration.evaluations,
                        crate::store::evaluation_of(flake_revision_id, id),
                        crate::store::EvaluationView {
                            flake_revision_id,
                            nixos_configuration_id: id,
                            store_path: evaluated.store_path,
                        },
                    );
                }
            }
        },
        Err(_) => {},
    }
}

/// Growing is transitive.
proof fn lemma_grown_twice(first: StoreView, second: StoreView, third: StoreView)
    requires
        first.grown_to(second),
        second.grown_to(third),
    ensures
        first.grown_to(third),
{
    assert(third.configurations.take(first.configurations.len() as int) =~= second.configurations.take(
        first.configurations.len() as int,
    ));
    assert(third.evaluations.take(first.evaluations.len() as int) =~= second.evaluations.take(
        first.evaluations.len() as int,
    ));
}

/// Writing down evaluated configurations lets the store grow, and where the
/// store accepts them all, each of them is written down then.
proof fn lemma_record_all(
    store: StoreView,
    flake_id: i64,
    flake_revision_id: i64,
    evaluated: Seq<EvaluatedView>,
)
    ensures
        store.grown_to(store.record_all(flake_id, flake_revision_id, evaluated).0),
        store.record_all(flake_id, flake_revision_id, evaluated).1 is Ok ==> forall|k: int|
            0 <= k < evaluated.len() ==> store.record_all(
                flake_id,
                flake_revision_id,
                evaluated,
            ).0.holds(flake_id, flake_revision_id, #[trigger] evaluated[k]),
    decreases evaluated.len(),
{
    if evaluated.len() == 0 {
        assert(store.configurations.take(store.configurations.len() as int)
            =~= store.configurations);
        assert(store.evaluations.take(store.evaluations.len() as int) =~= store.evaluations);
    } else {
        let (earlier, r) = store.record_all(flake_id, flake_revision_id, evaluated.drop_last());
        lemma_record_all(store, flake_id, flake_revision_id, evaluated.drop_last());
        if r is Ok {
            let (after, last) = earlier.record(flake_id, flake_revision_id, evaluated.last());
            lemma_record(earlier, flake_id, flake_revision_id, evaluated.last());
            lemma_grown_twice(store, earlier, after);
            if last is Ok {
                assert forall|k: int| 0 <= k < evaluated.len() implies after.holds(
                    flake_id,
                    flake_revision_id,
                    #[trigger] evaluated[k],
                ) by {
                    if k < evaluated.len() - 1 {
                        assert(evaluated[k] == evaluated.drop_last()[k]);
                        lemma_holds_grown(earlier, after, flake_id, flake_revision_id, evaluated[k]);
                    }
                }
            }
        }
    }
}

/// Writing down what is written down changes nothing.
proof fn lemma_record_all_again(
    store: StoreView,
    flake_id: i64,
    flake_revision_id: i64,
    evaluated: Seq<EvaluatedView>,
)
    requires
        forall|k: int|
            0 <= k < evaluated.len() ==> store.holds(
                flake_id,
                flake_revision_id,
                #[trigger] evaluated[k],
            ),
    ensures
        store.record_all(flake_id, flake_revision_id, evaluated) == (store, Ok::<(), StoreError>(())),
    decreases evaluated.len(),
{
    if evaluated.len() > 0 {
        assert forall|k: int| 0 <= k < evaluated.len() - 1 implies store.holds(
            flake_id,
            flake_revision_id,
            #[trigger] evaluated.drop_last()[k],
        ) by {
            assert(evaluated.drop_last()[k] == evaluated[k]);
        }
        lemma_record_all_again(store, flake_id, flake_revision_id, evaluated.drop_last());
        lemma_record(store, flake_id, flake_revision_id, evaluated.last());
    }
}

/// Processing a revision twice gives the rows that processing it once gives:
/// where the first run went through, a second run with the same evaluations
/// goes through and changes nothing.
pub proof fn lemma_process_revision_idempotent(
    store: StoreView,
    flake_revision_id: i64,
    evaluated: Seq<EvaluatedView>,
)
    requires
        store.process_revision(flake_revision_id, evaluated).1 is Ok,
    ensures
        store.process_revision(flake_revision_id, evaluated).0.process_revision(
            flake_revision_id,
            evaluated,
        ) == (store.process_revision(flake_revision_id, evaluated).0, Ok::<(), StoreError>(())),
{
    let revision = store.revision(flake_revision_id)->0;
    let once = store.process_revision(flake_revision_id, evaluated).0;
    lemma_record_all(store, revision.flake_id, flake_revision_id, evaluated);
    assert(once.revision(flake_revision_id) == store.revision(flake_revision_id));
    lemma_record_all_again(once, revision.flake_id, flake_revision_id, evaluated);
}

/// Writes down one evaluated configuration of a revision of the flake
/// `flake_id`.
fn record(store: &mut Store, flake_id: i64, flake_revision_id: i64, evaluated: &Evaluated) -> (r:
    Result<(), StoreError>)
    ensures
        (final(store)@, r) == old(store)@.record(flake_id, flake_revision_id, evaluated@),
{
    match store.upsert_nixos_configuration(flake_id, evaluated.name.as_str()) {
        Ok(id) => match store.insert_nixos_configutaion_evaluation(
            flake_revision_id,
            id,
            evaluated.store_path.as_str(),
        ) {
            Ok(_) => Ok(()),
            Err(e) => Err(e),
        },
        Err(e) => Err(e),
    }
}

/// Processes a revision: writes down, for the flake of the revision, each
/// configuration that was evaluated at it, with the store path it evaluates
/// to. A configuration that is there keeps its id, and an evaluation that is
/// there stays as it is.
///
/// Stops at the first write that the store refuses; what was written before
/// stays.
pub fn process_configurations(
    store: &mut Store,
    flake_revision_id: i64,
    evaluated: &Vec<Evaluated>,
) -> (r: Result<(), StoreError>)
    ensures
        (final(store)@, r) == old(store)@.process_revision(
            flake_revision_id,
            crate::table::views(evaluated@),
        ),
{
    let flake_id = match store.revision(flake_revision_id) {
        Some(revision) => revision.flake_id,
        None => {
            return Err(StoreError::Missing);
        },
    };
    let ghost all = crate::table::views(evaluated@);
    let mut i: usize = 0;
    while i < evaluated.len()
        invariant
            i <= evaluated.len(),
            all == crate::table::views(evaluated@),
            old(store)@.revision(flake_revision_id) matches Some(revision) && revision.flake_id
                == flake_id,
            (store@, Ok::<(), StoreError>(())) == old(store)@.record_all(
                flake_id,
                flake_revision_id,
                all.take(i as int),
            ),
        decreases evaluated.len() - i,
    {
        proof {
            assert(all.take(i as int + 1).drop_last() =~= all.take(i as int));
            assert(all.take(i as int + 1).last() == evaluated@[i as int]@);
        }
        match record(store, flake_id, flake_revision_id, &evaluated[i]) {
            Ok(_) => {},
            Err(e) => {
                proof {
                    lemma_record_all_stops(
                        old(store)@,
                        flake_id,
                        flake_revision_id,
                        all,
                        i as int + 1,
                    );
                }
                return Err(e);
            },
        }
        i += 1;
    }
    proof {
        assert(all.take(evaluated.len() as int) =~= all);
    }
    Ok(())
}

/// Once the store has refused a write, nothing more is written.
proof fn lemma_record_all_stops(
    store: StoreView,
    flake_id: i64,
    flake_revision_id: i64,
    evaluated: Seq<EvaluatedView>,
    upto: int,
)
    requires
        0 <= upto <= evaluated.len(),
        store.record_all(flake_id, flake_revision_id, evaluated.take(upto)).1 is Err,
    ensures
        store.record_all(flake_id, flake_revision_id, evaluated) == store.record_all(
            flake_id,
            flake_revision_id,
            evaluated.take(upto),
        ),
    decreases evaluated.len(),
{
    if upto < evaluated.len() {
        assert(evaluated.drop_last().take(upto) =~= evaluated.take(upto));
        lemma_record_all_stops(store, flake_id, flake_revision_id, evaluated.drop_last(), upto);
    } else {
        assert(evaluated.take(upto) =~= evaluated);
    }
}

/// Processes a revision.
pub fn insert_store_paths(store: &mut Store, flake_revision_id: i64, evaluated: &Vec<Evaluated>)
    -> (r: Result<(), StoreError>)
    ensures
        (final(store)@, r) == old(store)@.process_revision(
            flake_revision_id,
            crate::table::views(evaluated@),
        ),
{
    process_configurations(store, flake_revision_id, evaluated)
}

/// Registers a flake: writes the flake and the revision that its metadata
/// describes, both or neither, and gives the id of the revision, which is to
/// be processed next.
pub fn create_flake(store: &mut Store, flake_url: &str, metadata: &FlakeMetadata, meta: Json) -> (r:
    Result<i64, StoreError>)
    ensures
        final(store)@ == old(store)@.create_flake(
            flake_url@,
            metadata@.revision,
            metadata@.last_modified,
            metadata@.url,
            meta@,
        ).0,
        r == match old(store)@.create_flake(
            flake_url@,
            metadata@.revision,
            metadata@.last_modified,
            metadata@.url,
            meta@,
        ).1 {
            Ok((_, flake_revision_id)) => Ok::<i64, StoreError>(flake_revision_id),
            Err(e) => Err(e),
        },
{
    match store.create_flake(
        flake_url,
        metadata.revision.as_str(),
        metadata.last_modified,
        metadata.url.as_str(),
        meta,
    ) {
        Ok((_, flake_revision_id)) => Ok(flake_revision_id),
        Err(e) => Err(e),
    }
}

/// Takes in the fresh metadata of a flake: where its revision is not the
/// flake's latest, the revision is written and its id is given, to be
/// processed next; where it is, nothing is written and nothing is to be done.
pub fn update_flake(store: &mut Store, flake_id: i64, metadata: &FlakeMetadata, meta: Json) -> (r:
    Result<Option<i64>, StoreError>)
    ensures
        final(store)@ == old(store)@.insert_revision(
            flake_id,
            metadata@.revision,
            metadata@.last_modified,
            metadata@.url,
            meta@,
        ).0,
        r == match old(store)@.insert_revision(
            flake_id,
            metadata@.revision,
            metadata@.last_modified,
            metadata@.url,
            meta@,
        ).1 {
            Ok(flake_revision_id) => Ok::<Option<i64>, StoreError>(Some(flake_revision_id)),
            Err(StoreError::Unchanged) => Ok(None),
            Err(e) => Err(e),
        },
{
    match store.insert_revision(
        flake_id,
        metadata.revision.as_str(),
        metadata.last_modified,
        metadata.url.as_str(),
        meta,
    ) {
        Ok(flake_revision_id) => Ok(Some(flake_revision_id)),
        Err(StoreError::Unchanged) => Ok(None),
        Err(e) => Err(e),
    }
}

/// The fresh metadata of a flake.
#[derive(Debug, PartialEq, Eq)]
pub struct Fetched {
    pub flake_id: i64,
    pub metadata: FlakeMetadata,
    /// Everything that the package system said of the flake.
    pub meta: Json,
}

/// The mathematical value of a [`Fetched`].
pub struct FetchedView {
    pub flake_id: i64,
    pub metadata: FlakeMetadataView,
    pub meta: JsonValue,
}

impl View for Fetched {
    type V = FetchedView;

    open spec fn view(&self) -> FetchedView {
        FetchedView { flake_id: self.flake_id, metadata: self.metadata@, meta: self.meta@ }
    }
}

/// What a refresh of flakes gave.
#[derive(Debug, PartialEq, Eq)]
pub struct Refreshed {
    /// The ids of the revisions that were written, in the order of the
    /// flakes. They are to be processed next.
    pub written: Vec<i64>,
    /// The flakes whose revision the store refused, each with the reason, in
    /// the order of the flakes.
    pub failed: Vec<(i64, StoreError)>,
}

/// The mathematical value of a refresh: the store after it, the revisions
/// that were written, and the flakes that failed.
pub struct RefreshedView {
    pub store: StoreView,
    pub written: Seq<i64>,
    pub failed: Seq<(i64, StoreError)>,
}

impl StoreView {
    /// Taking in the fresh metadata of flakes, one flake after the other.
    /// Each revision that is not its flake's latest is written. A flake
    /// whose revision the store refuses is given up, with the reason; the
    /// flakes behind it are taken in all the same.
    pub open spec fn refresh(self, fetched: Seq<FetchedView>) -> RefreshedView
        decreases fetched.len(),
    {
        if fetched.len() == 0 {
            RefreshedView { store: self, written: Seq::empty(), failed: Seq::empty() }
        } else {
            let earlier = self.refresh(fetched.drop_last());
            let last = fetched.last();
            match earlier.store.insert_revision(
                last.flake_id,
                last.metadata.revision,
                last.metadata.last_modified,
                last.metadata.url,
                last.meta,
            ) {
                (after, Ok(flake_revision_id)) => RefreshedView {
                    store: after,
                    written: earlier.written.push(flake_revision_id),
                    failed: earlier.failed,
                },
                (after, Err(StoreError::Unchanged)) => RefreshedView { store: after, ..earlier },
                (after, Err(e)) => RefreshedView {
                    store: after,
                    written: earlier.written,
                    failed: earlier.failed.push((last.flake_id, e)),
                },
            }
        }
    }
}

/// A flake that fails holds no other flake up: after any flakes, refused or
/// not, one more flake is taken in as if it came alone to the store that the
/// others left behind.
pub proof fn lemma_refresh_goes_on(store: StoreView, before: Seq<FetchedView>, next: FetchedView)
    ensures
        store.refresh(before.push(next)).store == store.refresh(before).store.refresh(
            seq![next],
        ).store,
        store.refresh(before.push(next)).written == store.refresh(before).written
            + store.refresh(before).store.refresh(seq![next]).written,
        store.refresh(before.push(next)).failed == store.refresh(before).failed + store.refresh(
            before,
        ).store.refresh(seq![next]).failed,
{
    let earlier = store.refresh(before);
    assert(before.push(next).drop_last() =~= before);
    assert(seq![next].drop_last() =~= Seq::<FetchedView>::empty());
    reveal_with_fuel(StoreView::refresh, 3);
    let alone = earlier.store.refresh(seq![next]);
    assert(earlier.store.refresh(Seq::<FetchedView>::empty()).store == earlier.store);
    assert(store.refresh(before.push(next)).written =~= earlier.written + alone.written);
    assert(store.refresh(before.push(next)).failed =~= earlier.failed + alone.failed);
}

/// Takes in the fresh metadata of flakes, one flake after the other: for
/// each flake whose revision has changed, the new revision is written.
///
/// A flake whose revision the store refuses is given up, and the flakes
/// behind it are taken in all the same. The result holds the ids of the
/// revisions that were written, which are to be processed next, and the
/// flakes that failed, each with the reason.
pub fn update_flakes(store: &mut Store, fetched: &Vec<Fetched>) -> (r: Refreshed)
    ensures
        final(store)@ == old(store)@.refresh(crate::table::views(fetched@)).store,
        r.written@ == old(store)@.refresh(crate::table::views(fetched@)).written,
        r.failed@ == old(store)@.refresh(crate::table::views(fetched@)).failed,
{
    let ghost all = crate::table::views(fetched@);
    let mut written: Vec<i64> = Vec::new();
    let mut failed: Vec<(i64, StoreError)> = Vec::new();
    let mut i: usize = 0;
    while i < fetched.len()
        invariant
            i <= fetched.len(),
            all == crate::table::views(fetched@),
            store@ == old(store)@.refresh(all.take(i as int)).store,
            written@ == old(store)@.refresh(all.take(i as int)).written,
            failed@ == old(store)@.refresh(all.take(i as int)).failed,
        decreases fetched.len() - i,
    {
        proof {
            assert(all.take(i as int + 1).drop_last() =~= all.take(i as int));
            assert(all.take(i as int + 1).last() == fetched@[i as int]@);
        }
        match update_flake(
            store,
            fetched[i].flake_id,
            &fetched[i].metadata,
            fetched[i].meta.clone(),
        ) {
            Ok(Some(flake_revision_id)) => {
                written.push(flake_revision_id);
            },
            Ok(None) => {},
            Err(e) => {
                failed.push((fetched[i].flake_id, e));
            },
        }
        i += 1;
    }
    proof {
        assert(all.take(fetched.len() as int) =~= all);
    }
    Refreshed { written, failed }
}

} // verus!
