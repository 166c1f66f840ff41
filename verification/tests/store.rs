use nxy::json::Json;
use nxy::nix::{
    config_derivation, config_store_path, configuration_names, create_flake, flake_metadata,
    insert_store_paths, json_output, list_configurations, process_configurations,
    read_configurations, read_flake_metadata, read_store_path, store_path, update_flake,
    update_flakes, Evaluated, Fetched, FlakeMetadata, NixError, Refreshed,
};
use nxy::process::{Command, Output};
use nxy::store::{
    AgentRecord, Configuration, Evaluation, Flake, FlakeRevision, Store, StoreError,
};
use nxy::types::AgentId;

fn metadata(revision: &str) -> FlakeMetadata {
    FlakeMetadata {
        revision: revision.to_string(),
        last_modified: 1_700_000_000,
        url: format!("github:x/y/{revision}"),
    }
}

fn evaluated(name: &str, store_path: &str) -> Evaluated {
    Evaluated { name: name.to_string(), store_path: store_path.to_string() }
}

fn printed(stdout: &str) -> Output {
    Output { success: true, stdout: stdout.to_string(), stderr: String::new() }
}

fn command(args: &[&str]) -> Command {
    Command { program: "nix".to_string(), args: args.iter().map(|a| a.to_string()).collect() }
}

#[test]
fn an_empty_store_has_no_rows() {
    let store = Store::new();
    assert_eq!(store.flake_id_of("github:x/y"), None);
    assert_eq!(store.flake(1), None);
    assert_eq!(store.revision(1), None);
    assert_eq!(store.latest_revision(1), None);
    assert_eq!(store.configuration(1), None);
    assert_eq!(store.store_path_of(1, 1), None);
    assert_eq!(store.agent(AgentId(1)), None);
    assert_eq!(store.get_agents(), vec![]);
    assert_eq!(store.get_flakes(), vec![]);
    assert_eq!(store.list_configurations(), vec![]);
}

#[test]
fn registering_a_flake_and_processing_its_revision_writes_every_row() {
    let mut store = Store::new();
    let meta = Json::Object(vec![("revision".to_string(), Json::text("r1"))]);
    let revision = create_flake(&mut store, "github:x/y", &metadata("r1"), meta.clone()).unwrap();
    assert_eq!(revision, 1);
    let configs =
        vec![evaluated("alpha", "/nix/store/AAA-alpha"), evaluated("beta", "/nix/store/BBB-beta")];
    assert_eq!(process_configurations(&mut store, revision, &configs), Ok(()));

    let flake = Flake { flake_id: 1, flake_url: "github:x/y".to_string() };
    let first = FlakeRevision {
        flake_revision_id: 1,
        flake_id: 1,
        revision: "r1".to_string(),
        last_modified: 1_700_000_000,
        url: "github:x/y/r1".to_string(),
        metadata: meta,
    };
    assert_eq!(store.get_flakes(), vec![(flake.clone(), first.clone())]);
    assert_eq!(store.flake(1), Some(flake));
    assert_eq!(store.revision(1), Some(first));
    assert_eq!(
        store.list_configurations(),
        vec![
            (
                Configuration { nixos_configuration_id: 1, flake_id: 1, name: "alpha".into() },
                "github:x/y".to_string()
            ),
            (
                Configuration { nixos_configuration_id: 2, flake_id: 1, name: "beta".into() },
                "github:x/y".to_string()
            ),
        ]
    );
    assert_eq!(store.store_path_of(1, 1), Some("/nix/store/AAA-alpha".to_string()));
    assert_eq!(store.store_path_of(1, 2), Some("/nix/store/BBB-beta".to_string()));
    assert_eq!(store.store_path_of(1, 3), None);
    assert_eq!(store.configuration_id_of(1, "beta"), Some(2));
    assert_eq!(store.configuration_at("/nix/store/BBB-beta"), Some(2));
}

#[test]
fn a_flake_url_is_registered_once() {
    let mut store = Store::new();
    assert_eq!(create_flake(&mut store, "github:x/y", &metadata("r1"), Json::Null), Ok(1));
    assert_eq!(
        create_flake(&mut store, "github:x/y", &metadata("r2"), Json::Null),
        Err(StoreError::Conflict)
    );
    assert_eq!(store.insert_flake("github:x/y"), Err(StoreError::Conflict));
    assert_eq!(store.insert_flake("github:x/z"), Ok(2));
    assert_eq!(store.flake_id_of("github:x/z"), Some(2));
    assert_eq!(store.get_flakes().len(), 1);
    assert_eq!(store.latest_revision(1).unwrap().revision, "r1");
}

#[test]
fn a_pair_of_revision_and_configuration_has_one_evaluation() {
    let mut store = Store::new();
    let revision = create_flake(&mut store, "f", &metadata("r1"), Json::Null).unwrap();
    let config = store.upsert_nixos_configuration(1, "alpha").unwrap();
    assert_eq!(store.insert_nixos_configutaion_evaluation(revision, config, "/nix/store/A"), Ok(true));
    assert_eq!(
        store.insert_nixos_configutaion_evaluation(revision, config, "/nix/store/B"),
        Ok(false)
    );
    assert_eq!(
        store.insert_nixos_configutaion_evaluation(revision, config, "/nix/store/A"),
        Ok(false)
    );
    assert_eq!(store.store_path_of(revision, config), Some("/nix/store/A".to_string()));
}

#[test]
fn upserting_a_configuration_gives_the_same_id_again() {
    let mut store = Store::new();
    create_flake(&mut store, "f", &metadata("r1"), Json::Null).unwrap();
    create_flake(&mut store, "g", &metadata("r1"), Json::Null).unwrap();
    assert_eq!(store.upsert_nixos_configuration(1, "alpha"), Ok(1));
    assert_eq!(store.upsert_nixos_configuration(2, "alpha"), Ok(2));
    assert_eq!(store.upsert_nixos_configuration(1, "beta"), Ok(3));
    assert_eq!(store.upsert_nixos_configuration(1, "alpha"), Ok(1));
    assert_eq!(store.upsert_nixos_configuration(2, "alpha"), Ok(2));
    assert_eq!(store.list_configurations().len(), 3);
}

#[test]
fn rows_that_point_at_nothing_are_refused() {
    let mut store = Store::new();
    assert_eq!(store.insert_revision(1, "r", 0, "u", Json::Null), Err(StoreError::Missing));
    assert_eq!(store.upsert_nixos_configuration(1, "alpha"), Err(StoreError::Missing));
    assert_eq!(
        store.insert_nixos_configutaion_evaluation(1, 1, "/nix/store/A"),
        Err(StoreError::Missing)
    );
    create_flake(&mut store, "f", &metadata("r1"), Json::Null).unwrap();
    assert_eq!(
        store.insert_nixos_configutaion_evaluation(1, 1, "/nix/store/A"),
        Err(StoreError::Missing)
    );
    assert_eq!(store.set_current_system(AgentId(1), "/nix/store/A"), Err(StoreError::Missing));
    assert_eq!(store.set_configuration(AgentId(1), 1), Err(StoreError::Missing));
    store.insert_agent(AgentId(1)).unwrap();
    assert_eq!(store.set_configuration(AgentId(1), 1), Err(StoreError::Missing));
    assert_eq!(process_configurations(&mut store, 9, &vec![]), Err(StoreError::Missing));
    assert_eq!(store.get_flakes().len(), 1);
    assert_eq!(store.list_configurations(), vec![]);
}

#[test]
fn processing_a_revision_twice_changes_nothing() {
    let mut store = Store::new();
    let revision = create_flake(&mut store, "github:x/y", &metadata("r1"), Json::Null).unwrap();
    let configs = vec![
        evaluated("alpha", "/nix/store/AAA-alpha"),
        evaluated("beta", "/nix/store/BBB-beta"),
        evaluated("alpha", "/nix/store/AAA-alpha"),
    ];
    assert_eq!(process_configurations(&mut store, revision, &configs), Ok(()));
    let configurations = store.list_configurations();
    let paths: Vec<Option<String>> = (1..4).map(|id| store.store_path_of(revision, id)).collect();
    assert_eq!(process_configurations(&mut store, revision, &configs), Ok(()));
    assert_eq!(insert_store_paths(&mut store, revision, &configs), Ok(()));
    assert_eq!(store.list_configurations(), configurations);
    assert_eq!(configurations.len(), 2);
    let again: Vec<Option<String>> = (1..4).map(|id| store.store_path_of(revision, id)).collect();
    assert_eq!(again, paths);
    assert_eq!(
        paths,
        vec![Some("/nix/store/AAA-alpha".to_string()), Some("/nix/store/BBB-beta".into()), None]
    );
}

#[test]
fn a_new_revision_is_written_only_when_it_differs_from_the_latest() {
    let mut store = Store::new();
    create_flake(&mut store, "github:x/y", &metadata("r1"), Json::Null).unwrap();
    assert_eq!(update_flake(&mut store, 1, &metadata("r1"), Json::Null), Ok(None));
    assert_eq!(update_flake(&mut store, 1, &metadata("r2"), Json::Null), Ok(Some(2)));
    assert_eq!(update_flake(&mut store, 1, &metadata("r2"), Json::Null), Ok(None));
    assert_eq!(update_flake(&mut store, 1, &metadata("r1"), Json::Null), Ok(Some(3)));
    assert_eq!(update_flake(&mut store, 7, &metadata("r1"), Json::Null), Err(StoreError::Missing));
    assert_eq!(store.insert_revision(1, "r1", 0, "u", Json::Null), Err(StoreError::Unchanged));
    assert_eq!(store.latest_revision(1).unwrap().flake_revision_id, 3);
    assert_eq!(store.get_flakes()[0].1.revision, "r1");
}

#[test]
fn refreshing_flakes_gives_the_revisions_to_process() {
    let mut store = Store::new();
    create_flake(&mut store, "a", &metadata("r1"), Json::Null).unwrap();
    create_flake(&mut store, "b", &metadata("r1"), Json::Null).unwrap();
    create_flake(&mut store, "c", &metadata("r1"), Json::Null).unwrap();
    let fetched = vec![
        Fetched { flake_id: 1, metadata: metadata("r2"), meta: Json::Null },
        Fetched { flake_id: 2, metadata: metadata("r1"), meta: Json::Null },
        Fetched { flake_id: 3, metadata: metadata("r9"), meta: Json::Int(9) },
    ];
    assert_eq!(
        update_flakes(&mut store, &fetched),
        Refreshed { written: vec![4, 5], failed: vec![] }
    );
    assert_eq!(store.latest_revision(1).unwrap().revision, "r2");
    assert_eq!(store.latest_revision(2).unwrap().flake_revision_id, 2);
    assert_eq!(store.latest_revision(3).unwrap().metadata, Json::Int(9));
    assert_eq!(update_flakes(&mut store, &vec![]), Refreshed { written: vec![], failed: vec![] });
}

#[test]
fn a_flake_that_fails_holds_no_other_flake_up() {
    for failing_first in [true, false] {
        let mut store = Store::new();
        create_flake(&mut store, "f2", &metadata("r1"), Json::Null).unwrap();
        let gone = Fetched { flake_id: 8, metadata: metadata("r2"), meta: Json::Null };
        let fine = Fetched { flake_id: 1, metadata: metadata("r2"), meta: Json::Null };
        let fetched = if failing_first { vec![gone, fine] } else { vec![fine, gone] };
        assert_eq!(
            update_flakes(&mut store, &fetched),
            Refreshed { written: vec![2], failed: vec![(8, StoreError::Missing)] }
        );
        assert_eq!(store.latest_revision(1).unwrap().revision, "r2");
        assert_eq!(store.latest_revision(1).unwrap().flake_revision_id, 2);
        assert_eq!(store.latest_revision(8), None);
    }
    let mut store = Store::new();
    create_flake(&mut store, "a", &metadata("r1"), Json::Null).unwrap();
    create_flake(&mut store, "b", &metadata("r1"), Json::Null).unwrap();
    let fetched = vec![
        Fetched { flake_id: 5, metadata: metadata("r2"), meta: Json::Null },
        Fetched { flake_id: 2, metadata: metadata("r2"), meta: Json::Null },
        Fetched { flake_id: 6, metadata: metadata("r2"), meta: Json::Null },
        Fetched { flake_id: 1, metadata: metadata("r1"), meta: Json::Null },
        Fetched { flake_id: 1, metadata: metadata("r3"), meta: Json::Null },
    ];
    assert_eq!(
        update_flakes(&mut store, &fetched),
        Refreshed {
            written: vec![3, 4],
            failed: vec![(5, StoreError::Missing), (6, StoreError::Missing)]
        }
    );
}

#[test]
fn agents_are_matched_to_the_configuration_that_they_run() {
    let mut store = Store::new();
    let revision = create_flake(&mut store, "github:x/y", &metadata("r1"), Json::Null).unwrap();
    let configs =
        vec![evaluated("alpha", "/nix/store/AAA-alpha"), evaluated("beta", "/nix/store/BBB-beta")];
    process_configurations(&mut store, revision, &configs).unwrap();
    for id in 1..5 {
        store.insert_agent(AgentId(id)).unwrap();
    }
    assert_eq!(store.insert_agent(AgentId(1)), Err(StoreError::Conflict));
    store.set_current_system(AgentId(1), "/nix/store/BBB-beta").unwrap();
    store.set_current_system(AgentId(2), "/nix/store/unknown").unwrap();
    store.set_current_system(AgentId(3), "/nix/store/BBB-beta").unwrap();
    store.set_configuration(AgentId(3), 1).unwrap();
    store.match_agent_to_configuration();
    let record = |id: u128, system: Option<&str>, config: Option<i64>| AgentRecord {
        agent_id: AgentId(id),
        current_system: system.map(|s| s.to_string()),
        nixos_configuration_id: config,
    };
    assert_eq!(
        store.get_agents(),
        vec![
            record(1, Some("/nix/store/BBB-beta"), Some(2)),
            record(2, Some("/nix/store/unknown"), None),
            record(3, Some("/nix/store/BBB-beta"), Some(1)),
            record(4, None, None),
        ]
    );
    assert_eq!(store.agent_of(2), Some(AgentId(1)));
    assert_eq!(store.agent_of(1), Some(AgentId(3)));
    assert_eq!(store.agent_of(3), None);
    assert_eq!(store.agent(AgentId(4)), Some(record(4, None, None)));
}

#[test]
fn of_two_configurations_with_one_store_path_the_first_is_matched() {
    let mut store = Store::new();
    let revision = create_flake(&mut store, "f", &metadata("r1"), Json::Null).unwrap();
    let configs = vec![evaluated("one", "/nix/store/same"), evaluated("two", "/nix/store/same")];
    process_configurations(&mut store, revision, &configs).unwrap();
    store.insert_agent(AgentId(1)).unwrap();
    store.set_current_system(AgentId(1), "/nix/store/same").unwrap();
    store.match_agent_to_configuration();
    assert_eq!(store.agent(AgentId(1)).unwrap().nixos_configuration_id, Some(1));
    assert_eq!(
        store.configuration(1),
        Some(Configuration { nixos_configuration_id: 1, flake_id: 1, name: "one".into() })
    );
}

#[test]
fn every_row_can_be_listed() {
    let mut store = Store::new();
    let revision = create_flake(&mut store, "github:x/y", &metadata("r1"), Json::Int(1)).unwrap();
    update_flake(&mut store, 1, &metadata("r2"), Json::Null).unwrap();
    process_configurations(&mut store, revision, &vec![evaluated("alpha", "/nix/store/A")])
        .unwrap();
    assert_eq!(store.flakes(), vec![Flake { flake_id: 1, flake_url: "github:x/y".into() }]);
    let revisions = store.revisions();
    assert_eq!(revisions.len(), 2);
    assert_eq!(revisions[0], store.revision(1).unwrap());
    assert_eq!(revisions[1], store.revision(2).unwrap());
    assert_eq!(revisions[0].metadata, Json::Int(1));
    assert_eq!(
        store.evaluations(),
        vec![Evaluation {
            flake_revision_id: 1,
            nixos_configuration_id: 1,
            store_path: "/nix/store/A".into()
        }]
    );
    assert_eq!(Store::new().flakes(), vec![]);
    assert_eq!(Store::new().revisions(), vec![]);
    assert_eq!(Store::new().evaluations(), vec![]);
}

#[test]
fn rows_can_be_cloned() {
    let evaluation = Evaluation {
        flake_revision_id: 1,
        nixos_configuration_id: 2,
        store_path: "/nix/store/x".to_string(),
    };
    assert_eq!(evaluation.clone(), evaluation);
}

#[test]
fn the_commands_of_the_package_system() {
    assert_eq!(
        flake_metadata("github:x/y"),
        command(&["flake", "metadata", "--json", "github:x/y"])
    );
    assert_eq!(
        list_configurations("github:x/y/r1"),
        command(&[
            "eval",
            "--json",
            "github:x/y/r1#nixosConfigurations",
            "--apply",
            "builtins.attrNames"
        ])
    );
    let path_info = command(&[
        "path-info",
        "--json",
        "github:x/y/r1#nixosConfigurations.alpha.config.system.build.toplevel",
    ]);
    assert_eq!(config_store_path("github:x/y/r1", "alpha"), path_info);
    assert_eq!(config_derivation("github:x/y/r1", "alpha"), path_info);
}

#[test]
fn the_output_of_a_command_is_read_as_json() {
    assert_eq!(json_output(&printed(" [1] ")), Ok(Json::Array(vec![Json::Int(1)])));
    let failed =
        Output { success: false, stdout: "[1]".to_string(), stderr: "error: boom".to_string() };
    assert_eq!(
        json_output(&failed),
        Err(NixError::Failed { stdout: "[1]".to_string(), stderr: "error: boom".to_string() })
    );
    match json_output(&printed("warning: not json")) {
        Err(NixError::Syntax { reason, stdout }) => {
            assert!(!reason.is_empty());
            assert_eq!(stdout, "warning: not json");
        }
        other => panic!("{other:?}"),
    }
}

#[test]
fn flake_metadata_is_read_from_what_nix_prints() {
    let text = "{\"description\":\"d\",\"lastModified\":1700000000,\"revision\":\"abc\",\"url\":\"github:x/y/abc\",\"locks\":{}}";
    let (metadata, meta) = read_flake_metadata(&printed(text)).unwrap();
    assert_eq!(
        metadata,
        FlakeMetadata {
            revision: "abc".to_string(),
            last_modified: 1_700_000_000,
            url: "github:x/y/abc".to_string()
        }
    );
    assert_eq!(meta, Json::parse(text).unwrap());
    assert_eq!(FlakeMetadata::from_json(&meta), Some(metadata));
    assert_eq!(read_flake_metadata(&printed("{\"revision\":\"abc\"}")), Err(NixError::Unexpected));
    assert_eq!(
        read_flake_metadata(&printed(
            "{\"revision\":\"abc\",\"url\":\"u\",\"lastModified\":\"yesterday\"}"
        )),
        Err(NixError::Unexpected)
    );
}

#[test]
fn configuration_names_are_read_from_what_nix_prints() {
    assert_eq!(
        read_configurations(&printed("[\"alpha\",\"beta\"]")),
        Ok(vec!["alpha".to_string(), "beta".to_string()])
    );
    assert_eq!(read_configurations(&printed("[]")), Ok(vec![]));
    assert_eq!(read_configurations(&printed("[\"alpha\",1]")), Err(NixError::Unexpected));
    assert_eq!(read_configurations(&printed("{}")), Err(NixError::Unexpected));
    assert_eq!(configuration_names(&Json::Null), None);
}

#[test]
fn the_store_path_is_the_path_of_the_last_item() {
    assert_eq!(
        read_store_path(&printed("[{\"path\":\"/nix/store/A\"},{\"path\":\"/nix/store/B\"}]")),
        Ok("/nix/store/B".to_string())
    );
    assert_eq!(read_store_path(&printed("[]")), Err(NixError::Unexpected));
    assert_eq!(read_store_path(&printed("[{\"narSize\":1}]")), Err(NixError::Unexpected));
    assert_eq!(store_path(&Json::Object(vec![])), None);
}
