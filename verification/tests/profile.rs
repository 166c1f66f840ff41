use nxy::process::Command;
use nxy::profile::{
    load_deployment_metadata, nix_eval, Deploy, GenericSettings, NixData, NixNode, NixProfile,
    Node, Profile,
};
use nxy::text::decimal_text;

fn settings() -> GenericSettings {
    GenericSettings {
        ssh_user: None,
        user: None,
        ssh_opts: vec![],
        fast_connection: None,
        auto_rollback: None,
        confirm_timeout: None,
        temp_path: None,
        magic_rollback: None,
        sudo: None,
    }
}

fn profile(generic_settings: GenericSettings) -> NixProfile {
    NixProfile { path: None, profile_path: None, generic_settings }
}

fn system_example() -> NixData {
    NixData {
        generic_settings: settings(),
        nodes: vec![(
            "example".to_string(),
            NixNode {
                hostname: "localhost".to_string(),
                profiles: vec![
                    (
                        "hello".to_string(),
                        profile(GenericSettings {
                            ssh_user: Some("hello".into()),
                            user: Some("hello".into()),
                            ..settings()
                        }),
                    ),
                    (
                        "system".to_string(),
                        profile(GenericSettings {
                            ssh_user: Some("admin".into()),
                            user: Some("root".into()),
                            ..settings()
                        }),
                    ),
                ],
                profiles_order: vec![],
                generic_settings: GenericSettings {
                    ssh_opts: vec!["-p".into(), "2221".into()],
                    fast_connection: Some(true),
                    ..settings()
                },
            },
        )],
    }
}

fn simple_example() -> NixData {
    NixData {
        generic_settings: settings(),
        nodes: vec![(
            "example".to_string(),
            NixNode {
                hostname: "localhost".to_string(),
                profiles: vec![(
                    "hello".to_string(),
                    profile(GenericSettings { user: Some("balsoft".into()), ..settings() }),
                )],
                profiles_order: vec![],
                generic_settings: settings(),
            },
        )],
    }
}

#[test]
fn display_system() {
    let deploy = load_deployment_metadata(vec![system_example()]);

    let expected = r#"node: example
hostname: localhost
profiles:
    - name: hello
      ssh_user: hello
      user: hello
      ssh_opts: -p 2221
      fast_connection: true
    - name: system
      ssh_user: admin
      user: root
      ssh_opts: -p 2221
      fast_connection: true

"#;

    assert_eq!(deploy.to_string(), expected);
}

#[test]
fn display_simple() {
    let deploy = load_deployment_metadata(vec![simple_example()]);

    let expected = r#"node: example
hostname: localhost
profiles:
    - name: hello
      user: balsoft

"#;

    assert_eq!(deploy.to_string(), expected);
}

#[test]
fn settings_of_an_outer_level_come_first() {
    let data = NixData {
        generic_settings: GenericSettings {
            ssh_user: Some("top".into()),
            ssh_opts: vec!["-A".into()],
            confirm_timeout: Some(30),
            ..settings()
        },
        nodes: vec![(
            "n".to_string(),
            NixNode {
                hostname: "h".to_string(),
                profiles: vec![(
                    "p".to_string(),
                    NixProfile {
                        path: Some("/nix/store/p".into()),
                        profile_path: Some("/nix/var/nix/profiles/p".into()),
                        generic_settings: GenericSettings {
                            ssh_user: Some("profile".into()),
                            user: Some("profile".into()),
                            ssh_opts: vec!["-C".into()],
                            sudo: Some("doas -u".into()),
                            magic_rollback: Some(false),
                            ..settings()
                        },
                    },
                )],
                profiles_order: vec!["p".into(), "q\"".into()],
                generic_settings: GenericSettings {
                    ssh_user: Some("node".into()),
                    user: Some("node".into()),
                    ssh_opts: vec!["-B".into()],
                    confirm_timeout: Some(60),
                    temp_path: Some("/tmp".into()),
                    auto_rollback: Some(true),
                    ..settings()
                },
            },
        )],
    };
    let deploy = Deploy::from_eval_data(data);
    assert_eq!(
        deploy,
        Deploy {
            nodes: vec![(
                "n".to_string(),
                Node {
                    hostname: "h".to_string(),
                    profiles: vec![(
                        "p".to_string(),
                        Profile {
                            path: Some("/nix/store/p".into()),
                            profile_path: Some("/nix/var/nix/profiles/p".into()),
                            ssh_user: Some("top".into()),
                            user: Some("node".into()),
                            ssh_opts: Some("-A -B -C".into()),
                            fast_connection: None,
                            auto_rollback: Some(true),
                            confirm_timeout: Some(30),
                            temp_path: Some("/tmp".into()),
                            magic_rollback: Some(false),
                            sudo: Some("doas -u".into()),
                        },
                    )],
                    profiles_order: vec!["p".into(), "q\"".into()],
                },
            )],
        }
    );
    assert_eq!(
        deploy.to_string(),
        "node: n\nhostname: h\nprofile_order: [\"p\", \"q\\\"\"]\nprofiles:\n    - name: p\n      profile_path: /nix/var/nix/profiles/p\n      ssh_user: top\n      user: node\n      ssh_opts: -A -B -C\n      auto_rollback: true\n      confirm_timeout: 30\n      temp_path: 30\n      magic_rollback: false\n      sudo: doas -u\n\n"
    );
}

#[test]
fn merging_fills_in_what_is_not_set() {
    let first = GenericSettings {
        user: Some("a".into()),
        ssh_opts: vec!["1".into()],
        fast_connection: Some(false),
        ..settings()
    };
    let second = GenericSettings {
        user: Some("b".into()),
        sudo: Some("sudo".into()),
        ssh_opts: vec!["2".into(), "3".into()],
        fast_connection: Some(true),
        confirm_timeout: Some(5),
        ..settings()
    };
    assert_eq!(
        first.merge(&second),
        GenericSettings {
            user: Some("a".into()),
            sudo: Some("sudo".into()),
            ssh_opts: vec!["1".into(), "2".into(), "3".into()],
            fast_connection: Some(false),
            confirm_timeout: Some(5),
            ..settings()
        }
    );
    assert_eq!(second.clone(), second);
}

#[test]
fn a_later_flake_replaces_the_node_of_an_earlier_one() {
    let mut other = simple_example();
    other.nodes[0].1.hostname = "elsewhere".to_string();
    other.nodes.push((
        "second".to_string(),
        NixNode {
            hostname: "two".to_string(),
            profiles: vec![],
            profiles_order: vec![],
            generic_settings: settings(),
        },
    ));
    let deploy = load_deployment_metadata(vec![system_example(), other]);
    let names: Vec<&str> = deploy.nodes.iter().map(|(name, _)| name.as_str()).collect();
    assert_eq!(names, vec!["example", "second"]);
    assert_eq!(deploy.nodes[0].1.hostname, "elsewhere");
    assert_eq!(deploy.nodes[0].1.profiles.len(), 1);
    assert_eq!(load_deployment_metadata(vec![]), Deploy::new());
    assert_eq!(Deploy::new().to_string(), "");
}

#[test]
fn the_deployment_is_asked_for_without_building() {
    let command: Command = nix_eval("./examples/system");
    assert_eq!(command.program, "nix");
    assert_eq!(command.args.len(), 5);
    assert_eq!(&command.args[..4], ["eval", "--json", "./examples/system#deploy", "--apply"]);
    assert_eq!(
        command.args[4],
        r#"
deploy: deploy // { 
   nodes = let 
        nixpkgs = builtins.getFlake "github:nix/nixpkgs/7e52b35fe98481a279d89f9c145f8076d049d2b9";
    in 
    nixpkgs.lib.attrsets.filterAttrsRecursive (n: v: n != "path") deploy.nodes;
}"#
    );
}

#[test]
fn numbers_are_written_in_decimal() {
    assert_eq!(decimal_text(0), "0");
    assert_eq!(decimal_text(7), "7");
    assert_eq!(decimal_text(10), "10");
    assert_eq!(decimal_text(65535), "65535");
    assert_eq!(decimal_text(u64::MAX), "18446744073709551615");
}
