use nxy::json::{push_entry, Json};
use nxy::text::{chain, join, join_path, owned, strip_leading_slash};

#[test]
fn parse_reads_every_kind_of_value() {
    let json = Json::parse(" { \"a\" : [1, -2, 1.5, null, true, \"x\"], \"b\": {} } ").unwrap();
    assert_eq!(
        json,
        Json::Object(vec![
            (
                "a".to_string(),
                Json::Array(vec![
                    Json::Int(1),
                    Json::Int(-2),
                    Json::Real("1.5".to_string()),
                    Json::Null,
                    Json::Bool(true),
                    Json::Text("x".to_string()),
                ])
            ),
            ("b".to_string(), Json::Object(vec![])),
        ])
    );
}

#[test]
fn parse_keeps_the_whole_range_of_integers() {
    assert_eq!(Json::parse("18446744073709551615"), Ok(Json::Int(u64::MAX as i128)));
    assert_eq!(Json::parse("-9223372036854775808"), Ok(Json::Int(i64::MIN as i128)));
}

#[test]
fn parse_fails_on_what_is_no_json() {
    assert!(Json::parse("{").is_err());
    assert!(Json::parse("").is_err());
    assert!(Json::parse("nil").is_err());
    assert!(Json::parse("1 2").is_err());
}

#[test]
fn print_writes_compact_text_in_entry_order() {
    let json = Json::Object(vec![
        ("z".to_string(), Json::Int(-7)),
        ("a".to_string(), Json::Array(vec![Json::Null, Json::Bool(false)])),
        ("s".to_string(), Json::Text("q\"uote\n".to_string())),
        ("r".to_string(), Json::Real("2.5e-3".to_string())),
    ]);
    assert_eq!(json.print(), "{\"z\":-7,\"a\":[null,false],\"s\":\"q\\\"uote\\n\",\"r\":0.0025}");
}

#[test]
fn print_then_parse_gives_the_document_back() {
    let json = Json::Object(vec![
        ("id".to_string(), Json::Int(12)),
        ("nested".to_string(), Json::Array(vec![Json::Object(vec![]), Json::Text("é".into())])),
    ]);
    assert_eq!(Json::parse(&json.print()), Ok(json));
}

#[test]
fn print_writes_null_for_numbers_that_json_cannot_hold() {
    assert_eq!(Json::Int(i128::MAX).print(), "null");
    assert_eq!(Json::Real("not a number".to_string()).print(), "null");
}

#[test]
fn get_finds_the_first_entry_under_a_key() {
    let json = Json::Object(vec![
        ("a".to_string(), Json::Int(1)),
        ("b".to_string(), Json::Int(2)),
        ("a".to_string(), Json::Int(3)),
    ]);
    assert_eq!(json.get("a"), Some(&Json::Int(1)));
    assert_eq!(json.get("b"), Some(&Json::Int(2)));
    assert_eq!(json.get("c"), None);
    assert_eq!(Json::Array(vec![]).get("a"), None);
}

#[test]
fn accessors_read_what_fits() {
    assert_eq!(Json::Int(5).as_u64(), Some(5));
    assert_eq!(Json::Int(-5).as_u64(), None);
    assert_eq!(Json::Int(u64::MAX as i128).as_u64(), Some(u64::MAX));
    assert_eq!(Json::Int(u64::MAX as i128 + 1).as_u64(), None);
    assert_eq!(Json::Int(-5).as_i64(), Some(-5));
    assert_eq!(Json::Int(i64::MAX as i128 + 1).as_i64(), None);
    assert_eq!(Json::Int(i32::MIN as i128).as_i32(), Some(i32::MIN));
    assert_eq!(Json::Int(i32::MAX as i128 + 1).as_i32(), None);
    assert_eq!(Json::Int(65535).as_u16(), Some(65535));
    assert_eq!(Json::Int(65536).as_u16(), None);
    assert_eq!(Json::Text("t".to_string()).as_str(), Some("t"));
    assert_eq!(Json::Int(1).as_str(), None);
    assert_eq!(Json::Bool(true).as_bool(), Some(true));
    assert_eq!(Json::Null.as_bool(), None);
    assert_eq!(Json::Array(vec![Json::Null]).as_array(), Some(&vec![Json::Null]));
    assert_eq!(Json::Null.as_array(), None);
    assert!(Json::Null.is_null());
    assert!(!Json::Bool(false).is_null());
}

#[test]
fn constructors_build_what_they_say() {
    assert_eq!(Json::text("a"), Json::Text("a".to_string()));
    assert_eq!(Json::unsigned(u64::MAX), Json::Int(u64::MAX as i128));
    assert_eq!(Json::signed(-1), Json::Int(-1));
    let mut entries = Vec::new();
    push_entry(&mut entries, "k", Json::Null);
    assert_eq!(Json::object(entries), Json::Object(vec![("k".to_string(), Json::Null)]));
    assert_eq!(Json::array(vec![Json::Null]), Json::Array(vec![Json::Null]));
}

#[test]
fn clone_copies_the_whole_tree() {
    let json = Json::Object(vec![(
        "a".to_string(),
        Json::Array(vec![Json::Object(vec![("b".to_string(), Json::Real("0.5".to_string()))])]),
    )]);
    assert_eq!(json.clone(), json);
}

#[test]
fn keys_compare_by_their_characters() {
    let json = Json::Object(vec![
        ("abc".to_string(), Json::Int(1)),
        ("ab".to_string(), Json::Int(2)),
        ("".to_string(), Json::Int(3)),
    ]);
    assert_eq!(json.get("abc"), Some(&Json::Int(1)));
    assert_eq!(json.get("ab"), Some(&Json::Int(2)));
    assert_eq!(json.get(""), Some(&Json::Int(3)));
    assert_eq!(json.get("abd"), None);
    assert_eq!(json.get("a"), None);
}

#[test]
fn strings_are_put_together() {
    assert_eq!(owned("a"), "a");
    assert_eq!(chain("ab", "cd"), "abcd");
    assert_eq!(join(&vec![], " "), "");
    assert_eq!(join(&vec!["-p".to_string()], " "), "-p");
    assert_eq!(join(&vec!["-p".to_string(), "2221".to_string()], " "), "-p 2221");
}

#[test]
fn paths_are_joined_as_std_joins_them() {
    let cases = [
        ("/nix/store/x", "bin/switch-to-configuration"),
        ("/nix/store/x/", "nixos-version"),
        ("", "state.json"),
        ("/var/lib/nxy", "/etc/passwd"),
        ("relative", "file"),
        ("/", "x"),
    ];
    for (base, relative) in cases {
        let expected = std::path::Path::new(base).join(relative);
        assert_eq!(join_path(base, relative), expected.to_str().unwrap());
    }
    assert_eq!(join_path("/nix/store/x", "nixos-version"), "/nix/store/x/nixos-version");
}

#[test]
fn one_leading_slash_is_stripped() {
    assert_eq!(strip_leading_slash("/api/v1"), "api/v1");
    assert_eq!(strip_leading_slash("api/v1"), "api/v1");
    assert_eq!(strip_leading_slash("//x"), "/x");
    assert_eq!(strip_leading_slash(""), "");
}

#[test]
fn a_document_is_representable_when_the_json_library_can_hold_it() {
    let fine = Json::Object(vec![
        ("a".to_string(), Json::Int(u64::MAX as i128)),
        ("b".to_string(), Json::Array(vec![Json::Int(i64::MIN as i128), Json::Real("1.5".into())])),
        ("c".to_string(), Json::Object(vec![("a".to_string(), Json::Null)])),
        ("".to_string(), Json::Text("t".into())),
    ]);
    assert!(fine.is_representable());
    assert_eq!(Json::parse(&fine.print()), Ok(fine));
    assert!(Json::Null.is_representable());
    assert!(Json::Bool(false).is_representable());
    assert!(Json::Array(vec![]).is_representable());
    assert!(Json::Real("-0.0".into()).is_representable());
    assert!(Json::parse("[1e300, 0.1, -2.5e-7]").unwrap().is_representable());
}

#[test]
fn a_document_that_the_json_library_would_change_is_not_representable() {
    assert!(!Json::Int(u64::MAX as i128 + 1).is_representable());
    assert!(!Json::Int(i64::MIN as i128 - 1).is_representable());
    assert!(!Json::Real("not a number".into()).is_representable());
    assert!(!Json::Real("12".into()).is_representable());
    assert!(!Json::Real("1.50".into()).is_representable());
    assert!(!Json::Real("\"1.5\"".into()).is_representable());
    let twice = Json::Object(vec![
        ("a".to_string(), Json::Int(1)),
        ("b".to_string(), Json::Int(2)),
        ("a".to_string(), Json::Int(3)),
    ]);
    assert!(!twice.is_representable());
    assert_eq!(twice.print(), "{\"a\":3,\"b\":2}");
    assert!(!Json::Array(vec![Json::Null, Json::Int(i128::MIN)]).is_representable());
    assert!(!Json::Object(vec![("k".into(), Json::Array(vec![twice]))]).is_representable());
}

#[test]
fn what_goes_on_the_wire_is_representable() {
    let status = nxy::types::Status {
        id: nxy::types::AgentId(0xa6fe_0000_0000_4000_8000_0000_0000_0001),
        system: nxy::types::System { current: "/run/a".to_string(), booted: "/run/b".to_string() },
        version: "0.1.0".to_string(),
    };
    let download = nxy::types::DownloadParams {
        store_path: "/nix/store/x".to_string(),
        from: "https://cache.example".to_string(),
    };
    let activate = nxy::types::ActivateParams { store_path: "/nix/store/x".to_string() };
    let state = nxy::state::State::new();
    for json in [status.to_json(), download.to_json(), activate.to_json(), state.to_json()] {
        assert!(json.is_representable());
        assert_eq!(Json::parse(&json.print()), Ok(json));
    }
    let request = nxy::rpc::JsonRPC::Request(nxy::rpc::Request {
        id: nxy::rpc::RequestId(u64::MAX),
        method: "$/download".to_string(),
        params: download.to_json(),
    });
    assert!(request.to_json().is_representable());
    let failed = nxy::rpc::JsonRPC::Response(nxy::rpc::Response::new_err(
        nxy::rpc::RequestId(0),
        i32::MIN,
        "no".to_string(),
    ));
    assert!(failed.to_json().is_representable());
}
