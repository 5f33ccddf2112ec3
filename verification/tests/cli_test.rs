use gauc::cli::commands::{cmd_append, cmd_get, cmd_remove, continues, process_command, CliAction};
use gauc::cli::settings::log_level;
use gauc::cli::words::{join_words, split_words, str_eq};
use gauc::couchbase::types::operation::Operation;

#[test]
fn split_like_str_split() {
    for line in ["", "get foo", "append k  two  spaces ", " lead", "a b c", "ünï cödé"] {
        let ours = split_words(line);
        let std_parts: Vec<&str> = line.split(' ').collect();
        assert_eq!(ours, std_parts);
    }
}

#[test]
fn join_split_roundtrip() {
    for line in ["", "get foo", "append k  two  spaces ", " lead", "x"] {
        let parts = split_words(line);
        assert_eq!(join_words(&parts, 0), line);
    }
    let parts = split_words("set key hello  big world");
    assert_eq!(join_words(&parts, 2), "hello  big world");
    assert_eq!(join_words(&parts, parts.len()), "");
}

#[test]
fn str_equality() {
    assert!(str_eq("get", "get"));
    assert!(!str_eq("get", "gets"));
    assert!(!str_eq("get", "got"));
    assert!(str_eq("", ""));
}

#[test]
fn store_commands_take_rest_as_value() {
    match process_command("append doc1 more text") {
        CliAction::Store { operation, key, value } => {
            assert_eq!(operation, Operation::Append);
            assert_eq!(key, "doc1");
            assert_eq!(value, "more text");
        }
        other => panic!("unexpected {:?}", other),
    }
    match process_command("store k {\"msg\": 1}") {
        CliAction::Store { operation, key, value } => {
            assert_eq!(operation, Operation::Upsert);
            assert_eq!(key, "k");
            assert_eq!(value, "{\"msg\": 1}");
        }
        other => panic!("unexpected {:?}", other),
    }
    for (word, op) in [
        ("add", Operation::Add),
        ("prepend", Operation::Prepend),
        ("replace", Operation::Replace),
        ("set", Operation::SetItem),
        ("upsert", Operation::Upsert),
    ] {
        match process_command(&format!("{} k v", word)) {
            CliAction::Store { operation, .. } => assert_eq!(operation, op),
            other => panic!("unexpected {:?}", other),
        }
    }
}

#[test]
fn store_commands_need_key_and_value() {
    for line in ["append", "append k", "upsert k"] {
        match process_command(line) {
            CliAction::Say(m) => assert_eq!(m, "Wrong number of arguments, expected key and value"),
            other => panic!("unexpected {:?}", other),
        }
    }
}

#[test]
fn get_needs_exactly_one_key() {
    match process_command("get foo") {
        CliAction::Get { key } => assert_eq!(key, "foo"),
        other => panic!("unexpected {:?}", other),
    }
    for line in ["get", "get a b"] {
        match process_command(line) {
            CliAction::Say(m) => assert_eq!(m, "Wrong number of arguments, expect exactly one argument."),
            other => panic!("unexpected {:?}", other),
        }
    }
}

#[test]
fn remove_command_removes() {
    let parts = vec!["remove", "foo"];
    match cmd_remove(&parts) {
        CliAction::Remove { key } => assert_eq!(key, "foo"),
        other => panic!("unexpected {:?}", other),
    }
    for parts in [vec!["remove"], vec!["remove", "a", "b"]] {
        match cmd_remove(&parts) {
            CliAction::Say(m) => assert_eq!(m, "Wrong number of arguments, expect exactly one argument."),
            other => panic!("unexpected {:?}", other),
        }
    }
    match cmd_get(&vec!["get"]) {
        CliAction::Say(_) => {}
        other => panic!("unexpected {:?}", other),
    }
    match cmd_append(&vec!["append", "k", "a", "b"]) {
        CliAction::Store { value, .. } => assert_eq!(value, "a b"),
        other => panic!("unexpected {:?}", other),
    }
}

#[test]
fn other_words() {
    assert!(matches!(process_command("exit"), CliAction::Exit));
    assert!(matches!(process_command("quit"), CliAction::Exit));
    assert!(matches!(process_command("info"), CliAction::Info));
    assert!(matches!(process_command(""), CliAction::Empty));
    assert!(matches!(process_command(" get foo"), CliAction::Empty));
    match process_command("remove foo") {
        CliAction::Unknown(l) => assert_eq!(l, "remove foo"),
        other => panic!("unexpected {:?}", other),
    }
    assert!(!continues(&CliAction::Exit));
    assert!(continues(&CliAction::Info));
    assert!(continues(&CliAction::Empty));
}

#[test]
fn verbosity_levels() {
    assert_eq!(log_level(0), None);
    assert_eq!(log_level(1), Some("warn"));
    assert_eq!(log_level(2), Some("info"));
    assert_eq!(log_level(3), Some("debug"));
    assert_eq!(log_level(4), None);
}
