use questmind::host::Module;
use questmind::{greet, process_text};

#[test]
fn process_text_prefixes_and_uppercases() {
    assert_eq!(process_text("hello"), "Processed by QuestMind: HELLO");
}

#[test]
fn process_text_keeps_non_letters() {
    assert_eq!(
        process_text("rust 1.0 rocks!"),
        "Processed by QuestMind: RUST 1.0 ROCKS!"
    );
}

#[test]
fn process_text_empty_input_gives_bare_prefix() {
    assert_eq!(process_text(""), "Processed by QuestMind: ");
}

#[test]
fn process_text_follows_unicode_case_mapping() {
    assert_eq!(process_text("straße"), "Processed by QuestMind: STRASSE");
}

#[test]
fn process_text_uppercase_suffix_is_idempotent() {
    let prefix = "Processed by QuestMind: ";
    for input in ["MiXeD case 123", "straße", "", "ALREADY UPPER"] {
        let out = process_text(input);
        let suffix = &out[prefix.len()..];
        assert_eq!(suffix.to_uppercase(), suffix);
    }
}

#[test]
fn add_matches_integer_addition() {
    assert_eq!(questmind::add(2, 3), 5);
    assert_eq!(questmind::add(-7, 3), -4);
    assert_eq!(questmind::add(0, 0), 0);
    assert_eq!(questmind::add(i32::MAX, i32::MIN), -1);
}

#[test]
fn add_wraps_at_int32_max() {
    assert_eq!(questmind::add(i32::MAX, 1), i32::MIN);
}

#[test]
fn add_wraps_at_int32_min() {
    assert_eq!(questmind::add(i32::MIN, -1), i32::MAX);
}

#[test]
fn greet_emits_single_greeting_line() {
    let mut m = Module::new();
    m.initialize();
    m.flush();
    greet(&mut m, "World");
    let lines = m.flush();
    assert_eq!(
        lines,
        vec!["Hello, World! Greetings from QuestMind module.".to_string()]
    );
}

#[test]
fn greet_accepts_empty_name() {
    let mut m = Module::new();
    m.initialize();
    m.flush();
    greet(&mut m, "");
    assert_eq!(
        m.flush(),
        vec!["Hello, ! Greetings from QuestMind module.".to_string()]
    );
}

#[test]
fn load_hook_logs_exactly_once_before_anything_else() {
    let mut m = Module::new();
    assert!(!m.loaded());
    assert_eq!(m.flush(), Vec::<String>::new());
    m.initialize();
    assert!(m.loaded());
    assert_eq!(m.flush(), vec!["QuestMind module loaded!".to_string()]);
    assert_eq!(m.flush(), Vec::<String>::new());
}

#[test]
fn log_lines_keep_their_order() {
    let mut m = Module::new();
    m.initialize();
    greet(&mut m, "Ada");
    greet(&mut m, "Grace");
    assert_eq!(
        m.flush(),
        vec![
            "QuestMind module loaded!".to_string(),
            "Hello, Ada! Greetings from QuestMind module.".to_string(),
            "Hello, Grace! Greetings from QuestMind module.".to_string(),
        ]
    );
}
