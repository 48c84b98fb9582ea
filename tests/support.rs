use cognition::{
    object_by_path, string_by_path, ConfigValue, DecisionPromptTemplate, ModelError, Signal,
    Tool, WolframAlpha,
};

fn config() -> ConfigValue {
    ConfigValue::Mapping(vec![(
        "models".to_string(),
        ConfigValue::Mapping(vec![(
            "davinci003".to_string(),
            ConfigValue::Mapping(vec![
                ("api_key".to_string(), ConfigValue::Str("SECRET-REDACTED".to_string())),
                ("other".to_string(), ConfigValue::Other),
            ]),
        )]),
    )])
}

#[test]
fn string_by_path_finds_nested_string() {
    let c = config();
    assert_eq!(
        string_by_path(&c, "models.davinci003.api_key"),
        Some("SECRET-REDACTED".to_string())
    );
}

#[test]
fn string_by_path_misses() {
    let c = config();
    assert_eq!(string_by_path(&c, "models.davinci003.missing"), None);
    assert_eq!(string_by_path(&c, "models.davinci003"), None);
    assert_eq!(string_by_path(&c, "models.davinci003.other"), None);
    assert_eq!(string_by_path(&c, "models.davinci003.api_key.deeper"), None);
    assert_eq!(string_by_path(&c, ""), None);
}

#[test]
fn object_by_path_returns_subtree() {
    let c = config();
    match object_by_path(&c, "models.davinci003") {
        Some(ConfigValue::Mapping(entries)) => assert_eq!(entries.len(), 2),
        _ => panic!("expected a mapping"),
    }
    assert!(object_by_path(&c, "nothing").is_none());
}

#[test]
fn template_fills_placeholders() {
    let t = DecisionPromptTemplate::new(
        "H={{history}}; D={{decision_prompt}}; C={{choices}}; U={{user_input}}; {{other}} {{history}}"
            .to_string(),
    );
    assert_eq!(
        t.format("h", "d", "c", "u"),
        "H=h; D=d; C=c; U=u; {{other}} h"
    );
}

#[test]
fn template_without_placeholders_is_unchanged() {
    let t = DecisionPromptTemplate::new("plain".to_string());
    assert_eq!(t.format("h", "d", "c", "u"), "plain");
}

#[test]
fn signal_answers_with_its_signal() {
    let s = Signal {
        id: "signal_book".to_string(),
        name: "Signal Book".to_string(),
        description: "desc".to_string(),
        signal: "Beep!".to_string(),
    };
    let r = s.run(&"anything".to_string()).unwrap();
    assert_eq!(r.id, "signal_book");
    assert_eq!(r.response, "Beep!");
    assert_eq!(s.id(), "signal_book");
    assert_eq!(s.name(), "Signal Book");
    assert_eq!(s.description(), "desc");
}

#[test]
fn wolfram_alpha_builds_request() {
    let w = WolframAlpha::new("APPID".to_string());
    assert_eq!(w.id(), "wolfram_alpha");
    assert_eq!(w.name(), "Wolfram|Alpha");
    assert_eq!(
        w.request_url(&"what is 2+2".to_string()),
        "https://api.wolframalpha.com/v1/result?appid=APPID&i=what+is+2%2B2"
    );
    let mut replaced = WolframAlpha::new("APPID".to_string());
    replaced.params.push(("i".to_string(), "old".to_string()));
    assert_eq!(
        replaced.request_url(&"x y".to_string()),
        "https://api.wolframalpha.com/v1/result?appid=APPID&i=x+y"
    );
    let r = w.response("4".to_string()).unwrap();
    assert_eq!(r.id, "wolfram_alpha");
    assert_eq!(r.response, "4");
}

#[test]
fn model_error_keeps_message() {
    assert_eq!(ModelError::new("boom").to_string(), "boom");
}
