use cognition::{
    match_choice, Choice, CognitionError, Decision, DecisionPromptTemplate, DecisionResult,
    DecisionState, Selection, Signal, Turn, MAX_DEPTH,
};

fn node(id: &str, text: &str, choices: &[(&str, &str)]) -> Decision {
    Decision {
        id: id.to_string(),
        text: text.to_string(),
        predicted_text: None,
        tool: None,
        predict: None,
        reset: None,
        choices: if choices.is_empty() {
            None
        } else {
            Some(
                choices
                    .iter()
                    .map(|(t, n)| Choice::new(t.to_string(), n.to_string()))
                    .collect(),
            )
        },
    }
}

fn template() -> DecisionPromptTemplate {
    DecisionPromptTemplate::new(
        "{{history}}|{{decision_prompt}}|{{choices}}|{{user_input}}|".to_string(),
    )
}

fn signal_book() -> Signal {
    Signal {
        id: "signal_book".to_string(),
        name: "Signal Book".to_string(),
        description: "Signal Book".to_string(),
        signal: "Beep!".to_string(),
    }
}

/// Runs one turn, answering predictions with `answer` and counting backend calls.
fn run_turn(
    state: &mut DecisionState,
    input: Option<&str>,
    answer: &str,
    tools: &[Signal],
    calls: &mut usize,
) -> Result<DecisionResult, CognitionError> {
    let mut turn = Turn::new(input.map(|s| s.to_string()));
    while turn.active {
        let next = match state.select(&turn)? {
            Selection::Terminal => break,
            Selection::Direct(c) => c,
            Selection::Predict {
                prompt,
                choice_texts,
            } => {
                *calls += 1;
                turn.predicted(prompt, &choice_texts, &answer.to_string())
            }
        };
        if let Some(i) = state.follow(&mut turn, next)? {
            let input = turn.user_input.clone().unwrap();
            turn.record_tool(tools[i].run(&input));
        }
    }
    state.finish(turn)
}

fn yes_no_graph() -> Vec<Decision> {
    vec![
        node("start", "Hi", &[("yes", "a"), ("no", "b")]),
        node("a", "Great", &[]),
        node("b", "Sad", &[]),
    ]
}

#[test]
fn scenario_exact_match_follows_choice() {
    let mut state = DecisionState::new(template(), yes_no_graph());
    let mut calls = 0;
    let first = run_turn(&mut state, None, "yes", &[], &mut calls).unwrap();
    assert_eq!(first.decision_node.id, "start");
    assert!(first.predictions.is_empty());
    assert!(!first.ends_conversation());
    let r = run_turn(&mut state, Some("yes"), "yes", &[], &mut calls).unwrap();
    assert_eq!(calls, 1);
    assert_eq!(r.predictions.len(), 1);
    assert_eq!(r.predictions[0].choice, "yes");
    assert_eq!(r.predictions[0].id, "a");
    assert_eq!(r.current_id, "a");
    assert_eq!(r.decision_node.text, "Great");
    assert!(r.ends_conversation());
    assert_eq!(
        r.decision_prompt.unwrap(),
        "|Hi|yes\n  - no|yes|yes".to_string()
    );
}

#[test]
fn scenario_no_match_stays() {
    let mut state = DecisionState::new(template(), yes_no_graph());
    let mut calls = 0;
    let r = run_turn(&mut state, Some("perhaps"), "maybe", &[], &mut calls).unwrap();
    assert_eq!(calls, 1);
    assert!(r.predictions.is_empty());
    assert_eq!(r.current_id, "start");
    assert_eq!(state.current_id, "start");
    assert_eq!(r.decision_prompt.unwrap(), "|Hi|yes\n  - no|perhaps|maybe");
}

#[test]
fn scenario_single_choice_skips_backend() {
    let graph = vec![node("start", "Go on", &[("continue", "x")]), node("x", "Done", &[])];
    let mut state = DecisionState::new(template(), graph);
    let mut calls = 0;
    let r = run_turn(&mut state, Some("anything at all"), "ignored", &[], &mut calls).unwrap();
    assert_eq!(calls, 0);
    assert_eq!(r.current_id, "x");
    assert_eq!(r.predictions.len(), 1);
    assert_eq!(r.predictions[0].choice, "continue");
    assert!(r.decision_prompt.is_none());
    assert!(r.ends_conversation());
}

#[test]
fn scenario_tool_response_carried_to_next_prediction() {
    let mut t = node("t", "Tool node", &[("next", "end")]);
    t.tool = Some("signal_book".to_string());
    let graph = vec![node("start", "Begin", &[("go", "t")]), t, node("end", "End", &[])];
    let mut state = DecisionState::new(template(), graph);
    state.add_tool("signal_book".to_string());
    let tools = [signal_book()];
    let mut calls = 0;
    let r = run_turn(&mut state, Some("hello"), "", &tools, &mut calls).unwrap();
    assert_eq!(r.predictions.len(), 2);
    assert!(r.predictions[0].tool_response.is_none());
    let carried = r.predictions[1].tool_response.clone().unwrap();
    assert_eq!(carried.id, "signal_book");
    assert_eq!(carried.response, "Beep!");
    let last = r.tool_response.unwrap();
    assert_eq!(last.response, "Beep!");
    assert_eq!(r.current_id, "end");
}

#[test]
fn depth_bound_limits_chain() {
    let mut graph = vec![];
    for i in 0..8 {
        let id = if i == 0 { "start".to_string() } else { format!("n{}", i) };
        let next = format!("n{}", i + 1);
        graph.push(node(&id, "step", &[("on", &next)]));
    }
    graph.push(node("n8", "last", &[]));
    let mut state = DecisionState::new(template(), graph);
    let mut calls = 0;
    let r = run_turn(&mut state, Some("go"), "", &[], &mut calls).unwrap();
    assert_eq!(r.predictions.len(), MAX_DEPTH as usize);
    assert_eq!(r.current_id, "n5");
}

#[test]
fn predict_false_stops_chain() {
    let mut mid = node("mid", "Middle", &[("on", "end")]);
    mid.predict = Some(false);
    let graph = vec![node("start", "Begin", &[("go", "mid")]), mid, node("end", "End", &[])];
    let mut state = DecisionState::new(template(), graph);
    let mut calls = 0;
    let r = run_turn(&mut state, Some("x"), "", &[], &mut calls).unwrap();
    assert_eq!(r.predictions.len(), 1);
    assert_eq!(r.current_id, "mid");
}

#[test]
fn history_records_one_exchange_per_input() {
    let graph = vec![
        node("start", "Hi", &[("yes", "a"), ("no", "b")]),
        node("a", "Pick", &[("red", "c"), ("blue", "c")]),
        node("c", "End", &[]),
    ];
    let mut state = DecisionState::new(template(), graph);
    let mut calls = 0;
    run_turn(&mut state, None, "", &[], &mut calls).unwrap();
    assert_eq!(state.history, "");
    run_turn(&mut state, Some("sure"), "yes", &[], &mut calls).unwrap();
    assert_eq!(state.history, "- Agent: Hi\n  - User: sure");
    let r = run_turn(&mut state, Some("the red one"), "red", &[], &mut calls).unwrap();
    assert_eq!(
        state.history,
        "- Agent: Hi\n  - User: sure\n  - Agent: Pick\n  - User: the red one"
    );
    assert_eq!(
        r.decision_prompt.unwrap(),
        "- Agent: Hi\n  - User: sure|Pick|red\n  - blue|the red one|red"
    );
}

#[test]
fn chained_steps_do_not_append_history() {
    let graph = vec![
        node("start", "One", &[("on", "two")]),
        node("two", "Two", &[("on", "three")]),
        node("three", "Three", &[]),
    ];
    let mut state = DecisionState::new(template(), graph);
    let mut calls = 0;
    let r = run_turn(&mut state, Some("go"), "", &[], &mut calls).unwrap();
    assert_eq!(r.predictions.len(), 2);
    assert_eq!(state.history, "- Agent: One\n  - User: go");
}

#[test]
fn reset_clears_history() {
    let mut fresh = node("fresh", "Fresh", &[("a", "end"), ("b", "end")]);
    fresh.reset = Some(true);
    let graph = vec![
        node("start", "Hi", &[("yes", "fresh"), ("no", "end")]),
        fresh,
        node("end", "End", &[]),
    ];
    let mut state = DecisionState::new(template(), graph);
    let mut calls = 0;
    run_turn(&mut state, Some("yes please"), "yes", &[], &mut calls).unwrap();
    assert_eq!(state.current_id, "fresh");
    assert_eq!(state.history, "");
}

#[test]
fn terminal_start_ends_immediately() {
    let mut state = DecisionState::new(template(), vec![node("start", "Bye", &[])]);
    let mut calls = 0;
    let r = run_turn(&mut state, Some("hi"), "", &[], &mut calls).unwrap();
    assert!(r.ends_conversation());
    assert!(r.predictions.is_empty());
    assert_eq!(state.history, "");
}

#[test]
fn choices_are_trimmed_but_answer_is_not() {
    let graph = vec![
        node("start", "Hi", &[("  yes ", "a"), ("no", "a")]),
        node("a", "A", &[]),
    ];
    let mut state = DecisionState::new(template(), graph.clone());
    let mut calls = 0;
    let r = run_turn(&mut state, Some("y"), "yes", &[], &mut calls).unwrap();
    assert_eq!(r.current_id, "a");
    assert_eq!(r.predictions[0].choice, "  yes ");
    let mut state = DecisionState::new(template(), graph);
    let r = run_turn(&mut state, Some("y"), " yes", &[], &mut calls).unwrap();
    assert_eq!(r.current_id, "start");
    let unicode = vec![
        node("start", "Hi", &[("\u{3000}yes\t\u{A0}", "a"), ("no", "a")]),
        node("a", "A", &[]),
    ];
    let mut state = DecisionState::new(template(), unicode);
    let r = run_turn(&mut state, Some("y"), "yes", &[], &mut calls).unwrap();
    assert_eq!(r.current_id, "a");
    assert_eq!(r.decision_prompt.unwrap(), "|Hi|yes\n  - no|y|yes");
}

#[test]
fn missing_node_is_an_error() {
    let mut state = DecisionState::new(template(), vec![node("start", "Hi", &[("go", "nowhere")])]);
    let mut calls = 0;
    let e = run_turn(&mut state, Some("x"), "", &[], &mut calls).unwrap_err();
    assert_eq!(e.0, "Decision node with ID 'nowhere' not found");
    assert_eq!(e.to_string(), "Cognition error: Decision node with ID 'nowhere' not found");
    let mut empty = DecisionState::new(template(), vec![]);
    assert!(empty.current_node().is_err());
    let e = run_turn(&mut empty, None, "", &[], &mut calls).unwrap_err();
    assert_eq!(e.0, "Decision node with ID 'start' not found");
}

#[test]
fn missing_tool_is_an_error() {
    let mut start = node("start", "Hi", &[("go", "end")]);
    start.tool = Some("ghost".to_string());
    let graph = vec![node("pre", "Pre", &[]), start, node("end", "End", &[])];
    let mut state = DecisionState::new(template(), graph);
    let mut calls = 0;
    let e = run_turn(&mut state, Some("x"), "", &[], &mut calls);
    assert!(e.is_ok());
    let mut loop_node = node("start", "Hi", &[("go", "start")]);
    loop_node.tool = Some("ghost".to_string());
    let mut state = DecisionState::new(template(), vec![loop_node]);
    let e = run_turn(&mut state, Some("x"), "", &[], &mut calls).unwrap_err();
    assert_eq!(e.0, "Could not find tool: ghost");
}

#[test]
fn first_node_with_an_id_wins() {
    let graph = vec![node("start", "First", &[]), node("start", "Second", &[])];
    let state = DecisionState::new(template(), graph);
    assert_eq!(state.current_node().unwrap().text, "First");
}

#[test]
fn match_choice_is_exact_and_first() {
    let texts = vec!["a".to_string(), "b".to_string(), "b".to_string()];
    assert_eq!(match_choice(&texts, &"b".to_string()), Some(1));
    assert_eq!(match_choice(&texts, &"B".to_string()), None);
    assert_eq!(match_choice(&texts, &"b ".to_string()), None);
}

#[test]
fn choices_lists_in_order() {
    let d = node("n", "t", &[("x", "1"), ("y", "2")]);
    let cs = d.choices();
    assert_eq!(cs.len(), 2);
    assert_eq!(cs[1].text, "y");
    assert_eq!(cs[1].next_id, "2");
    assert!(node("m", "t", &[]).choices().is_empty());
}
