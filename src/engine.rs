use vstd::prelude::*;
use crate::error::CognitionError;
use crate::graph::{
    choice_seq, find_node, first_with_id, is_terminal, no_node_with_id, same_node, Choice,
    Decision,
};
use crate::template::{formatted, DecisionPromptTemplate};
use crate::text::{join, joined, trim, trimmed, views};
use crate::tools::{copy_response_option, ToolResponse};

verus! {

/// How many node transitions one turn may make at most.
pub const MAX_DEPTH: u64 = 5;

/// The token budget asked of the backend for a prediction.
pub const PREDICTION_MAX_TOKENS: usize = 200;

/// A choice taken during a turn, with the tool response that was current when it was taken.
#[derive(Debug)]
pub struct Prediction {
    pub choice: String,
    pub id: String,
    pub tool_response: Option<ToolResponse>,
}

/// What a turn hands back to its caller.
#[derive(Debug)]
pub struct DecisionResult {
    pub user_input: Option<String>,
    pub decision_prompt: Option<String>,
    /// Left empty by every turn: the choices taken are in `predictions`.
    pub choice: Option<String>,
    pub current_id: String,
    pub decision_node: Decision,
    pub predictions: Vec<Prediction>,
    pub tool_response: Option<ToolResponse>,
}

/// The session: the graph, the prompt template, the ids of the registered tools, the
/// display names, the conversation history and the cursor into the graph.
pub struct DecisionState {
    pub decision_nodes: Vec<Decision>,
    pub decision_prompt_template: DecisionPromptTemplate,
    pub tools: Vec<String>,
    pub agent: String,
    pub user: String,
    pub history: String,
    pub current_id: String,
}

/// The progress of one turn.
pub struct Turn {
    pub user_input: Option<String>,
    pub decision_prompt: Option<String>,
    pub predictions: Vec<Prediction>,
    pub tool_response: Option<ToolResponse>,
    /// The last step followed a choice, so the next one needs no fresh input.
    pub predicting_choice: bool,
    /// Steps left in this turn.
    pub depth_left: u64,
    /// Another step is due.
    pub active: bool,
}

/// What the first half of a step found at the current node.
pub enum Selection {
    /// The node has no choices: the turn ends here.
    Terminal,
    /// The choice to take, by index, found without asking the backend; `None` takes none.
    Direct(Option<usize>),
    /// The backend must be asked with `prompt`; its answer is matched against `choice_texts`.
    Predict { prompt: String, choice_texts: Vec<String> },
}

pub open spec fn has_node(nodes: Seq<Decision>, id: Seq<char>) -> bool {
    exists|i: int| first_with_id(nodes, id, i)
}

/// The node that a lookup of `id` finds: the first with that id.
pub open spec fn node_of(nodes: Seq<Decision>, id: Seq<char>) -> Decision {
    nodes[choose|i: int| first_with_id(nodes, id, i)]
}

/// The trimmed texts of the choices, in order.
pub open spec fn choice_texts(cs: Seq<Choice>) -> Seq<Seq<char>> {
    cs.map_values(|c: Choice| trimmed(c.text@))
}

/// The choice list as the prediction prompt shows it.
pub open spec fn choices_line(cs: Seq<Choice>) -> Seq<char> {
    joined(choice_texts(cs), "\n  - "@)
}

/// One recorded exchange: the agent's line, then the user's.
pub open spec fn exchange(agent: Seq<char>, text: Seq<char>, user: Seq<char>, input: Seq<char>) -> Seq<char> {
    "- "@ + agent + ": "@ + text + "\n  - "@ + user + ": "@ + input
}

/// The history after one exchange is recorded.
pub open spec fn appended(history: Seq<char>, agent: Seq<char>, text: Seq<char>, user: Seq<char>, input: Seq<char>) -> Seq<char> {
    if history.len() == 0 {
        exchange(agent, text, user, input)
    } else {
        history + "\n  "@ + exchange(agent, text, user, input)
    }
}

pub open spec fn node_not_found(id: Seq<char>) -> Seq<char> {
    "Decision node with ID '"@ + id + "' not found"@
}

pub open spec fn tool_not_found(id: Seq<char>) -> Seq<char> {
    "Could not find tool: "@ + id
}

/// The first position of `x` in `v`.
pub open spec fn first_pos(v: Seq<Seq<char>>, x: Seq<char>, i: int) -> bool {
    0 <= i < v.len() && v[i] == x && forall|j: int| 0 <= j < i ==> v[j] != x
}

pub proof fn lemma_first_unique(nodes: Seq<Decision>, id: Seq<char>, i: int, j: int)
    requires
        first_with_id(nodes, id, i),
        first_with_id(nodes, id, j),
    ensures
        i == j,
{
    if i < j {
        assert(nodes[i].id@ == id);
    } else if j < i {
        assert(nodes[j].id@ == id);
    }
}

proof fn lemma_node_of(nodes: Seq<Decision>, id: Seq<char>, i: int)
    requires
        first_with_id(nodes, id, i),
    ensures
        has_node(nodes, id),
        node_of(nodes, id) == nodes[i],
{
    let k = choose|k: int| first_with_id(nodes, id, k);
    lemma_first_unique(nodes, id, i, k);
}

fn not_found_error(id: &String) -> (e: CognitionError)
    ensures
        e.0@ == node_not_found(id@),
{
    let mut m = "Decision node with ID '".to_string();
    m.append(id.as_str());
    m.append("' not found");
    CognitionError(m)
}

/// Looks the node up by id, first match first.
fn lookup(nodes: &Vec<Decision>, id: &String) -> (r: Result<usize, CognitionError>)
    ensures
        match r {
            Ok(i) => has_node(nodes@, id@) && i < nodes@.len() && node_of(nodes@, id@) == nodes@[i as int],
            Err(e) => !has_node(nodes@, id@) && e.0@ == node_not_found(id@),
        },
{
    match find_node(nodes, id) {
        Some(i) => {
            proof {
                lemma_node_of(nodes@, id@, i as int);
            }
            Ok(i)
        },
        None => {
            assert(!has_node(nodes@, id@));
            Err(not_found_error(id))
        },
    }
}

/// The position of the first text that equals the backend's answer exactly; the answer
/// itself is not trimmed.
pub fn match_choice(choice_texts: &Vec<String>, response: &String) -> (r: Option<usize>)
    ensures
        match r {
            Some(i) => first_pos(views(choice_texts@), response@, i as int),
            None => forall|j: int| 0 <= j < choice_texts@.len() ==> choice_texts@[j]@ != response@,
        },
{
    let mut i: usize = 0;
    while i < choice_texts.len()
        invariant
            i <= choice_texts@.len(),
            forall|j: int| 0 <= j < i ==> choice_texts@[j]@ != response@,
        decreases choice_texts@.len() - i,
    {
        if choice_texts[i] == *response {
            return Some(i);
        }
        i = i + 1;
    }
    None
}

impl Turn {
    /// The steps left bound the predictions made so far, and an active turn has a step left.
    pub open spec fn wf(&self) -> bool {
        &&& self.depth_left <= MAX_DEPTH
        &&& self.predictions@.len() + self.depth_left <= MAX_DEPTH
        &&& self.active ==> self.depth_left > 0
    }

    /// A fresh turn, with or without user input.
    pub fn new(user_input: Option<String>) -> (r: Turn)
        ensures
            r.wf(),
            r.active,
            r.user_input == user_input,
            r.decision_prompt.is_none(),
            r.predictions@.len() == 0,
            r.tool_response.is_none(),
            !r.predicting_choice,
            r.depth_left == MAX_DEPTH,
    {
        Turn {
            user_input,
            decision_prompt: None,
            predictions: Vec::new(),
            tool_response: None,
            predicting_choice: false,
            depth_left: MAX_DEPTH,
            active: true,
        }
    }

    /// Takes the backend's answer to `prompt`: the prompt and the answer are kept as the
    /// turn's decision prompt, and the choice whose text equals the answer is returned.
    pub fn predicted(&mut self, prompt: String, choice_texts: &Vec<String>, response: &String) -> (r: Option<usize>)
        ensures
            final(self).decision_prompt matches Some(p) && p@ == prompt@ + response@,
            final(self).user_input == old(self).user_input,
            final(self).predictions == old(self).predictions,
            final(self).tool_response == old(self).tool_response,
            final(self).predicting_choice == old(self).predicting_choice,
            final(self).depth_left == old(self).depth_left,
            final(self).active == old(self).active,
            match r {
                Some(i) => first_pos(views(choice_texts@), response@, i as int),
                None => forall|j: int| 0 <= j < choice_texts@.len() ==> choice_texts@[j]@ != response@,
            },
    {
        let mut p = prompt;
        p.append(response.as_str());
        self.decision_prompt = Some(p);
        match_choice(choice_texts, response)
    }

    /// Keeps what the tool of the current node answered.
    pub fn record_tool(&mut self, response: Option<ToolResponse>)
        ensures
            final(self).tool_response == response,
            final(self).user_input == old(self).user_input,
            final(self).decision_prompt == old(self).decision_prompt,
            final(self).predictions == old(self).predictions,
            final(self).predicting_choice == old(self).predicting_choice,
            final(self).depth_left == old(self).depth_left,
            final(self).active == old(self).active,
    {
        self.tool_response = response;
    }
}

/// The history once the step at the current node has recorded its exchange: only a
/// step with fresh user input records one.
pub open spec fn history_after_exchange(s: DecisionState, t: Turn) -> Seq<char> {
    let n = node_of(s.decision_nodes@, s.current_id@);
    match t.user_input {
        Some(input) => if !t.predicting_choice {
            appended(s.history@, s.agent@, n.text@, s.user@, input@)
        } else {
            s.history@
        },
        None => s.history@,
    }
}

/// The id of the node that a step moves to.
pub open spec fn target_id(s: DecisionState, next_choice: Option<usize>) -> Seq<char> {
    match next_choice {
        Some(k) => choice_seq(node_of(s.decision_nodes@, s.current_id@))[k as int].next_id@,
        None => s.current_id@,
    }
}

/// The predictions once a step has taken `next_choice`.
pub open spec fn predictions_after(s: DecisionState, t: Turn, next_choice: Option<usize>) -> Seq<Prediction> {
    match next_choice {
        Some(k) => {
            let c = choice_seq(node_of(s.decision_nodes@, s.current_id@))[k as int];
            t.predictions@.push(Prediction { choice: c.text, id: c.next_id, tool_response: t.tool_response })
        },
        None => t.predictions@,
    }
}

/// What the tool lookup of a step gives: the position of the node's tool among the
/// registered ones, none where there is no input or no tool, an error where the tool is
/// not registered.
pub open spec fn tool_outcome(tools: Seq<String>, input: Option<String>, n: Decision, r: Result<Option<usize>, CognitionError>) -> bool {
    match (input, n.tool) {
        (Some(_), Some(tid)) => if exists|i: int| first_pos(views(tools), tid@, i) {
            (r matches Ok(Some(i)) && first_pos(views(tools), tid@, i as int))
        } else {
            (r matches Err(e) && e.0@ == tool_not_found(tid@))
        },
        _ => r matches Ok(None),
    }
}

/// What a finished step has done to the session and the turn, given that the node it
/// moved to exists.
pub open spec fn step_done(
    s0: DecisionState,
    t0: Turn,
    next_choice: Option<usize>,
    s1: DecisionState,
    t1: Turn,
    r: Result<Option<usize>, CognitionError>,
) -> bool {
    let n2 = node_of(s0.decision_nodes@, target_id(s0, next_choice));
    &&& s1.history@ == (if n2.reset == Some(true) { Seq::empty() } else { history_after_exchange(s0, t0) })
    &&& t1.predicting_choice == (next_choice.is_some() && n2.predict != Some(false))
    &&& t1.active == (t1.predicting_choice && t1.depth_left > 0)
    &&& tool_outcome(s0.tools@, t0.user_input, n2, r)
}

fn find_tool(tools: &Vec<String>, id: &String) -> (r: Option<usize>)
    ensures
        match r {
            Some(i) => first_pos(views(tools@), id@, i as int),
            None => !exists|i: int| first_pos(views(tools@), id@, i),
        },
{
    let mut i: usize = 0;
    while i < tools.len()
        invariant
            i <= tools@.len(),
            forall|j: int| 0 <= j < i ==> tools@[j]@ != id@,
        decreases tools@.len() - i,
    {
        if tools[i] == *id {
            return Some(i);
        }
        i = i + 1;
    }
    assert forall|k: int| !first_pos(views(tools@), id@, k) by {
        if 0 <= k < tools@.len() {
            assert(views(tools@)[k] == tools@[k]@);
        }
    }
    None
}

impl DecisionState {
    /// A session over `decision_nodes`, at the node `start`, with an empty history and no
    /// tools.
    pub fn new(decision_prompt_template: DecisionPromptTemplate, decision_nodes: Vec<Decision>) -> (r: Self)
        ensures
            r.decision_nodes == decision_nodes,
            r.decision_prompt_template == decision_prompt_template,
            r.tools@.len() == 0,
            r.agent@ == "Agent"@,
            r.user@ == "User"@,
            r.history@.len() == 0,
            r.current_id@ == "start"@,
    {
        DecisionState {
            decision_nodes,
            decision_prompt_template,
            tools: Vec::new(),
            agent: "Agent".to_string(),
            user: "User".to_string(),
            history: String::new(),
            current_id: "start".to_string(),
        }
    }

    /// Registers a tool under its id.
    pub fn add_tool(&mut self, id: String)
        ensures
            final(self).tools@ == old(self).tools@.push(id),
            final(self).decision_nodes == old(self).decision_nodes,
            final(self).decision_prompt_template == old(self).decision_prompt_template,
            final(self).agent == old(self).agent,
            final(self).user == old(self).user,
            final(self).history == old(self).history,
            final(self).current_id == old(self).current_id,
    {
        self.tools.push(id);
    }

    /// The node under the cursor.
    pub fn current_node(&self) -> (r: Result<&Decision, CognitionError>)
        ensures
            match r {
                Ok(d) => has_node(self.decision_nodes@, self.current_id@)
                    && *d == node_of(self.decision_nodes@, self.current_id@),
                Err(e) => !has_node(self.decision_nodes@, self.current_id@)
                    && e.0@ == node_not_found(self.current_id@),
            },
    {
        match lookup(&self.decision_nodes, &self.current_id) {
            Ok(i) => Ok(&self.decision_nodes[i]),
            Err(e) => Err(e),
        }
    }

    /// The first half of a step: how the choice at the current node is to be made. A node
    /// without choices ends the turn; without input no choice is taken; a single choice is
    /// taken without asking the backend; otherwise the backend is to be asked.
    pub fn select(&self, turn: &Turn) -> (r: Result<Selection, CognitionError>)
        ensures
            match r {
                Err(e) => !has_node(self.decision_nodes@, self.current_id@)
                    && e.0@ == node_not_found(self.current_id@),
                Ok(sel) => has_node(self.decision_nodes@, self.current_id@) && ({
                    let n = node_of(self.decision_nodes@, self.current_id@);
                    let cs = choice_seq(n);
                    match sel {
                        Selection::Terminal => cs.len() == 0,
                        Selection::Direct(c) => cs.len() > 0 && ((turn.user_input.is_none() && c.is_none())
                            || (turn.user_input.is_some() && cs.len() == 1 && c == Some(0usize))),
                        Selection::Predict { prompt, choice_texts: texts } => cs.len() >= 2
                            && (turn.user_input matches Some(input)
                            && views(texts@) == choice_texts(cs)
                            && prompt@ == formatted(
                                self.decision_prompt_template.0@,
                                self.history@,
                                n.text@,
                                choices_line(cs),
                                input@,
                            )),
                    }
                }),
            },
    {
        let i = match lookup(&self.decision_nodes, &self.current_id) {
            Ok(i) => i,
            Err(e) => { return Err(e); },
        };
        let node = &self.decision_nodes[i];
        let choices = node.choices();
        if choices.len() == 0 {
            return Ok(Selection::Terminal);
        }
        match &turn.user_input {
            None => Ok(Selection::Direct(None)),
            Some(input) => {
                if choices.len() == 1 {
                    return Ok(Selection::Direct(Some(0)));
                }
                let ghost cs = choice_seq(*node);
                let mut texts: Vec<String> = Vec::new();
                let mut k: usize = 0;
                while k < choices.len()
                    invariant
                        k <= choices@.len(),
                        choices@.len() == cs.len(),
                        forall|j: int| 0 <= j < choices@.len() ==> *choices@[j] == cs[j],
                        views(texts@) =~= choice_texts(cs).take(k as int),
                    decreases choices@.len() - k,
                {
                    let t = trim(choices[k].text.as_str());
                    let ghost before = texts@;
                    assert(t@ == choice_texts(cs)[k as int]);
                    texts.push(t);
                    proof {
                        assert(views(texts@) =~= views(before).push(t@));
                        assert(views(texts@) =~= choice_texts(cs).take(k as int + 1));
                    }
                    k = k + 1;
                }
                assert(choice_texts(cs).take(k as int) =~= choice_texts(cs));
                let line = join(&texts, "\n  - ");
                let prompt = self.decision_prompt_template.format(
                    self.history.as_str(),
                    node.text.as_str(),
                    line.as_str(),
                    input.as_str(),
                );
                Ok(Selection::Predict { prompt, choice_texts: texts })
            },
        }
    }

    /// The second half of a step: records the exchange when the step has fresh input,
    /// takes `next_choice` (moving the cursor and recording a prediction), applies the
    /// reset and predict flags of the node reached, and finds the tool to run there.
    /// `Ok(Some(i))` asks the caller to run the `i`-th registered tool on the input.
    pub fn follow(&mut self, turn: &mut Turn, next_choice: Option<usize>) -> (r: Result<Option<usize>, CognitionError>)
        requires
            old(turn).wf(),
            old(turn).active,
            next_choice matches Some(k) ==> (has_node(old(self).decision_nodes@, old(self).current_id@)
                && k < choice_seq(node_of(old(self).decision_nodes@, old(self).current_id@)).len()),
        ensures
            final(self).decision_nodes == old(self).decision_nodes,
            final(self).decision_prompt_template == old(self).decision_prompt_template,
            final(self).tools == old(self).tools,
            final(self).agent == old(self).agent,
            final(self).user == old(self).user,
            final(turn).user_input == old(turn).user_input,
            final(turn).decision_prompt == old(turn).decision_prompt,
            final(turn).tool_response == old(turn).tool_response,
            final(turn).wf(),
            !has_node(old(self).decision_nodes@, old(self).current_id@) ==> (r matches Err(e)
                && e.0@ == node_not_found(old(self).current_id@)),
            has_node(old(self).decision_nodes@, old(self).current_id@) ==> {
                let target = target_id(*old(self), next_choice);
                &&& final(self).current_id@ == target
                &&& final(turn).predictions@ == predictions_after(*old(self), *old(turn), next_choice)
                &&& final(turn).depth_left == old(turn).depth_left - 1
                &&& !has_node(old(self).decision_nodes@, target) ==> (r matches Err(e)
                    && e.0@ == node_not_found(target))
                &&& has_node(old(self).decision_nodes@, target) ==> step_done(
                    *old(self),
                    *old(turn),
                    next_choice,
                    *final(self),
                    *final(turn),
                    r,
                )
            },
    {
        let i = match lookup(&self.decision_nodes, &self.current_id) {
            Ok(i) => i,
            Err(e) => { return Err(e); },
        };
        let ghost s0 = *self;
        let ghost t0 = *turn;
        turn.depth_left = turn.depth_left - 1;
        turn.active = false;
        let text = self.decision_nodes[i].text.clone();
        match &turn.user_input {
            Some(input) => {
                if !turn.predicting_choice {
                    if !self.history.as_str().is_empty() {
                        self.history.append("\n  ");
                    }
                    self.history.append("- ");
                    self.history.append(self.agent.as_str());
                    self.history.append(": ");
                    self.history.append(text.as_str());
                    self.history.append("\n  - ");
                    self.history.append(self.user.as_str());
                    self.history.append(": ");
                    self.history.append(input.as_str());
                }
            },
            None => {},
        }
        assert(self.history@ =~= history_after_exchange(s0, t0));
        match next_choice {
            Some(k) => {
                let chosen = match &self.decision_nodes[i].choices {
                    Some(v) => v[k].duplicate(),
                    None => { proof { assert(false); } return Ok(None); },
                };
                turn.predictions.push(Prediction {
                    choice: chosen.text.clone(),
                    id: chosen.next_id.clone(),
                    tool_response: copy_response_option(&turn.tool_response),
                });
                turn.predicting_choice = true;
                self.current_id = chosen.next_id;
            },
            None => {},
        }
        let j = match lookup(&self.decision_nodes, &self.current_id) {
            Ok(j) => j,
            Err(e) => { return Err(e); },
        };
        let node = &self.decision_nodes[j];
        if node.reset == Some(true) {
            self.history = String::new();
        }
        if node.predict == Some(false) {
            turn.predicting_choice = false;
        }
        if next_choice.is_none() {
            turn.predicting_choice = false;
        }
        turn.active = turn.predicting_choice && turn.depth_left > 0;
        match &turn.user_input {
            Some(_) => match &node.tool {
                Some(tid) => match find_tool(&self.tools, tid) {
                    Some(t) => Ok(Some(t)),
                    None => {
                        let mut m = "Could not find tool: ".to_string();
                        m.append(tid.as_str());
                        Err(CognitionError(m))
                    },
                },
                None => Ok(None),
            },
            None => Ok(None),
        }
    }

    /// Ends a turn: what it did, and the node now under the cursor.
    pub fn finish(&self, turn: Turn) -> (r: Result<DecisionResult, CognitionError>)
        ensures
            match r {
                Ok(res) => has_node(self.decision_nodes@, self.current_id@)
                    && same_node(res.decision_node, node_of(self.decision_nodes@, self.current_id@))
                    && res.current_id == self.current_id
                    && res.user_input == turn.user_input
                    && res.decision_prompt == turn.decision_prompt
                    && res.choice.is_none()
                    && res.predictions == turn.predictions
                    && res.tool_response == turn.tool_response,
                Err(e) => !has_node(self.decision_nodes@, self.current_id@)
                    && e.0@ == node_not_found(self.current_id@),
            },
    {
        match lookup(&self.decision_nodes, &self.current_id) {
            Ok(i) => Ok(DecisionResult {
                user_input: turn.user_input,
                decision_prompt: turn.decision_prompt,
                choice: None,
                current_id: self.current_id.clone(),
                decision_node: self.decision_nodes[i].duplicate(),
                predictions: turn.predictions,
                tool_response: turn.tool_response,
            }),
            Err(e) => Err(e),
        }
    }
}

impl DecisionResult {
    /// The node reached offers no choice, so the conversation is over.
    pub fn ends_conversation(&self) -> (r: bool)
        ensures
            r == is_terminal(self.decision_node),
    {
        self.decision_node.choices().len() == 0
    }
}

/// Along every run of steps, the predictions of a well-formed turn never outnumber the
/// transitions one turn may make.
pub proof fn lemma_depth_bound(t: Turn)
    requires
        t.wf(),
    ensures
        t.predictions@.len() <= MAX_DEPTH,
{
}

/// A step that takes no choice (no input, or an answer of the backend that equals no
/// choice text) leaves the cursor and the predictions as they were and ends the chain.
pub proof fn lemma_no_choice_stops(
    s0: DecisionState,
    t0: Turn,
    s1: DecisionState,
    t1: Turn,
    r: Result<Option<usize>, CognitionError>,
)
    requires
        step_done(s0, t0, None, s1, t1, r),
    ensures
        target_id(s0, None) == s0.current_id@,
        predictions_after(s0, t0, None) == t0.predictions@,
        !t1.predicting_choice,
        !t1.active,
{
}

/// Entering a node that resets clears the history, whatever it held before.
pub proof fn lemma_reset_clears(
    s0: DecisionState,
    t0: Turn,
    next_choice: Option<usize>,
    s1: DecisionState,
    t1: Turn,
    r: Result<Option<usize>, CognitionError>,
)
    requires
        step_done(s0, t0, next_choice, s1, t1, r),
        node_of(s0.decision_nodes@, target_id(s0, next_choice)).reset == Some(true),
    ensures
        s1.history@.len() == 0,
{
}

/// A step taken on the way of a chain adds nothing to the history; a step with fresh
/// input adds exactly one agent line and one user line.
pub proof fn lemma_history_append(s: DecisionState, t: Turn)
    ensures
        t.predicting_choice ==> history_after_exchange(s, t) == s.history@,
        t.user_input is None ==> history_after_exchange(s, t) == s.history@,
        t.user_input is Some && !t.predicting_choice ==> history_after_exchange(s, t)
            == appended(
                s.history@,
                s.agent@,
                node_of(s.decision_nodes@, s.current_id@).text@,
                s.user@,
                t.user_input.unwrap()@,
            ),
{
}

} // verus!
