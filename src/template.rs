use vstd::prelude::*;

verus! {

/// `s` with every occurrence of the non-empty `from` replaced by `to`, scanning left to
/// right; occurrences do not overlap.
pub open spec fn replaced(s: Seq<char>, from: Seq<char>, to: Seq<char>) -> Seq<char>
    decreases s.len(),
{
    if from.len() == 0 || s.len() < from.len() {
        s
    } else if s.subrange(0, from.len() as int) == from {
        to + replaced(s.subrange(from.len() as int, s.len() as int), from, to)
    } else {
        seq![s[0]] + replaced(s.subrange(1, s.len() as int), from, to)
    }
}

/// Relies on `str::replace`: all non-overlapping matches of `from`, found from the left,
/// are replaced by `to`.
#[verifier::external_body]
fn replace_all(s: &str, from: &str, to: &str) -> (r: String)
    requires
        from@.len() > 0,
    ensures
        r@ == replaced(s@, from@, to@),
{
    s.replace(from, to)
}

/// The template of the prompt that asks a model to predict a choice. It holds the
/// placeholders `{{history}}`, `{{decision_prompt}}`, `{{choices}}` and `{{user_input}}`.
pub struct DecisionPromptTemplate(pub String);

/// The template with its four placeholders filled in, one after the other.
pub open spec fn formatted(
    template: Seq<char>,
    history: Seq<char>,
    decision_prompt: Seq<char>,
    choices: Seq<char>,
    user_input: Seq<char>,
) -> Seq<char> {
    replaced(
        replaced(
            replaced(replaced(template, "{{history}}"@, history), "{{decision_prompt}}"@, decision_prompt),
            "{{choices}}"@,
            choices,
        ),
        "{{user_input}}"@,
        user_input,
    )
}

impl DecisionPromptTemplate {
    pub fn new(content: String) -> (r: Self)
        ensures
            r.0 == content,
    {
        DecisionPromptTemplate(content)
    }

    /// Fills in the placeholders; one that is absent leaves the text as it is.
    pub fn format(&self, history: &str, decision_prompt: &str, choices: &str, user_input: &str) -> (r: String)
        ensures
            r@ == formatted(self.0@, history@, decision_prompt@, choices@, user_input@),
    {
        proof {
            reveal_strlit("{{history}}");
            reveal_strlit("{{decision_prompt}}");
            reveal_strlit("{{choices}}");
            reveal_strlit("{{user_input}}");
        }
        let a = replace_all(self.0.as_str(), "{{history}}", history);
        let b = replace_all(a.as_str(), "{{decision_prompt}}", decision_prompt);
        let c = replace_all(b.as_str(), "{{choices}}", choices);
        replace_all(c.as_str(), "{{user_input}}", user_input)
    }
}

} // verus!
