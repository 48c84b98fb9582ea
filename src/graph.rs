use vstd::prelude::*;

verus! {

/// One labelled edge of the dialogue graph.
#[derive(Clone, Debug)]
pub struct Choice {
    /// The label shown to the user, and the literal key that a prediction must match.
    pub text: String,
    /// The id of the node that the edge leads to.
    pub next_id: String,
}

/// One node of the dialogue graph.
#[derive(Clone, Debug)]
pub struct Decision {
    pub id: String,
    pub text: String,
    /// Alternate text for a node reached by prediction; kept, but not read by the traversal.
    pub predicted_text: Option<String>,
    pub tool: Option<String>,
    pub predict: Option<bool>,
    pub reset: Option<bool>,
    pub choices: Option<Vec<Choice>>,
}

/// The outgoing edges of a node, in order: none when the list is absent.
pub open spec fn choice_seq(d: Decision) -> Seq<Choice> {
    match d.choices {
        Some(v) => v@,
        None => Seq::empty(),
    }
}

/// Two nodes agree on every field, and on the list of choices.
pub open spec fn same_node(a: Decision, b: Decision) -> bool {
    &&& a.id == b.id
    &&& a.text == b.text
    &&& a.predicted_text == b.predicted_text
    &&& a.tool == b.tool
    &&& a.predict == b.predict
    &&& a.reset == b.reset
    &&& a.choices.is_some() == b.choices.is_some()
    &&& choice_seq(a) == choice_seq(b)
}

/// A node is terminal when it offers no choice.
pub open spec fn is_terminal(d: Decision) -> bool {
    choice_seq(d).len() == 0
}

/// Index of the first node of `nodes` whose id is `id`.
pub open spec fn first_with_id(nodes: Seq<Decision>, id: Seq<char>, i: int) -> bool {
    0 <= i < nodes.len() && nodes[i].id@ == id && forall|j: int| 0 <= j < i ==> nodes[j].id@ != id
}

/// No node of `nodes` has the id `id`.
pub open spec fn no_node_with_id(nodes: Seq<Decision>, id: Seq<char>) -> bool {
    forall|j: int| 0 <= j < nodes.len() ==> nodes[j].id@ != id
}

pub fn copy_string_option(s: &Option<String>) -> (r: Option<String>)
    ensures
        r == *s,
{
    match s {
        Some(t) => Some(t.clone()),
        None => None,
    }
}

impl Choice {
    pub fn new(text: String, next_id: String) -> (r: Choice)
        ensures
            r.text == text,
            r.next_id == next_id,
    {
        Choice { text, next_id }
    }

    /// A field-for-field copy.
    pub fn duplicate(&self) -> (r: Choice)
        ensures
            r == *self,
    {
        Choice { text: self.text.clone(), next_id: self.next_id.clone() }
    }
}

impl Decision {
    /// References to the node's choices, in order; empty when the list is absent.
    pub fn choices(&self) -> (r: Vec<&Choice>)
        ensures
            r@.len() == choice_seq(*self).len(),
            forall|i: int| 0 <= i < r@.len() ==> *r@[i] == choice_seq(*self)[i],
    {
        let mut r: Vec<&Choice> = Vec::new();
        match &self.choices {
            Some(v) => {
                let mut i: usize = 0;
                while i < v.len()
                    invariant
                        i <= v@.len(),
                        choice_seq(*self) == v@,
                        r@.len() == i,
                        forall|k: int| 0 <= k < i ==> *r@[k] == v@[k],
                    decreases v@.len() - i,
                {
                    r.push(&v[i]);
                    i = i + 1;
                }
            },
            None => {},
        }
        r
    }

    /// A field-for-field copy.
    pub fn duplicate(&self) -> (r: Decision)
        ensures
            same_node(r, *self),
    {
        let choices = match &self.choices {
            Some(v) => {
                let mut c: Vec<Choice> = Vec::new();
                let mut i: usize = 0;
                while i < v.len()
                    invariant
                        i <= v@.len(),
                        c@.len() == i,
                        forall|k: int| 0 <= k < i ==> c@[k] == v@[k],
                    decreases v@.len() - i,
                {
                    c.push(v[i].duplicate());
                    i = i + 1;
                }
                assert(c@ =~= v@);
                Some(c)
            },
            None => None,
        };
        let r = Decision {
            id: self.id.clone(),
            text: self.text.clone(),
            predicted_text: copy_string_option(&self.predicted_text),
            tool: copy_string_option(&self.tool),
            predict: self.predict,
            reset: self.reset,
            choices,
        };
        r
    }
}

/// Position of the first node whose id is `id`, if any: lookups are first-match-wins.
pub fn find_node(nodes: &Vec<Decision>, id: &String) -> (r: Option<usize>)
    ensures
        match r {
            Some(i) => first_with_id(nodes@, id@, i as int),
            None => no_node_with_id(nodes@, id@),
        },
{
    let mut i: usize = 0;
    while i < nodes.len()
        invariant
            i <= nodes@.len(),
            forall|j: int| 0 <= j < i ==> nodes@[j].id@ != id@,
        decreases nodes@.len() - i,
    {
        if nodes[i].id == *id {
            return Some(i);
        }
        i = i + 1;
    }
    None
}

} // verus!
