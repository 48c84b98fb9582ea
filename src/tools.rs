use vstd::prelude::*;

verus! {

/// What a tool answered, under the tool's id.
#[derive(Clone, Debug)]
pub struct ToolResponse {
    pub id: String,
    pub response: String,
}

impl ToolResponse {
    /// A field-for-field copy.
    pub fn duplicate(&self) -> (r: ToolResponse)
        ensures
            r == *self,
    {
        ToolResponse { id: self.id.clone(), response: self.response.clone() }
    }
}

pub fn copy_response_option(t: &Option<ToolResponse>) -> (r: Option<ToolResponse>)
    ensures
        r == *t,
{
    match t {
        Some(x) => Some(x.duplicate()),
        None => None,
    }
}

/// A named lookup that a node of the graph can invoke.
pub trait Tool {
    fn id(&self) -> &String;

    fn name(&self) -> &String;

    fn description(&self) -> &String;
}

/// A tool that answers every input with one fixed text.
pub struct Signal {
    pub id: String,
    pub name: String,
    pub description: String,
    pub signal: String,
}

impl Tool for Signal {
    fn id(&self) -> &String {
        &self.id
    }

    fn name(&self) -> &String {
        &self.name
    }

    fn description(&self) -> &String {
        &self.description
    }
}

impl Signal {
    /// Answers any input with the signal, under the tool's id.
    pub fn run(&self, input: &String) -> (r: Option<ToolResponse>)
        ensures
            r == Some(ToolResponse { id: self.id, response: self.signal }),
    {
        Some(ToolResponse { id: self.id.clone(), response: self.signal.clone() })
    }
}

pub open spec fn pair_view(p: (String, String)) -> (Seq<char>, Seq<char>) {
    (p.0@, p.1@)
}

pub open spec fn pairs_view(ps: Seq<(String, String)>) -> Seq<(Seq<char>, Seq<char>)> {
    ps.map_values(|p: (String, String)| pair_view(p))
}

/// The parameter list after setting `k` to `v`: the value of an existing key is
/// replaced where it stands, a new key goes last.
pub open spec fn with_param(ps: Seq<(Seq<char>, Seq<char>)>, k: Seq<char>, v: Seq<char>) -> Seq<(Seq<char>, Seq<char>)> {
    if exists|i: int| 0 <= i < ps.len() && ps[i].0 == k {
        ps.map_values(|p: (Seq<char>, Seq<char>)| set_entry(p, k, v))
    } else {
        ps.push((k, v))
    }
}

/// One entry after setting `k` to `v`.
pub open spec fn set_entry(p: (Seq<char>, Seq<char>), k: Seq<char>, v: Seq<char>) -> (Seq<char>, Seq<char>) {
    if p.0 == k { (k, v) } else { p }
}

/// The keys of a parameter list are pairwise distinct.
pub open spec fn keys_unique(ps: Seq<(Seq<char>, Seq<char>)>) -> bool {
    forall|i: int, j: int| 0 <= i < ps.len() && 0 <= j < ps.len() && i != j ==> ps[i].0 != ps[j].0
}

/// The `application/x-www-form-urlencoded` text of a list of pairs.
pub uninterp spec fn form_encoded(pairs: Seq<(Seq<char>, Seq<char>)>) -> Seq<char>;

/// Relies on `serde_urlencoded::to_string`: a sequence of pairs is encoded, in order,
/// as form data, and a pair of strings always serializes, so the call succeeds.
#[verifier::external_body]
fn encode_pairs(pairs: &Vec<(String, String)>) -> (r: Option<String>)
    ensures
        r.is_some(),
        r matches Some(s) ==> s@ == form_encoded(pairs_view(pairs@)),
{
    serde_urlencoded::to_string(pairs).ok()
}

/// Sets `key` to `value` in a parameter list.
pub fn set_param(params: &Vec<(String, String)>, key: &String, value: &String) -> (r: Vec<(String, String)>)
    ensures
        pairs_view(r@) == with_param(pairs_view(params@), key@, value@),
{
    let ghost ps = pairs_view(params@);
    let mut out: Vec<(String, String)> = Vec::new();
    let mut found = false;
    let mut i: usize = 0;
    while i < params.len()
        invariant
            i <= params@.len(),
            ps == pairs_view(params@),
            pairs_view(out@) =~= ps.take(i as int).map_values(|p: (Seq<char>, Seq<char>)| set_entry(p, key@, value@)),
            found == exists|j: int| 0 <= j < i && ps[j].0 == key@,
        decreases params@.len() - i,
    {
        let p = &params[i];
        let ghost before = out@;
        if p.0 == *key {
            let k = key.clone();
            let v = value.clone();
            out.push((k, v));
            found = true;
            assert(ps[i as int].0 == key@);
        } else {
            let k = p.0.clone();
            let v = p.1.clone();
            out.push((k, v));
            assert(ps[i as int].0 != key@);
        }
        proof {
            assert(ps[i as int] == pair_view(params@[i as int]));
            assert(pair_view(out@.last()) == set_entry(ps[i as int], key@, value@));
            assert(pairs_view(out@) =~= pairs_view(before).push(pair_view(out@.last())));
            assert(ps.take(i as int + 1) =~= ps.take(i as int).push(ps[i as int]));
            assert(ps.take(i as int + 1).map_values(|p: (Seq<char>, Seq<char>)| set_entry(p, key@, value@)) =~= ps.take(i as int).map_values(|p: (Seq<char>, Seq<char>)| set_entry(p, key@, value@)).push(set_entry(ps[i as int], key@, value@)));
        }
        i = i + 1;
    }
    assert(ps.take(i as int) =~= ps);
    if !found {
        let ghost before = out@;
        out.push((key.clone(), value.clone()));
        assert(pairs_view(out@) =~= pairs_view(before).push(pair_view(out@.last())));
        assert(pairs_view(out@) =~= ps.push((key@, value@)));
    }
    out
}

/// A tool that asks the Wolfram|Alpha short-answer service.
pub struct WolframAlpha {
    pub id: String,
    pub name: String,
    pub description: String,
    pub endpoint: String,
    pub params: Vec<(String, String)>,
}

impl Tool for WolframAlpha {
    fn id(&self) -> &String {
        &self.id
    }

    fn name(&self) -> &String {
        &self.name
    }

    fn description(&self) -> &String {
        &self.description
    }
}

impl WolframAlpha {
    /// Each parameter key occurs once, as in a map.
    pub open spec fn wf(&self) -> bool {
        keys_unique(pairs_view(self.params@))
    }

    pub fn new(app_id: String) -> (r: Self)
        ensures
            r.id@ == "wolfram_alpha"@,
            r.name@ == "Wolfram|Alpha"@,
            r.description@ == "Wolfram Alpha is a computational knowledge engine"@,
            r.endpoint@ == "https://api.wolframalpha.com/v1/result"@,
            pairs_view(r.params@) == seq![("appid"@, app_id@)],
            r.wf(),
    {
        let mut params: Vec<(String, String)> = Vec::new();
        params.push(("appid".to_string(), app_id));
        let r = WolframAlpha {
            id: "wolfram_alpha".to_string(),
            name: "Wolfram|Alpha".to_string(),
            description: "Wolfram Alpha is a computational knowledge engine".to_string(),
            endpoint: "https://api.wolframalpha.com/v1/result".to_string(),
            params,
        };
        assert(pairs_view(r.params@) =~= seq![("appid"@, app_id@)]);
        r
    }

    /// The address to ask for `input`: the endpoint, `?`, and the parameters with `i` set
    /// to the input, form-encoded.
    pub fn request_url(&self, input: &String) -> (r: String)
        ensures
            r@ == self.endpoint@ + "?"@ + form_encoded(with_param(pairs_view(self.params@), "i"@, input@)),
    {
        let key = "i".to_string();
        let params = set_param(&self.params, &key, input);
        let query = match encode_pairs(&params) {
            Some(query) => query,
            None => {
                proof {
                    assert(false);
                }
                String::new()
            },
        };
        let mut url = self.endpoint.clone();
        url.append("?");
        url.append(query.as_str());
        url
    }

    /// The answer of the service, under the tool's id.
    pub fn response(&self, text: String) -> (r: Option<ToolResponse>)
        ensures
            r matches Some(t) && t.id == self.id && t.response == text,
    {
        Some(ToolResponse { id: self.id.clone(), response: text })
    }
}

} // verus!
