use vstd::prelude::*;
use crate::text::views;

verus! {

/// A configuration document, as far as a path lookup reads it: a string, a mapping of
/// keys to values, or anything else.
#[derive(Debug)]
pub enum ConfigValue {
    Str(String),
    Mapping(Vec<(String, ConfigValue)>),
    Other,
}

/// The pieces of `s` between the occurrences of `c`, in order; one empty piece for an
/// empty `s`.
pub open spec fn split_on(s: Seq<char>, c: char) -> Seq<Seq<char>>
    decreases s.len(),
{
    if s.len() == 0 {
        seq![Seq::empty()]
    } else {
        let rest = split_on(s.drop_first(), c);
        if s[0] == c {
            seq![Seq::<char>::empty()] + rest
        } else {
            rest.update(0, seq![s[0]] + rest[0])
        }
    }
}

/// Relies on `str::split` with a `char` pattern: the pieces between the separators, in
/// order, empty pieces included.
#[verifier::external_body]
fn split_char(s: &str, c: char) -> (r: Vec<String>)
    ensures
        views(r@) == split_on(s@, c),
{
    s.split(c).map(|p| p.to_string()).collect()
}

/// The first entry of a mapping under `key`.
pub open spec fn first_key(entries: Seq<(String, ConfigValue)>, key: Seq<char>, i: int) -> bool {
    0 <= i < entries.len() && entries[i].0@ == key && forall|j: int| 0 <= j < i ==> entries[j].0@ != key
}

/// The value reached from `v` by following the keys of `path` through mappings.
pub open spec fn value_at(v: ConfigValue, path: Seq<Seq<char>>) -> Option<ConfigValue>
    decreases path.len(),
{
    if path.len() == 0 {
        Some(v)
    } else {
        match v {
            ConfigValue::Mapping(entries) => if exists|i: int| first_key(entries@, path[0], i) {
                value_at(entries@[choose|i: int| first_key(entries@, path[0], i)].1, path.drop_first())
            } else {
                None
            },
            _ => None,
        }
    }
}

proof fn lemma_first_key_unique(entries: Seq<(String, ConfigValue)>, key: Seq<char>, i: int, j: int)
    requires
        first_key(entries, key, i),
        first_key(entries, key, j),
    ensures
        i == j,
{
    if i < j {
        assert(entries[i].0@ == key);
    } else if j < i {
        assert(entries[j].0@ == key);
    }
}

/// The value at a dotted path (`models.davinci003.api_key`), if every key on the way is
/// present.
pub fn object_by_path<'a>(config: &'a ConfigValue, search_path: &str) -> (r: Option<&'a ConfigValue>)
    ensures
        match r {
            Some(v) => value_at(*config, split_on(search_path@, '.')) == Some(*v),
            None => value_at(*config, split_on(search_path@, '.')) is None,
        },
{
    let parts = split_char(search_path, '.');
    let ghost path = views(parts@);
    let mut cur: &ConfigValue = config;
    let mut k: usize = 0;
    assert(path.skip(0) =~= path);
    while k < parts.len()
        invariant
            k <= parts@.len(),
            path == views(parts@),
            path == split_on(search_path@, '.'),
            value_at(*config, path) == value_at(*cur, path.skip(k as int)),
        decreases parts@.len() - k,
    {
        let ghost rest = path.skip(k as int);
        assert(rest[0] == parts@[k as int]@);
        assert(rest.drop_first() =~= path.skip(k as int + 1));
        match cur {
            ConfigValue::Mapping(entries) => {
                let mut j: usize = 0;
                let mut found: Option<usize> = None;
                while j < entries.len() && found.is_none()
                    invariant
                        j <= entries@.len(),
                        k < parts@.len(),
                        found matches Some(f) ==> first_key(entries@, parts@[k as int]@, f as int),
                        found is None ==> forall|m: int| 0 <= m < j ==> entries@[m].0@ != parts@[k as int]@,
                    decreases entries@.len() - j,
                {
                    if entries[j].0 == parts[k] {
                        found = Some(j);
                    }
                    j = j + 1;
                }
                match found {
                    Some(j) => {
                        proof {
                            assert(first_key(entries@, rest[0], j as int));
                            let c = choose|i: int| first_key(entries@, rest[0], i);
                            lemma_first_key_unique(entries@, rest[0], j as int, c);
                        }
                        cur = &entries[j].1;
                    },
                    None => {
                        assert(!exists|i: int| first_key(entries@, rest[0], i));
                        return None;
                    },
                }
            },
            _ => {
                return None;
            },
        }
        k = k + 1;
    }
    assert(path.skip(k as int).len() == 0);
    Some(cur)
}

/// The string at a dotted path, if every key on the way is present and a string stands
/// there.
pub fn string_by_path(config: &ConfigValue, search_path: &str) -> (r: Option<String>)
    ensures
        match value_at(*config, split_on(search_path@, '.')) {
            Some(ConfigValue::Str(s)) => r == Some(s),
            _ => r is None,
        },
{
    match object_by_path(config, search_path) {
        Some(ConfigValue::Str(s)) => Some(s.clone()),
        _ => None,
    }
}

} // verus!
