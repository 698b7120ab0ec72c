//! Query parameters of a request: a map from names to values that keeps
//! the order in which names were first given.
use crate::text::option_view;
use vstd::prelude::*;

verus! {

/// The map that a list of name/value pairs denotes; a later pair for a
/// name overrides an earlier one.
pub open spec fn pairs_map(s: Seq<(Seq<char>, Seq<char>)>) -> Map<Seq<char>, Seq<char>>
    decreases s.len(),
{
    if s.len() == 0 {
        Map::empty()
    } else {
        pairs_map(s.drop_last()).insert(s.last().0, s.last().1)
    }
}

/// No name occurs twice in the list.
pub open spec fn distinct_names(s: Seq<(Seq<char>, Seq<char>)>) -> bool {
    forall|i: int, j: int| 0 <= i < j < s.len() ==> #[trigger] s[i].0 != #[trigger] s[j].0
}

proof fn lemma_replace_value(s: Seq<(Seq<char>, Seq<char>)>, i: int, v: Seq<char>)
    requires
        0 <= i < s.len(),
        distinct_names(s),
    ensures
        pairs_map(s.update(i, (s[i].0, v))) == pairs_map(s).insert(s[i].0, v),
    decreases s.len(),
{
    let k = s[i].0;
    let t = s.update(i, (k, v));
    if i == s.len() - 1 {
        assert(t.drop_last() =~= s.drop_last());
        assert(pairs_map(t) =~= pairs_map(s).insert(k, v));
    } else {
        let d = s.drop_last();
        assert(distinct_names(d));
        assert(d[i].0 == k);
        lemma_replace_value(d, i, v);
        assert(t.drop_last() =~= d.update(i, (k, v)));
        assert(s.last().0 != k);
        assert(t.last() == s.last());
        assert(pairs_map(t) =~= pairs_map(s).insert(k, v));
    }
}

/// `map` with `name` set to `value`, when there is a value.
pub open spec fn with_param(
    map: Map<Seq<char>, Seq<char>>,
    name: Seq<char>,
    value: Option<Seq<char>>,
) -> Map<Seq<char>, Seq<char>> {
    match value {
        Some(v) => map.insert(name, v),
        None => map,
    }
}

/// How a flag is written in a request.
pub open spec fn flag_text(b: bool) -> Seq<char> {
    if b {
        "true"@
    } else {
        "false"@
    }
}

/// Setting a parameter after a union is setting it in the right-hand map.
pub proof fn lemma_union_with_param(
    left: Map<Seq<char>, Seq<char>>,
    right: Map<Seq<char>, Seq<char>>,
    name: Seq<char>,
    value: Option<Seq<char>>,
)
    ensures
        with_param(left.union_prefer_right(right), name, value) == left.union_prefer_right(
            with_param(right, name, value),
        ),
{
    assert(with_param(left.union_prefer_right(right), name, value) =~= left.union_prefer_right(
        with_param(right, name, value),
    ));
}

/// Query parameters: names with their values.
pub struct QueryParams {
    entries: Vec<(String, String)>,
}

impl QueryParams {
    /// The pairs as they are stored.
    pub closed spec fn pairs(&self) -> Seq<(Seq<char>, Seq<char>)> {
        self.entries@.map_values(|p: (String, String)| (p.0@, p.1@))
    }

    /// Each name is stored once.
    pub closed spec fn wf(&self) -> bool {
        distinct_names(self.pairs())
    }

    /// An empty set of parameters.
    pub fn new() -> (r: QueryParams)
        ensures
            r.wf(),
            r@ == Map::<Seq<char>, Seq<char>>::empty(),
    {
        let r = QueryParams { entries: Vec::new() };
        assert(r.pairs() =~= Seq::<(Seq<char>, Seq<char>)>::empty());
        r
    }

    /// Sets `name` to `value`, replacing any earlier value of `name`.
    pub fn insert(&mut self, name: String, value: String)
        requires
            old(self).wf(),
        ensures
            final(self).wf(),
            final(self)@ == old(self)@.insert(name@, value@),
    {
        let ghost before = self.pairs();
        let n = self.entries.len();
        let mut i: usize = 0;
        while i < n
            invariant
                n == self.entries.len(),
                self.pairs() == before,
                distinct_names(before),
                before == old(self).pairs(),
                i <= n,
                forall|j: int| 0 <= j < i ==> before[j].0 != name@,
            decreases n - i,
        {
            if self.entries[i].0 == name {
                let ghost v = value@;
                let ghost nm = name@;
                assert(before[i as int].0 == nm);
                self.entries.set(i, (name, value));
                proof {
                    lemma_replace_value(before, i as int, v);
                    assert(self.pairs() =~= before.update(i as int, (before[i as int].0, v)));
                    assert(forall|j: int| 0 <= j < before.len() ==> #[trigger] self.pairs()[j].0 == before[j].0);
                }
                return;
            }
            i += 1;
        }
        self.entries.push((name, value));
        proof {
            assert(self.pairs() =~= before.push((name@, value@)));
            assert(self.pairs().drop_last() =~= before);
        }
    }

    /// Sets `name` to `value` when there is a value.
    pub fn insert_present(&mut self, name: &str, value: &Option<String>)
        requires
            old(self).wf(),
        ensures
            final(self).wf(),
            final(self)@ == with_param(old(self)@, name@, option_view(*value)),
    {
        if let Some(v) = value {
            self.insert(name.to_owned(), v.clone());
        }
    }

    /// Sets `name` to `true` or `false` when there is a flag.
    pub fn insert_flag(&mut self, name: &str, value: Option<bool>)
        requires
            old(self).wf(),
        ensures
            final(self).wf(),
            final(self)@ == with_param(
                old(self)@,
                name@,
                match value {
                    Some(b) => Some(flag_text(b)),
                    None => None,
                },
            ),
    {
        if let Some(b) = value {
            let text = if b {
                "true".to_owned()
            } else {
                "false".to_owned()
            };
            self.insert(name.to_owned(), text);
        }
    }

    /// The stored pairs, in the order in which their names were first set.
    pub fn entries(&self) -> (r: &Vec<(String, String)>)
        ensures
            r@.map_values(|p: (String, String)| (p.0@, p.1@)) == self.pairs(),
    {
        &self.entries
    }

    /// The number of names set.
    pub fn len(&self) -> (r: usize)
        ensures
            r == self.pairs().len(),
    {
        self.entries.len()
    }
}

impl View for QueryParams {
    type V = Map<Seq<char>, Seq<char>>;

    closed spec fn view(&self) -> Map<Seq<char>, Seq<char>> {
        pairs_map(self.pairs())
    }
}

/// A set of optional request parameters, each given under its own name
/// when it is present.
pub trait Dto {
    /// The parameters that this value holds.
    spec fn params(&self) -> Map<Seq<char>, Seq<char>>;

    /// Sets each present parameter in `map`.
    fn mapping(&self, map: &mut QueryParams)
        requires
            old(map).wf(),
        ensures
            final(map).wf(),
            final(map)@ == old(map)@.union_prefer_right(self.params()),
    ;
}

/// Sets in `map` the parameters of `option`, when there is one.
pub fn catch_mapping<T: Dto>(map: &mut QueryParams, option: &Option<T>)
    requires
        old(map).wf(),
    ensures
        final(map).wf(),
        final(map)@ == match option {
            Some(s) => old(map)@.union_prefer_right(s.params()),
            None => old(map)@,
        },
{
    if let Some(s) = option {
        s.mapping(map);
    }
}

} // verus!
