//! Postman variables and `{{name}}` interpolation.

use vstd::prelude::*;
use crate::text::{chars_of, push_char, push_str, occurs_at, text_eq};
use crate::json::{Json, JsonValue, view_values, lemma_view_values};
use crate::models::environment::EnvironmentValue;

verus! {

/// One variable: its name and its value.
#[derive(Debug, PartialEq)]
pub struct VarEntry {
    pub key: String,
    pub value: String,
}

/// A set of variables, each name at most once, kept in insertion order.
pub struct Variables {
    entries: Vec<VarEntry>,
}

/// No name occurs twice.
pub open spec fn unique_keys(es: Seq<(Seq<char>, Seq<char>)>) -> bool {
    forall|i: int, j: int| 0 <= i < es.len() && 0 <= j < es.len() && i != j ==> es[i].0 != es[j].0
}

/// The map from names to values that a list of distinct entries describes.
pub open spec fn entries_map(es: Seq<(Seq<char>, Seq<char>)>) -> Map<Seq<char>, Seq<char>>
    decreases es.len(),
{
    if es.len() == 0 {
        Map::empty()
    } else {
        entries_map(es.drop_last()).insert(es.last().0, es.last().1)
    }
}

/// The placeholder `{{key}}`.
pub open spec fn placeholder(key: Seq<char>) -> Seq<char> {
    seq!['{', '{'] + key + seq!['}', '}']
}

/// A placeholder opens at `i`: `s` has `{{` there.
pub open spec fn opens_at(s: Seq<char>, i: int) -> bool {
    0 <= i && i + 1 < s.len() && s[i] == '{' && s[i + 1] == '{'
}

/// Where the placeholder opening at `i` closes: the first `}}` at or after
/// `j` such that the text between the `{{` at `i` and it is a key of `m`;
/// `-1` when there is none.
pub open spec fn key_close_from(s: Seq<char>, i: int, j: int, m: Map<Seq<char>, Seq<char>>) -> int
    decreases s.len() - j,
{
    if j < 0 || j + 1 >= s.len() {
        -1
    } else if s[j] == '}' && s[j + 1] == '}' && i + 2 <= j && m.contains_key(s.subrange(i + 2, j)) {
        j
    } else {
        key_close_from(s, i, j + 1, m)
    }
}

/// `s` from index `i` on, read once from left to right: where `{{key}}`
/// opens at a position with `key` a key of `m` (the shortest such, when
/// several close there), it is replaced by that key's value; every other
/// character is kept. The values put in are not read again.
pub open spec fn resolve_from(s: Seq<char>, i: int, m: Map<Seq<char>, Seq<char>>) -> Seq<char>
    decreases s.len() - i,
{
    if i < 0 || i >= s.len() {
        Seq::empty()
    } else {
        let c = key_close_from(s, i, i + 2, m);
        if opens_at(s, i) && i + 2 <= c && c + 1 < s.len() {
            m[s.subrange(i + 2, c)] + resolve_from(s, c + 2, m)
        } else {
            seq![s[i]] + resolve_from(s, i + 1, m)
        }
    }
}

/// `input` with every `{{key}}` whose key `m` holds replaced by its value,
/// in one pass over the input.
pub open spec fn resolve_spec(input: Seq<char>, m: Map<Seq<char>, Seq<char>>) -> Seq<char> {
    resolve_from(input, 0, m)
}

/// A close found from `j` on is a `}}` at or after `j` that ends a key of `m`.
pub proof fn lemma_key_close(s: Seq<char>, i: int, j: int, m: Map<Seq<char>, Seq<char>>)
    ensures
        key_close_from(s, i, j, m) == -1 || ({
            let c = key_close_from(s, i, j, m);
            &&& j <= c
            &&& i + 2 <= c
            &&& c + 1 < s.len()
            &&& s[c] == '}'
            &&& s[c + 1] == '}'
            &&& m.contains_key(s.subrange(i + 2, c))
        }),
    decreases s.len() - j,
{
    if !(j < 0 || j + 1 >= s.len())
        && !(s[j] == '}' && s[j + 1] == '}' && i + 2 <= j && m.contains_key(s.subrange(i + 2, j))) {
        lemma_key_close(s, i, j + 1, m);
    }
}

impl Variables {
    /// The entries, as (name, value) pairs in order.
    pub closed spec fn entries(&self) -> Seq<(Seq<char>, Seq<char>)> {
        self.entries@.map_values(|e: VarEntry| (e.key@, e.value@))
    }

    /// The variables as a map from name to value.
    pub open spec fn view_map(&self) -> Map<Seq<char>, Seq<char>> {
        entries_map(self.entries())
    }

    #[verifier::type_invariant]
    closed spec fn keys_distinct(&self) -> bool {
        unique_keys(self.entries())
    }

    /// No variables.
    pub fn new() -> (r: Variables)
        ensures
            r.entries() == Seq::<(Seq<char>, Seq<char>)>::empty(),
            r.view_map() == Map::<Seq<char>, Seq<char>>::empty(),
    {
        let r = Variables { entries: Vec::new() };
        assert(r.entries() =~= Seq::<(Seq<char>, Seq<char>)>::empty());
        r
    }

    pub fn len(&self) -> (n: usize)
        ensures
            n == self.entries().len(),
    {
        self.entries.len()
    }

    /// Sets `key` to `value`: an existing entry keeps its place, a new one goes last.
    pub fn insert(&mut self, key: String, value: String)
        ensures
            final(self).view_map() == old(self).view_map().insert(key@, value@),
            old(self).view_map().contains_key(key@) ==> final(self).entries().len()
                == old(self).entries().len(),
            !old(self).view_map().contains_key(key@) ==> final(self).entries()
                == old(self).entries().push((key@, value@)),
    {
        proof {
            use_type_invariant(&*self);
            lemma_entries_map_keys(self.entries());
        }
        let n = self.entries.len();
        let mut i: usize = 0;
        while i < n
            invariant
                n == self.entries@.len(),
                self.entries() == old(self).entries(),
                unique_keys(self.entries()),
                i <= n,
                forall|j: int| 0 <= j < i ==> #[trigger] self.entries()[j].0 != key@,
            decreases n - i,
        {
            if text_eq(self.entries[i].key.as_str(), key.as_str()) {
                let ghost before = self.entries();
                let mut entries: Vec<VarEntry> = Vec::new();
                std::mem::swap(&mut entries, &mut self.entries);
                entries.set(i, VarEntry { key, value });
                proof {
                    let after = entries@.map_values(|e: VarEntry| (e.key@, e.value@));
                    assert(after =~= before.update(i as int, (key@, value@)));
                    lemma_update_unique(before, i as int, value@);
                    lemma_entries_map_update(before, i as int, value@);
                    lemma_entries_map_index(before, i as int);
                }
                self.entries = entries;
                return;
            }
            i = i + 1;
        }
        let ghost before0 = self.entries();
        let mut entries: Vec<VarEntry> = Vec::new();
        std::mem::swap(&mut entries, &mut self.entries);
        entries.push(VarEntry { key, value });
        proof {
            let before = before0;
            let after = entries@.map_values(|e: VarEntry| (e.key@, e.value@));
            assert(after =~= before.push((key@, value@)));
            assert(after.drop_last() =~= before);
            assert forall|a: int, b: int| 0 <= a < after.len() && 0 <= b < after.len() && a != b implies after[a].0 != after[b].0 by {
                if a < before.len() && b < before.len() {
                } else if a == before.len() {
                    assert(before[b].0 != key@);
                } else {
                    assert(before[a].0 != key@);
                }
            }
        }
        self.entries = entries;
    }

    /// The value of `key`, if it is set.
    pub fn get(&self, key: &str) -> (r: Option<&String>)
        ensures
            r is Some <==> self.view_map().contains_key(key@),
            r matches Some(v) ==> v@ == self.view_map()[key@],
    {
        proof {
            use_type_invariant(self);
            lemma_entries_map_keys(self.entries());
        }
        let n = self.entries.len();
        let mut i: usize = 0;
        while i < n
            invariant
                n == self.entries@.len(),
                unique_keys(self.entries()),
                i <= n,
                forall|j: int| 0 <= j < i ==> #[trigger] self.entries()[j].0 != key@,
            decreases n - i,
        {
            if text_eq(self.entries[i].key.as_str(), key) {
                proof {
                    lemma_entries_map_index(self.entries(), i as int);
                }
                return Some(&self.entries[i].value);
            }
            i = i + 1;
        }
        None
    }
}

/// The keys of `entries_map(es)` are the names of `es`.
pub proof fn lemma_entries_map_keys(es: Seq<(Seq<char>, Seq<char>)>)
    ensures
        forall|j: int| 0 <= j < es.len() ==> entries_map(es).contains_key(#[trigger] es[j].0),
        forall|k: Seq<char>| #[trigger] entries_map(es).contains_key(k) ==> exists|j: int| 0 <= j < es.len() && #[trigger] es[j].0 == k,
    decreases es.len(),
{
    if es.len() > 0 {
        let p = es.drop_last();
        lemma_entries_map_keys(p);
        assert forall|j: int| 0 <= j < es.len() implies entries_map(es).contains_key(#[trigger] es[j].0) by {
            if j < es.len() - 1 {
                assert(p[j] == es[j]);
            }
        }
        assert forall|k: Seq<char>| #[trigger] entries_map(es).contains_key(k) implies exists|j: int| 0 <= j < es.len() && #[trigger] es[j].0 == k by {
            if k == es.last().0 {
                assert(es[es.len() - 1].0 == k);
            } else {
                assert(entries_map(p).contains_key(k));
                let j = choose|j: int| 0 <= j < p.len() && #[trigger] p[j].0 == k;
                assert(es[j] == p[j]);
            }
        }
    }
}

/// With distinct names, the map sends the name of entry `i` to its value.
pub proof fn lemma_entries_map_index(es: Seq<(Seq<char>, Seq<char>)>, i: int)
    requires
        unique_keys(es),
        0 <= i < es.len(),
    ensures
        entries_map(es).contains_key(es[i].0),
        entries_map(es)[es[i].0] == es[i].1,
    decreases es.len(),
{
    if i < es.len() - 1 {
        let p = es.drop_last();
        assert(p[i] == es[i]);
        assert(unique_keys(p));
        lemma_entries_map_index(p, i);
        assert(es.last().0 != es[i].0);
    }
}

proof fn lemma_update_unique(es: Seq<(Seq<char>, Seq<char>)>, i: int, v: Seq<char>)
    requires
        unique_keys(es),
        0 <= i < es.len(),
    ensures
        unique_keys(es.update(i, (es[i].0, v))),
{
}

proof fn lemma_entries_map_update(es: Seq<(Seq<char>, Seq<char>)>, i: int, v: Seq<char>)
    requires
        unique_keys(es),
        0 <= i < es.len(),
    ensures
        entries_map(es.update(i, (es[i].0, v))) == entries_map(es).insert(es[i].0, v),
    decreases es.len(),
{
    let u = es.update(i, (es[i].0, v));
    if i == es.len() - 1 {
        assert(u.drop_last() =~= es.drop_last());
        assert(entries_map(es.drop_last()).insert(es[i].0, es[i].1).insert(es[i].0, v) =~= entries_map(es.drop_last()).insert(es[i].0, v));
    } else {
        let p = es.drop_last();
        assert(u.drop_last() =~= p.update(i, (p[i].0, v)));
        lemma_entries_map_update(p, i, v);
        assert(es.last().0 != es[i].0);
        assert(entries_map(u) =~= entries_map(es).insert(es[i].0, v));
    }
}


/// The placeholder `{{key}}` as a string.
pub fn placeholder_of(key: &str) -> (p: String)
    ensures
        p@ == placeholder(key@),
{
    let mut p = String::new();
    push_str(&mut p, "{{");
    push_str(&mut p, key);
    push_str(&mut p, "}}");
    proof {
        reveal_strlit("{{");
        reveal_strlit("}}");
        assert(p@ =~= placeholder(key@));
    }
    p
}

/// The placeholder opening at `i`, if one does there: where it closes and
/// the value of its key.
fn placeholder_at<'a>(s: &Vec<char>, i: usize, vars: &'a Variables) -> (r: Option<(usize, &'a String)>)
    requires
        i < s@.len(),
    ensures
        match r {
            Some((c, v)) => opens_at(s@, i as int)
                && c == key_close_from(s@, i as int, i + 2, vars.view_map())
                && i + 2 <= c && c + 1 < s@.len()
                && vars.view_map().contains_key(s@.subrange(i + 2, c as int))
                && v@ == vars.view_map()[s@.subrange(i + 2, c as int)],
            None => !(opens_at(s@, i as int)
                && i + 2 <= key_close_from(s@, i as int, i + 2, vars.view_map())
                && key_close_from(s@, i as int, i + 2, vars.view_map()) + 1 < s@.len()),
        },
{
    let ghost m = vars.view_map();
    let n = s.len();
    if i + 1 < n && s[i] == '{' && s[i + 1] == '{' {
        let mut j: usize = i + 2;
        while j < n - 1
            invariant
                n == s@.len(),
                i + 1 < n,
                opens_at(s@, i as int),
                i + 2 <= j,
                j <= n,
                m == vars.view_map(),
                key_close_from(s@, i as int, j as int, m) == key_close_from(s@, i as int, i + 2, m),
            decreases n - j,
        {
            if s[j] == '}' && s[j + 1] == '}' {
                let key = text_of_range(s, i + 2, j);
                match vars.get(key.as_str()) {
                    Some(v) => {
                        proof {
                            assert(m.contains_key(s@.subrange(i + 2, j as int)));
                            assert(key_close_from(s@, i as int, j as int, m) == j);
                        }
                        return Some((j, v));
                    },
                    None => {},
                }
            }
            j = j + 1;
        }
        None
    } else {
        None
    }
}

/// The characters of `s` from `a` up to `b`, as a string.
fn text_of_range(s: &Vec<char>, a: usize, b: usize) -> (t: String)
    requires
        a <= b <= s@.len(),
    ensures
        t@ == s@.subrange(a as int, b as int),
{
    let mut t = String::new();
    let mut i: usize = a;
    while i < b
        invariant
            a <= i <= b,
            b <= s@.len(),
            t@ == s@.subrange(a as int, i as int),
        decreases b - i,
    {
        push_char(&mut t, s[i]);
        proof {
            assert(s@.subrange(a as int, i + 1) =~= s@.subrange(a as int, i as int).push(s@[i as int]));
        }
        i = i + 1;
    }
    t
}

/// Replaces every `{{key}}` of `input` whose key `vars` holds by its value
/// (the shortest such placeholder where several open at one place), in one
/// pass from left to right; the values put in are not read again, and
/// placeholders of names that `vars` does not hold stay as they are. The
/// result depends on the variables' names and values only, not on the order
/// in which they were added.
pub fn resolve_vars(input: &str, vars: &Variables) -> (out: String)
    ensures
        out@ == resolve_spec(input@, vars.view_map()),
{
    let s = chars_of(input);
    let n = s.len();
    let ghost m = vars.view_map();
    let mut out = String::new();
    let mut i: usize = 0;
    while i < n
        invariant
            s@ == input@,
            n == s@.len(),
            i <= n,
            m == vars.view_map(),
            out@ + resolve_from(s@, i as int, m) == resolve_from(s@, 0, m),
        decreases n - i,
    {
        let ghost before = out@;
        match placeholder_at(&s, i, vars) {
            Some((c, v)) => {
                proof {
                    assert(resolve_from(s@, i as int, m) == v@ + resolve_from(s@, c + 2, m));
                }
                push_str(&mut out, v.as_str());
                proof {
                    assert(before + resolve_from(s@, i as int, m) =~= out@ + resolve_from(s@, c + 2, m));
                }
                i = c + 2;
            },
            None => {
                proof {
                    assert(resolve_from(s@, i as int, m) == seq![s@[i as int]] + resolve_from(s@, i + 1, m));
                }
                push_char(&mut out, s[i]);
                proof {
                    assert(before + resolve_from(s@, i as int, m) =~= out@ + resolve_from(s@, i + 1, m));
                }
                i = i + 1;
            },
        }
    }
    proof {
        assert(resolve_from(s@, n as int, m) =~= Seq::<char>::empty());
        assert(out@ + Seq::<char>::empty() =~= out@);
    }
    out
}

/// `p` occurs nowhere in `s`.
pub open spec fn absent(s: Seq<char>, p: Seq<char>) -> bool {
    forall|i: int| !occurs_at(s, p, i)
}

/// A text from `i` on in which nothing is replaced comes back as it is.
proof fn lemma_resolve_unchanged(s: Seq<char>, i: int, m: Map<Seq<char>, Seq<char>>)
    requires
        0 <= i <= s.len(),
        forall|k: Seq<char>| #[trigger] m.contains_key(k) ==> absent(s, placeholder(k)),
    ensures
        resolve_from(s, i, m) == s.skip(i),
    decreases s.len() - i,
{
    if i < s.len() {
        let c = key_close_from(s, i, i + 2, m);
        lemma_key_close(s, i, i + 2, m);
        if opens_at(s, i) && i + 2 <= c && c + 1 < s.len() {
            let k = s.subrange(i + 2, c);
            assert(absent(s, placeholder(k)));
            assert(s.subrange(i, i + placeholder(k).len()) =~= placeholder(k));
            assert(occurs_at(s, placeholder(k), i));
        } else {
            lemma_resolve_unchanged(s, i + 1, m);
            assert(seq![s[i]] + s.skip(i + 1) =~= s.skip(i));
        }
    } else {
        assert(s.skip(i) =~= Seq::<char>::empty());
    }
}

/// Text in which no placeholder of the variables occurs comes back unchanged.
pub proof fn law_unreferenced_text_unchanged(input: Seq<char>, m: Map<Seq<char>, Seq<char>>)
    requires
        forall|k: Seq<char>| #[trigger] m.contains_key(k) ==> absent(input, placeholder(k)),
    ensures
        resolve_spec(input, m) == input,
{
    lemma_resolve_unchanged(input, 0, m);
    assert(input.skip(0) =~= input);
}

/// With no variables, interpolation is the identity.
pub proof fn law_no_variables_identity(input: Seq<char>)
    ensures
        resolve_spec(input, Map::<Seq<char>, Seq<char>>::empty()) == input,
{
    law_unreferenced_text_unchanged(input, Map::<Seq<char>, Seq<char>>::empty());
}

proof fn lemma_close_after_key(key: Seq<char>, m: Map<Seq<char>, Seq<char>>, j: int)
    requires
        m.contains_key(key),
        forall|t: int| 0 <= t < key.len() ==> !m.contains_key(#[trigger] key.take(t)),
        2 <= j <= key.len() + 2,
    ensures
        key_close_from(placeholder(key), 0, j, m) == key.len() + 2,
    decreases key.len() + 2 - j,
{
    let p = placeholder(key);
    if j < key.len() + 2 {
        assert(p.subrange(2, j) =~= key.take(j - 2));
        lemma_close_after_key(key, m, j + 1);
    } else {
        assert(p[j] == '}' && p[j + 1] == '}');
        assert(p.subrange(2, j) =~= key);
    }
}

/// The placeholder of a variable resolves to its value, when no shorter
/// name that the variables hold begins its name.
pub proof fn law_placeholder_resolves(key: Seq<char>, m: Map<Seq<char>, Seq<char>>)
    requires
        m.contains_key(key),
        forall|t: int| 0 <= t < key.len() ==> !m.contains_key(#[trigger] key.take(t)),
    ensures
        resolve_spec(placeholder(key), m) == m[key],
{
    let p = placeholder(key);
    lemma_close_after_key(key, m, 2);
    assert(p.subrange(2, key.len() + 2int) =~= key);
    assert(resolve_from(p, key.len() + 4int, m) =~= Seq::<char>::empty());
    assert(m[key] + Seq::<char>::empty() =~= m[key]);
}

/// The collection's variables: each entry with a string `key`, its string
/// `value` or empty; a later entry with the same key wins.
pub open spec fn collection_vars_map(vs: Seq<Json>) -> Map<Seq<char>, Seq<char>>
    decreases vs.len(),
{
    if vs.len() == 0 {
        Map::empty()
    } else {
        let v = vs.last();
        let m = collection_vars_map(vs.drop_last());
        match v.get_str("key"@) {
            Some(k) => m.insert(k, match v.get_str("value"@) {
                Some(x) => x,
                None => Seq::empty(),
            }),
            None => m,
        }
    }
}

/// `base` with the enabled variables of an environment set over it, in order.
pub open spec fn with_environment(base: Map<Seq<char>, Seq<char>>, values: Seq<EnvironmentValue>) -> Map<Seq<char>, Seq<char>>
    decreases values.len(),
{
    if values.len() == 0 {
        base
    } else {
        let v = values.last();
        let m = with_environment(base, values.drop_last());
        if v.enabled { m.insert(v.key@, v.value@) } else { m }
    }
}

/// The variables a collection defines.
pub fn collection_variables(vs: &Vec<JsonValue>) -> (r: Variables)
    ensures
        r.view_map() == collection_vars_map(view_values(vs@)),
{
    let ghost model = view_values(vs@);
    proof {
        lemma_view_values(vs@);
    }
    let mut r = Variables::new();
    let n = vs.len();
    let mut i: usize = 0;
    while i < n
        invariant
            n == vs@.len(),
            model == view_values(vs@),
            model.len() == n,
            forall|j: int| 0 <= j < n ==> #[trigger] model[j] == vs@[j].view_json(),
            i <= n,
            r.view_map() == collection_vars_map(model.take(i as int)),
        decreases n - i,
    {
        proof {
            assert(model.take(i + 1).drop_last() =~= model.take(i as int));
            assert(model.take(i + 1).last() == model[i as int]);
        }
        let v = &vs[i];
        match v.get_str("key") {
            Some(k) => {
                let val = match v.get_str("value") {
                    Some(x) => x.clone(),
                    None => String::new(),
                };
                r.insert(k.clone(), val);
            },
            None => {},
        }
        i = i + 1;
    }
    assert(model.take(n as int) =~= model);
    r
}

/// Sets the enabled variables of an environment over `vars`, in order.
pub fn merge_environment(vars: &mut Variables, values: Vec<EnvironmentValue>)
    ensures
        final(vars).view_map() == with_environment(old(vars).view_map(), values@),
{
    let ghost base = vars.view_map();
    let ghost model = values@;
    for v in it: values
        invariant
            model == it.seq(),
            vars.view_map() == with_environment(base, model.take(it.index())),
    {
        let ghost i = it.index();
        proof {
            assert(model.take(i + 1).drop_last() =~= model.take(i));
            assert(model.take(i + 1).last() == model[i]);
        }
        if v.enabled {
            vars.insert(v.key, v.value);
        }
    }
    assert(model.take(model.len() as int) =~= model);
}

/// The value of the last enabled environment variable named `key`.
pub open spec fn last_enabled(values: Seq<EnvironmentValue>, key: Seq<char>) -> Option<Seq<char>>
    decreases values.len(),
{
    if values.len() == 0 {
        None
    } else if values.last().enabled && values.last().key@ == key {
        Some(values.last().value@)
    } else {
        last_enabled(values.drop_last(), key)
    }
}

/// An enabled environment variable wins over the collection's variable of
/// the same name; a name the environment does not enable keeps its value.
pub proof fn law_environment_overrides(base: Map<Seq<char>, Seq<char>>, values: Seq<EnvironmentValue>, key: Seq<char>)
    ensures
        match last_enabled(values, key) {
            Some(v) => with_environment(base, values).contains_key(key) && with_environment(base, values)[key] == v,
            None => with_environment(base, values).contains_key(key) == base.contains_key(key)
                && (base.contains_key(key) ==> with_environment(base, values)[key] == base[key]),
        },
    decreases values.len(),
{
    if values.len() > 0 {
        law_environment_overrides(base, values.drop_last(), key);
    }
}

} // verus!
