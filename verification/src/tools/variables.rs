//! Environment, collection and global variables: the lists that the API is
//! sent back after a variable is set or deleted.

use vstd::prelude::*;
use crate::json::{push_member, Json, JsonValue, JsonMember, jstr, member, object, view_members, view_values, lemma_view_members, lemma_view_values};
use crate::models::environment::EnvironmentValue;
use crate::text::{push_str, text_eq, owned};

verus! {

broadcast use vstd::std_specs::vec::group_vec_axioms;

/// An entry of a variable list holds the name `key`.
pub open spec fn has_key(e: Json, key: Seq<char>) -> bool {
    e.get_str("key"@) == Some(key)
}

/// Some entry holds the name `key`.
pub open spec fn holds_key(vs: Seq<Json>, key: Seq<char>) -> bool {
    exists|i: int| 0 <= i < vs.len() && has_key(#[trigger] vs[i], key)
}

/// Every entry named `key` replaced by `e`.
pub open spec fn replace_keyed(vs: Seq<Json>, key: Seq<char>, e: Json) -> Seq<Json> {
    Seq::new(vs.len(), |i: int| if has_key(vs[i], key) { e } else { vs[i] })
}

/// Sets a variable in a list: entries named `key` become `e`; when there is
/// none, `e` is added at the end.
pub open spec fn upsert(vs: Seq<Json>, key: Seq<char>, e: Json) -> Seq<Json> {
    if holds_key(vs, key) {
        replace_keyed(vs, key, e)
    } else {
        vs.push(e)
    }
}

/// Deletes a variable from a list: the entries named `key` are dropped, the
/// others keep their order.
pub open spec fn remove_keyed(vs: Seq<Json>, key: Seq<char>) -> Seq<Json>
    decreases vs.len(),
{
    if vs.len() == 0 {
        Seq::empty()
    } else {
        remove_keyed(vs.drop_last(), key) + if has_key(vs.last(), key) {
            Seq::empty()
        } else {
            seq![vs.last()]
        }
    }
}

/// A variable entry to write: `{key, value, [enabled,] type}`.
#[derive(Debug, PartialEq)]
pub struct VariableEntry {
    pub key: String,
    pub value: String,
    /// Written only when given (environments and globals carry it).
    pub enabled: Option<bool>,
    pub variable_type: String,
}

/// The JSON of a variable entry.
pub open spec fn entry_json(key: Seq<char>, value: Seq<char>, enabled: Option<bool>, ty: Seq<char>) -> Json {
    match enabled {
        Some(b) => Json::Object(seq![
            ("key"@, Json::Str(key)),
            ("value"@, Json::Str(value)),
            ("enabled"@, Json::Bool(b)),
            ("type"@, Json::Str(ty)),
        ]),
        None => Json::Object(seq![
            ("key"@, Json::Str(key)),
            ("value"@, Json::Str(value)),
            ("type"@, Json::Str(ty)),
        ]),
    }
}

impl VariableEntry {
    pub open spec fn view_entry(&self) -> Json {
        entry_json(self.key@, self.value@, self.enabled, self.variable_type@)
    }

    /// The entry as JSON.
    pub fn to_json(&self) -> (v: JsonValue)
        ensures
            v.view_json() == self.view_entry(),
    {
        proof {
            assert(view_members(Seq::<JsonMember>::empty()) =~= Seq::<(Seq<char>, Json)>::empty());
        }
        let mut ms: Vec<JsonMember> = Vec::new();
        push_member(&mut ms, "key", jstr(self.key.as_str()));
        push_member(&mut ms, "value", jstr(self.value.as_str()));
        match self.enabled {
            Some(b) => push_member(&mut ms, "enabled", JsonValue::Bool(b)),
            None => {},
        }
        push_member(&mut ms, "type", jstr(self.variable_type.as_str()));
        let v = object(ms);
        match self.enabled {
            Some(b) => {
                assert(view_members(ms@) =~= seq![
                    ("key"@, Json::Str(self.key@)),
                    ("value"@, Json::Str(self.value@)),
                    ("enabled"@, Json::Bool(b)),
                    ("type"@, Json::Str(self.variable_type@)),
                ]);
            },
            None => {
                assert(view_members(ms@) =~= seq![
                    ("key"@, Json::Str(self.key@)),
                    ("value"@, Json::Str(self.value@)),
                    ("type"@, Json::Str(self.variable_type@)),
                ]);
            },
        }
        v
    }
}

/// A written entry is read back as named by its key.
pub proof fn lemma_entry_has_key(key: Seq<char>, value: Seq<char>, enabled: Option<bool>, ty: Seq<char>)
    ensures
        has_key(entry_json(key, value, enabled, ty), key),
{
    let e = entry_json(key, value, enabled, ty);
    match e {
        Json::Object(ms) => {
            assert(ms[0].0 == "key"@);
        },
        _ => {},
    }
}

/// Whether an entry is named `key`.
fn entry_named(e: &JsonValue, key: &str) -> (r: bool)
    ensures
        r == has_key(e.view_json(), key@),
{
    match e.get_str("key") {
        Some(k) => text_eq(k.as_str(), key),
        None => false,
    }
}

/// Sets the variable `entry.key` in a variable list (see `upsert`).
pub fn upsert_variable(vars: Vec<JsonValue>, entry: &VariableEntry) -> (out: Vec<JsonValue>)
    ensures
        view_values(out@) == upsert(view_values(vars@), entry.key@, entry.view_entry()),
{
    let ghost model = view_values(vars@);
    let ghost key = entry.key@;
    let ghost e = entry.view_entry();
    proof {
        lemma_view_values(vars@);
    }
    let mut out: Vec<JsonValue> = Vec::new();
    let mut found = false;
    for v in it: vars
        invariant
            model.len() == it.seq().len(),
            forall|j: int| 0 <= j < model.len() ==> #[trigger] model[j] == it.seq()[j].view_json(),
            key == entry.key@,
            e == entry.view_entry(),
            view_values(out@) == replace_keyed(model.take(it.index()), key, e),
            found == holds_key(model.take(it.index()), key),
    {
        let ghost i = it.index();
        let ghost prev = out@;
        proof {
            lemma_view_values(prev);
            assert(model.take(i + 1).drop_last() =~= model.take(i));
        }
        if entry_named(&v, entry.key.as_str()) {
            found = true;
            out.push(entry.to_json());
        } else {
            out.push(v);
        }
        proof {
            assert(model[i] == it.seq()[i].view_json());
            assert(model.take(i + 1)[i] == model[i]);
            lemma_view_values(out@);
            assert forall|j: int| 0 <= j <= i implies #[trigger] view_values(out@)[j] == replace_keyed(model.take(i + 1), key, e)[j] by {
                if j < i {
                    assert(view_values(out@)[j] == view_values(prev)[j]);
                    assert(model.take(i + 1)[j] == model.take(i)[j]);
                }
            }
            assert(view_values(out@) =~= replace_keyed(model.take(i + 1), key, e));
            if has_key(model[i], key) {
                assert(has_key(model.take(i + 1)[i], key));
            }
            if holds_key(model.take(i + 1), key) && !holds_key(model.take(i), key) {
                let j = choose|j: int| 0 <= j < model.take(i + 1).len() && has_key(#[trigger] model.take(i + 1)[j], key);
                if j < i {
                    assert(model.take(i)[j] == model.take(i + 1)[j]);
                }
            }
            if holds_key(model.take(i), key) {
                let j = choose|j: int| 0 <= j < model.take(i).len() && has_key(#[trigger] model.take(i)[j], key);
                assert(model.take(i + 1)[j] == model.take(i)[j]);
            }
        }
    }
    proof {
        assert(model.take(model.len() as int) =~= model);
    }
    if !found {
        let ghost prev = out@;
        out.push(entry.to_json());
        proof {
            lemma_view_values(prev);
            lemma_view_values(out@);
            assert(replace_keyed(model, key, e) =~= model) by {
                assert forall|j: int| 0 <= j < model.len() implies !has_key(#[trigger] model[j], key) by {}
            }
            assert(view_values(out@) =~= view_values(prev).push(e));
        }
    }
    out
}

/// Deletes the variable `key` from a variable list (see `remove_keyed`).
pub fn remove_variable(vars: Vec<JsonValue>, key: &str) -> (out: Vec<JsonValue>)
    ensures
        view_values(out@) == remove_keyed(view_values(vars@), key@),
{
    let ghost model = view_values(vars@);
    proof {
        lemma_view_values(vars@);
    }
    let mut out: Vec<JsonValue> = Vec::new();
    for v in it: vars
        invariant
            model.len() == it.seq().len(),
            forall|j: int| 0 <= j < model.len() ==> #[trigger] model[j] == it.seq()[j].view_json(),
            view_values(out@) == remove_keyed(model.take(it.index()), key@),
    {
        let ghost i = it.index();
        let ghost prev = out@;
        proof {
            assert(model.take(i + 1).drop_last() =~= model.take(i));
            assert(model.take(i + 1).last() == model[i]);
        }
        if !entry_named(&v, key) {
            out.push(v);
            proof {
                lemma_view_values(prev);
                lemma_view_values(out@);
                assert(view_values(out@) =~= view_values(prev).push(model[i]));
            }
        }
    }
    proof {
        assert(model.take(model.len() as int) =~= model);
    }
    out
}

/// A variable's type, `default` when it has none.
pub open spec fn type_or_default(t: Option<String>) -> Seq<char> {
    match t {
        Some(s) => s@,
        None => "default"@,
    }
}

/// The entry an environment variable is written back as.
pub open spec fn env_entry_of(v: EnvironmentValue) -> Json {
    entry_json(v.key@, v.value@, Some(v.enabled), type_or_default(v.value_type))
}

/// The entries an environment's variables are written back as.
pub open spec fn env_entries(vs: Seq<EnvironmentValue>) -> Seq<Json> {
    vs.map_values(|v: EnvironmentValue| env_entry_of(v))
}

/// An environment's variables as the entries the API is sent back.
pub fn environment_entries(values: Vec<EnvironmentValue>) -> (out: Vec<JsonValue>)
    ensures
        view_values(out@) == env_entries(values@),
{
    let ghost model = values@;
    let mut out: Vec<JsonValue> = Vec::new();
    for v in it: values
        invariant
            model == it.seq(),
            view_values(out@) == env_entries(model.take(it.index())),
    {
        let ghost i = it.index();
        let ghost prev = out@;
        let ghost vv = v;
        let ty = match v.value_type {
            Some(t) => t,
            None => owned("default"),
        };
        let entry = VariableEntry { key: v.key, value: v.value, enabled: Some(v.enabled), variable_type: ty };
        let j = entry.to_json();
        assert(j.view_json() == env_entry_of(vv));
        out.push(j);
        proof {
            lemma_view_values(prev);
            lemma_view_values(out@);
            assert(model[i] == vv);
            assert forall|k: int| 0 <= k <= i implies #[trigger] view_values(out@)[k] == env_entries(model.take(i + 1))[k] by {
                if k < i {
                    assert(view_values(out@)[k] == view_values(prev)[k]);
                    assert(env_entries(model.take(i))[k] == env_entry_of(model[k]));
                }
            }
            assert(view_values(out@) =~= env_entries(model.take(i + 1)));
        }
    }
    proof {
        assert(model.take(model.len() as int) =~= model);
    }
    out
}

/// The variables of an environment after setting `entry`: every variable
/// with its name becomes `entry`, or `entry` is added at the end.
pub fn set_environment_value(values: Vec<EnvironmentValue>, entry: &VariableEntry) -> (out: Vec<JsonValue>)
    ensures
        view_values(out@) == upsert(env_entries(values@), entry.key@, entry.view_entry()),
{
    upsert_variable(environment_entries(values), entry)
}

/// The variables of an environment after deleting `key`.
pub fn delete_environment_value(values: Vec<EnvironmentValue>, key: &str) -> (out: Vec<JsonValue>)
    ensures
        view_values(out@) == remove_keyed(env_entries(values@), key@),
{
    remove_variable(environment_entries(values), key)
}

/// The `values` list of the global-variables answer; empty when missing.
pub open spec fn globals_of(resp: Json) -> Seq<Json> {
    match resp.get_array("values"@) {
        Some(a) => a,
        None => Seq::empty(),
    }
}

/// Takes the `values` list out of the global-variables answer.
pub fn global_values(resp: JsonValue) -> (out: Vec<JsonValue>)
    ensures
        view_values(out@) == globals_of(resp.view_json()),
{
    let ghost whole = resp.view_json();
    match resp {
        JsonValue::Object(ms) => {
            let ghost model = view_members(ms@);
            proof {
                lemma_view_members(ms@);
                assert(model.skip(0) =~= model);
            }
            let mut result: Vec<JsonValue> = Vec::new();
            let mut found = false;
            proof {
                assert(view_values(result@) =~= Seq::<Json>::empty());
            }
            for m in it: ms
                invariant
                    model.len() == it.seq().len(),
                    forall|j: int| 0 <= j < model.len() ==> #[trigger] model[j] == (it.seq()[j].key@, it.seq()[j].value.view_json()),
                    whole == Json::Object(model),
                    !found ==> crate::json::lookup(model, "values"@) == crate::json::lookup(model.skip(it.index()), "values"@),
                    !found ==> view_values(result@) == Seq::<Json>::empty(),
                    found ==> view_values(result@) == globals_of(whole),
            {
                let ghost i = it.index();
                proof {
                    assert(model[i] == (m.key@, m.value.view_json()));
                    assert(model.skip(i)[0] == model[i]);
                    assert(model.skip(i).drop_first() =~= model.skip(i + 1));
                }
                if !found && text_eq(m.key.as_str(), "values") {
                    found = true;
                    result = match m.value {
                        JsonValue::Array(a) => a,
                        _ => Vec::new(),
                    };
                    proof {
                        assert(view_values(Seq::<JsonValue>::empty()) =~= Seq::<Json>::empty());
                    }
                }
            }
            proof {
                if !found {
                    assert(model.skip(model.len() as int) =~= Seq::<(Seq<char>, Json)>::empty());
                }
            }
            result
        },
        _ => {
            proof {
                assert(view_values(Seq::<JsonValue>::empty()) =~= Seq::<Json>::empty());
            }
            Vec::new()
        },
    }
}

/// After a variable is set, the list holds it, and every entry with its name
/// is the new entry.
pub proof fn law_set_holds_value(vs: Seq<Json>, key: Seq<char>, e: Json)
    requires
        has_key(e, key),
    ensures
        holds_key(upsert(vs, key, e), key),
        forall|i: int| 0 <= i < upsert(vs, key, e).len() && has_key(#[trigger] upsert(vs, key, e)[i], key)
            ==> upsert(vs, key, e)[i] == e,
{
    let u = upsert(vs, key, e);
    if holds_key(vs, key) {
        let j = choose|j: int| 0 <= j < vs.len() && has_key(#[trigger] vs[j], key);
        assert(u[j] == e);
        assert(has_key(u[j], key));
    } else {
        assert(u[vs.len() as int] == e);
        assert(has_key(u[vs.len() as int], key));
        assert forall|i: int| 0 <= i < u.len() && has_key(#[trigger] u[i], key) implies u[i] == e by {
            if i < vs.len() {
                assert(u[i] == vs[i]);
            }
        }
    }
}

/// Setting a variable leaves the entries with other names as they were, in
/// place, and adds one entry exactly when the name was not there.
pub proof fn law_set_keeps_others(vs: Seq<Json>, key: Seq<char>, e: Json)
    ensures
        upsert(vs, key, e).len() == if holds_key(vs, key) { vs.len() } else { vs.len() + 1 },
        forall|i: int| 0 <= i < vs.len() && !has_key(#[trigger] vs[i], key) ==> upsert(vs, key, e)[i] == vs[i],
{
}

/// Deleting a variable keeps exactly the entries with other names, in order.
pub proof fn law_delete_is_filter(vs: Seq<Json>, key: Seq<char>)
    ensures
        remove_keyed(vs, key) == vs.filter(|v: Json| !has_key(v, key)),
        !holds_key(remove_keyed(vs, key), key),
    decreases vs.len(),
{
    reveal(Seq::filter);
    if vs.len() > 0 {
        law_delete_is_filter(vs.drop_last(), key);
    }
    let r = remove_keyed(vs, key);
    if vs.len() > 0 {
        let rp = remove_keyed(vs.drop_last(), key);
        assert forall|i: int| 0 <= i < r.len() implies !has_key(#[trigger] r[i], key) by {
            if i < rp.len() {
                assert(r[i] == rp[i]);
                assert(!has_key(rp[i], key));
            }
        }
    }
}

/// Deleting a variable that was just set gives what deleting it gives.
pub proof fn law_set_then_delete(vs: Seq<Json>, key: Seq<char>, e: Json)
    requires
        has_key(e, key),
    ensures
        remove_keyed(upsert(vs, key, e), key) == remove_keyed(vs, key),
{
    lemma_remove_replace(vs, key, e);
    if !holds_key(vs, key) {
        let p = vs.push(e);
        assert(p.drop_last() =~= vs);
    }
}

proof fn lemma_remove_replace(vs: Seq<Json>, key: Seq<char>, e: Json)
    requires
        has_key(e, key),
    ensures
        remove_keyed(replace_keyed(vs, key, e), key) == remove_keyed(vs, key),
    decreases vs.len(),
{
    if vs.len() > 0 {
        let r = replace_keyed(vs, key, e);
        assert(r.drop_last() =~= replace_keyed(vs.drop_last(), key, e));
        lemma_remove_replace(vs.drop_last(), key, e);
    }
}

/// Setting a variable twice with the same entry is setting it once.
pub proof fn law_set_idempotent(vs: Seq<Json>, key: Seq<char>, e: Json)
    requires
        has_key(e, key),
    ensures
        upsert(upsert(vs, key, e), key, e) == upsert(vs, key, e),
{
    let u = upsert(vs, key, e);
    law_set_holds_value(vs, key, e);
    assert(replace_keyed(u, key, e) =~= u);
}

/// Deleting a variable twice is deleting it once.
pub proof fn law_delete_idempotent(vs: Seq<Json>, key: Seq<char>)
    ensures
        remove_keyed(remove_keyed(vs, key), key) == remove_keyed(vs, key),
    decreases vs.len(),
{
    if vs.len() > 0 {
        let p = vs.drop_last();
        law_delete_idempotent(p, key);
        let rp = remove_keyed(p, key);
        if !has_key(vs.last(), key) {
            let r = rp.push(vs.last());
            assert(remove_keyed(vs, key) =~= r);
            assert(r.drop_last() =~= rp);
        } else {
            assert(remove_keyed(vs, key) =~= rp);
        }
    }
}

/// An environment variable's entry carries its name.
pub proof fn law_env_entry_named(v: EnvironmentValue, key: Seq<char>)
    ensures
        has_key(env_entry_of(v), key) <==> v.key@ == key,
{
    lemma_entry_has_key(v.key@, v.value@, Some(v.enabled), type_or_default(v.value_type));
}

/// Deleting a name that no entry holds leaves the list as it is.
pub proof fn law_delete_absent(vs: Seq<Json>, key: Seq<char>)
    requires
        !holds_key(vs, key),
    ensures
        remove_keyed(vs, key) == vs,
    decreases vs.len(),
{
    if vs.len() > 0 {
        let p = vs.drop_last();
        assert(!has_key(vs[vs.len() - 1], key));
        assert(!holds_key(p, key)) by {
            if holds_key(p, key) {
                let i = choose|i: int| 0 <= i < p.len() && has_key(#[trigger] p[i], key);
                assert(vs[i] == p[i]);
            }
        }
        law_delete_absent(p, key);
        assert(p.push(vs.last()) =~= vs);
    }
}

/// Setting a variable that an environment does not have and then deleting
/// it writes back the environment's variables as they were: the same
/// entries, in the same order.
pub proof fn law_environment_set_then_delete_restores(values: Seq<EnvironmentValue>, key: Seq<char>, e: Json)
    requires
        has_key(e, key),
        forall|i: int| 0 <= i < values.len() ==> (#[trigger] values[i]).key@ != key,
    ensures
        remove_keyed(upsert(env_entries(values), key, e), key) == env_entries(values),
{
    let es = env_entries(values);
    law_set_then_delete(es, key, e);
    assert(!holds_key(es, key)) by {
        if holds_key(es, key) {
            let i = choose|i: int| 0 <= i < es.len() && has_key(#[trigger] es[i], key);
            law_env_entry_named(values[i], key);
        }
    }
    law_delete_absent(es, key);
}

/// The answer of every variable write.
#[derive(Debug, PartialEq)]
pub struct VariableOutput {
    pub ok: bool,
    pub message: String,
    /// The environment UID, the collection UID, or `globals`.
    pub resource_id: String,
    pub key: String,
    /// `set` or `delete`.
    pub action: String,
}

impl VariableOutput {
    /// The answer to a variable that was set.
    pub fn set(resource_id: String, key: String) -> (r: VariableOutput)
        ensures
            r.ok,
            r.message@ == "OK"@,
            r.resource_id == resource_id,
            r.key == key,
            r.action@ == "set"@,
    {
        VariableOutput { ok: true, message: owned("OK"), resource_id, key, action: owned("set") }
    }

    /// The answer to a variable that was deleted.
    pub fn delete(resource_id: String, key: String) -> (r: VariableOutput)
        ensures
            r.ok,
            r.message@ == "OK"@,
            r.resource_id == resource_id,
            r.key == key,
            r.action@ == "delete"@,
    {
        VariableOutput { ok: true, message: owned("OK"), resource_id, key, action: owned("delete") }
    }
}

/// `set_environment_variable`: creates or updates a variable of an environment.
#[derive(Debug, PartialEq)]
pub struct SetEnvironmentVariableTool;

#[derive(Debug, PartialEq)]
pub struct SetEnvironmentVariableInput {
    pub environment_id: String,
    pub key: String,
    pub value: String,
    /// `default` or `secret`; `default` when absent.
    pub variable_type: Option<String>,
    /// `true` when absent.
    pub enabled: Option<bool>,
}

/// `delete_environment_variable`: deletes a variable of an environment.
#[derive(Debug, PartialEq)]
pub struct DeleteEnvironmentVariableTool;

#[derive(Debug, PartialEq)]
pub struct DeleteEnvironmentVariableInput {
    pub environment_id: String,
    pub key: String,
}

/// `set_collection_variable`: creates or updates a variable of a collection.
#[derive(Debug, PartialEq)]
pub struct SetCollectionVariableTool;

#[derive(Debug, PartialEq)]
pub struct SetCollectionVariableInput {
    pub collection_id: String,
    pub key: String,
    pub value: String,
    /// `default` or `secret`; `default` when absent.
    pub variable_type: Option<String>,
}

/// `delete_collection_variable`: deletes a variable of a collection.
#[derive(Debug, PartialEq)]
pub struct DeleteCollectionVariableTool;

#[derive(Debug, PartialEq)]
pub struct DeleteCollectionVariableInput {
    pub collection_id: String,
    pub key: String,
}

/// `list_global_variables`: lists the global variables of the workspace.
#[derive(Debug, PartialEq)]
pub struct ListGlobalVariablesTool;

#[derive(Debug, PartialEq)]
pub struct ListGlobalVariablesInput {}

#[derive(Debug, PartialEq)]
pub struct ListGlobalVariablesOutput {
    pub count: usize,
    pub variables: Vec<GlobalVariableItem>,
}

#[derive(Debug, PartialEq)]
pub struct GlobalVariableItem {
    pub key: String,
    pub value: String,
    pub enabled: bool,
    /// `default` or `secret`.
    pub variable_type: String,
}

/// `set_global_variable`: creates or updates a global variable.
#[derive(Debug, PartialEq)]
pub struct SetGlobalVariableTool;

#[derive(Debug, PartialEq)]
pub struct SetGlobalVariableInput {
    pub key: String,
    pub value: String,
    /// `default` or `secret`; `default` when absent.
    pub variable_type: Option<String>,
    /// `true` when absent.
    pub enabled: Option<bool>,
}

/// `delete_global_variable`: deletes a global variable.
#[derive(Debug, PartialEq)]
pub struct DeleteGlobalVariableTool;

#[derive(Debug, PartialEq)]
pub struct DeleteGlobalVariableInput {
    pub key: String,
}

/// The type given, `default` when absent.
pub open spec fn given_type(t: Option<String>) -> Seq<char> {
    type_or_default(t)
}

fn type_given(t: &Option<String>) -> (r: String)
    ensures
        r@ == given_type(*t),
{
    match t {
        Some(s) => s.clone(),
        None => owned("default"),
    }
}

impl SetEnvironmentVariableInput {
    /// The entry to write: `enabled` defaults to `true`, the type to `default`.
    pub fn entry(&self) -> (e: VariableEntry)
        ensures
            e.key@ == self.key@,
            e.value@ == self.value@,
            e.enabled == Some(match self.enabled { Some(b) => b, None => true }),
            e.variable_type@ == given_type(self.variable_type),
    {
        let enabled = match self.enabled {
            Some(b) => b,
            None => true,
        };
        VariableEntry {
            key: self.key.clone(),
            value: self.value.clone(),
            enabled: Some(enabled),
            variable_type: type_given(&self.variable_type),
        }
    }
}

impl SetCollectionVariableInput {
    /// The entry to write: no `enabled`, the type `default` when absent.
    pub fn entry(&self) -> (e: VariableEntry)
        ensures
            e.key@ == self.key@,
            e.value@ == self.value@,
            e.enabled is None,
            e.variable_type@ == given_type(self.variable_type),
    {
        VariableEntry {
            key: self.key.clone(),
            value: self.value.clone(),
            enabled: None,
            variable_type: type_given(&self.variable_type),
        }
    }
}

impl SetGlobalVariableInput {
    /// The entry to write: `enabled` defaults to `true`, the type to `default`.
    pub fn entry(&self) -> (e: VariableEntry)
        ensures
            e.key@ == self.key@,
            e.value@ == self.value@,
            e.enabled == Some(match self.enabled { Some(b) => b, None => true }),
            e.variable_type@ == given_type(self.variable_type),
    {
        let enabled = match self.enabled {
            Some(b) => b,
            None => true,
        };
        VariableEntry {
            key: self.key.clone(),
            value: self.value.clone(),
            enabled: Some(enabled),
            variable_type: type_given(&self.variable_type),
        }
    }
}

/// How a global variable is listed: missing text reads as empty, `enabled`
/// as `true`, the type as `default`.
pub open spec fn global_item_ok(it: GlobalVariableItem, v: Json) -> bool {
    &&& it.key@ == (match v.get_str("key"@) { Some(s) => s, None => Seq::empty() })
    &&& it.value@ == (match v.get_str("value"@) { Some(s) => s, None => Seq::empty() })
    &&& it.enabled == (match v.get_bool("enabled"@) { Some(b) => b, None => true })
    &&& it.variable_type@ == (match v.get_str("type"@) { Some(s) => s, None => "default"@ })
}

fn str_field(v: &JsonValue, key: &str, default: &str) -> (s: String)
    ensures
        s@ == (match v.view_json().get_str(key@) { Some(t) => t, None => default@ }),
{
    match v.get_str(key) {
        Some(t) => t.clone(),
        None => owned(default),
    }
}

impl ListGlobalVariablesOutput {
    /// Lists the global variables, one item per entry, in order.
    pub fn from_values(values: &Vec<JsonValue>) -> (out: ListGlobalVariablesOutput)
        ensures
            out.count == values@.len(),
            out.variables@.len() == values@.len(),
            forall|i: int| 0 <= i < values@.len() ==> global_item_ok(#[trigger] out.variables@[i], values@[i].view_json()),
    {
        let mut items: Vec<GlobalVariableItem> = Vec::new();
        let n = values.len();
        let mut i: usize = 0;
        let empty = String::new();
        while i < n
            invariant
                n == values@.len(),
                i <= n,
                empty@ == Seq::<char>::empty(),
                items@.len() == i,
                forall|j: int| 0 <= j < i ==> global_item_ok(#[trigger] items@[j], values@[j].view_json()),
            decreases n - i,
        {
            let v = &values[i];
            let enabled = match v.get_bool("enabled") {
                Some(b) => b,
                None => true,
            };
            let item = GlobalVariableItem {
                key: str_field(v, "key", empty.as_str()),
                value: str_field(v, "value", empty.as_str()),
                enabled,
                variable_type: str_field(v, "type", "default"),
            };
            items.push(item);
            i = i + 1;
        }
        ListGlobalVariablesOutput { count: items.len(), variables: items }
    }
}

impl SetEnvironmentVariableTool {
    pub fn name() -> (r: &'static str)
        ensures
            r@ == "set_environment_variable"@,
    {
        "set_environment_variable"
    }

    pub fn description() -> (r: &'static str)
        ensures
            r@ == "Create or update a variable inside a Postman environment (local scope). If the key exists it is replaced; otherwise added."@,
    {
        "Create or update a variable inside a Postman environment (local scope). If the key exists it is replaced; otherwise added."
    }
}

impl DeleteEnvironmentVariableTool {
    pub fn name() -> (r: &'static str)
        ensures
            r@ == "delete_environment_variable"@,
    {
        "delete_environment_variable"
    }

    pub fn description() -> (r: &'static str)
        ensures
            r@ == "Delete a variable from a Postman environment by its key name."@,
    {
        "Delete a variable from a Postman environment by its key name."
    }
}

impl SetCollectionVariableTool {
    pub fn name() -> (r: &'static str)
        ensures
            r@ == "set_collection_variable"@,
    {
        "set_collection_variable"
    }

    pub fn description() -> (r: &'static str)
        ensures
            r@ == "Create or update a LOCAL variable inside a Postman collection. Accessible as {{key}} in all requests of the collection. For shared variables use set_environment_variable; for workspace-wide use set_global_variable."@,
    {
        "Create or update a LOCAL variable inside a Postman collection. Accessible as {{key}} in all requests of the collection. For shared variables use set_environment_variable; for workspace-wide use set_global_variable."
    }
}

impl DeleteCollectionVariableTool {
    pub fn name() -> (r: &'static str)
        ensures
            r@ == "delete_collection_variable"@,
    {
        "delete_collection_variable"
    }

    pub fn description() -> (r: &'static str)
        ensures
            r@ == "Delete a LOCAL variable from a Postman collection by its key name."@,
    {
        "Delete a LOCAL variable from a Postman collection by its key name."
    }
}

impl ListGlobalVariablesTool {
    pub fn name() -> (r: &'static str)
        ensures
            r@ == "list_global_variables"@,
    {
        "list_global_variables"
    }

    pub fn description() -> (r: &'static str)
        ensures
            r@ == "List all GLOBAL variables of the Postman workspace. Global variables are accessible from every collection and environment as {{key}}."@,
    {
        "List all GLOBAL variables of the Postman workspace. Global variables are accessible from every collection and environment as {{key}}."
    }
}

impl SetGlobalVariableTool {
    pub fn name() -> (r: &'static str)
        ensures
            r@ == "set_global_variable"@,
    {
        "set_global_variable"
    }

    pub fn description() -> (r: &'static str)
        ensures
            r@ == "Create or update a GLOBAL variable in the Postman workspace. Global variables are accessible as {{key}} from any collection or environment."@,
    {
        "Create or update a GLOBAL variable in the Postman workspace. Global variables are accessible as {{key}} from any collection or environment."
    }
}

impl DeleteGlobalVariableTool {
    pub fn name() -> (r: &'static str)
        ensures
            r@ == "delete_global_variable"@,
    {
        "delete_global_variable"
    }

    pub fn description() -> (r: &'static str)
        ensures
            r@ == "Delete a GLOBAL variable from the Postman workspace by its key name."@,
    {
        "Delete a GLOBAL variable from the Postman workspace by its key name."
    }
}

} // verus!
