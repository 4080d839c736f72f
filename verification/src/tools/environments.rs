//! Read-only environment tools: list and get.

use vstd::prelude::*;
use crate::models::environment::{EnvironmentDetail, ListEnvironmentsResponse};
use crate::text::push_str;

verus! {

/// `list_environments`.
#[derive(Debug, PartialEq)]
pub struct ListEnvironmentsTool;

#[derive(Debug, PartialEq)]
pub struct ListEnvironmentsInput {}

#[derive(Debug, PartialEq)]
pub struct ListEnvironmentsOutput {
    pub count: usize,
    pub environments: Vec<EnvironmentSummaryOutput>,
}

#[derive(Debug, PartialEq)]
pub struct EnvironmentSummaryOutput {
    pub uid: String,
    pub name: String,
    pub updated_at: String,
}

impl ListEnvironmentsTool {
    pub fn name() -> (r: &'static str)
        ensures
            r@ == "list_environments"@,
    {
        "list_environments"
    }

    pub fn description() -> (r: &'static str)
        ensures
            r@ == "List all Postman environments in the workspace. Returns environment names, UIDs, and last update dates."@,
    {
        "List all Postman environments in the workspace. Returns environment names, UIDs, and last update dates."
    }
}

impl ListEnvironmentsOutput {
    /// One entry (UID, name, last update) per environment, in order.
    pub fn from_response(resp: ListEnvironmentsResponse) -> (out: ListEnvironmentsOutput)
        ensures
            out.count == resp.environments@.len(),
            out.environments@.len() == resp.environments@.len(),
            forall|i: int| 0 <= i < resp.environments@.len() ==> {
                &&& (#[trigger] out.environments@[i]).uid == resp.environments@[i].uid
                &&& out.environments@[i].name == resp.environments@[i].name
                &&& out.environments@[i].updated_at == resp.environments@[i].updated_at
            },
    {
        let ghost model = resp.environments@;
        let mut out: Vec<EnvironmentSummaryOutput> = Vec::new();
        for e in it: resp.environments
            invariant
                model == it.seq(),
                out@.len() == it.index(),
                forall|i: int| 0 <= i < it.index() ==> {
                    &&& (#[trigger] out@[i]).uid == model[i].uid
                    &&& out@[i].name == model[i].name
                    &&& out@[i].updated_at == model[i].updated_at
                },
        {
            out.push(EnvironmentSummaryOutput { uid: e.uid, name: e.name, updated_at: e.updated_at });
        }
        ListEnvironmentsOutput { count: out.len(), environments: out }
    }
}

/// `get_environment`.
#[derive(Debug, PartialEq)]
pub struct GetEnvironmentTool;

#[derive(Debug, PartialEq)]
pub struct GetEnvironmentInput {
    /// The environment's UID or id.
    pub environment_id: String,
}

#[derive(Debug, PartialEq)]
pub struct GetEnvironmentOutput {
    pub name: String,
    pub id: String,
    pub variables: Vec<EnvironmentVariableOutput>,
}

#[derive(Debug, PartialEq)]
pub struct EnvironmentVariableOutput {
    pub key: String,
    pub value: String,
    pub enabled: bool,
    /// `default` or `secret`.
    pub variable_type: String,
}

impl GetEnvironmentTool {
    pub fn name() -> (r: &'static str)
        ensures
            r@ == "get_environment"@,
    {
        "get_environment"
    }

    pub fn description() -> (r: &'static str)
        ensures
            r@ == "Get details of a specific Postman environment including all its variables (key, value, enabled status, type). Provide the environment UID."@,
    {
        "Get details of a specific Postman environment including all its variables (key, value, enabled status, type). Provide the environment UID."
    }
}

impl GetEnvironmentOutput {
    /// The environment's name, id and variables, a missing type read as `default`.
    pub fn from_detail(env: EnvironmentDetail) -> (out: GetEnvironmentOutput)
        ensures
            out.name == env.name,
            out.id == env.id,
            out.variables@.len() == env.values@.len(),
            forall|i: int| 0 <= i < env.values@.len() ==> {
                &&& (#[trigger] out.variables@[i]).key == env.values@[i].key
                &&& out.variables@[i].value == env.values@[i].value
                &&& out.variables@[i].enabled == env.values@[i].enabled
                &&& out.variables@[i].variable_type@ == match env.values@[i].value_type {
                    Some(t) => t@,
                    None => "default"@,
                }
            },
    {
        let ghost model = env.values@;
        let mut vars: Vec<EnvironmentVariableOutput> = Vec::new();
        for v in it: env.values
            invariant
                model == it.seq(),
                vars@.len() == it.index(),
                forall|i: int| 0 <= i < it.index() ==> {
                    &&& (#[trigger] vars@[i]).key == model[i].key
                    &&& vars@[i].value == model[i].value
                    &&& vars@[i].enabled == model[i].enabled
                    &&& vars@[i].variable_type@ == match model[i].value_type {
                        Some(t) => t@,
                        None => "default"@,
                    }
                },
        {
            let t = match v.value_type {
                Some(t) => t,
                None => {
                    let mut d = String::new();
                    push_str(&mut d, "default");
                    d
                },
            };
            vars.push(EnvironmentVariableOutput { key: v.key, value: v.value, enabled: v.enabled, variable_type: t });
        }
        GetEnvironmentOutput { name: env.name, id: env.id, variables: vars }
    }
}

} // verus!
