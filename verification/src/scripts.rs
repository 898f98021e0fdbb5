use vstd::prelude::*;
use crate::script::JsonValue;

verus! {

/// A stored script: its template and, once evaluated, the result.
pub struct Script {
    pub id: u128,
    pub user_id: u128,
    pub template: JsonValue,
    pub result: Option<JsonValue>,
}

/// Why a script could not be evaluated or changed.
#[derive(PartialEq, Eq, Structural, Clone, Copy, Debug)]
pub enum ScriptError {
    /// `Script not found`
    NotFound,
}

/// The script looked up, which must exist.
pub fn found_script(found: Option<Script>) -> (r: Result<Script, ScriptError>)
    ensures
        match found {
            Some(s) => r matches Ok(t) && t == s,
            None => r == Err::<Script, ScriptError>(ScriptError::NotFound),
        },
{
    match found {
        Some(s) => Ok(s),
        None => Err(ScriptError::NotFound),
    }
}

/// The script once evaluated: the same script, with `result` stored as its result.
pub fn with_result(script: Script, result: JsonValue) -> (r: Script)
    ensures
        r.id == script.id,
        r.user_id == script.user_id,
        r.template == script.template,
        r.result == Some(result),
{
    Script { result: Some(result), ..script }
}

/// The script with a new template; its stored result is kept.
pub fn with_template(script: Script, template: JsonValue) -> (r: Script)
    ensures
        r.id == script.id,
        r.user_id == script.user_id,
        r.template == template,
        r.result == script.result,
{
    Script { template, ..script }
}

} // verus!
