//! Deciding where the key written by `init` comes from.

use vstd::prelude::*;

use crate::text::{trim, trimmed};

verus! {

/// What `init` does next for its API key.
#[derive(Debug, Clone)]
pub enum InitKeyStep {
    /// Use this key.
    Ready(String),
    /// Ask the user for one on the terminal.
    Prompt,
}

/// The key given on the command line wins, then `ARK_AGENT_PLAN_API_KEY`;
/// with neither, the user must be asked.
pub fn init_key_step(explicit: Option<String>, env_key: Option<String>) -> (r: InitKeyStep)
    ensures
        explicit matches Some(k) ==> r == InitKeyStep::Ready(k),
        explicit is None ==> (env_key matches Some(k) ==> r == InitKeyStep::Ready(k)),
        explicit is None && env_key is None ==> r == InitKeyStep::Prompt,
{
    match explicit {
        Some(k) => InitKeyStep::Ready(k),
        None => match env_key {
            Some(k) => InitKeyStep::Ready(k),
            None => InitKeyStep::Prompt,
        },
    }
}

/// The key typed at the prompt, trimmed; `None` when nothing but
/// whitespace was typed.
pub fn accept_prompted_key(input: &str) -> (r: Option<String>)
    ensures
        trimmed(input@).len() == 0 ==> r is None,
        trimmed(input@).len() != 0 ==> (r matches Some(k) && k@ == trimmed(input@)),
{
    let key = trim(input);
    if key.is_empty() {
        return None;
    }
    Some(key.to_string())
}

} // verus!
