//! The tool that sets or clears the agent's current objective.
use vstd::prelude::*;

use crate::data::Data;
use crate::text::{trim, trimmed};

verus! {

/// Arguments of `update_objective`: the new objective, or none to clear it.
pub struct UpdateObjective {
    pub content: Option<String>,
}

impl Default for UpdateObjective {
    /// No objective.
    fn default() -> (r: Self)
        ensures
            r.content is None,
    {
        UpdateObjective { content: None }
    }
}

impl UpdateObjective {
    /// Sets the objective to the trimmed content, or clears it when there is
    /// none; tells whether an objective is set.
    pub fn run(&self, data: &mut Data) -> (r: bool)
        ensures
            r == self.content is Some,
            match self.content {
                Some(c) => final(data).objective matches Some(o) && o@ == trimmed(c@),
                None => final(data).objective is None,
            },
            final(data).bootcount == old(data).bootcount,
            final(data).config == old(data).config,
            final(data).memory == old(data).memory,
            final(data).context == old(data).context,
            final(data).shutdown == old(data).shutdown,
    {
        if let Some(content) = &self.content {
            let t = trim(content.as_str());
            data.objective = Some(t.to_owned());
            true
        } else {
            data.objective = None;
            false
        }
    }
}

} // verus!
