//! Hooks: a script bound to an event.

use vstd::prelude::*;
use crate::error::RepoError;
use crate::model::{is_present, lift, present};

verus! {

/// What a hook is.
pub struct HookView {
    pub name: Seq<char>,
    pub event: Seq<char>,
    pub script: Seq<char>,
}

impl HookView {
    /// Name, event and script are all present.
    pub open spec fn wf(self) -> bool {
        present(self.name) && present(self.event) && present(self.script)
    }

    /// The outcome of building a hook from its parts.
    pub open spec fn create(name: Seq<char>, event: Seq<char>, script: Seq<char>) -> Result<
        HookView,
        RepoError,
    > {
        if present(name) && present(event) && present(script) {
            Ok(HookView { name, event, script })
        } else {
            Err(RepoError::InvalidArgument)
        }
    }
}

/// A named script that an event triggers.
pub struct Hook {
    pub(crate) name: String,
    pub(crate) event: String,
    pub(crate) script: String,
}

impl View for Hook {
    type V = HookView;

    closed spec fn view(&self) -> HookView {
        HookView { name: self.name@, event: self.event@, script: self.script@ }
    }
}

impl Hook {
    /// Builds a hook; an empty name, event or script is refused.
    pub fn new(name: String, event: String, script: String) -> (r: Result<Hook, RepoError>)
        ensures
            lift(r) == HookView::create(name@, event@, script@),
            r matches Ok(v) ==> v@.wf(),
    {
        if !is_present(&name) || !is_present(&event) || !is_present(&script) {
            return Err(RepoError::InvalidArgument);
        }
        Ok(Hook { name, event, script })
    }

    pub fn get_name(&self) -> (r: &String)
        ensures
            r@ == self@.name,
    {
        &self.name
    }

    pub fn get_event(&self) -> (r: &String)
        ensures
            r@ == self@.event,
    {
        &self.event
    }

    pub fn get_script(&self) -> (r: &String)
        ensures
            r@ == self@.script,
    {
        &self.script
    }
}

} // verus!
