//! The companion page of the minimal banner page: the Left arrow goes back.

use vstd::prelude::*;

use crate::app::{Action, KeyCode};

verus! {

pub const NAME: &'static str = "Next";

pub struct Next {
    pub name: String,
}

impl Next {
    pub fn new() -> (r: Self)
        ensures
            r.name@ == NAME@,
    {
        Next { name: NAME.to_owned() }
    }

    pub fn handle_key_events(&mut self, key: KeyCode) -> (actions: Vec<Action>)
        ensures
            *final(self) == *old(self),
            key == KeyCode::Left ==> actions@.len() == 1 && (actions@[0] matches Action::Render(n)
                && n@ == "Home"@),
            key != KeyCode::Left ==> actions@.len() == 0,
    {
        let mut actions: Vec<Action> = Vec::new();
        if key == KeyCode::Left {
            actions.push(Action::Render("Home".to_owned()));
        }
        actions
    }
}

} // verus!
