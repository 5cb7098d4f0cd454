//! A minimal banner page: the Right arrow moves on to the companion page.

use vstd::prelude::*;

use crate::app::{Action, KeyCode};

verus! {

pub const NAME: &'static str = "Home";

pub struct Home {
    pub name: String,
}

impl Home {
    pub fn new() -> (r: Self)
        ensures
            r.name@ == NAME@,
    {
        Home { name: NAME.to_owned() }
    }

    pub fn handle_key_events(&mut self, key: KeyCode) -> (actions: Vec<Action>)
        ensures
            *final(self) == *old(self),
            key == KeyCode::Right ==> actions@.len() == 1 && (actions@[0] matches Action::Render(n)
                && n@ == "Next"@),
            key != KeyCode::Right ==> actions@.len() == 0,
    {
        let mut actions: Vec<Action> = Vec::new();
        if key == KeyCode::Right {
            actions.push(Action::Render("Next".to_owned()));
        }
        actions
    }
}

} // verus!
