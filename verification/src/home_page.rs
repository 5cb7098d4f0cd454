//! The main menu: start a new game or quit.

use vstd::prelude::*;

use crate::app::{Action, KeyCode};

verus! {

pub const NAME: &'static str = "HomePage";

/// Menu entries: 0 starts a game, 1 quits.
pub struct HomePage {
    pub name: String,
    pub menu_select_state: usize,
}

/// The key-handling transition relation of the main menu: Up and Down move
/// the selection over the two menu entries, Enter emits the page change or
/// the quit request for the selected entry, anything else does nothing.
pub open spec fn home_key_step(
    pre: HomePage,
    post: HomePage,
    key: KeyCode,
    actions: Seq<Action>,
) -> bool {
    &&& post.name == pre.name
    &&& (key == KeyCode::Up ==> {
        &&& post.menu_select_state == (if pre.menu_select_state > 0 {
            pre.menu_select_state - 1
        } else {
            0int
        })
        &&& actions.len() == 0
    })
    &&& (key == KeyCode::Down ==> {
        &&& post.menu_select_state == (if pre.menu_select_state + 1 < 2 {
            pre.menu_select_state + 1
        } else {
            pre.menu_select_state as int
        })
        &&& actions.len() == 0
    })
    &&& (key == KeyCode::Enter ==> {
        &&& post.menu_select_state == pre.menu_select_state
        &&& (pre.menu_select_state == 0 ==> actions.len() == 1 && (actions[0] matches
            Action::Render(n) && n@ == "SelectBossPage"@))
        &&& (pre.menu_select_state == 1 ==> actions.len() == 1 && actions[0] == Action::Quit)
        &&& (pre.menu_select_state >= 2 ==> actions.len() == 0)
    })
    &&& (!(key == KeyCode::Up || key == KeyCode::Down || key == KeyCode::Enter) ==> {
        &&& post == pre
        &&& actions.len() == 0
    })
}

impl HomePage {
    pub fn new() -> (r: Self)
        ensures
            r.name@ == NAME@,
            r.menu_select_state == 0,
    {
        HomePage { name: NAME.to_owned(), menu_select_state: 0 }
    }

    /// Key handling, as `home_key_step` says.
    pub fn handle_key_events(&mut self, key: KeyCode) -> (actions: Vec<Action>)
        ensures
            home_key_step(*old(self), *final(self), key, actions@),
    {
        let mut actions: Vec<Action> = Vec::new();
        if key == KeyCode::Up {
            if self.menu_select_state > 0 {
                self.menu_select_state = self.menu_select_state - 1;
            }
        } else if key == KeyCode::Down {
            if self.menu_select_state < 1 {
                self.menu_select_state = self.menu_select_state + 1;
            }
        } else if key == KeyCode::Enter {
            if self.menu_select_state == 0 {
                actions.push(Action::Render("SelectBossPage".to_owned()));
            } else if self.menu_select_state == 1 {
                actions.push(Action::Quit);
            }
        }
        actions
    }
}

} // verus!
