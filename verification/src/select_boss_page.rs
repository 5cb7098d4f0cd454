//! The scenario-selection page: a navigable table of tyrant cards with a
//! detail popup; confirming a tyrant hands its identifier to the encounter
//! page and switches rendering to it.

use vstd::prelude::*;

use crate::app::{Action, KeyCode};
use crate::game::TyrantCard;

verus! {

pub const NAME: &'static str = "SelectBossPage";

/// List selection state plus whether the detail popup is open.
pub struct SelectBossPage {
    pub name: String,
    pub menu_select_state: usize,
    pub is_popup: bool,
}

/// The key-handling transition relation of the scenario-selection page.
/// With the popup closed: Up and Down move the selection over the tyrant
/// list, `p` goes back to the main menu, Enter opens the detail popup of
/// the selected tyrant. With it open: `p` closes it, Enter confirms the
/// tyrant, emitting first the payload carrying its identifier and then the
/// page change, in that order.
pub open spec fn select_boss_key_step(
    pre: SelectBossPage,
    post: SelectBossPage,
    key: KeyCode,
    tyrants: Seq<TyrantCard>,
    actions: Seq<Action>,
) -> bool {
    &&& post.name == pre.name
    &&& (pre.is_popup ==> post.menu_select_state == pre.menu_select_state)
    &&& (pre.is_popup ==> match key {
        KeyCode::Char(c) => {
            if c == 'p' {
                &&& post.is_popup == false
                &&& actions.len() == 0
            } else {
                &&& post == pre
                &&& actions.len() == 0
            }
        },
        KeyCode::Enter => {
            &&& post.is_popup == false
            &&& (pre.menu_select_state < tyrants.len() ==> {
                &&& actions.len() == 2
                &&& (actions[0] matches Action::Update(n, id) && n@ == "GamePage"@ && id@
                    == tyrants[pre.menu_select_state as int].id@)
                &&& (actions[1] matches Action::Render(n) && n@ == "GamePage"@)
            })
            &&& (pre.menu_select_state >= tyrants.len() ==> actions.len() == 0)
        },
        _ => {
            &&& post == pre
            &&& actions.len() == 0
        },
    })
    &&& (!pre.is_popup ==> match key {
        KeyCode::Up => {
            &&& post.menu_select_state == (if pre.menu_select_state > 0 {
                pre.menu_select_state - 1
            } else {
                0int
            })
            &&& post.is_popup == false
            &&& actions.len() == 0
        },
        KeyCode::Down => {
            &&& post.menu_select_state == (if pre.menu_select_state + 1 < tyrants.len() {
                pre.menu_select_state + 1
            } else {
                pre.menu_select_state as int
            })
            &&& post.is_popup == false
            &&& actions.len() == 0
        },
        KeyCode::Char(c) => {
            if c == 'p' {
                &&& post == pre
                &&& actions.len() == 1
                &&& (actions[0] matches Action::Render(n) && n@ == "HomePage"@)
            } else {
                &&& post == pre
                &&& actions.len() == 0
            }
        },
        KeyCode::Enter => {
            &&& post.menu_select_state == pre.menu_select_state
            &&& post.is_popup == (pre.menu_select_state < tyrants.len())
            &&& actions.len() == 0
        },
        _ => {
            &&& post == pre
            &&& actions.len() == 0
        },
    })
}

impl SelectBossPage {
    pub fn new() -> (r: Self)
        ensures
            r.name@ == NAME@,
            r.menu_select_state == 0,
            r.is_popup == false,
    {
        SelectBossPage { name: NAME.to_owned(), menu_select_state: 0, is_popup: false }
    }

    /// Key handling, as `select_boss_key_step` says.
    pub fn handle_key_events(&mut self, key: KeyCode, tyrant_cards: &Vec<TyrantCard>) -> (actions:
        Vec<Action>)
        ensures
            select_boss_key_step(*old(self), *final(self), key, tyrant_cards@, actions@),
    {
        let mut actions: Vec<Action> = Vec::new();
        if self.is_popup {
            match key {
                KeyCode::Char(c) => {
                    if c == 'p' {
                        self.is_popup = false;
                    }
                },
                KeyCode::Enter => {
                    self.is_popup = false;
                    if self.menu_select_state < tyrant_cards.len() {
                        let id = tyrant_cards[self.menu_select_state].id.clone();
                        actions.push(Action::Update("GamePage".to_owned(), id));
                        actions.push(Action::Render("GamePage".to_owned()));
                    }
                },
                _ => {},
            }
        } else {
            match key {
                KeyCode::Up => {
                    if self.menu_select_state > 0 {
                        self.menu_select_state = self.menu_select_state - 1;
                    }
                },
                KeyCode::Down => {
                    if tyrant_cards.len() > 0 && self.menu_select_state < tyrant_cards.len() - 1 {
                        self.menu_select_state = self.menu_select_state + 1;
                    }
                },
                KeyCode::Char(c) => {
                    if c == 'p' {
                        actions.push(Action::Render("HomePage".to_owned()));
                    }
                },
                KeyCode::Enter => {
                    if self.menu_select_state < tyrant_cards.len() {
                        self.is_popup = true;
                    }
                },
                _ => {},
            }
        }
        actions
    }
}

} // verus!
