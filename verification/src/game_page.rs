//! The encounter page: the day/progress counters, today's card, the battle
//! history, and the popup state machine that decides which keys are valid at
//! each moment of a day. Its three entry points each satisfy a named
//! transition relation, so that the orchestrator can promise callers exactly
//! what reaching into this page did.

use vstd::prelude::*;

use crate::app::{Action, KeyCode};
use crate::game::{
    build_error, deck_built, is_day_opener, is_tyrant_card, DeckError, EncounterCard,
    EncounterDeck, Repository, ShuffleStrategy,
};

verus! {

pub const NAME: &'static str = "GamePage";

/// The inline refusal of a premature boss challenge: what the tyrant demands
/// and what the session has reached.
#[derive(Debug, Clone, Copy, PartialEq, Eq, Structural)]
pub struct BossChallengeDenied {
    pub min_required: usize,
    pub current: usize,
}

/// The popup state machine of the encounter page: no popup, the
/// success-or-failure question for a pending choice, or the end-of-day break
/// offering the reshuffle strategies (optionally showing a refusal message).
#[derive(Debug, Clone, Copy, PartialEq, Eq)]
pub enum ShowPopup {
    NoPopUp,
    ChallengeSuccessfulPopup,
    BreakPopup(Option<BossChallengeDenied>),
}

/// One resolved day in the battle history.
#[derive(Debug)]
pub struct BattleLog {
    pub success: bool,
    pub title: String,
    pub day: usize,
    pub progress: usize,
    pub choice: crate::game::Choice,
}

/// What a render pass of the encounter page shows: the day's card, the boss
/// battle, or the defeat screen.
#[derive(Debug, Clone, Copy, PartialEq, Eq, Structural)]
pub enum DrawOutcome {
    Encounter,
    BossBattle,
    Defeat,
}

pub struct GamePage {
    pub name: String,
    pub deck: Option<EncounterDeck>,
    pub days: usize,
    pub progress: usize,
    pub today_card: Option<EncounterCard>,
    pub should_go_next_day: bool,
    pub finished_encounter_cards: Vec<EncounterCard>,
    pub popup: ShowPopup,
    pub selected_choice: Option<usize>,
    pub battle_logs: Vec<BattleLog>,
    pub menu_select_state: usize,
}

/// The choice index a digit key selects.
pub open spec fn digit_choice(key: KeyCode) -> Option<int> {
    match key {
        KeyCode::Char(c) => if c == '1' {
            Some(0int)
        } else if c == '2' {
            Some(1int)
        } else if c == '3' {
            Some(2int)
        } else {
            None
        },
        _ => None,
    }
}

/// The special-card slot a key selects during the break popup: `e` and the
/// letters after it map to the pool in order, skipping `o`, which is the
/// boss challenge, so that every pool slot keeps a key.
pub open spec fn special_slot(key: KeyCode) -> Option<int> {
    match key {
        KeyCode::Char(c) => if (c as u32) >= 101 && (c as u32) != 111 {
            if (c as u32) < 111 {
                Some(c as u32 - 101)
            } else {
                Some(c as u32 - 102)
            }
        } else {
            None
        },
        _ => None,
    }
}

/// The day counter after an advance; it saturates instead of wrapping.
pub open spec fn day_after(d: usize) -> int {
    if d < usize::MAX {
        d + 1
    } else {
        d as int
    }
}

/// A digit arms the confirmation popup only while a card is actually active:
/// drawn, not about to be replaced, and offering that many choices.
pub open spec fn can_arm_choice(s: GamePage, i: int) -> bool {
    &&& s.deck is Some
    &&& s.today_card is Some
    &&& !s.should_go_next_day
    &&& i < s.today_card.unwrap().choices@.len()
    &&& i < s.today_card.unwrap().progress@.len()
}

/// The pending choice can be resolved: a card is active and the recorded
/// choice index points at one of its choices.
pub open spec fn can_resolve(s: GamePage) -> bool {
    &&& s.today_card is Some
    &&& s.selected_choice is Some
    &&& s.selected_choice.unwrap() < s.today_card.unwrap().choices@.len()
    &&& s.selected_choice.unwrap() < s.today_card.unwrap().progress@.len()
}

/// The fields no break-time key ever touches.
pub open spec fn break_frame(post: GamePage, pre: GamePage) -> bool {
    &&& post.name == pre.name
    &&& post.progress == pre.progress
    &&& post.finished_encounter_cards == pre.finished_encounter_cards
    &&& post.battle_logs == pre.battle_logs
    &&& post.menu_select_state == pre.menu_select_state
    &&& post.selected_choice == pre.selected_choice
}

/// The repository with at most its general pool changed.
pub open spec fn repo_same_but_general(post: Repository, pre: Repository) -> bool {
    &&& post.day1 == pre.day1
    &&& post.day2 == pre.day2
    &&& post.day3 == pre.day3
    &&& post.special == pre.special
    &&& post.tyrants == pre.tyrants
    &&& post.tyrant_pools == pre.tyrant_pools
}

/// The repository with at most its special pool changed.
pub open spec fn repo_same_but_special(post: Repository, pre: Repository) -> bool {
    &&& post.day1 == pre.day1
    &&& post.day2 == pre.day2
    &&& post.day3 == pre.day3
    &&& post.general == pre.general
    &&& post.tyrants == pre.tyrants
    &&& post.tyrant_pools == pre.tyrant_pools
}

/// The whole key-handling transition relation of the encounter page, one
/// case per (popup state, key); `handle_key_events` satisfies it. A key
/// whose conditions do not hold leaves page and repository unchanged.
pub open spec fn game_key_step(
    pre: GamePage,
    post: GamePage,
    repo_pre: Repository,
    repo_post: Repository,
    key: KeyCode,
) -> bool {
    &&& post.name == pre.name
    // --- no popup: digits arm the confirmation, Up/Down move the history selection ---
    &&& (pre.popup is NoPopUp ==> repo_post == repo_pre)
    &&& (pre.popup is NoPopUp ==> (digit_choice(key) matches Some(i) ==> (
    if can_arm_choice(pre, i) {
        &&& post.popup is ChallengeSuccessfulPopup
        &&& post.selected_choice == Some(i as usize)
        &&& post.deck == pre.deck
        &&& post.today_card == pre.today_card
        &&& post.days == pre.days
        &&& post.progress == pre.progress
        &&& post.should_go_next_day == pre.should_go_next_day
        &&& post.finished_encounter_cards == pre.finished_encounter_cards
        &&& post.battle_logs == pre.battle_logs
        &&& post.menu_select_state == pre.menu_select_state
    } else {
        post == pre
    })))
    &&& ((pre.popup is NoPopUp && key == KeyCode::Up) ==> ({
        &&& post.menu_select_state == (if pre.menu_select_state > 0 {
            pre.menu_select_state - 1
        } else {
            0int
        })
        &&& post == (GamePage { menu_select_state: post.menu_select_state, ..pre })
    }))
    &&& ((pre.popup is NoPopUp && key == KeyCode::Down) ==> ({
        &&& post.menu_select_state == (if pre.menu_select_state + 1 < pre.battle_logs@.len() {
            pre.menu_select_state + 1
        } else {
            pre.menu_select_state as int
        })
        &&& post == (GamePage { menu_select_state: post.menu_select_state, ..pre })
    }))
    &&& ((pre.popup is NoPopUp && digit_choice(key) is None && key != KeyCode::Up && key
        != KeyCode::Down) ==> post == pre)
    // --- confirmation popup: y/n record the outcome, p backs out ---
    &&& (pre.popup is ChallengeSuccessfulPopup ==> repo_post == repo_pre)
    &&& ((pre.popup is ChallengeSuccessfulPopup && key == KeyCode::Char('y')) ==> (
    if can_resolve(pre) {
        ({
            let today = pre.today_card.unwrap();
            let sel = pre.selected_choice.unwrap() as int;
            let won = today.progress@[sel];
            &&& post.popup == ShowPopup::BreakPopup(None)
            &&& post.progress == (if pre.progress + won > usize::MAX {
                usize::MAX as int
            } else {
                pre.progress + won
            })
            &&& post.battle_logs@ == pre.battle_logs@.push(
                BattleLog {
                    success: true,
                    title: today.title,
                    day: pre.days,
                    progress: won,
                    choice: today.choices@[sel],
                },
            )
            &&& post.deck == pre.deck
            &&& post.today_card == pre.today_card
            &&& post.days == pre.days
            &&& post.should_go_next_day == pre.should_go_next_day
            &&& post.finished_encounter_cards == pre.finished_encounter_cards
            &&& post.selected_choice == pre.selected_choice
            &&& post.menu_select_state == pre.menu_select_state
        })
    } else {
        post == pre
    }))
    &&& ((pre.popup is ChallengeSuccessfulPopup && key == KeyCode::Char('n')) ==> (
    if can_resolve(pre) {
        ({
            let today = pre.today_card.unwrap();
            let sel = pre.selected_choice.unwrap() as int;
            &&& post.popup == ShowPopup::BreakPopup(None)
            &&& post.progress == pre.progress
            &&& post.battle_logs@ == pre.battle_logs@.push(
                BattleLog {
                    success: false,
                    title: today.title,
                    day: pre.days,
                    progress: 0,
                    choice: today.choices@[sel],
                },
            )
            &&& post.deck == pre.deck
            &&& post.today_card == pre.today_card
            &&& post.days == pre.days
            &&& post.should_go_next_day == pre.should_go_next_day
            &&& post.finished_encounter_cards == pre.finished_encounter_cards
            &&& post.selected_choice == pre.selected_choice
            &&& post.menu_select_state == pre.menu_select_state
        })
    } else {
        post == pre
    }))
    &&& ((pre.popup is ChallengeSuccessfulPopup && key == KeyCode::Char('p')) ==> ({
        &&& post.popup is NoPopUp
        &&& post.selected_choice is None
        &&& post.deck == pre.deck
        &&& post.today_card == pre.today_card
        &&& post.days == pre.days
        &&& post.progress == pre.progress
        &&& post.should_go_next_day == pre.should_go_next_day
        &&& post.finished_encounter_cards == pre.finished_encounter_cards
        &&& post.battle_logs == pre.battle_logs
        &&& post.menu_select_state == pre.menu_select_state
    }))
    &&& ((pre.popup is ChallengeSuccessfulPopup && key != KeyCode::Char('y') && key
        != KeyCode::Char('n') && key != KeyCode::Char('p')) ==> post == pre)
    // --- break popup: a requeues today behind a fresh draw, b puts it on
    // --- top, c promotes the first tyrant card, d shuffles it in at random,
    // --- e.. pick special cards, o attempts the boss
    &&& ((pre.popup matches ShowPopup::BreakPopup(_) && key == KeyCode::Char('a')) ==> (
    if pre.deck is Some && pre.today_card is Some && pre.deck.unwrap().encounter_cards@.len() > 0
        && repo_pre.general@.len() >= 1 && pre.days >= 1 {
        ({
            let d0 = pre.deck.unwrap();
            let today = pre.today_card.unwrap();
            &&& break_frame(post, pre)
            &&& repo_same_but_general(repo_post, repo_pre)
            &&& post.deck matches Some(d1) && d1.tyrant_card == d0.tyrant_card
                && d1.encounter_cards@.len() == d0.encounter_cards@.len() + 2 && (exists|
                gi: int,
                di: int,
            |
                {
                    &&& 0 <= gi < repo_pre.general@.len()
                    &&& 0 <= di < d0.encounter_cards@.len()
                    &&& repo_post.general@ == repo_pre.general@.remove(gi)
                    &&& d1.encounter_cards@ == d0.encounter_cards@.insert(di, today).insert(
                        0,
                        repo_pre.general@[gi],
                    )
                })
            &&& post.today_card is None
            &&& post.popup is NoPopUp
            &&& post.should_go_next_day == true
            &&& post.days == pre.days
        })
    } else {
        post == pre && repo_post == repo_pre
    }))
    &&& ((pre.popup matches ShowPopup::BreakPopup(_) && key == KeyCode::Char('b')) ==> (
    if pre.deck is Some && pre.today_card is Some {
        ({
            let d0 = pre.deck.unwrap();
            &&& break_frame(post, pre)
            &&& repo_post == repo_pre
            &&& post.deck matches Some(d1) && d1.tyrant_card == d0.tyrant_card
                && d1.encounter_cards@ == d0.encounter_cards@.insert(0, pre.today_card.unwrap())
                && d1.encounter_cards@.to_multiset() == d0.encounter_cards@.to_multiset().insert(
                pre.today_card.unwrap(),
            )
            &&& post.today_card is None
            &&& post.popup is NoPopUp
            &&& post.should_go_next_day == true
            &&& post.days == day_after(pre.days)
        })
    } else {
        post == pre && repo_post == repo_pre
    }))
    &&& ((pre.popup matches ShowPopup::BreakPopup(_) && key == KeyCode::Char('c')) ==> (
    if pre.deck is Some {
        ({
            let d0 = pre.deck.unwrap();
            &&& break_frame(post, pre)
            &&& repo_post == repo_pre
            &&& post.deck matches Some(d1) && d1.tyrant_card == d0.tyrant_card
                && d1.encounter_cards@.len() == d0.encounter_cards@.len()
                && d1.encounter_cards@.to_multiset() == d0.encounter_cards@.to_multiset() && ((
            forall|k: int|
                0 <= k < d0.encounter_cards@.len() ==> !is_tyrant_card(
                    #[trigger] d0.encounter_cards@[k],
                )) ==> d1.encounter_cards@ == d0.encounter_cards@) && ((exists|k: int|
                0 <= k < d0.encounter_cards@.len() && is_tyrant_card(
                    #[trigger] d0.encounter_cards@[k],
                )) ==> exists|fi: int|
                {
                    &&& 0 <= fi < d0.encounter_cards@.len()
                    &&& is_tyrant_card(d0.encounter_cards@[fi])
                    &&& forall|k: int|
                        0 <= k < fi ==> !is_tyrant_card(#[trigger] d0.encounter_cards@[k])
                    &&& d1.encounter_cards@[0] == d0.encounter_cards@[fi]
                })
            &&& post.today_card == pre.today_card
            &&& post.popup is NoPopUp
            &&& post.should_go_next_day == true
            &&& post.days == day_after(pre.days)
        })
    } else {
        post == pre && repo_post == repo_pre
    }))
    &&& ((pre.popup matches ShowPopup::BreakPopup(_) && key == KeyCode::Char('d')) ==> (
    if pre.deck is Some && pre.today_card is Some && pre.deck.unwrap().encounter_cards@.len()
        < usize::MAX {
        ({
            let d0 = pre.deck.unwrap();
            let today = pre.today_card.unwrap();
            &&& break_frame(post, pre)
            &&& repo_post == repo_pre
            &&& post.deck matches Some(d1) && d1.tyrant_card == d0.tyrant_card && (exists|j: int|
                0 <= j <= d0.encounter_cards@.len() && d1.encounter_cards@
                    == d0.encounter_cards@.insert(j, today))
                && d1.encounter_cards@.to_multiset() == d0.encounter_cards@.to_multiset().insert(
                today,
            )
            &&& post.today_card is None
            &&& post.popup is NoPopUp
            &&& post.should_go_next_day == true
            &&& post.days == day_after(pre.days)
        })
    } else {
        post == pre && repo_post == repo_pre
    }))
    &&& ((pre.popup matches ShowPopup::BreakPopup(_) && key == KeyCode::Char('o')) ==> (
    if pre.deck is Some {
        ({
            let d0 = pre.deck.unwrap();
            let demanded = d0.tyrant_card.min_progress;
            &&& break_frame(post, pre)
            &&& repo_post == repo_pre
            &&& (pre.progress < demanded ==> {
                &&& post.popup == ShowPopup::BreakPopup(
                    Some(BossChallengeDenied { min_required: demanded, current: pre.progress }),
                )
                &&& post.deck == pre.deck
                &&& post.today_card == pre.today_card
                &&& post.days == pre.days
                &&& post.should_go_next_day == pre.should_go_next_day
            })
            &&& (pre.progress >= demanded ==> {
                &&& post.popup is NoPopUp
                &&& post.deck matches Some(d1) && d1.tyrant_card == d0.tyrant_card
                    && d1.encounter_cards@.len() == 0
                &&& post.today_card == pre.today_card
                &&& post.days == day_after(pre.days)
                &&& post.should_go_next_day == pre.should_go_next_day
            })
        })
    } else {
        post == pre && repo_post == repo_pre
    }))
    &&& (pre.popup matches ShowPopup::BreakPopup(_) ==> (special_slot(key) matches Some(si) ==> (
    if pre.deck is Some && si < repo_pre.special@.len() {
        ({
            let d0 = pre.deck.unwrap();
            let card = repo_pre.special@[si];
            let pushed = d0.encounter_cards@.push(card);
            &&& break_frame(post, pre)
            &&& repo_same_but_special(repo_post, repo_pre)
            &&& repo_post.special@ == repo_pre.special@.remove(si)
            &&& post.deck matches Some(d1) && d1.tyrant_card == d0.tyrant_card
                && d1.encounter_cards@.len() == pushed.len() && d1.encounter_cards@.to_multiset()
                == pushed.to_multiset() && (exists|p: int|
                {
                    &&& 0 <= p <= pushed.len()
                    &&& (forall|k: int| 0 <= k < p ==> is_day_opener(#[trigger] pushed[k]))
                    &&& (p < pushed.len() ==> !is_day_opener(pushed[p]))
                    &&& d1.encounter_cards@.subrange(0, p) == pushed.subrange(0, p)
                    &&& d1.encounter_cards@.skip(p).to_multiset() == pushed.skip(p).to_multiset()
                })
            &&& post.today_card == pre.today_card
            &&& post.popup is NoPopUp
            &&& post.should_go_next_day == true
            &&& post.days == day_after(pre.days)
        })
    } else {
        post == pre && repo_post == repo_pre
    })))
    &&& ((pre.popup matches ShowPopup::BreakPopup(_) && !(key == KeyCode::Char('a') || key
        == KeyCode::Char('b') || key == KeyCode::Char('c') || key == KeyCode::Char('d') || key
        == KeyCode::Char('o') || special_slot(key) is Some)) ==> post == pre && repo_post
        == repo_pre)
}

/// The payload-update transition relation of the encounter page: the deck
/// for the named tyrant was built out of the repository pools exactly as
/// `deck_built` says, or the build error is reported and nothing changed.
pub open spec fn game_update_step(
    pre: GamePage,
    post: GamePage,
    repo_pre: Repository,
    repo_post: Repository,
    tyrant_name: Seq<char>,
    res: Result<(), DeckError>,
) -> bool {
    &&& (res is Ok <==> build_error(repo_pre, tyrant_name) is None)
    &&& (res matches Err(e) ==> Some(e) == build_error(repo_pre, tyrant_name) && post == pre
        && repo_post == repo_pre)
    &&& (res is Ok ==> {
        &&& post.deck matches Some(d) && deck_built(repo_pre, repo_post, tyrant_name, d)
        &&& post.name == pre.name
        &&& post.days == pre.days
        &&& post.progress == pre.progress
        &&& post.today_card == pre.today_card
        &&& post.should_go_next_day == pre.should_go_next_day
        &&& post.finished_encounter_cards == pre.finished_encounter_cards
        &&& post.popup == pre.popup
        &&& post.selected_choice == pre.selected_choice
        &&& post.battle_logs == pre.battle_logs
        &&& post.menu_select_state == pre.menu_select_state
    })
}

/// The render-time transition relation of the encounter page: while days
/// remain and the deck is not exhausted, the day advances when flagged to;
/// otherwise the run closes, today's card moves into the history, and the
/// outcome is boss battle or defeat by the progress threshold.
pub open spec fn game_draw_step(pre: GamePage, post: GamePage, res: Option<DrawOutcome>) -> bool {
    &&& (res is Some <==> pre.deck is Some)
    &&& (pre.deck is None ==> post == pre)
    &&& post.name == pre.name
    &&& post.popup == pre.popup
    &&& post.selected_choice == pre.selected_choice
    &&& post.battle_logs == pre.battle_logs
    &&& post.progress == pre.progress
    &&& post.days == pre.days
    &&& post.menu_select_state == pre.menu_select_state
    &&& (pre.deck matches Some(d0) ==> ({
        let cards0 = d0.encounter_cards@;
        let drained = pre.finished_encounter_cards@ + (match pre.today_card {
            Some(t) => seq![t],
            None => Seq::<EncounterCard>::empty(),
        });
        if pre.days < d0.tyrant_card.max_days && cards0.len() > 0 {
            &&& res == Some(DrawOutcome::Encounter)
            &&& (pre.should_go_next_day ==> {
                &&& post.today_card == Some(cards0[0])
                &&& post.deck matches Some(d1) && d1.encounter_cards@ == cards0.drop_first()
                    && d1.tyrant_card == d0.tyrant_card
                &&& post.finished_encounter_cards@ == drained
                &&& post.should_go_next_day == false
            })
            &&& (!pre.should_go_next_day ==> {
                &&& post.today_card == pre.today_card
                &&& post.deck == pre.deck
                &&& post.finished_encounter_cards == pre.finished_encounter_cards
                &&& post.should_go_next_day == pre.should_go_next_day
            })
        } else {
            &&& post.today_card is None
            &&& post.deck == pre.deck
            &&& post.finished_encounter_cards@ == drained
            &&& post.should_go_next_day == pre.should_go_next_day
            &&& res == Some(
                if pre.progress >= d0.tyrant_card.min_progress {
                    DrawOutcome::BossBattle
                } else {
                    DrawOutcome::Defeat
                },
            )
        }
    }))
}

fn bump_day(d: usize) -> (r: usize)
    ensures
        r == day_after(d),
{
    if d < usize::MAX {
        d + 1
    } else {
        d
    }
}

impl GamePage {
    pub fn new() -> (r: Self)
        ensures
            r.name@ == NAME@,
            r.deck is None,
            r.days == 1,
            r.progress == 0,
            r.today_card is None,
            r.should_go_next_day == true,
            r.finished_encounter_cards@.len() == 0,
            r.popup is NoPopUp,
            r.selected_choice is None,
            r.battle_logs@.len() == 0,
            r.menu_select_state == 0,
    {
        GamePage {
            name: NAME.to_owned(),
            deck: None,
            days: 1,
            progress: 0,
            today_card: None,
            should_go_next_day: true,
            finished_encounter_cards: Vec::new(),
            popup: ShowPopup::NoPopUp,
            selected_choice: None,
            battle_logs: Vec::new(),
            menu_select_state: 0,
        }
    }

    /// A payload carrying a tyrant identifier builds the session deck for
    /// it; every other action is ignored.
    pub fn update(&mut self, action: Action, repo: &mut Repository) -> (res: Result<(), DeckError>)
        requires
            old(repo).wf(),
        ensures
            final(repo).wf(),
            match action {
                Action::Update(_, tyrant_name) => game_update_step(
                    *old(self),
                    *final(self),
                    *old(repo),
                    *final(repo),
                    tyrant_name@,
                    res,
                ),
                _ => res is Ok && *final(self) == *old(self) && *final(repo) == *old(repo),
            },
    {
        match action {
            Action::Update(_, tyrant_name) => {
                match EncounterDeck::new(tyrant_name.as_str(), repo) {
                    Ok(deck) => {
                        self.deck = Some(deck);
                        Ok(())
                    },
                    Err(e) => Err(e),
                }
            },
            _ => Ok(()),
        }
    }

    /// Key handling, per popup state; the whole behavior is
    /// `game_key_step`. Without a popup, digits 1-3 arm the confirmation
    /// popup for the matching choice of the active card and Up/Down move
    /// the history selection. In the confirmation popup, `y` and `n` record
    /// the day's outcome and open the break popup, `p` backs out. In the
    /// break popup, `a` requeues today's card and draws a replacement for
    /// the same day, `b` puts today's card on top, `c` promotes the first
    /// tyrant card and shuffles the rest, `d` shuffles today's card in at a
    /// random place, `e` and the letters after it shuffle in a special
    /// card, and `o` attempts the boss challenge, refused inline while
    /// progress is short of the tyrant's demand. A key whose conditions do
    /// not hold changes nothing.
    pub fn handle_key_events(&mut self, key: KeyCode, repo: &mut Repository)
        requires
            old(repo).wf(),
        ensures
            final(repo).wf(),
            game_key_step(*old(self), *final(self), *old(repo), *final(repo), key),
    {
        match self.popup {
            ShowPopup::NoPopUp => {
                match key {
                    KeyCode::Char(c) => {
                        let digit: Option<usize> = if c == '1' {
                            Some(0)
                        } else if c == '2' {
                            Some(1)
                        } else if c == '3' {
                            Some(2)
                        } else {
                            None
                        };
                        match digit {
                            Some(i) => {
                                let mut arm = false;
                                if self.deck.is_some() && !self.should_go_next_day {
                                    match &self.today_card {
                                        Some(t) => {
                                            arm = i < t.choices.len() && i < t.progress.len();
                                        },
                                        None => {},
                                    }
                                }
                                if arm {
                                    self.popup = ShowPopup::ChallengeSuccessfulPopup;
                                    self.selected_choice = Some(i);
                                }
                            },
                            None => {},
                        }
                    },
                    KeyCode::Up => {
                        if self.menu_select_state > 0 {
                            self.menu_select_state = self.menu_select_state - 1;
                        }
                    },
                    KeyCode::Down => {
                        if self.battle_logs.len() > 0 && self.menu_select_state
                            < self.battle_logs.len() - 1 {
                            self.menu_select_state = self.menu_select_state + 1;
                        }
                    },
                    _ => {},
                }
            },
            ShowPopup::ChallengeSuccessfulPopup => {
                match key {
                    KeyCode::Char(c) => {
                        if c == 'y' || c == 'n' {
                            let mut resolve = false;
                            let sel: usize = match self.selected_choice {
                                Some(s) => s,
                                None => 0,
                            };
                            match &self.today_card {
                                Some(t) => {
                                    if self.selected_choice.is_some() {
                                        resolve = sel < t.choices.len() && sel < t.progress.len();
                                    }
                                },
                                None => {},
                            }
                            if resolve {
                                let mut title: String = String::new();
                                let mut won: usize = 0;
                                let mut choice = crate::game::Choice {
                                    description: String::new(),
                                    action: String::new(),
                                    rewards: String::new(),
                                };
                                match &self.today_card {
                                    Some(t) => {
                                        title = t.title.clone();
                                        won = t.progress[sel];
                                        choice = t.choices[sel].clone();
                                    },
                                    None => {},
                                }
                                if c == 'y' {
                                    self.progress = self.progress.saturating_add(won);
                                    self.battle_logs.push(
                                        BattleLog {
                                            success: true,
                                            title,
                                            day: self.days,
                                            progress: won,
                                            choice,
                                        },
                                    );
                                } else {
                                    self.battle_logs.push(
                                        BattleLog {
                                            success: false,
                                            title,
                                            day: self.days,
                                            progress: 0,
                                            choice,
                                        },
                                    );
                                }
                                self.popup = ShowPopup::BreakPopup(None);
                            }
                        } else if c == 'p' {
                            self.popup = ShowPopup::NoPopUp;
                            self.selected_choice = None;
                        }
                    },
                    _ => {},
                }
            },
            ShowPopup::BreakPopup(_) => {
                match key {
                    KeyCode::Char(c) => {
                        if c == 'a' {
                            let mut non_empty = false;
                            match &self.deck {
                                Some(d) => {
                                    non_empty = d.encounter_cards.len() > 0;
                                },
                                None => {},
                            }
                            if non_empty && self.today_card.is_some() && repo.general.len() >= 1
                                && self.days >= 1 {
                                self.days = self.days - 1;
                                let card = self.today_card.take();
                                match &mut self.deck {
                                    Some(d) => d.shuffle(
                                        repo,
                                        ShuffleStrategy::ReplaceTodayEncounterAndShuffleTodayEncounter,
                                        card,
                                    ),
                                    None => {},
                                }
                                self.popup = ShowPopup::NoPopUp;
                                self.should_go_next_day = true;
                                self.days = bump_day(self.days);
                            }
                        } else if c == 'b' {
                            if self.deck.is_some() && self.today_card.is_some() {
                                let card = self.today_card.take();
                                match &mut self.deck {
                                    Some(d) => d.shuffle(
                                        repo,
                                        ShuffleStrategy::PutCurrentCardTop,
                                        card,
                                    ),
                                    None => {},
                                }
                                self.popup = ShowPopup::NoPopUp;
                                self.should_go_next_day = true;
                                self.days = bump_day(self.days);
                            }
                        } else if c == 'c' {
                            if self.deck.is_some() {
                                match &mut self.deck {
                                    Some(d) => d.shuffle(
                                        repo,
                                        ShuffleStrategy::FirstTyrantCardTopAndShuffleRest,
                                        None,
                                    ),
                                    None => {},
                                }
                                self.popup = ShowPopup::NoPopUp;
                                self.should_go_next_day = true;
                                self.days = bump_day(self.days);
                            }
                        } else if c == 'd' {
                            let mut small_enough = false;
                            match &self.deck {
                                Some(d) => {
                                    small_enough = d.encounter_cards.len() < usize::MAX;
                                },
                                None => {},
                            }
                            if small_enough && self.today_card.is_some() {
                                let card = self.today_card.take();
                                match &mut self.deck {
                                    Some(d) => d.shuffle(
                                        repo,
                                        ShuffleStrategy::PutCurrentCardRandom,
                                        card,
                                    ),
                                    None => {},
                                }
                                self.popup = ShowPopup::NoPopUp;
                                self.should_go_next_day = true;
                                self.days = bump_day(self.days);
                            }
                        } else if c == 'o' {
                            let mut demanded: usize = 0;
                            if self.deck.is_some() {
                                match &self.deck {
                                    Some(d) => {
                                        demanded = d.tyrant_card.min_progress;
                                    },
                                    None => {},
                                }
                                if self.progress < demanded {
                                    self.popup = ShowPopup::BreakPopup(
                                        Some(
                                            BossChallengeDenied {
                                                min_required: demanded,
                                                current: self.progress,
                                            },
                                        ),
                                    );
                                } else {
                                    self.popup = ShowPopup::NoPopUp;
                                    match &mut self.deck {
                                        Some(d) => d.encounter_cards.clear(),
                                        None => {},
                                    }
                                    self.days = bump_day(self.days);
                                }
                            }
                        } else {
                            let code = c as u32;
                            if code >= 101 && code != 111 {
                                let si = if code < 111 {
                                    (code - 101) as usize
                                } else {
                                    (code - 102) as usize
                                };
                                if self.deck.is_some() && si < repo.special.len() {
                                    let card = repo.special.remove(si);
                                    match &mut self.deck {
                                        Some(d) => d.shuffle(
                                            repo,
                                            ShuffleStrategy::PickSpecialCardAndShuffle,
                                            Some(card),
                                        ),
                                        None => {},
                                    }
                                    self.popup = ShowPopup::NoPopUp;
                                    self.should_go_next_day = true;
                                    self.days = bump_day(self.days);
                                }
                            }
                        }
                    },
                    _ => {},
                }
            },
        }
    }

    /// The state change behind one render pass, as `game_draw_step` says;
    /// `None` reports that no scenario was selected yet.
    pub fn on_draw(&mut self) -> (res: Option<DrawOutcome>)
        ensures
            game_draw_step(*old(self), *final(self), res),
    {
        if self.deck.is_none() {
            return None;
        }
        let mut max_days: usize = 0;
        let mut min_progress: usize = 0;
        let mut deck_len: usize = 0;
        match &self.deck {
            Some(d) => {
                max_days = d.tyrant_card.max_days;
                min_progress = d.tyrant_card.min_progress;
                deck_len = d.encounter_cards.len();
            },
            None => {},
        }
        if self.days < max_days && deck_len > 0 {
            if self.should_go_next_day {
                match self.today_card.take() {
                    Some(t) => self.finished_encounter_cards.push(t),
                    None => {},
                }
                proof {
                    assert(self.finished_encounter_cards@ =~= old(self).finished_encounter_cards@
                        + (match old(self).today_card {
                        Some(t) => seq![t],
                        None => Seq::<EncounterCard>::empty(),
                    }));
                }
                match &mut self.deck {
                    Some(d) => {
                        let card = d.encounter_cards.remove(0);
                        self.today_card = Some(card);
                    },
                    None => {},
                }
                self.should_go_next_day = false;
            }
            Some(DrawOutcome::Encounter)
        } else {
            match self.today_card.take() {
                Some(t) => self.finished_encounter_cards.push(t),
                None => {},
            }
            proof {
                assert(self.finished_encounter_cards@ =~= old(self).finished_encounter_cards@
                    + (match old(self).today_card {
                    Some(t) => seq![t],
                    None => Seq::<EncounterCard>::empty(),
                }));
            }
            if self.progress >= min_progress {
                Some(DrawOutcome::BossBattle)
            } else {
                Some(DrawOutcome::Defeat)
            }
        }
    }
}

} // verus!
