use too_many_bones::app::{Action, App, AppError, Event, KeyCode, Page};
use too_many_bones::game::{Choice, DeckError, EncounterCard, EncounterDeck, Repository, TyrantCard};
use too_many_bones::game_page::{
    BossChallengeDenied, DrawOutcome, GamePage, ShowPopup,
};
use too_many_bones::home::Home;
use too_many_bones::home_page::HomePage;
use too_many_bones::next::Next;
use too_many_bones::popup::Popup;
use too_many_bones::select_boss_page::SelectBossPage;

fn card(title: &str, card_type: &str) -> EncounterCard {
    EncounterCard {
        title: title.to_string(),
        story: format!("story of {}", title),
        choices: vec![
            Choice {
                description: "first".to_string(),
                action: "act1".to_string(),
                rewards: "r1".to_string(),
            },
            Choice {
                description: "second".to_string(),
                action: "act2".to_string(),
                rewards: "r2".to_string(),
            },
        ],
        remark: String::new(),
        progress: vec![3, 5],
        card_type: card_type.to_string(),
    }
}

fn tyrant(id: &str, min_progress: usize, max_days: usize) -> TyrantCard {
    TyrantCard {
        id: id.to_string(),
        name: id.to_uppercase(),
        description: "a looming threat".to_string(),
        min_progress,
        max_days,
        game_length: "60-90".to_string(),
        battle_title: format!("facing {}", id),
        creatures: "bones".to_string(),
        battle_mechanism: vec!["m1".to_string()],
        tyrant_skills: vec!["s1".to_string()],
        tyrant_die: vec!["d1".to_string()],
    }
}

fn repo() -> Repository {
    Repository::new(
        vec![card("sunrise", "day1")],
        vec![card("noon", "day2")],
        vec![card("dusk", "day3")],
        vec![card("omen", "special"), card("comet", "special")],
        (0..8).map(|i| card(&format!("gen{}", i), "general")).collect(),
        vec![tyrant("vex", 10, 12)],
        vec![vec![card("scen0", "tyrant"), card("scen1", "tyrant"), card("scen2", "tyrant")]],
    )
}

fn game_with_deck(progress: usize, min_progress: usize) -> GamePage {
    let mut page = GamePage::new();
    page.deck = Some(EncounterDeck {
        tyrant_card: tyrant("vex", min_progress, 12),
        encounter_cards: vec![card("a", "general"), card("b", "tyrant"), card("c", "general")],
    });
    page.progress = progress;
    page
}

#[test]
fn popup_keeps_its_text() {
    let p = Popup::new("body".to_string(), "title".to_string(), "keys".to_string());
    assert_eq!(p.content, "body");
    assert_eq!(p.title, "title");
    assert_eq!(p.command, "keys");
}

#[test]
fn home_page_navigates_and_confirms() {
    let mut page = HomePage::new();
    assert_eq!(page.menu_select_state, 0);
    let a = page.handle_key_events(KeyCode::Down);
    assert!(a.is_empty());
    assert_eq!(page.menu_select_state, 1);
    let a = page.handle_key_events(KeyCode::Down);
    assert!(a.is_empty());
    assert_eq!(page.menu_select_state, 1);
    let a = page.handle_key_events(KeyCode::Enter);
    assert_eq!(a, vec![Action::Quit]);
    let a = page.handle_key_events(KeyCode::Up);
    assert!(a.is_empty());
    assert_eq!(page.menu_select_state, 0);
    let a = page.handle_key_events(KeyCode::Enter);
    assert_eq!(a, vec![Action::Render("SelectBossPage".to_string())]);
}

#[test]
fn select_boss_page_confirm_emits_update_then_render() {
    let r = repo();
    let mut page = SelectBossPage::new();
    let a = page.handle_key_events(KeyCode::Enter, &r.tyrants);
    assert!(a.is_empty());
    assert!(page.is_popup);
    let a = page.handle_key_events(KeyCode::Enter, &r.tyrants);
    assert_eq!(
        a,
        vec![
            Action::Update("GamePage".to_string(), "vex".to_string()),
            Action::Render("GamePage".to_string()),
        ]
    );
    assert!(!page.is_popup);
}

#[test]
fn select_boss_page_back_and_bounds() {
    let r = repo();
    let mut page = SelectBossPage::new();
    let a = page.handle_key_events(KeyCode::Char('p'), &r.tyrants);
    assert_eq!(a, vec![Action::Render("HomePage".to_string())]);
    // one tyrant only: Down stays put
    page.handle_key_events(KeyCode::Down, &r.tyrants);
    assert_eq!(page.menu_select_state, 0);
}

#[test]
fn home_and_next_pages_link_to_each_other() {
    let mut h = Home::new();
    assert_eq!(h.name, "Home");
    let a = h.handle_key_events(KeyCode::Right);
    assert_eq!(a, vec![Action::Render("Next".to_string())]);
    assert!(h.handle_key_events(KeyCode::Left).is_empty());
    let mut n = Next::new();
    let a = n.handle_key_events(KeyCode::Left);
    assert_eq!(a, vec![Action::Render("Home".to_string())]);
    assert!(n.handle_key_events(KeyCode::Right).is_empty());
}

#[test]
fn digit_arms_choice_only_with_active_card() {
    let mut r = repo();
    let mut page = game_with_deck(0, 10);
    // no card drawn yet: the digit is ignored
    page.handle_key_events(KeyCode::Char('1'), &mut r);
    assert_eq!(page.popup, ShowPopup::NoPopUp);
    // draw today's card, then arm choice 2
    page.should_go_next_day = true;
    assert_eq!(page.on_draw(), Some(DrawOutcome::Encounter));
    assert_eq!(page.today_card.as_ref().unwrap().title, "a");
    page.handle_key_events(KeyCode::Char('2'), &mut r);
    assert_eq!(page.popup, ShowPopup::ChallengeSuccessfulPopup);
    assert_eq!(page.selected_choice, Some(1));
    // a digit beyond the card's two choices is ignored
    page.popup = ShowPopup::NoPopUp;
    page.handle_key_events(KeyCode::Char('3'), &mut r);
    assert_eq!(page.popup, ShowPopup::NoPopUp);
}

#[test]
fn resolving_a_choice_records_the_outcome() {
    let mut r = repo();
    let mut page = game_with_deck(0, 10);
    page.on_draw();
    page.handle_key_events(KeyCode::Char('2'), &mut r);
    page.handle_key_events(KeyCode::Char('y'), &mut r);
    assert_eq!(page.popup, ShowPopup::BreakPopup(None));
    assert_eq!(page.progress, 5);
    assert_eq!(page.battle_logs.len(), 1);
    assert!(page.battle_logs[0].success);
    assert_eq!(page.battle_logs[0].title, "a");
    assert_eq!(page.battle_logs[0].day, 1);
    assert_eq!(page.battle_logs[0].progress, 5);
    assert_eq!(page.battle_logs[0].choice.description, "second");
}

#[test]
fn failing_a_choice_awards_nothing() {
    let mut r = repo();
    let mut page = game_with_deck(0, 10);
    page.on_draw();
    page.handle_key_events(KeyCode::Char('1'), &mut r);
    page.handle_key_events(KeyCode::Char('n'), &mut r);
    assert_eq!(page.popup, ShowPopup::BreakPopup(None));
    assert_eq!(page.progress, 0);
    assert_eq!(page.battle_logs.len(), 1);
    assert!(!page.battle_logs[0].success);
    assert_eq!(page.battle_logs[0].progress, 0);
}

#[test]
fn backing_out_of_the_confirmation() {
    let mut r = repo();
    let mut page = game_with_deck(0, 10);
    page.on_draw();
    page.handle_key_events(KeyCode::Char('1'), &mut r);
    page.handle_key_events(KeyCode::Char('p'), &mut r);
    assert_eq!(page.popup, ShowPopup::NoPopUp);
    assert_eq!(page.selected_choice, None);
}

#[test]
fn break_key_b_puts_today_on_top_and_advances() {
    let mut r = repo();
    let mut page = game_with_deck(0, 10);
    page.on_draw();
    page.handle_key_events(KeyCode::Char('1'), &mut r);
    page.handle_key_events(KeyCode::Char('y'), &mut r);
    let day_before = page.days;
    page.handle_key_events(KeyCode::Char('b'), &mut r);
    assert_eq!(page.popup, ShowPopup::NoPopUp);
    assert!(page.should_go_next_day);
    assert_eq!(page.days, day_before + 1);
    assert!(page.today_card.is_none());
    let deck = page.deck.as_ref().unwrap();
    assert_eq!(deck.encounter_cards[0].title, "a");
}

#[test]
fn break_key_d_shuffles_today_back_in_and_advances() {
    let mut r = repo();
    let mut page = game_with_deck(0, 10);
    page.on_draw();
    page.handle_key_events(KeyCode::Char('1'), &mut r);
    page.handle_key_events(KeyCode::Char('y'), &mut r);
    let day_before = page.days;
    let deck_before = page.deck.as_ref().unwrap().encounter_cards.len();
    page.handle_key_events(KeyCode::Char('d'), &mut r);
    assert_eq!(page.popup, ShowPopup::NoPopUp);
    assert!(page.should_go_next_day);
    assert_eq!(page.days, day_before + 1);
    assert!(page.today_card.is_none());
    let deck = page.deck.as_ref().unwrap();
    assert_eq!(deck.encounter_cards.len(), deck_before + 1);
    assert!(deck.encounter_cards.iter().any(|c| c.title == "a"));
}

#[test]
fn break_key_a_requeues_today_with_a_replacement_same_day() {
    let mut r = repo();
    let mut page = game_with_deck(0, 10);
    page.on_draw();
    page.handle_key_events(KeyCode::Char('1'), &mut r);
    page.handle_key_events(KeyCode::Char('y'), &mut r);
    let day_before = page.days;
    let deck_before = page.deck.as_ref().unwrap().encounter_cards.len();
    let general_before = r.general.len();
    page.handle_key_events(KeyCode::Char('a'), &mut r);
    assert_eq!(page.days, day_before);
    assert!(page.today_card.is_none());
    assert_eq!(page.deck.as_ref().unwrap().encounter_cards.len(), deck_before + 2);
    assert_eq!(r.general.len(), general_before - 1);
}

#[test]
fn break_key_e_shuffles_in_the_first_special_card() {
    let mut r = repo();
    let mut page = game_with_deck(0, 10);
    page.on_draw();
    page.handle_key_events(KeyCode::Char('1'), &mut r);
    page.handle_key_events(KeyCode::Char('y'), &mut r);
    let deck_before = page.deck.as_ref().unwrap().encounter_cards.len();
    page.handle_key_events(KeyCode::Char('e'), &mut r);
    assert_eq!(r.special.len(), 1);
    assert_eq!(r.special[0].title, "comet");
    let deck = page.deck.as_ref().unwrap();
    assert_eq!(deck.encounter_cards.len(), deck_before + 1);
    assert!(deck.encounter_cards.iter().any(|c| c.title == "omen"));
    assert_eq!(page.popup, ShowPopup::NoPopUp);
    assert!(page.should_go_next_day);
}

#[test]
fn boss_challenge_rejected_below_minimum_progress() {
    // progress 5 against a demand of 10: refused inline with both values
    let mut r = repo();
    let mut page = game_with_deck(5, 10);
    page.popup = ShowPopup::BreakPopup(None);
    page.handle_key_events(KeyCode::Char('o'), &mut r);
    assert_eq!(
        page.popup,
        ShowPopup::BreakPopup(Some(BossChallengeDenied { min_required: 10, current: 5 }))
    );
    assert_eq!(page.deck.as_ref().unwrap().encounter_cards.len(), 3);
}

#[test]
fn boss_challenge_proceeds_at_minimum_progress() {
    // progress 10 meets the demand: the live sequence is cleared
    let mut r = repo();
    let mut page = game_with_deck(10, 10);
    page.popup = ShowPopup::BreakPopup(None);
    let day_before = page.days;
    page.handle_key_events(KeyCode::Char('o'), &mut r);
    assert_eq!(page.popup, ShowPopup::NoPopUp);
    assert_eq!(page.deck.as_ref().unwrap().encounter_cards.len(), 0);
    assert_eq!(page.days, day_before + 1);
}

#[test]
fn draw_outcome_classifies_the_end_of_the_run() {
    let mut page = game_with_deck(3, 10);
    page.deck.as_mut().unwrap().encounter_cards.clear();
    page.today_card = Some(card("last", "general"));
    assert_eq!(page.on_draw(), Some(DrawOutcome::Defeat));
    assert!(page.today_card.is_none());
    assert_eq!(page.finished_encounter_cards.len(), 1);
    let mut page = game_with_deck(10, 10);
    page.deck.as_mut().unwrap().encounter_cards.clear();
    assert_eq!(page.on_draw(), Some(DrawOutcome::BossBattle));
    let mut page = GamePage::new();
    assert_eq!(page.on_draw(), None);
}

#[test]
fn update_builds_the_deck_for_the_named_tyrant() {
    let mut r = repo();
    let mut page = GamePage::new();
    let res = page.update(Action::Update("GamePage".to_string(), "vex".to_string()), &mut r);
    assert_eq!(res, Ok(()));
    let deck = page.deck.as_ref().unwrap();
    assert_eq!(deck.encounter_cards.len(), 12);
    assert_eq!(deck.tyrant_card.id, "vex");
    let res = page.update(Action::Update("GamePage".to_string(), "nobody".to_string()), &mut r);
    assert_eq!(res, Err(DeckError::UnknownTyrant));
}

#[test]
fn register_component_refuses_duplicates() {
    let mut app = App::new(repo());
    assert!(app.register_component("HomePage".to_string(), Page::Home(HomePage::new())));
    assert!(!app.register_component("HomePage".to_string(), Page::Home(HomePage::new())));
    assert_eq!(app.components.len(), 1);
}

fn wired_app() -> App {
    let mut app = App::new(repo());
    assert!(app.register_component("HomePage".to_string(), Page::Home(HomePage::new())));
    assert!(app.register_component(
        "SelectBossPage".to_string(),
        Page::SelectBoss(SelectBossPage::new())
    ));
    assert!(app.register_component("GamePage".to_string(), Page::Game(GamePage::new())));
    app
}

#[test]
fn stale_render_cannot_flip_the_page_back() {
    // a tick stamped with the old page sits in the backlog while the
    // transition to the new page commits: the backlog is discarded, and no
    // later step can resurrect the old page from it
    let mut app = wired_app();
    app.enqueue_event(Event::Render("HomePage".to_string()));
    let res = app.apply_action(Action::Render("SelectBossPage".to_string()));
    assert!(res.is_ok());
    assert_eq!(app.cur_component, "SelectBossPage");
    assert_eq!(app.event_queue.len(), 0);
    let res = app.step();
    assert!(res.is_ok());
    assert_eq!(app.cur_component, "SelectBossPage");
}

#[test]
fn render_tick_for_the_current_page_keeps_the_backlog() {
    let mut app = wired_app();
    app.enqueue_event(Event::Key(KeyCode::Other));
    let res = app.apply_action(Action::Render("HomePage".to_string()));
    assert!(res.is_ok());
    assert_eq!(app.cur_component, "HomePage");
    assert_eq!(app.event_queue.len(), 1);
}

#[test]
fn quit_key_preempts_page_handling() {
    let mut app = wired_app();
    app.enqueue_event(Event::Key(KeyCode::Char('q')));
    let res = app.step();
    assert!(res.is_ok());
    assert!(app.should_quit);
}

#[test]
fn render_of_unregistered_page_is_fatal() {
    let mut app = wired_app();
    let res = app.apply_action(Action::Render("Elsewhere".to_string()));
    assert_eq!(res, Err(AppError::UnregisteredComponent));
}

#[test]
fn rendering_game_page_before_selection_is_fatal() {
    let mut app = wired_app();
    let res = app.apply_action(Action::Render("GamePage".to_string()));
    assert_eq!(res, Err(AppError::DeckNotBuilt));
}

#[test]
fn update_for_unknown_page_is_ignored() {
    let mut app = wired_app();
    let res = app.apply_action(Action::Update("Elsewhere".to_string(), "vex".to_string()));
    assert_eq!(res, Ok(None));
}

#[test]
fn full_flow_from_menu_to_first_encounter() {
    let mut app = wired_app();
    // confirm the first menu entry: the scenario page takes over
    app.enqueue_event(Event::Key(KeyCode::Enter));
    app.step().expect("menu step");
    app.enqueue_event(Event::Render("SelectBossPage".to_string()));
    app.step().expect("page change");
    assert_eq!(app.cur_component, "SelectBossPage");
    // open the detail popup, then confirm the tyrant
    app.enqueue_event(Event::Key(KeyCode::Enter));
    app.step().expect("open popup");
    app.enqueue_event(Event::Key(KeyCode::Enter));
    let draws = app.step().expect("confirm tyrant");
    // the update built the deck and the render switched to the game page
    assert_eq!(draws, vec!["GamePage".to_string()]);
    assert_eq!(app.cur_component, "GamePage");
    match &app.components[2].1 {
        Page::Game(g) => {
            // the first render pass moved the day-1 opener into the today slot
            assert_eq!(g.deck.as_ref().unwrap().encounter_cards.len(), 11);
            assert_eq!(g.today_card.as_ref().unwrap().card_type, "day1");
            assert!(!g.should_go_next_day);
        },
        _ => panic!("expected the game page"),
    }
}

#[test]
fn special_letters_skip_the_boss_key() {
    // eleven special cards: 'e'..'n' reach the first ten and 'p' reaches the
    // eleventh, because 'o' stays the boss challenge
    let mut r = repo();
    r.special = (0..11).map(|i| card(&format!("sp{}", i), "special")).collect();
    let mut page = game_with_deck(0, 10);
    page.popup = ShowPopup::BreakPopup(None);
    page.handle_key_events(KeyCode::Char('p'), &mut r);
    assert_eq!(page.popup, ShowPopup::NoPopUp);
    assert_eq!(r.special.len(), 10);
    assert!(r.special.iter().all(|c| c.title != "sp10"));
    let deck = page.deck.as_ref().unwrap();
    assert!(deck.encounter_cards.iter().any(|c| c.title == "sp10"));
}

#[test]
fn special_key_beyond_pool_is_ignored() {
    let mut r = repo();
    let mut page = game_with_deck(0, 10);
    page.popup = ShowPopup::BreakPopup(None);
    // two special cards: 'e' and 'f' are live, 'z' maps past the pool
    page.handle_key_events(KeyCode::Char('z'), &mut r);
    assert_eq!(page.popup, ShowPopup::BreakPopup(None));
    assert_eq!(r.special.len(), 2);
}

#[test]
fn requeue_needs_a_replacement_to_draw() {
    let mut r = repo();
    r.general.clear();
    let mut page = game_with_deck(0, 10);
    page.today_card = Some(card("today", "general"));
    page.popup = ShowPopup::BreakPopup(None);
    let day_before = page.days;
    page.handle_key_events(KeyCode::Char('a'), &mut r);
    // an empty general pool offers no replacement: nothing changes
    assert_eq!(page.popup, ShowPopup::BreakPopup(None));
    assert_eq!(page.days, day_before);
    assert!(page.today_card.is_some());
    // the last general card can serve as the replacement
    r.general.push(card("lone", "general"));
    page.handle_key_events(KeyCode::Char('a'), &mut r);
    assert_eq!(page.popup, ShowPopup::NoPopUp);
    assert!(page.today_card.is_none());
    assert_eq!(page.deck.as_ref().unwrap().encounter_cards[0].title, "lone");
    assert!(r.general.is_empty());
}

#[test]
fn history_navigation_stays_in_bounds() {
    let mut r = repo();
    let mut page = game_with_deck(0, 10);
    // no battle logs yet: both directions are ignored
    page.handle_key_events(KeyCode::Down, &mut r);
    assert_eq!(page.menu_select_state, 0);
    page.handle_key_events(KeyCode::Up, &mut r);
    assert_eq!(page.menu_select_state, 0);
}

#[test]
fn legacy_records_carry_their_fields() {
    let info_card = too_many_bones::game_info::EncounterCard {
        title: "old shape".to_string(),
        story: "story".to_string(),
        choices: vec![too_many_bones::game_info::Choice {
            description: "d".to_string(),
            action: "a".to_string(),
            rewards: "r".to_string(),
        }],
        remark: String::new(),
        progress: 2,
    };
    assert_eq!(info_card.progress, 2);
    let info_tyrant = too_many_bones::game_info::TyrantCard {
        name: "vex".to_string(),
        description: String::new(),
        min_days: 8,
        max_days: 12,
        game_length: String::new(),
        battle_title: String::new(),
        creatures: String::new(),
        battle_mechanism: vec![],
        tyrant_skills: vec![],
        tyrant_die: vec![],
    };
    assert_eq!(info_tyrant.min_days, 8);
    assert_eq!(info_tyrant.max_days, 12);
}
