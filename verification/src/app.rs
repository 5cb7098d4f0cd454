//! The orchestrator: the message kinds flowing through it, the page
//! registry, and the dispatch loop state with its race guard on page
//! transitions. Each dispatch step satisfies a named transition relation,
//! and the drain loop is pinned to the fold of those relations over the
//! action queue.

use vstd::prelude::*;

use crate::game::{build_error, DeckError, Repository};
use crate::game_page::{game_draw_step, game_key_step, game_update_step, DrawOutcome, GamePage};
use crate::home_page::{home_key_step, HomePage};
use crate::select_boss_page::{select_boss_key_step, SelectBossPage};

verus! {

/// A key press, reduced to the keys the pages react to.
#[derive(Debug, Clone, Copy, PartialEq, Eq, Structural)]
pub enum KeyCode {
    Char(char),
    Up,
    Down,
    Enter,
    Left,
    Right,
    Other,
}

/// What the input producer emits: a timed render tick stamped with the page
/// that was current when it fired, or a key press.
#[derive(PartialEq, Eq, Debug)]
pub enum Event {
    Render(String),
    Key(KeyCode),
}

/// What pages and the orchestrator emit: switch rendering to a page, pass a
/// payload to a page, or quit.
#[derive(PartialEq, Eq, Debug)]
pub enum Action {
    Render(String),
    Quit,
    Update(String, String),
}

/// The closed union of page variants a name can be registered under.
pub enum Page {
    Home(HomePage),
    SelectBoss(SelectBossPage),
    Game(GamePage),
}

/// The fatal dispatch conditions; each makes the surrounding program exit
/// with a non-zero status.
#[derive(PartialEq, Eq, Debug)]
pub enum AppError {
    /// A key press or render referred to a page name that was never
    /// registered.
    UnregisteredComponent,
    /// The encounter page was rendered before any scenario was selected.
    DeckNotBuilt,
    /// Building the deck for the selected scenario failed.
    DeckBuild(DeckError),
}

/// A key forwarded to a page, per variant: each case is that page's own key
/// transition relation. Only the encounter page can change the repository,
/// and it alone emits no actions.
pub open spec fn page_key_step(
    pre: Page,
    post: Page,
    repo_pre: Repository,
    repo_post: Repository,
    key: KeyCode,
    actions: Seq<Action>,
) -> bool {
    match pre {
        Page::Home(h0) => post matches Page::Home(h1) && home_key_step(h0, h1, key, actions)
            && repo_post == repo_pre,
        Page::SelectBoss(s0) => post matches Page::SelectBoss(s1) && select_boss_key_step(
            s0,
            s1,
            key,
            repo_pre.tyrants@,
            actions,
        ) && repo_post == repo_pre,
        Page::Game(g0) => post matches Page::Game(g1) && game_key_step(
            g0,
            g1,
            repo_pre,
            repo_post,
            key,
        ) && actions.len() == 0,
    }
}

impl Page {
    /// Forward a key press to the page, collecting the actions it emits; the
    /// whole behavior is `page_key_step`.
    pub fn handle_key(&mut self, key: KeyCode, repo: &mut Repository) -> (actions: Vec<Action>)
        requires
            old(repo).wf(),
        ensures
            final(repo).wf(),
            page_key_step(*old(self), *final(self), *old(repo), *final(repo), key, actions@),
    {
        match self {
            Page::Home(p) => p.handle_key_events(key),
            Page::SelectBoss(p) => p.handle_key_events(key, &repo.tyrants),
            Page::Game(p) => {
                p.handle_key_events(key, repo);
                Vec::new()
            },
        }
    }
}

/// A committed application of `Render(target)`: the active page is `target`
/// afterwards, and if that was a change of page, the whole event backlog was
/// discarded the moment the change was committed.
pub open spec fn render_applied(pre: App, post: App, target: Seq<char>) -> bool {
    &&& post.cur_component@ == target
    &&& (target != pre.cur_component@ ==> post.event_queue@.len() == 0)
    &&& (target == pre.cur_component@ ==> post.event_queue == pre.event_queue)
    &&& post.should_quit == pre.should_quit
}

/// The orchestrator state: the registry of pages, the shared current-page
/// name, the two message queues, the content repository, and the quit flag.
pub struct App {
    pub components: Vec<(String, Page)>,
    pub cur_component: String,
    pub event_queue: Vec<Event>,
    pub action_queue: Vec<Action>,
    pub repo: Repository,
    pub should_quit: bool,
}

/// The index of the entry registered under this name, if any.
fn find_component(components: &Vec<(String, Page)>, name: &String) -> (r: Option<usize>)
    ensures
        r matches Some(i) ==> i < components@.len() && components@[i as int].0@ == name@,
        r is None ==> forall|k: int|
            0 <= k < components@.len() ==> #[trigger] components@[k].0@ != name@,
{
    let mut i: usize = 0;
    while i < components.len()
        invariant
            i <= components@.len(),
            forall|k: int| 0 <= k < i ==> #[trigger] components@[k].0@ != name@,
        decreases components@.len() - i,
    {
        if components[i].0 == *name {
            return Some(i);
        }
        i = i + 1;
    }
    None
}

/// One event turned into queued actions, as `dispatch_event` ensures it.
/// Handling an event never changes the active page, the backlog or the quit
/// flag, and only appends to the action queue. A render tick queues exactly
/// one render action for the page stamped on it. A key press queues the
/// quit action first when it is the global quit key, and is then forwarded
/// to the active page exactly once — that page steps by its own key
/// relation and its emitted actions are queued after — failing exactly when
/// the active page name was never registered.
pub open spec fn event_dispatched(pre: App, post: App, e: Event, res: Result<(), AppError>) -> bool {
    &&& App::same_names(post, pre)
    &&& post.cur_component == pre.cur_component
    &&& post.event_queue == pre.event_queue
    &&& post.should_quit == pre.should_quit
    &&& post.action_queue@.len() >= pre.action_queue@.len()
    &&& post.action_queue@.subrange(0, pre.action_queue@.len() as int) == pre.action_queue@
    &&& match e {
        Event::Render(name) => {
            &&& res is Ok
            &&& post.action_queue@ == pre.action_queue@.push(Action::Render(name))
            &&& post.components == pre.components
            &&& post.repo == pre.repo
        },
        Event::Key(k) => {
            let base = pre.action_queue@ + (if k == KeyCode::Char('q') {
                seq![Action::Quit]
            } else {
                Seq::<Action>::empty()
            });
            &&& (res is Ok <==> pre.registered(pre.cur_component@))
            &&& post.action_queue@.len() >= base.len()
            &&& post.action_queue@.subrange(0, base.len() as int) == base
            &&& (res is Err ==> post.action_queue@ == base && post.components == pre.components
                && post.repo == pre.repo)
            &&& (res is Ok ==> exists|i: int|
                #![auto]
                {
                    &&& 0 <= i < pre.components@.len()
                    &&& pre.components@[i].0@ == pre.cur_component@
                    &&& (forall|j: int|
                        0 <= j < pre.components@.len() && j != i ==> post.components@[j]
                            == pre.components@[j])
                    &&& page_key_step(
                        pre.components@[i].1,
                        post.components@[i].1,
                        pre.repo,
                        post.repo,
                        k,
                        post.action_queue@.skip(base.len() as int),
                    )
                })
        },
    }
}

/// One action applied, as `apply_action` ensures it. `Quit` only raises the
/// quit flag. `Render(target)` commits the transition under the race guard
/// and then runs the target page's render-time state change (the encounter
/// page steps by its draw relation), failing exactly when the target was
/// never registered or is the encounter page with no deck built.
/// `Update(target, payload)` hands the payload to the named page exactly
/// once — the encounter page steps by its update relation, building its
/// deck — and an unknown name is silently ignored.
pub open spec fn action_applied(
    pre: App,
    post: App,
    a: Action,
    res: Result<Option<String>, AppError>,
) -> bool {
    &&& App::same_names(post, pre)
    &&& post.action_queue == pre.action_queue
    &&& match a {
        Action::Quit => {
            &&& res matches Ok(r) && r is None
            &&& post.should_quit == true
            &&& post.cur_component == pre.cur_component
            &&& post.event_queue == pre.event_queue
            &&& post.components == pre.components
            &&& post.repo == pre.repo
        },
        Action::Render(target) => {
            &&& render_applied(pre, post, target@)
            &&& (res is Ok <==> pre.registered(target@) && !pre.draw_blocked(target@))
            &&& (res matches Ok(r) ==> r matches Some(n) && n@ == target@)
            &&& post.repo == pre.repo
            &&& (!pre.registered(target@) ==> post.components == pre.components)
            &&& (pre.registered(target@) ==> exists|i: int|
                #![auto]
                {
                    &&& 0 <= i < pre.components@.len()
                    &&& pre.components@[i].0@ == target@
                    &&& (forall|j: int|
                        0 <= j < pre.components@.len() && j != i ==> post.components@[j]
                            == pre.components@[j])
                    &&& match pre.components@[i].1 {
                        Page::Game(g0) => post.components@[i].1 matches Page::Game(g1) && (exists|
                            r: Option<DrawOutcome>,
                        | game_draw_step(g0, g1, r)),
                        _ => post.components@[i].1 == pre.components@[i].1,
                    }
                })
        },
        Action::Update(target, msg) => {
            &&& post.cur_component == pre.cur_component
            &&& post.event_queue == pre.event_queue
            &&& post.should_quit == pre.should_quit
            &&& (res matches Ok(r) ==> r is None)
            &&& (!pre.registered(target@) ==> res is Ok && post.components == pre.components
                && post.repo == pre.repo)
            &&& (res matches Err(er) ==> er matches AppError::DeckBuild(e) && Some(e)
                == build_error(pre.repo, msg@))
            &&& (pre.registered(target@) ==> exists|i: int|
                #![auto]
                {
                    &&& 0 <= i < pre.components@.len()
                    &&& pre.components@[i].0@ == target@
                    &&& (forall|j: int|
                        0 <= j < pre.components@.len() && j != i ==> post.components@[j]
                            == pre.components@[j])
                    &&& match pre.components@[i].1 {
                        Page::Game(g0) => post.components@[i].1 matches Page::Game(g1) && (exists|
                            r2: Result<(), DeckError>,
                        |
                            game_update_step(g0, g1, pre.repo, post.repo, msg@, r2) && (match r2 {
                                Ok(_) => res matches Ok(rr) && rr is None,
                                Err(e2) => res matches Err(er) && er == AppError::DeckBuild(e2),
                            })),
                        _ => post.components@[i].1 == pre.components@[i].1 && post.repo == pre.repo
                            && res is Ok,
                    }
                })
        },
    }
}

/// The state after the front action was taken off the queue, everything
/// else untouched.
pub open spec fn action_popped(pre: App, post: App) -> bool {
    &&& post.action_queue@ == pre.action_queue@.skip(1)
    &&& post.components == pre.components
    &&& post.cur_component == pre.cur_component
    &&& post.event_queue == pre.event_queue
    &&& post.repo == pre.repo
    &&& post.should_quit == pre.should_quit
}

/// Likewise for the front event.
pub open spec fn event_popped(pre: App, post: App) -> bool {
    &&& post.event_queue@ == pre.event_queue@.skip(1)
    &&& post.components == pre.components
    &&& post.cur_component == pre.cur_component
    &&& post.action_queue == pre.action_queue
    &&& post.repo == pre.repo
    &&& post.should_quit == pre.should_quit
}

/// `post` is reached from `pre` by popping and applying queued actions in
/// FIFO order, each as `action_applied` says and none failing, collecting
/// in `draws` the page name of every committed render in order; it stops at
/// the quit flag or an exhausted queue.
pub open spec fn actions_drained(pre: App, post: App, draws: Seq<String>) -> bool
    decreases pre.action_queue@.len(),
{
    if pre.should_quit || pre.action_queue@.len() == 0 {
        &&& post == pre
        &&& draws.len() == 0
    } else {
        exists|popped: App, mid: App, d: Option<String>|
            {
                &&& #[trigger] action_popped(pre, popped)
                &&& #[trigger] action_applied(popped, mid, pre.action_queue@[0], Ok(d))
                &&& mid.action_queue@.len() < pre.action_queue@.len()
                &&& match d {
                    Some(n) => draws.len() > 0 && draws[0] == n && actions_drained(
                        mid,
                        post,
                        draws.drop_first(),
                    ),
                    None => actions_drained(mid, post, draws),
                }
            }
    }
}

impl App {
    /// A name is taken by a registered page.
    pub open spec fn registered(self, name: Seq<char>) -> bool {
        exists|i: int| 0 <= i < self.components@.len() && self.components@[i].0@ == name
    }

    /// The registered page under `name` is the encounter page and it has no
    /// deck yet, so rendering it is a fatal condition.
    pub open spec fn draw_blocked(self, name: Seq<char>) -> bool {
        exists|i: int|
            0 <= i < self.components@.len() && self.components@[i].0@ == name && (
            self.components@[i].1 matches Page::Game(g) && g.deck is None)
    }

    /// Registered names are pairwise distinct and the repository is sound.
    pub open spec fn wf(self) -> bool {
        &&& self.repo.wf()
        &&& forall|i: int, j: int|
            0 <= i < j < self.components@.len() ==> self.components@[i].0@
                != self.components@[j].0@
    }

    /// The registry holds the same names as before, in the same order.
    pub open spec fn same_names(post: App, pre: App) -> bool {
        &&& post.components@.len() == pre.components@.len()
        &&& forall|i: int|
            0 <= i < pre.components@.len() ==> #[trigger] post.components@[i].0
                == pre.components@[i].0
    }

    pub fn new(repo: Repository) -> (r: Self)
        requires
            repo.wf(),
        ensures
            r.wf(),
            r.components@.len() == 0,
            r.cur_component@ == "HomePage"@,
            r.event_queue@.len() == 0,
            r.action_queue@.len() == 0,
            r.repo == repo,
            r.should_quit == false,
    {
        App {
            components: Vec::new(),
            cur_component: "HomePage".to_owned(),
            event_queue: Vec::new(),
            action_queue: Vec::new(),
            repo,
            should_quit: false,
        }
    }

    /// Store a page under a name; a duplicate name is refused, which the
    /// surrounding program treats as fatal.
    pub fn register_component(&mut self, name: String, component: Page) -> (ok: bool)
        requires
            old(self).wf(),
        ensures
            final(self).wf(),
            ok == !old(self).registered(name@),
            ok ==> final(self).components@ == old(self).components@.push((name, component)),
            !ok ==> final(self).components == old(self).components,
            final(self).cur_component == old(self).cur_component,
            final(self).event_queue == old(self).event_queue,
            final(self).action_queue == old(self).action_queue,
            final(self).repo == old(self).repo,
            final(self).should_quit == old(self).should_quit,
    {
        match find_component(&self.components, &name) {
            Some(_) => false,
            None => {
                self.components.push((name, component));
                true
            },
        }
    }

    /// Buffer one event produced by the timer/input context.
    pub fn enqueue_event(&mut self, e: Event)
        ensures
            final(self).event_queue@ == old(self).event_queue@.push(e),
            final(self).components == old(self).components,
            final(self).cur_component == old(self).cur_component,
            final(self).action_queue == old(self).action_queue,
            final(self).repo == old(self).repo,
            final(self).should_quit == old(self).should_quit,
    {
        self.event_queue.push(e);
    }

    /// Turn one event into queued actions, as `event_dispatched` says.
    pub fn dispatch_event(&mut self, e: Event) -> (res: Result<(), AppError>)
        requires
            old(self).wf(),
        ensures
            final(self).wf(),
            event_dispatched(*old(self), *final(self), e, res),
    {
        match e {
            Event::Render(name) => {
                self.action_queue.push(Action::Render(name));
                proof {
                    assert(self.action_queue@.subrange(0, old(self).action_queue@.len() as int)
                        =~= old(self).action_queue@);
                }
                Ok(())
            },
            Event::Key(k) => {
                if k == KeyCode::Char('q') {
                    self.action_queue.push(Action::Quit);
                }
                let ghost base = old(self).action_queue@ + (if k == KeyCode::Char('q') {
                    seq![Action::Quit]
                } else {
                    Seq::<Action>::empty()
                });
                proof {
                    assert(self.action_queue@ =~= base);
                    assert(self.action_queue@.subrange(0, old(self).action_queue@.len() as int)
                        =~= old(self).action_queue@);
                    assert(self.action_queue@.subrange(0, base.len() as int) =~= base);
                }
                match find_component(&self.components, &self.cur_component) {
                    None => Err(AppError::UnregisteredComponent),
                    Some(i) => {
                        let ghost pre = self.components@;
                        let (name, mut page) = self.components.remove(i);
                        let mut actions = page.handle_key(k, &mut self.repo);
                        self.components.insert(i, (name, page));
                        proof {
                            assert forall|j: int|
                                0 <= j < pre.len() && j != i implies self.components@[j] == pre[j] by {
                                pre.remove_ensures(i as int);
                                pre.remove(i as int).insert_ensures(
                                    i as int,
                                    self.components@[i as int],
                                );
                            }
                            assert(self.components@[i as int].0 == pre[i as int].0) by {
                                pre.remove_ensures(i as int);
                                pre.remove(i as int).insert_ensures(
                                    i as int,
                                    self.components@[i as int],
                                );
                            }
                        }
                        let ghost page_actions = actions@;
                        self.action_queue.append(&mut actions);
                        proof {
                            assert(self.action_queue@.subrange(0, base.len() as int) =~= base);
                            assert(self.action_queue@.subrange(
                                0,
                                old(self).action_queue@.len() as int,
                            ) =~= old(self).action_queue@);
                            assert(self.action_queue@.skip(base.len() as int) =~= page_actions);
                            assert(pre[i as int].0@ == old(self).cur_component@);
                        }
                        Ok(())
                    },
                }
            },
        }
    }

    /// Apply one action, as `action_applied` says.
    pub fn apply_action(&mut self, a: Action) -> (res: Result<Option<String>, AppError>)
        requires
            old(self).wf(),
        ensures
            final(self).wf(),
            action_applied(*old(self), *final(self), a, res),
    {
        match a {
            Action::Quit => {
                self.should_quit = true;
                Ok(None)
            },
            Action::Render(target) => {
                if !(self.cur_component == target) {
                    self.cur_component = target.clone();
                    self.event_queue.clear();
                }
                match find_component(&self.components, &self.cur_component) {
                    None => Err(AppError::UnregisteredComponent),
                    Some(i) => {
                        let ghost pre = self.components@;
                        let (name, mut page) = self.components.remove(i);
                        let ready = match &mut page {
                            Page::Game(g) => g.on_draw().is_some(),
                            _ => true,
                        };
                        self.components.insert(i, (name, page));
                        proof {
                            assert forall|j: int|
                                0 <= j < pre.len() && j != i implies self.components@[j] == pre[j] by {
                                pre.remove_ensures(i as int);
                                pre.remove(i as int).insert_ensures(
                                    i as int,
                                    self.components@[i as int],
                                );
                            }
                            assert(self.components@[i as int].0 == pre[i as int].0) by {
                                pre.remove_ensures(i as int);
                                pre.remove(i as int).insert_ensures(
                                    i as int,
                                    self.components@[i as int],
                                );
                            }
                            if old(self).draw_blocked(target@) {
                                let j = choose|j: int|
                                    0 <= j < pre.len() && pre[j].0@ == target@ && (pre[j].1 matches
                                        Page::Game(g) && g.deck is None);
                                assert(j == i as int);
                            }
                        }
                        if ready {
                            Ok(Some(self.cur_component.clone()))
                        } else {
                            Err(AppError::DeckNotBuilt)
                        }
                    },
                }
            },
            Action::Update(target, msg) => {
                match find_component(&self.components, &target) {
                    None => Ok(None),
                    Some(i) => {
                        let ghost pre = self.components@;
                        let (name, mut page) = self.components.remove(i);
                        let r = match &mut page {
                            Page::Game(g) => g.update(Action::Update(target, msg), &mut self.repo),
                            _ => Ok(()),
                        };
                        self.components.insert(i, (name, page));
                        proof {
                            assert forall|j: int|
                                0 <= j < pre.len() && j != i implies self.components@[j] == pre[j] by {
                                pre.remove_ensures(i as int);
                                pre.remove(i as int).insert_ensures(
                                    i as int,
                                    self.components@[i as int],
                                );
                            }
                            assert(self.components@[i as int].0 == pre[i as int].0) by {
                                pre.remove_ensures(i as int);
                                pre.remove(i as int).insert_ensures(
                                    i as int,
                                    self.components@[i as int],
                                );
                            }
                        }
                        match r {
                            Ok(_) => Ok(None),
                            Err(e) => Err(AppError::DeckBuild(e)),
                        }
                    },
                }
            },
        }
    }

    /// Apply every queued action in FIFO order, as `actions_drained` says,
    /// stopping at the quit flag; the returned names are the pages to draw,
    /// in order. The first fatal action aborts the drain.
    pub fn drain_actions(&mut self) -> (res: Result<Vec<String>, AppError>)
        requires
            old(self).wf(),
        ensures
            final(self).wf(),
            App::same_names(*final(self), *old(self)),
            res matches Ok(v) ==> actions_drained(*old(self), *final(self), v@) && (final(self).should_quit || final(self).action_queue@.len() == 0),
            (old(self).should_quit || old(self).action_queue@.len() == 0) ==> (res matches Ok(v)
                && v@.len() == 0 && *final(self) == *old(self)),
        decreases old(self).action_queue@.len(),
    {
        if self.should_quit || self.action_queue.len() == 0 {
            return Ok(Vec::new());
        }
        let a = self.action_queue.remove(0);
        let ghost popped_state = *self;
        let d = match self.apply_action(a) {
            Err(e) => {
                return Err(e);
            },
            Ok(d) => d,
        };
        let ghost mid_state = *self;
        let ghost dv = d;
        let rest = match self.drain_actions() {
            Err(e) => {
                return Err(e);
            },
            Ok(rest) => rest,
        };
        let mut v: Vec<String> = Vec::new();
        match d {
            Some(n) => v.push(n),
            None => {},
        }
        let mut tail = rest;
        v.append(&mut tail);
        proof {
            assert(action_popped(*old(self), popped_state)) by {
                assert(popped_state.action_queue@ =~= old(self).action_queue@.skip(1));
            }
            assert(action_applied(popped_state, mid_state, old(self).action_queue@[0], Ok(dv)));
            assert(mid_state.action_queue@.len() < old(self).action_queue@.len());
            match dv {
                Some(n) => {
                    assert(v@.drop_first() =~= rest@);
                    assert(v@[0] == n);
                },
                None => {
                    assert(v@ =~= rest@);
                },
            }
            assert(actions_drained(*old(self), *self, v@));
        }
        Ok(v)
    }

    /// One iteration of the consumer loop: take the next buffered event,
    /// turn it into actions, then apply every queued action in FIFO order.
    /// On success the whole step is the front event dispatched followed by
    /// the drain of the action queue.
    pub fn step(&mut self) -> (res: Result<Vec<String>, AppError>)
        requires
            old(self).wf(),
        ensures
            final(self).wf(),
            App::same_names(*final(self), *old(self)),
            old(self).event_queue@.len() == 0 ==> (res matches Ok(v) && v@.len() == 0 && *final(self) == *old(self)),
            old(self).event_queue@.len() > 0 ==> (res matches Ok(v) ==> exists|
                popped: App,
                mid: App,
            |
                {
                    &&& #[trigger] event_popped(*old(self), popped)
                    &&& #[trigger] event_dispatched(popped, mid, old(self).event_queue@[0], Ok(()))
                    &&& actions_drained(mid, *final(self), v@)
                    &&& final(self).should_quit || final(self).action_queue@.len() == 0
                }),
    {
        if self.event_queue.len() == 0 {
            return Ok(Vec::new());
        }
        let e = self.event_queue.remove(0);
        let ghost popped_state = *self;
        match self.dispatch_event(e) {
            Err(er) => Err(er),
            Ok(_) => {
                let ghost mid_state = *self;
                match self.drain_actions() {
                    Err(er) => Err(er),
                    Ok(v) => {
                        proof {
                            assert(event_popped(*old(self), popped_state)) by {
                                assert(popped_state.event_queue@ =~= old(self).event_queue@.skip(1));
                            }
                            assert(event_dispatched(
                                popped_state,
                                mid_state,
                                old(self).event_queue@[0],
                                Ok(()),
                            ));
                        }
                        Ok(v)
                    },
                }
            },
        }
    }
}

/// The race guard, as a law: a render tick can change the active page only
/// when its action is applied, and committing a transition to a new page
/// empties the event backlog. So once a transition to `target` has
/// committed, no event queued before it survives — in particular no stale
/// render tick stamped with any earlier page — and nothing left in the
/// backlog can flip the active page back.
pub proof fn lemma_stale_render_dropped(pre: App, post: App, target: Seq<char>, stale: Seq<char>)
    requires
        render_applied(pre, post, target),
        target != pre.cur_component@,
    ensures
        post.cur_component@ == target,
        post.event_queue@.len() == 0,
        forall|i: int|
            0 <= i < post.event_queue@.len() ==> !(#[trigger] post.event_queue@[i] matches
                Event::Render(n) && n@ == stale),
{
}

} // verus!
