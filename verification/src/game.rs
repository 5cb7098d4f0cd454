//! Card records, the content repository, and the deck engine: building a
//! session deck from the repository pools, the reshuffle strategies, and
//! rollback of finished days.

use vstd::prelude::*;
use vstd::pervasive::VecAdditionalExecFns;
use vstd::string::StrSliceExecFns;

verus! {

/// One daily narrative unit: a story, its choices, and the progress points
/// each choice awards on success.
#[derive(Debug)]
pub struct EncounterCard {
    pub title: String,
    pub story: String,
    pub choices: Vec<Choice>,
    pub remark: String,
    pub progress: Vec<usize>,
    pub card_type: String,
}

/// One selectable option on an encounter card; display strings only.
#[derive(Debug)]
pub struct Choice {
    pub description: String,
    pub action: String,
    pub rewards: String,
}

/// The boss record that parameterizes a session: deck size bounds, the
/// progress threshold for the final challenge, and its display content.
#[derive(Debug)]
pub struct TyrantCard {
    pub id: String,
    pub name: String,
    pub description: String,
    pub min_progress: usize,
    pub max_days: usize,
    pub game_length: String,
    pub battle_title: String,
    pub creatures: String,
    pub battle_mechanism: Vec<String>,
    pub tyrant_skills: Vec<String>,
    pub tyrant_die: Vec<String>,
}

impl Clone for Choice {
    fn clone(&self) -> (r: Self)
        ensures
            r == *self,
    {
        Choice {
            description: self.description.clone(),
            action: self.action.clone(),
            rewards: self.rewards.clone(),
        }
    }
}

/// Two encounter cards that agree in every field a player can see.
pub open spec fn same_card(a: EncounterCard, b: EncounterCard) -> bool {
    &&& a.title == b.title
    &&& a.story == b.story
    &&& a.choices@ == b.choices@
    &&& a.remark == b.remark
    &&& a.progress@ == b.progress@
    &&& a.card_type == b.card_type
}

/// Two tyrant cards that agree in every field a player can see.
pub open spec fn same_tyrant(a: TyrantCard, b: TyrantCard) -> bool {
    &&& a.id == b.id
    &&& a.name == b.name
    &&& a.description == b.description
    &&& a.min_progress == b.min_progress
    &&& a.max_days == b.max_days
    &&& a.game_length == b.game_length
    &&& a.battle_title == b.battle_title
    &&& a.creatures == b.creatures
    &&& a.battle_mechanism@ == b.battle_mechanism@
    &&& a.tyrant_skills@ == b.tyrant_skills@
    &&& a.tyrant_die@ == b.tyrant_die@
}

/// Two card sequences of the same length whose entries read the same.
pub open spec fn same_cards(a: Seq<EncounterCard>, b: Seq<EncounterCard>) -> bool {
    &&& a.len() == b.len()
    &&& forall|i: int| 0 <= i < a.len() ==> same_card(#[trigger] a[i], b[i])
}

fn clone_choices(v: &Vec<Choice>) -> (r: Vec<Choice>)
    ensures
        r@ == v@,
{
    let mut r: Vec<Choice> = Vec::new();
    let mut i: usize = 0;
    while i < v.len()
        invariant
            i <= v@.len(),
            r@ == v@.take(i as int),
        decreases v@.len() - i,
    {
        r.push(v[i].clone());
        i = i + 1;
        proof {
            assert(r@ =~= v@.take(i as int));
        }
    }
    proof {
        assert(r@ =~= v@);
    }
    r
}

fn copy_usizes(v: &Vec<usize>) -> (r: Vec<usize>)
    ensures
        r@ == v@,
{
    let mut r: Vec<usize> = Vec::new();
    let mut i: usize = 0;
    while i < v.len()
        invariant
            i <= v@.len(),
            r@ == v@.take(i as int),
        decreases v@.len() - i,
    {
        r.push(v[i]);
        i = i + 1;
        proof {
            assert(r@ =~= v@.take(i as int));
        }
    }
    proof {
        assert(r@ =~= v@);
    }
    r
}

fn clone_strings(v: &Vec<String>) -> (r: Vec<String>)
    ensures
        r@ == v@,
{
    let mut r: Vec<String> = Vec::new();
    let mut i: usize = 0;
    while i < v.len()
        invariant
            i <= v@.len(),
            r@ == v@.take(i as int),
        decreases v@.len() - i,
    {
        r.push(v[i].clone());
        i = i + 1;
        proof {
            assert(r@ =~= v@.take(i as int));
        }
    }
    proof {
        assert(r@ =~= v@);
    }
    r
}

impl Clone for EncounterCard {
    /// The clone reads the same in every field a player can see.
    fn clone(&self) -> (r: Self)
        ensures
            same_card(r, *self),
    {
        EncounterCard {
            title: self.title.clone(),
            story: self.story.clone(),
            choices: clone_choices(&self.choices),
            remark: self.remark.clone(),
            progress: copy_usizes(&self.progress),
            card_type: self.card_type.clone(),
        }
    }
}

impl Clone for TyrantCard {
    /// The clone reads the same in every field a player can see.
    fn clone(&self) -> (r: Self)
        ensures
            same_tyrant(r, *self),
    {
        TyrantCard {
            id: self.id.clone(),
            name: self.name.clone(),
            description: self.description.clone(),
            min_progress: self.min_progress,
            max_days: self.max_days,
            game_length: self.game_length.clone(),
            battle_title: self.battle_title.clone(),
            creatures: self.creatures.clone(),
            battle_mechanism: clone_strings(&self.battle_mechanism),
            tyrant_skills: clone_strings(&self.tyrant_skills),
            tyrant_die: clone_strings(&self.tyrant_die),
        }
    }
}

fn clone_cards(v: &Vec<EncounterCard>) -> (r: Vec<EncounterCard>)
    ensures
        same_cards(r@, v@),
{
    let mut r: Vec<EncounterCard> = Vec::new();
    let mut i: usize = 0;
    while i < v.len()
        invariant
            i <= v@.len(),
            r@.len() == i,
            forall|j: int| 0 <= j < i ==> same_card(#[trigger] r@[j], v@[j]),
        decreases v@.len() - i,
    {
        r.push(v[i].clone());
        i = i + 1;
    }
    r
}

fn clone_tyrants(v: &Vec<TyrantCard>) -> (r: Vec<TyrantCard>)
    ensures
        r@.len() == v@.len(),
        forall|i: int| 0 <= i < v@.len() ==> same_tyrant(#[trigger] r@[i], v@[i]),
{
    let mut r: Vec<TyrantCard> = Vec::new();
    let mut i: usize = 0;
    while i < v.len()
        invariant
            i <= v@.len(),
            r@.len() == i,
            forall|j: int| 0 <= j < i ==> same_tyrant(#[trigger] r@[j], v@[j]),
        decreases v@.len() - i,
    {
        r.push(v[i].clone());
        i = i + 1;
    }
    r
}

/// The in-memory card pools, loaded once at startup and drained as cards are
/// drawn into a session deck. The scenario-specific pool of `tyrants[i]` is
/// `tyrant_pools[i]`.
#[derive(Debug)]
pub struct Repository {
    pub day1: Vec<EncounterCard>,
    pub day2: Vec<EncounterCard>,
    pub day3: Vec<EncounterCard>,
    pub special: Vec<EncounterCard>,
    pub general: Vec<EncounterCard>,
    pub tyrants: Vec<TyrantCard>,
    pub tyrant_pools: Vec<Vec<EncounterCard>>,
}

impl Repository {
    /// Each tyrant has exactly one scenario pool, and tyrant identifiers are
    /// pairwise distinct, so a lookup by identifier is unambiguous.
    pub open spec fn wf(self) -> bool {
        &&& self.tyrant_pools@.len() == self.tyrants@.len()
        &&& forall|i: int, j: int|
            0 <= i < j < self.tyrants@.len() ==> self.tyrants@[i].id@ != self.tyrants@[j].id@
    }

    pub fn new(
        day1: Vec<EncounterCard>,
        day2: Vec<EncounterCard>,
        day3: Vec<EncounterCard>,
        special: Vec<EncounterCard>,
        general: Vec<EncounterCard>,
        tyrants: Vec<TyrantCard>,
        tyrant_pools: Vec<Vec<EncounterCard>>,
    ) -> (r: Self)
        requires
            tyrant_pools@.len() == tyrants@.len(),
            forall|i: int, j: int|
                0 <= i < j < tyrants@.len() ==> tyrants@[i].id@ != tyrants@[j].id@,
        ensures
            r.day1 == day1,
            r.day2 == day2,
            r.day3 == day3,
            r.special == special,
            r.general == general,
            r.tyrants == tyrants,
            r.tyrant_pools == tyrant_pools,
            r.wf(),
    {
        Repository { day1, day2, day3, special, general, tyrants, tyrant_pools }
    }
}

/// A copy of the day-1 opener pool.
pub fn list_day1_encounter_cards(repo: &Repository) -> (r: Vec<EncounterCard>)
    ensures
        same_cards(r@, repo.day1@),
{
    clone_cards(&repo.day1)
}

/// A copy of the day-2 opener pool.
pub fn list_day2_encounter_cards(repo: &Repository) -> (r: Vec<EncounterCard>)
    ensures
        same_cards(r@, repo.day2@),
{
    clone_cards(&repo.day2)
}

/// A copy of the day-3 opener pool.
pub fn list_day3_encounter_cards(repo: &Repository) -> (r: Vec<EncounterCard>)
    ensures
        same_cards(r@, repo.day3@),
{
    clone_cards(&repo.day3)
}

/// A copy of the general filler pool.
pub fn list_general_encounter_cards(repo: &Repository) -> (r: Vec<EncounterCard>)
    ensures
        same_cards(r@, repo.general@),
{
    clone_cards(&repo.general)
}

/// A copy of the special-card pool.
pub fn list_special_encounter_cards(repo: &Repository) -> (r: Vec<EncounterCard>)
    ensures
        same_cards(r@, repo.special@),
{
    clone_cards(&repo.special)
}

/// A copy of every scenario-specific pool, aligned with `repo.tyrants`.
pub fn list_tyrant_encounter_cards(repo: &Repository) -> (r: Vec<Vec<EncounterCard>>)
    ensures
        r@.len() == repo.tyrant_pools@.len(),
        forall|i: int| 0 <= i < r@.len() ==> same_cards(#[trigger] r@[i]@, repo.tyrant_pools@[i]@),
{
    let mut r: Vec<Vec<EncounterCard>> = Vec::new();
    let mut i: usize = 0;
    while i < repo.tyrant_pools.len()
        invariant
            i <= repo.tyrant_pools@.len(),
            r@.len() == i,
            forall|j: int| 0 <= j < i ==> same_cards(#[trigger] r@[j]@, repo.tyrant_pools@[j]@),
        decreases repo.tyrant_pools@.len() - i,
    {
        r.push(clone_cards(&repo.tyrant_pools[i]));
        i = i + 1;
    }
    r
}

/// A copy of the tyrant card list.
pub fn list_tyrant_cards(repo: &Repository) -> (r: Vec<TyrantCard>)
    ensures
        r@.len() == repo.tyrants@.len(),
        forall|i: int| 0 <= i < r@.len() ==> same_tyrant(#[trigger] r@[i], repo.tyrants@[i]),
{
    clone_tyrants(&repo.tyrants)
}

/// A card that belongs to the selected tyrant's own scenario set.
pub open spec fn is_tyrant_card(c: EncounterCard) -> bool {
    c.card_type@ == "tyrant"@
}

/// A card tagged as one of the three fixed day openers.
pub open spec fn is_day_opener(c: EncounterCard) -> bool {
    c.card_type@.len() >= 3 && c.card_type@.subrange(0, 3) == "day"@
}

fn card_is_tyrant(c: &EncounterCard) -> (r: bool)
    ensures
        r == is_tyrant_card(*c),
{
    let tag: String = "tyrant".to_owned();
    c.card_type == tag
}

fn card_is_day_opener(c: &EncounterCard) -> (r: bool)
    ensures
        r == is_day_opener(*c),
{
    let s: &str = c.card_type.as_str();
    if s.unicode_len() < 3 {
        return false;
    }
    let c0 = s.get_char(0);
    let c1 = s.get_char(1);
    let c2 = s.get_char(2);
    let r = c0 == 'd' && c1 == 'a' && c2 == 'y';
    proof {
        reveal_strlit("day");
        assert(r ==> c.card_type@.subrange(0, 3) =~= "day"@);
        if c.card_type@.subrange(0, 3) == "day"@ {
            assert(c.card_type@[0] == c.card_type@.subrange(0, 3)[0]);
            assert(c.card_type@[1] == c.card_type@.subrange(0, 3)[1]);
            assert(c.card_type@[2] == c.card_type@.subrange(0, 3)[2]);
        }
    }
    r
}

/// One session's card sequence and the boss it is played against. Index 0 of
/// `encounter_cards` is today's card.
#[derive(Debug)]
pub struct EncounterDeck {
    pub tyrant_card: TyrantCard,
    pub encounter_cards: Vec<EncounterCard>,
}

/// The five in-place reorderings applied to the live deck after a day is
/// resolved.
#[derive(Debug)]
pub enum ShuffleStrategy {
    PutCurrentCardTop,
    PutCurrentCardRandom,
    FirstTyrantCardTopAndShuffleRest,
    PickSpecialCardAndShuffle,
    ReplaceTodayEncounterAndShuffleTodayEncounter,
}

/// One day advances by moving the front card of the live deck into the
/// finished history.
pub open spec fn advance_one_day(
    deck: Seq<EncounterCard>,
    finished: Seq<EncounterCard>,
) -> (Seq<EncounterCard>, Seq<EncounterCard>)
    recommends
        deck.len() > 0,
{
    (deck.drop_first(), finished.push(deck.first()))
}

/// `n` successive day advances.
pub open spec fn advance_days(
    deck: Seq<EncounterCard>,
    finished: Seq<EncounterCard>,
    n: nat,
) -> (Seq<EncounterCard>, Seq<EncounterCard>)
    decreases n,
{
    if n == 0 {
        (deck, finished)
    } else {
        let (d, f) = advance_one_day(deck, finished);
        advance_days(d, f, (n - 1) as nat)
    }
}

/// Rolling back to `day` and then advancing one day at a time, once for each
/// card that was returned to the deck, restores both the live sequence and
/// the finished history exactly.
pub proof fn lemma_rollback_advance_roundtrip(
    deck: Seq<EncounterCard>,
    finished: Seq<EncounterCard>,
    day: int,
)
    requires
        1 <= day <= finished.len(),
    ensures
        advance_days(
            finished.skip(day - 1) + deck,
            finished.take(day - 1),
            (finished.len() - day + 1) as nat,
        ) == (deck, finished),
    decreases finished.len() - day,
{
    let rolled_deck = finished.skip(day - 1) + deck;
    let rolled_fin = finished.take(day - 1);
    assert(rolled_deck.len() > 0);
    let (d1, f1) = advance_one_day(rolled_deck, rolled_fin);
    assert(rolled_deck.first() == finished[day - 1]);
    assert(d1 =~= finished.skip(day) + deck);
    assert(f1 =~= finished.take(day));
    if day == finished.len() {
        assert(d1 =~= deck);
        assert(f1 =~= finished);
        assert(advance_days(d1, f1, 0nat) == (d1, f1));
        assert(advance_days(rolled_deck, rolled_fin, 1nat) == (d1, f1));
    } else {
        lemma_rollback_advance_roundtrip(deck, finished, day + 1);
    }
}

/// Inserting an element anywhere in a sequence adds exactly that element to
/// its multiset.
proof fn lemma_insert_to_multiset(s: Seq<EncounterCard>, i: int, c: EncounterCard)
    requires
        0 <= i <= s.len(),
    ensures
        s.insert(i, c).to_multiset() == s.to_multiset().insert(c),
{
    broadcast use vstd::seq_lib::group_to_multiset_ensures;
    broadcast use vstd::multiset::group_multiset_axioms;

    let t = s.insert(i, c);
    s.insert_ensures(i, c);
    assert(t.remove(i) =~= s);
    assert(s.to_multiset() == t.to_multiset().remove(c));
    assert(t.contains(c)) by {
        assert(t[i] == c);
    }
    assert(t.to_multiset().count(c) > 0);
    assert(t.to_multiset() =~= s.to_multiset().insert(c));
}

/// The index of the first card of the tyrant's own scenario set, if any.
fn first_tyrant_index(cards: &Vec<EncounterCard>) -> (r: Option<usize>)
    ensures
        r matches Some(i) ==> {
            &&& i < cards@.len()
            &&& is_tyrant_card(cards@[i as int])
            &&& forall|k: int| 0 <= k < i ==> !is_tyrant_card(#[trigger] cards@[k])
        },
        r is None ==> forall|k: int| 0 <= k < cards@.len() ==> !is_tyrant_card(
            #[trigger] cards@[k],
        ),
{
    let mut i: usize = 0;
    while i < cards.len()
        invariant
            i <= cards@.len(),
            forall|k: int| 0 <= k < i ==> !is_tyrant_card(#[trigger] cards@[k]),
        decreases cards@.len() - i,
    {
        if card_is_tyrant(&cards[i]) {
            return Some(i);
        }
        i = i + 1;
    }
    None
}

/// The index of the first card that is not a day opener; the length of the
/// sequence when every card is one.
fn first_non_opener_index(cards: &Vec<EncounterCard>) -> (r: usize)
    ensures
        r <= cards@.len(),
        forall|k: int| 0 <= k < r ==> is_day_opener(#[trigger] cards@[k]),
        r < cards@.len() ==> !is_day_opener(cards@[r as int]),
{
    let mut i: usize = 0;
    while i < cards.len()
        invariant
            i <= cards@.len(),
            forall|k: int| 0 <= k < i ==> is_day_opener(#[trigger] cards@[k]),
        decreases cards@.len() - i,
    {
        if !card_is_day_opener(&cards[i]) {
            return i;
        }
        i = i + 1;
    }
    i
}

/// The fatal conditions under which a session deck cannot be built.
#[derive(Debug, Clone, Copy, PartialEq, Eq, Structural)]
pub enum DeckError {
    /// No tyrant card carries the requested identifier.
    UnknownTyrant,
    /// The tyrant allows fewer days than its scenario cards plus the three
    /// openers need.
    NegativeFillerCount,
    /// The general pool holds fewer cards than the filler count asks for.
    GeneralPoolExhausted,
    /// One of the three day-opener pools is empty.
    OpenerPoolEmpty,
}

/// Some tyrant card carries this identifier.
pub open spec fn has_tyrant(tyrants: Seq<TyrantCard>, name: Seq<char>) -> bool {
    exists|i: int| 0 <= i < tyrants.len() && tyrants[i].id@ == name
}

/// The index of the tyrant card carrying this identifier; unambiguous when
/// identifiers are distinct.
pub open spec fn tyrant_index(tyrants: Seq<TyrantCard>, name: Seq<char>) -> int {
    choose|i: int| 0 <= i < tyrants.len() && tyrants[i].id@ == name
}

/// The error, if any, that building a deck for `name` out of `repo` reports;
/// the checks run in this order.
pub open spec fn build_error(repo: Repository, name: Seq<char>) -> Option<DeckError> {
    if !has_tyrant(repo.tyrants@, name) {
        Some(DeckError::UnknownTyrant)
    } else {
        let ti = tyrant_index(repo.tyrants@, name);
        let t = repo.tyrants@[ti];
        let scen_len = repo.tyrant_pools@[ti]@.len();
        if t.max_days < scen_len + 3 {
            Some(DeckError::NegativeFillerCount)
        } else if repo.general@.len() < t.max_days - scen_len - 3 {
            Some(DeckError::GeneralPoolExhausted)
        } else if repo.day1@.len() == 0 || repo.day2@.len() == 0 || repo.day3@.len() == 0 {
            Some(DeckError::OpenerPoolEmpty)
        } else {
            None
        }
    }
}

/// The index of the first tyrant card carrying this identifier, if any.
fn find_tyrant(tyrants: &Vec<TyrantCard>, name: &String) -> (r: Option<usize>)
    ensures
        r matches Some(i) ==> i < tyrants@.len() && tyrants@[i as int].id@ == name@,
        r is None ==> forall|k: int| 0 <= k < tyrants@.len() ==> #[trigger] tyrants@[k].id@
            != name@,
{
    let mut i: usize = 0;
    while i < tyrants.len()
        invariant
            i <= tyrants@.len(),
            forall|k: int| 0 <= k < i ==> #[trigger] tyrants@[k].id@ != name@,
        decreases tyrants@.len() - i,
    {
        if tyrants[i].id == *name {
            return Some(i);
        }
        i = i + 1;
    }
    None
}

/// The deck handed out for `name` together with how the pools changed: the
/// deck holds `max_days` cards, its first three slots were drawn from the
/// day-opener pools, the named tyrant's scenario pool was drained into it,
/// and the filler cards moved from the general pool into it with nothing
/// duplicated or lost. Pools and deck stay disjoint.
pub open spec fn deck_built(
    repo_pre: Repository,
    repo_post: Repository,
    name: Seq<char>,
    deck: EncounterDeck,
) -> bool {
    let ti = tyrant_index(repo_pre.tyrants@, name);
    let t = repo_pre.tyrants@[ti];
    let scen = repo_pre.tyrant_pools@[ti]@;
    &&& 0 <= ti < repo_pre.tyrants@.len()
    &&& t.id@ == name
    &&& same_tyrant(deck.tyrant_card, t)
    &&& deck.encounter_cards@.len() == t.max_days
    &&& exists|i: int|
        0 <= i < repo_pre.day1@.len() && deck.encounter_cards@[0] == repo_pre.day1@[i]
            && repo_post.day1@ == repo_pre.day1@.remove(i)
    &&& exists|i: int|
        0 <= i < repo_pre.day2@.len() && deck.encounter_cards@[1] == repo_pre.day2@[i]
            && repo_post.day2@ == repo_pre.day2@.remove(i)
    &&& exists|i: int|
        0 <= i < repo_pre.day3@.len() && deck.encounter_cards@[2] == repo_pre.day3@[i]
            && repo_post.day3@ == repo_pre.day3@.remove(i)
    &&& deck.encounter_cards@.skip(3).to_multiset().add(repo_post.general@.to_multiset())
        == scen.to_multiset().add(repo_pre.general@.to_multiset())
    &&& repo_post.general@.len() == repo_pre.general@.len() - (t.max_days - scen.len() - 3)
    &&& repo_post.tyrant_pools@.len() == repo_pre.tyrant_pools@.len()
    &&& repo_post.tyrant_pools@[ti]@.len() == 0
    &&& forall|j: int|
        0 <= j < repo_pre.tyrant_pools@.len() && j != ti ==> repo_post.tyrant_pools@[j]
            == repo_pre.tyrant_pools@[j]
    &&& repo_post.special == repo_pre.special
    &&& repo_post.tyrants == repo_pre.tyrants
}

impl EncounterDeck {
    /// Build the session deck for the named tyrant: take over its scenario
    /// pool, draw random filler cards from the general pool up to
    /// `max_days - 3` cards in all, shuffle that mix, and put one card drawn
    /// from each day-opener pool at positions 0, 1 and 2.
    pub fn new(tyrant_name: &str, repo: &mut Repository) -> (res: Result<EncounterDeck, DeckError>)
        requires
            old(repo).wf(),
        ensures
            final(repo).wf(),
            res is Err <==> build_error(*old(repo), tyrant_name@) is Some,
            res matches Err(e) ==> Some(e) == build_error(*old(repo), tyrant_name@) && *final(repo)
                == *old(repo),
            res matches Ok(deck) ==> deck_built(*old(repo), *final(repo), tyrant_name@, deck),
    {
        broadcast use vstd::seq_lib::group_to_multiset_ensures;
        broadcast use vstd::multiset::group_multiset_axioms;

        let name: String = tyrant_name.to_owned();
        let ti: usize = match find_tyrant(&repo.tyrants, &name) {
            Some(i) => i,
            None => {
                proof {
                    assert(!has_tyrant(repo.tyrants@, tyrant_name@));
                }
                return Err(DeckError::UnknownTyrant);
            },
        };
        proof {
            assert(has_tyrant(repo.tyrants@, tyrant_name@));
            let j = tyrant_index(repo.tyrants@, tyrant_name@);
            assert(0 <= j < repo.tyrants@.len() && repo.tyrants@[j].id@ == tyrant_name@);
            assert(j == ti as int);
        }
        let t_max = repo.tyrants[ti].max_days;
        let scen_len = repo.tyrant_pools[ti].len();
        if t_max < scen_len || t_max - scen_len < 3 {
            return Err(DeckError::NegativeFillerCount);
        }
        let filler = t_max - scen_len - 3;
        if repo.general.len() < filler {
            return Err(DeckError::GeneralPoolExhausted);
        }
        if repo.day1.len() == 0 || repo.day2.len() == 0 || repo.day3.len() == 0 {
            return Err(DeckError::OpenerPoolEmpty);
        }
        let tyrant_card = repo.tyrants[ti].clone();

        let mut cards: Vec<EncounterCard> = Vec::new();
        let mut pool: Vec<EncounterCard> = Vec::new();
        repo.tyrant_pools.set_and_swap(ti, &mut pool);
        let ghost scen = pool@;
        cards.append(&mut pool);

        let ghost general0 = repo.general@;
        let ghost pools1 = repo.tyrant_pools@;
        let mut rng = crate::rng::new_rng();
        let mut k: usize = 0;
        while k < filler
            invariant
                k <= filler,
                cards@.len() == scen.len() + k,
                repo.general@.len() == general0.len() - k,
                general0.len() >= filler,
                cards@.to_multiset().add(repo.general@.to_multiset()) == scen.to_multiset().add(
                    general0.to_multiset(),
                ),
                repo.day1 == old(repo).day1,
                repo.day2 == old(repo).day2,
                repo.day3 == old(repo).day3,
                repo.special == old(repo).special,
                repo.tyrants == old(repo).tyrants,
                repo.tyrant_pools@ == pools1,
            decreases filler - k,
        {
            let ghost cards_pre = cards@;
            let ghost general_pre = repo.general@;
            let gi = crate::rng::rand_range(&mut rng, 0, repo.general.len());
            let c = repo.general.remove(gi);
            cards.push(c);
            proof {
                broadcast use vstd::seq_lib::group_to_multiset_ensures;
                broadcast use vstd::multiset::group_multiset_axioms;

                assert(general_pre[gi as int] == c);
                assert(general_pre.contains(c));
                assert(general_pre.to_multiset().count(c) > 0);
                assert(repo.general@.to_multiset() == general_pre.to_multiset().remove(c));
                assert(cards@.to_multiset() == cards_pre.to_multiset().insert(c));
                assert(cards@.to_multiset().add(repo.general@.to_multiset())
                    =~= cards_pre.to_multiset().add(general_pre.to_multiset()));
            }
            k = k + 1;
        }

        crate::rng::shuffle_cards(&mut rng, &mut cards);
        let ghost mixed = cards@;

        let i1 = crate::rng::rand_range(&mut rng, 0, repo.day1.len());
        let c1 = repo.day1.remove(i1);
        cards.insert(0, c1);
        let i2 = crate::rng::rand_range(&mut rng, 0, repo.day2.len());
        let c2 = repo.day2.remove(i2);
        cards.insert(1, c2);
        let i3 = crate::rng::rand_range(&mut rng, 0, repo.day3.len());
        let c3 = repo.day3.remove(i3);
        cards.insert(2, c3);
        proof {
            let with1 = mixed.insert(0, c1);
            let with2 = with1.insert(1, c2);
            let with3 = with2.insert(2, c3);
            assert(cards@ == with3);
            assert(with3[0] == c1 && with3[1] == c2 && with3[2] == c3);
            assert(with3.skip(3) =~= mixed);
            assert(cards@.len() == t_max);
        }
        Ok(EncounterDeck { tyrant_card, encounter_cards: cards })
    }

    /// Apply one reshuffle strategy to the live deck. Every strategy keeps
    /// the multiset of cards in play, beyond the card it is explicitly handed
    /// and, for the replace strategy, the one replacement card drawn from the
    /// general pool.
    pub fn shuffle(
        &mut self,
        repo: &mut Repository,
        shuffle_strategy: ShuffleStrategy,
        encounter_card: Option<EncounterCard>,
    )
        requires
            old(repo).wf(),
            match shuffle_strategy {
                ShuffleStrategy::PutCurrentCardTop => encounter_card is Some,
                ShuffleStrategy::PutCurrentCardRandom => encounter_card is Some && old(self).encounter_cards@.len() < usize::MAX,
                ShuffleStrategy::FirstTyrantCardTopAndShuffleRest => true,
                ShuffleStrategy::PickSpecialCardAndShuffle => encounter_card is Some,
                ShuffleStrategy::ReplaceTodayEncounterAndShuffleTodayEncounter => {
                    &&& encounter_card is Some
                    &&& old(self).encounter_cards@.len() > 0
                    &&& old(repo).general@.len() >= 1
                },
            },
        ensures
            final(self).tyrant_card == old(self).tyrant_card,
            final(repo).wf(),
            final(repo).day1 == old(repo).day1,
            final(repo).day2 == old(repo).day2,
            final(repo).day3 == old(repo).day3,
            final(repo).special == old(repo).special,
            final(repo).tyrants == old(repo).tyrants,
            final(repo).tyrant_pools == old(repo).tyrant_pools,
            !(shuffle_strategy is ReplaceTodayEncounterAndShuffleTodayEncounter)
                ==> final(repo).general == old(repo).general,
            match shuffle_strategy {
                ShuffleStrategy::PutCurrentCardTop => {
                    &&& final(self).encounter_cards@ == old(self).encounter_cards@.insert(
                        0,
                        encounter_card.unwrap(),
                    )
                    &&& final(self).encounter_cards@.to_multiset() == old(
                        self,
                    ).encounter_cards@.to_multiset().insert(encounter_card.unwrap())
                },
                ShuffleStrategy::PutCurrentCardRandom => {
                    &&& exists|i: int|
                        0 <= i <= old(self).encounter_cards@.len() && final(self).encounter_cards@
                            == old(self).encounter_cards@.insert(i, encounter_card.unwrap())
                    &&& final(self).encounter_cards@.to_multiset() == old(self).encounter_cards@.to_multiset().insert(encounter_card.unwrap())
                },
                ShuffleStrategy::FirstTyrantCardTopAndShuffleRest => {
                    &&& final(self).encounter_cards@.len() == old(self).encounter_cards@.len()
                    &&& final(self).encounter_cards@.to_multiset() == old(self).encounter_cards@.to_multiset()
                    &&& (forall|k: int|
                        0 <= k < old(self).encounter_cards@.len() ==> !is_tyrant_card(
                            #[trigger] old(self).encounter_cards@[k],
                        )) ==> final(self).encounter_cards@ == old(self).encounter_cards@
                    &&& (exists|k: int|
                        0 <= k < old(self).encounter_cards@.len() && is_tyrant_card(
                            #[trigger] old(self).encounter_cards@[k],
                        )) ==> exists|fi: int|
                        {
                            &&& 0 <= fi < old(self).encounter_cards@.len()
                            &&& is_tyrant_card(old(self).encounter_cards@[fi])
                            &&& forall|k: int|
                                0 <= k < fi ==> !is_tyrant_card(
                                    #[trigger] old(self).encounter_cards@[k],
                                )
                            &&& final(self).encounter_cards@[0] == old(self).encounter_cards@[fi]
                        }
                },
                ShuffleStrategy::PickSpecialCardAndShuffle => {
                    let pushed = old(self).encounter_cards@.push(encounter_card.unwrap());
                    &&& final(self).encounter_cards@.len() == pushed.len()
                    &&& final(self).encounter_cards@.to_multiset() == pushed.to_multiset()
                    &&& exists|p: int|
                        {
                            &&& 0 <= p <= pushed.len()
                            &&& (forall|k: int| 0 <= k < p ==> is_day_opener(#[trigger] pushed[k]))
                            &&& (p < pushed.len() ==> !is_day_opener(pushed[p]))
                            &&& final(self).encounter_cards@.subrange(0, p) == pushed.subrange(0, p)
                            &&& final(self).encounter_cards@.skip(p).to_multiset()
                                == pushed.skip(p).to_multiset()
                        }
                },
                ShuffleStrategy::ReplaceTodayEncounterAndShuffleTodayEncounter => {
                    &&& final(self).encounter_cards@.len() == old(self).encounter_cards@.len() + 2
                    &&& final(self).encounter_cards@.to_multiset() == old(self).encounter_cards@.to_multiset().insert(encounter_card.unwrap()).insert(
                        final(self).encounter_cards@[0],
                    )
                    &&& exists|gi: int, di: int|
                        {
                            &&& 0 <= gi < old(repo).general@.len()
                            &&& 0 <= di < old(self).encounter_cards@.len()
                            &&& final(repo).general@ == old(repo).general@.remove(gi)
                            &&& final(self).encounter_cards@ == old(self).encounter_cards@.insert(di, encounter_card.unwrap()).insert(
                                0,
                                old(repo).general@[gi],
                            )
                        }
                },
            },
    {
        broadcast use vstd::seq_lib::group_to_multiset_ensures;
        broadcast use vstd::multiset::group_multiset_axioms;

        let mut rng = crate::rng::new_rng();
        match shuffle_strategy {
            ShuffleStrategy::PutCurrentCardTop => {
                let card = encounter_card.unwrap();
                self.encounter_cards.insert(0, card);
                proof {
                    lemma_insert_to_multiset(
                        old(self).encounter_cards@,
                        0,
                        encounter_card.unwrap(),
                    );
                }
            },
            ShuffleStrategy::PutCurrentCardRandom => {
                let card = encounter_card.unwrap();
                let idx = crate::rng::rand_range(&mut rng, 0, self.encounter_cards.len() + 1);
                self.encounter_cards.insert(idx, card);
                proof {
                    lemma_insert_to_multiset(
                        old(self).encounter_cards@,
                        idx as int,
                        encounter_card.unwrap(),
                    );
                }
            },
            ShuffleStrategy::FirstTyrantCardTopAndShuffleRest => {
                match first_tyrant_index(&self.encounter_cards) {
                    None => {},
                    Some(i) => {
                        let ghost cards0 = self.encounter_cards@;
                        let card = self.encounter_cards.remove(i);
                        crate::rng::shuffle_cards(&mut rng, &mut self.encounter_cards);
                        let ghost shuffled = self.encounter_cards@;
                        self.encounter_cards.insert(0, card);
                        proof {
                            lemma_insert_to_multiset(shuffled, 0, card);
                            assert(cards0.to_multiset().count(card) > 0) by {
                                assert(cards0.contains(card)) by {
                                    assert(cards0[i as int] == card);
                                }
                            }
                            assert(self.encounter_cards@.to_multiset() =~= cards0.to_multiset());
                            assert(self.encounter_cards@[0] == card);
                        }
                    },
                }
            },
            ShuffleStrategy::PickSpecialCardAndShuffle => {
                let card = encounter_card.unwrap();
                self.encounter_cards.push(card);
                let ghost pushed = self.encounter_cards@;
                let p = first_non_opener_index(&self.encounter_cards);
                let mut tail = self.encounter_cards.split_off(p);
                crate::rng::shuffle_cards(&mut rng, &mut tail);
                let ghost shuffled_tail = tail@;
                self.encounter_cards.append(&mut tail);
                proof {
                    broadcast use vstd::seq_lib::lemma_multiset_commutative;

                    assert(self.encounter_cards@.subrange(0, p as int) =~= pushed.subrange(
                        0,
                        p as int,
                    ));
                    assert(self.encounter_cards@.skip(p as int) =~= shuffled_tail);
                    assert(pushed.subrange(p as int, pushed.len() as int) =~= pushed.skip(
                        p as int,
                    ));
                    assert(pushed.subrange(0, p as int) + pushed.skip(p as int) =~= pushed);
                    assert(self.encounter_cards@.to_multiset() =~= pushed.to_multiset());
                }
            },
            ShuffleStrategy::ReplaceTodayEncounterAndShuffleTodayEncounter => {
                let card = encounter_card.unwrap();
                let gi = crate::rng::rand_range(&mut rng, 0, repo.general.len());
                let replacement = repo.general.remove(gi);
                let di = crate::rng::rand_range(&mut rng, 0, self.encounter_cards.len());
                let ghost cards0 = self.encounter_cards@;
                self.encounter_cards.insert(di, card);
                let ghost cards1 = self.encounter_cards@;
                self.encounter_cards.insert(0, replacement);
                proof {
                    lemma_insert_to_multiset(cards0, di as int, encounter_card.unwrap());
                    lemma_insert_to_multiset(cards1, 0, replacement);
                    assert(self.encounter_cards@[0] == replacement);
                }
            },
        }
    }

    /// Undo day advances: pop the most recently finished card and put it back
    /// on top of the live deck until only the first `day - 1` finished days
    /// remain. A `day` beyond the history leaves everything unchanged.
    pub fn rollback(&mut self, finished_encounter_cards: &mut Vec<EncounterCard>, day: usize)
        requires
            day >= 1,
        ensures
            final(self).tyrant_card == old(self).tyrant_card,
            day > old(finished_encounter_cards)@.len() ==> {
                &&& final(self).encounter_cards@ == old(self).encounter_cards@
                &&& final(finished_encounter_cards)@ == old(finished_encounter_cards)@
            },
            day <= old(finished_encounter_cards)@.len() ==> {
                &&& final(finished_encounter_cards)@ == old(finished_encounter_cards)@.take(
                    day - 1,
                )
                &&& final(self).encounter_cards@ == old(finished_encounter_cards)@.skip(day - 1)
                    + old(self).encounter_cards@
            },
    {
        if day <= finished_encounter_cards.len() {
            while finished_encounter_cards.len() >= day
                invariant
                    day >= 1,
                    finished_encounter_cards@.len() >= day - 1,
                    finished_encounter_cards@.len() <= old(finished_encounter_cards)@.len(),
                    finished_encounter_cards@ == old(finished_encounter_cards)@.take(
                        finished_encounter_cards@.len() as int,
                    ),
                    self.encounter_cards@ == old(finished_encounter_cards)@.skip(
                        finished_encounter_cards@.len() as int,
                    ) + old(self).encounter_cards@,
                    self.tyrant_card == old(self).tyrant_card,
                decreases finished_encounter_cards@.len(),
            {
                let ghost m = finished_encounter_cards@.len() as int;
                let card = finished_encounter_cards.pop().unwrap();
                self.encounter_cards.insert(0, card);
                proof {
                    assert(card == old(finished_encounter_cards)@[m - 1]);
                    assert(finished_encounter_cards@ =~= old(finished_encounter_cards)@.take(
                        m - 1,
                    ));
                    assert(self.encounter_cards@ =~= old(finished_encounter_cards)@.skip(m - 1)
                        + old(self).encounter_cards@);
                }
            }
        }
    }
}

} // verus!
