//! The screens of the mobile application and a planner that walks between
//! them the way a person does: along a weighted graph of transitions, now and
//! then going back to a screen it came from.
use vstd::prelude::*;
use std::collections::VecDeque;
use rand::distributions::{Distribution, WeightedIndex};

verus! {

/// A screen of the application.
#[derive(Copy, Clone, Debug, PartialEq, Eq, Hash, Structural)]
pub enum Screen {
    Background,
    Contacts,
    Chats,
    Search,
    Calls,
    Chat,
    Settings,
    MiniApp,
}

/// The number by which the protocol knows a screen.
pub open spec fn screen_id(s: Screen) -> u32 {
    match s {
        Screen::Background => 1,
        Screen::Contacts => 100,
        Screen::Chats => 150,
        Screen::Search => 151,
        Screen::Calls => 300,
        Screen::Chat => 350,
        Screen::Settings => 450,
        Screen::MiniApp => 500,
    }
}

/// The name by which the protocol knows a screen.
pub open spec fn screen_name(s: Screen) -> Seq<char> {
    match s {
        Screen::Background => "BACKGROUND"@,
        Screen::Contacts => "CONTACTS"@,
        Screen::Chats => "CHATS"@,
        Screen::Search => "SEARCH"@,
        Screen::Calls => "CALLS"@,
        Screen::Chat => "CHAT"@,
        Screen::Settings => "SETTINGS"@,
        Screen::MiniApp => "MINIAPP"@,
    }
}

/// The screens that can follow a screen, each with its weight.
pub open spec fn transitions(s: Screen) -> Seq<(Screen, u32)> {
    match s {
        Screen::Background => seq![(Screen::Chats, 10u32), (Screen::Settings, 1u32)],
        Screen::Chats => seq![
            (Screen::Chat, 7u32),
            (Screen::Contacts, 2u32),
            (Screen::Search, 2u32),
            (Screen::Calls, 1u32),
            (Screen::Settings, 1u32),
            (Screen::Chats, 2u32),
        ],
        Screen::Chat => seq![(Screen::Chats, 8u32), (Screen::Chat, 2u32), (Screen::Settings, 1u32)],
        Screen::Contacts => seq![(Screen::Chats, 6u32), (Screen::Chat, 2u32), (Screen::Search, 1u32)],
        Screen::Search => seq![(Screen::Chats, 5u32), (Screen::Chat, 3u32), (Screen::Contacts, 1u32)],
        Screen::Calls => seq![(Screen::Chats, 5u32), (Screen::Contacts, 2u32), (Screen::Settings, 2u32)],
        Screen::Settings => seq![
            (Screen::Chats, 7u32),
            (Screen::Contacts, 2u32),
            (Screen::Calls, 2u32),
            (Screen::MiniApp, 1u32),
        ],
        Screen::MiniApp => seq![(Screen::Settings, 3u32), (Screen::Chats, 6u32)],
    }
}

/// The sum of a sequence of weights.
pub open spec fn weight_sum(s: Seq<u32>) -> int
    decreases s.len(),
{
    if s.len() == 0 {
        0
    } else {
        weight_sum(s.drop_last()) + s.last()
    }
}

/// The weights of the transitions out of `s`, in order.
pub open spec fn transition_weights(s: Screen) -> Seq<u32> {
    transitions(s).map_values(|t: (Screen, u32)| t.1)
}

/// Whether `to` can follow `from` with a positive weight.
pub open spec fn is_edge(from: Screen, to: Screen) -> bool {
    exists|i: int| 0 <= i < transitions(from).len() && #[trigger] transitions(from)[i].0 == to
        && transitions(from)[i].1 > 0
}

/// The most screens that the planner remembers for going back.
pub open spec fn history_limit() -> nat {
    4
}

/// The planner's state after moving forward from `cur` to `next`: `cur` is
/// remembered when the screen changes, and only the latest screens are kept.
pub open spec fn forward_model(cur: Screen, hist: Seq<Screen>, next: Screen) -> (Screen, Seq<Screen>) {
    if next != cur {
        let h = hist.push(cur);
        if h.len() > history_limit() {
            (next, h.drop_first())
        } else {
            (next, h)
        }
    } else {
        (next, hist)
    }
}

/// The shape of every state a walk can reach: at most four remembered
/// screens, no screen remembered twice in a row, and the latest remembered
/// screen not the current one.
pub open spec fn walk_ok(cur: Screen, hist: Seq<Screen>) -> bool {
    &&& hist.len() <= history_limit()
    &&& forall|i: int, j: int|
        #![trigger hist[i], hist[j]]
        0 <= i && j == i + 1 && j < hist.len() ==> hist[i] != hist[j]
    &&& hist.len() > 0 ==> hist.last() != cur
}

/// The planner's state after going back: the latest remembered screen
/// becomes current.
pub open spec fn back_model(cur: Screen, hist: Seq<Screen>) -> (Screen, Seq<Screen>) {
    if hist.len() > 0 {
        (hist.last(), hist.drop_last())
    } else {
        (cur, hist)
    }
}

impl Screen {
    /// The number by which the protocol knows the screen.
    pub fn id(self) -> (res: u32)
        ensures
            res == screen_id(self),
    {
        match self {
            Screen::Background => 1,
            Screen::Contacts => 100,
            Screen::Chats => 150,
            Screen::Search => 151,
            Screen::Calls => 300,
            Screen::Chat => 350,
            Screen::Settings => 450,
            Screen::MiniApp => 500,
        }
    }

    /// The name by which the protocol knows the screen.
    pub fn name(self) -> (res: &'static str)
        ensures
            res@ == screen_name(self),
    {
        match self {
            Screen::Background => "BACKGROUND",
            Screen::Contacts => "CONTACTS",
            Screen::Chats => "CHATS",
            Screen::Search => "SEARCH",
            Screen::Calls => "CALLS",
            Screen::Chat => "CHAT",
            Screen::Settings => "SETTINGS",
            Screen::MiniApp => "MINIAPP",
        }
    }
}

/// The screens that can follow `screen`, each with its weight.
pub fn get_transitions(screen: Screen) -> (res: Vec<(Screen, u32)>)
    ensures
        res@ == transitions(screen),
{
    let res = match screen {
        Screen::Background => vec![(Screen::Chats, 10u32), (Screen::Settings, 1u32)],
        Screen::Chats => vec![
            (Screen::Chat, 7u32),
            (Screen::Contacts, 2u32),
            (Screen::Search, 2u32),
            (Screen::Calls, 1u32),
            (Screen::Settings, 1u32),
            (Screen::Chats, 2u32),
        ],
        Screen::Chat => vec![(Screen::Chats, 8u32), (Screen::Chat, 2u32), (Screen::Settings, 1u32)],
        Screen::Contacts => vec![(Screen::Chats, 6u32), (Screen::Chat, 2u32), (Screen::Search, 1u32)],
        Screen::Search => vec![(Screen::Chats, 5u32), (Screen::Chat, 3u32), (Screen::Contacts, 1u32)],
        Screen::Calls => vec![(Screen::Chats, 5u32), (Screen::Contacts, 2u32), (Screen::Settings, 2u32)],
        Screen::Settings => vec![
            (Screen::Chats, 7u32),
            (Screen::Contacts, 2u32),
            (Screen::Calls, 2u32),
            (Screen::MiniApp, 1u32),
        ],
        Screen::MiniApp => vec![(Screen::Settings, 3u32), (Screen::Chats, 6u32)],
    };
    assert(res@ =~= transitions(screen));
    res
}

/// Every transition out of every screen has a positive weight, and the
/// weights out of a screen sum to at least one and fit in a `u32`.
pub proof fn lemma_transitions_well_weighted(s: Screen)
    ensures
        transitions(s).len() > 0,
        forall|i: int| 0 <= i < transitions(s).len() ==> #[trigger] transitions(s)[i].1 > 0,
        0 < weight_sum(transition_weights(s)) <= u32::MAX,
{
    let w = transition_weights(s);
    reveal_with_fuel(weight_sum, 7);
    assert(w =~= match s {
        Screen::Background => seq![10u32, 1u32],
        Screen::Chats => seq![7u32, 2u32, 2u32, 1u32, 1u32, 2u32],
        Screen::Chat => seq![8u32, 2u32, 1u32],
        Screen::Contacts => seq![6u32, 2u32, 1u32],
        Screen::Search => seq![5u32, 3u32, 1u32],
        Screen::Calls => seq![5u32, 2u32, 2u32],
        Screen::Settings => seq![7u32, 2u32, 2u32, 1u32],
        Screen::MiniApp => seq![3u32, 6u32],
    });
    let s0 = w.drop_last();
    let s1 = s0.drop_last();
    let s2 = s1.drop_last();
    let s3 = s2.drop_last();
    let s4 = s3.drop_last();
    let s5 = s4.drop_last();
    assert(weight_sum(w) > 0);
}

/// `WeightedIndex` sampled once with the thread's generator: an index of
/// `weights` chosen with a chance proportional to its weight. The contract
/// states what holds of every outcome: the index is in range and its weight
/// is positive. Which index comes out is chance.
#[verifier::external_body]
fn weighted_choice(weights: &Vec<u32>) -> (res: usize)
    requires
        weights@.len() > 0,
        0 < weight_sum(weights@) <= u32::MAX,
    ensures
        res < weights@.len(),
        weights@[res as int] > 0,
{
    WeightedIndex::new(weights.iter()).unwrap().sample(&mut rand::thread_rng())
}

/// A walker over the screens that remembers where it came from.
pub struct NavigationPlanner {
    pub current_screen: Screen,
    history: VecDeque<Screen>,
}

impl NavigationPlanner {
    /// The screens remembered for going back, oldest first.
    pub closed spec fn history(&self) -> Seq<Screen> {
        self.history@
    }

    /// The screen the planner is on.
    pub closed spec fn current(&self) -> Screen {
        self.current_screen
    }

    /// The planner is in a state that a walk can reach (see [`walk_ok`]).
    pub open spec fn wf(&self) -> bool {
        walk_ok(self.current(), self.history())
    }

    /// A planner on the background screen that remembers nothing.
    pub fn new() -> (res: NavigationPlanner)
        ensures
            res.wf(),
            res.current() == Screen::Background,
            res.history() == Seq::<Screen>::empty(),
    {
        NavigationPlanner { current_screen: Screen::Background, history: VecDeque::with_capacity(4) }
    }

    /// The screen the planner is on.
    pub fn current_screen(&self) -> (res: Screen)
        ensures
            res == self.current(),
    {
        self.current_screen
    }

    /// How many screens the planner remembers.
    pub fn history_len(&self) -> (res: usize)
        ensures
            res == self.history().len(),
    {
        self.history.len()
    }

    /// Back to the background screen, forgetting every screen.
    pub fn reset_to_background(&mut self)
        ensures
            final(self).wf(),
            final(self).current() == Screen::Background,
            final(self).history() == Seq::<Screen>::empty(),
    {
        self.current_screen = Screen::Background;
        self.history.clear();
    }

    /// One step of the walk, decided by its two chance outcomes: `go_back`
    /// (back to the latest remembered screen, when there is one) and
    /// `choice`, the index of the transition to follow otherwise.
    pub fn advance(&mut self, go_back: bool, choice: usize) -> (res: Screen)
        requires
            choice < transitions(old(self).current()).len(),
        ensures
            old(self).wf() ==> final(self).wf(),
            res == final(self).current(),
            old(self).wf() && res == old(self).current() ==> old(self).current() == Screen::Chats
                || old(self).current() == Screen::Chat,
            res == Screen::Background ==> go_back && old(self).history().len() > 0
                && old(self).history().last() == Screen::Background,
            (final(self).current(), final(self).history()) == if go_back && old(self).history().len() > 0 {
                back_model(old(self).current(), old(self).history())
            } else {
                forward_model(
                    old(self).current(),
                    old(self).history(),
                    transitions(old(self).current())[choice as int].0,
                )
            },
    {
        proof {
            lemma_transition_targets(self.current(), choice as int);
            if self.wf() {
                lemma_walk_step(self.current(), self.history(), choice as int);
            }
        }
        if go_back && self.history.len() > 0 {
            let prev = self.history.pop_back();
            match prev {
                Some(p) => {
                    self.current_screen = p;
                },
                None => {},
            }
            return self.current_screen;
        }
        let options = get_transitions(self.current_screen);
        let next = options[choice].0;
        if next != self.current_screen {
            self.history.push_back(self.current_screen);
            if self.history.len() > 4 {
                self.history.pop_front();
            }
        }
        self.current_screen = next;
        self.current_screen
    }

    /// One step of the walk. `go_back` is the outcome of the coin that decides
    /// whether to go back; the transition to follow otherwise is drawn with
    /// the transitions' weights.
    pub fn next_screen(&mut self, go_back: bool) -> (res: Screen)
        ensures
            old(self).wf() ==> final(self).wf(),
            res == final(self).current(),
            old(self).wf() && res == old(self).current() ==> old(self).current() == Screen::Chats
                || old(self).current() == Screen::Chat,
            res == Screen::Background ==> go_back && old(self).history().len() > 0
                && old(self).history().last() == Screen::Background,
            go_back && old(self).history().len() > 0 ==> (final(self).current(), final(self).history())
                == back_model(old(self).current(), old(self).history()),
            !(go_back && old(self).history().len() > 0) ==> exists|i: int|
                0 <= i < transitions(old(self).current()).len()
                    && transitions(old(self).current())[i].1 > 0
                    && (final(self).current(), final(self).history()) == forward_model(
                    old(self).current(),
                    old(self).history(),
                    #[trigger] transitions(old(self).current())[i].0,
                ),
    {
        let choice = draw_transition(self.current_screen);
        self.advance(go_back, choice)
    }
}

/// The index of the transition to follow from `screen`, drawn with the
/// transitions' weights.
pub fn draw_transition(screen: Screen) -> (res: usize)
    ensures
    res < transitions(screen).len(),
    transitions(screen)[res as int].1 > 0,
{
    let options = get_transitions(screen);
    let mut weights: Vec<u32> = Vec::new();
    for i in 0..options.len()
        invariant
            weights@ == options@.take(i as int).map_values(|t: (Screen, u32)| t.1),
    {
        weights.push(options[i].1);
        assert(weights@ =~= options@.take(i + 1).map_values(|t: (Screen, u32)| t.1));
    }
    assert(options@.take(options.len() as int) =~= options@);
    assert(weights@ =~= transition_weights(screen));
    proof {
        lemma_transitions_well_weighted(screen);
    }
    let choice = weighted_choice(&weights);
    assert(transitions(screen)[choice as int].1 == weights@[choice as int]);
    choice
}

/// Going forward to another screen and then back restores the planner, as
/// long as the history had room for the screen that was left.
pub proof fn lemma_back_undoes_forward(cur: Screen, hist: Seq<Screen>, next: Screen)
    requires
        next != cur,
        hist.len() < history_limit(),
    ensures
        back_model(forward_model(cur, hist, next).0, forward_model(cur, hist, next).1) == (cur, hist),
{
    assert(hist.push(cur).drop_last() =~= hist);
}

/// A forward step never remembers more than four screens, and it remembers
/// the screen it left last.
pub proof fn lemma_forward_bounded(cur: Screen, hist: Seq<Screen>, next: Screen)
    requires
        hist.len() <= history_limit(),
    ensures
        forward_model(cur, hist, next).1.len() <= history_limit(),
        next != cur ==> forward_model(cur, hist, next).1.last() == cur,
        forward_model(cur, hist, next).0 == next,
{
}

/// Every screen that a forward step reaches follows the current one in the
/// transition graph.
pub proof fn lemma_forward_follows_edge(cur: Screen, i: int)
    requires
        0 <= i < transitions(cur).len(),
    ensures
        is_edge(cur, transitions(cur)[i].0),
{
    lemma_transitions_well_weighted(cur);
}

/// A step of a walk keeps the walk's shape, whichever way it goes: from a
/// reachable state, going back or following any transition leads to a
/// reachable state. A step stays on its screen only on the chat list or in
/// a chat, going back never stays, and a step reaches the background only
/// by going back to it.
pub proof fn lemma_walk_step(cur: Screen, hist: Seq<Screen>, i: int)
    requires
        walk_ok(cur, hist),
        0 <= i < transitions(cur).len(),
    ensures
        walk_ok(forward_model(cur, hist, transitions(cur)[i].0).0, forward_model(cur, hist, transitions(cur)[i].0).1),
        transitions(cur)[i].0 == cur ==> cur == Screen::Chats || cur == Screen::Chat,
        transitions(cur)[i].0 != Screen::Background,
        hist.len() > 0 ==> walk_ok(back_model(cur, hist).0, back_model(cur, hist).1),
        hist.len() > 0 ==> back_model(cur, hist).0 != cur,
{
    let next = transitions(cur)[i].0;
    lemma_transition_targets(cur, i);
    if next != cur {
        let h = hist.push(cur);
        assert forall|a: int, b: int| 0 <= a && b == a + 1 && b < h.len() implies #[trigger] h[a] != #[trigger] h[b] by {
            if b < hist.len() {
                assert(hist[a] != hist[b]);
            }
        }
        if h.len() > history_limit() {
            let d = h.drop_first();
            assert forall|a: int, b: int| 0 <= a && b == a + 1 && b < d.len() implies #[trigger] d[a] != #[trigger] d[b] by {
                assert(d[a] == h[a + 1] && d[b] == h[b + 1]);
                assert(h[a + 1] != h[b + 1]);
            }
            assert(d.last() == h.last());
        }
    }
    if hist.len() > 0 {
        let d = hist.drop_last();
        assert forall|a: int, b: int| 0 <= a && b == a + 1 && b < d.len() implies #[trigger] d[a] != #[trigger] d[b] by {
            assert(hist[a] != hist[b]);
        }
        if d.len() > 0 {
            assert(hist[d.len() - 1] != hist[d.len() as int]);
        }
    }
}

/// Only the chat list and a chat have a transition to themselves, and no
/// transition leads to the background.
proof fn lemma_transition_targets(cur: Screen, i: int)
    requires
        0 <= i < transitions(cur).len(),
    ensures
        transitions(cur)[i].0 == cur ==> cur == Screen::Chats || cur == Screen::Chat,
        transitions(cur)[i].0 != Screen::Background,
{
    let t = transitions(cur);
    assert(0 <= i < t.len());
    if i == 0 { assert(t[0].0 != Screen::Background); }
    else if i == 1 { assert(t[1].0 != Screen::Background); }
    else if i == 2 { assert(t[2].0 != Screen::Background); }
    else if i == 3 { assert(t[3].0 != Screen::Background); }
    else if i == 4 { assert(t[4].0 != Screen::Background); }
    else { assert(t[5].0 != Screen::Background); }
}

/// The screen graph of the application: for every screen, the screens that
/// can follow it, each with its weight, in order. No screen follows another
/// twice, and the background is never a step's target.
pub proof fn lemma_transition_graph()
    ensures
        forall|s: Screen, i: int, j: int|
            0 <= i < j < transitions(s).len() ==> #[trigger] transitions(s)[i].0 != #[trigger] transitions(s)[j].0,
        forall|s: Screen| !is_edge(s, Screen::Background),
        transitions(Screen::Background).len() == 2,
        transitions(Screen::Background)[0] == (Screen::Chats, 10u32),
        transitions(Screen::Background)[1] == (Screen::Settings, 1u32),
        forall|t: Screen| is_edge(Screen::Background, t) <==> (t == Screen::Chats || t == Screen::Settings),
        transitions(Screen::Chats).len() == 6,
        transitions(Screen::Chats)[0] == (Screen::Chat, 7u32),
        transitions(Screen::Chats)[1] == (Screen::Contacts, 2u32),
        transitions(Screen::Chats)[2] == (Screen::Search, 2u32),
        transitions(Screen::Chats)[3] == (Screen::Calls, 1u32),
        transitions(Screen::Chats)[4] == (Screen::Settings, 1u32),
        transitions(Screen::Chats)[5] == (Screen::Chats, 2u32),
        forall|t: Screen| is_edge(Screen::Chats, t) <==> (t == Screen::Chat || t == Screen::Contacts || t == Screen::Search || t == Screen::Calls || t == Screen::Settings || t == Screen::Chats),
        transitions(Screen::Chat).len() == 3,
        transitions(Screen::Chat)[0] == (Screen::Chats, 8u32),
        transitions(Screen::Chat)[1] == (Screen::Chat, 2u32),
        transitions(Screen::Chat)[2] == (Screen::Settings, 1u32),
        forall|t: Screen| is_edge(Screen::Chat, t) <==> (t == Screen::Chats || t == Screen::Chat || t == Screen::Settings),
        transitions(Screen::Contacts).len() == 3,
        transitions(Screen::Contacts)[0] == (Screen::Chats, 6u32),
        transitions(Screen::Contacts)[1] == (Screen::Chat, 2u32),
        transitions(Screen::Contacts)[2] == (Screen::Search, 1u32),
        forall|t: Screen| is_edge(Screen::Contacts, t) <==> (t == Screen::Chats || t == Screen::Chat || t == Screen::Search),
        transitions(Screen::Search).len() == 3,
        transitions(Screen::Search)[0] == (Screen::Chats, 5u32),
        transitions(Screen::Search)[1] == (Screen::Chat, 3u32),
        transitions(Screen::Search)[2] == (Screen::Contacts, 1u32),
        forall|t: Screen| is_edge(Screen::Search, t) <==> (t == Screen::Chats || t == Screen::Chat || t == Screen::Contacts),
        transitions(Screen::Calls).len() == 3,
        transitions(Screen::Calls)[0] == (Screen::Chats, 5u32),
        transitions(Screen::Calls)[1] == (Screen::Contacts, 2u32),
        transitions(Screen::Calls)[2] == (Screen::Settings, 2u32),
        forall|t: Screen| is_edge(Screen::Calls, t) <==> (t == Screen::Chats || t == Screen::Contacts || t == Screen::Settings),
        transitions(Screen::Settings).len() == 4,
        transitions(Screen::Settings)[0] == (Screen::Chats, 7u32),
        transitions(Screen::Settings)[1] == (Screen::Contacts, 2u32),
        transitions(Screen::Settings)[2] == (Screen::Calls, 2u32),
        transitions(Screen::Settings)[3] == (Screen::MiniApp, 1u32),
        forall|t: Screen| is_edge(Screen::Settings, t) <==> (t == Screen::Chats || t == Screen::Contacts || t == Screen::Calls || t == Screen::MiniApp),
        transitions(Screen::MiniApp).len() == 2,
        transitions(Screen::MiniApp)[0] == (Screen::Settings, 3u32),
        transitions(Screen::MiniApp)[1] == (Screen::Chats, 6u32),
        forall|t: Screen| is_edge(Screen::MiniApp, t) <==> (t == Screen::Settings || t == Screen::Chats),
{
    assert forall|s: Screen, i: int, j: int|
        0 <= i < j < transitions(s).len() implies #[trigger] transitions(s)[i].0 != #[trigger] transitions(s)[j].0 by {
        lemma_transitions_distinct(s, i, j);
    }
    assert forall|s: Screen| !is_edge(s, Screen::Background) by {
        if is_edge(s, Screen::Background) {
            let i = choose|i: int| 0 <= i < transitions(s).len() && #[trigger] transitions(s)[i].0 == Screen::Background
                && transitions(s)[i].1 > 0;
            lemma_transition_targets(s, i);
        }
    }
    assert forall|t: Screen| is_edge(Screen::Background, t) <==> (t == Screen::Chats || t == Screen::Settings) by {
            assert(transitions(Screen::Background)[0].0 == Screen::Chats);
            assert(transitions(Screen::Background)[1].0 == Screen::Settings);
        if is_edge(Screen::Background, t) {
            let i = choose|i: int| 0 <= i < transitions(Screen::Background).len() && #[trigger] transitions(Screen::Background)[i].0 == t
                && transitions(Screen::Background)[i].1 > 0;
            assert(0 <= i < 2);
        }
    }
    assert forall|t: Screen| is_edge(Screen::Chats, t) <==> (t == Screen::Chat || t == Screen::Contacts || t == Screen::Search || t == Screen::Calls || t == Screen::Settings || t == Screen::Chats) by {
            assert(transitions(Screen::Chats)[0].0 == Screen::Chat);
            assert(transitions(Screen::Chats)[1].0 == Screen::Contacts);
            assert(transitions(Screen::Chats)[2].0 == Screen::Search);
            assert(transitions(Screen::Chats)[3].0 == Screen::Calls);
            assert(transitions(Screen::Chats)[4].0 == Screen::Settings);
            assert(transitions(Screen::Chats)[5].0 == Screen::Chats);
        if is_edge(Screen::Chats, t) {
            let i = choose|i: int| 0 <= i < transitions(Screen::Chats).len() && #[trigger] transitions(Screen::Chats)[i].0 == t
                && transitions(Screen::Chats)[i].1 > 0;
            assert(0 <= i < 6);
        }
    }
    assert forall|t: Screen| is_edge(Screen::Chat, t) <==> (t == Screen::Chats || t == Screen::Chat || t == Screen::Settings) by {
            assert(transitions(Screen::Chat)[0].0 == Screen::Chats);
            assert(transitions(Screen::Chat)[1].0 == Screen::Chat);
            assert(transitions(Screen::Chat)[2].0 == Screen::Settings);
        if is_edge(Screen::Chat, t) {
            let i = choose|i: int| 0 <= i < transitions(Screen::Chat).len() && #[trigger] transitions(Screen::Chat)[i].0 == t
                && transitions(Screen::Chat)[i].1 > 0;
            assert(0 <= i < 3);
        }
    }
    assert forall|t: Screen| is_edge(Screen::Contacts, t) <==> (t == Screen::Chats || t == Screen::Chat || t == Screen::Search) by {
            assert(transitions(Screen::Contacts)[0].0 == Screen::Chats);
            assert(transitions(Screen::Contacts)[1].0 == Screen::Chat);
            assert(transitions(Screen::Contacts)[2].0 == Screen::Search);
        if is_edge(Screen::Contacts, t) {
            let i = choose|i: int| 0 <= i < transitions(Screen::Contacts).len() && #[trigger] transitions(Screen::Contacts)[i].0 == t
                && transitions(Screen::Contacts)[i].1 > 0;
            assert(0 <= i < 3);
        }
    }
    assert forall|t: Screen| is_edge(Screen::Search, t) <==> (t == Screen::Chats || t == Screen::Chat || t == Screen::Contacts) by {
            assert(transitions(Screen::Search)[0].0 == Screen::Chats);
            assert(transitions(Screen::Search)[1].0 == Screen::Chat);
            assert(transitions(Screen::Search)[2].0 == Screen::Contacts);
        if is_edge(Screen::Search, t) {
            let i = choose|i: int| 0 <= i < transitions(Screen::Search).len() && #[trigger] transitions(Screen::Search)[i].0 == t
                && transitions(Screen::Search)[i].1 > 0;
            assert(0 <= i < 3);
        }
    }
    assert forall|t: Screen| is_edge(Screen::Calls, t) <==> (t == Screen::Chats || t == Screen::Contacts || t == Screen::Settings) by {
            assert(transitions(Screen::Calls)[0].0 == Screen::Chats);
            assert(transitions(Screen::Calls)[1].0 == Screen::Contacts);
            assert(transitions(Screen::Calls)[2].0 == Screen::Settings);
        if is_edge(Screen::Calls, t) {
            let i = choose|i: int| 0 <= i < transitions(Screen::Calls).len() && #[trigger] transitions(Screen::Calls)[i].0 == t
                && transitions(Screen::Calls)[i].1 > 0;
            assert(0 <= i < 3);
        }
    }
    assert forall|t: Screen| is_edge(Screen::Settings, t) <==> (t == Screen::Chats || t == Screen::Contacts || t == Screen::Calls || t == Screen::MiniApp) by {
            assert(transitions(Screen::Settings)[0].0 == Screen::Chats);
            assert(transitions(Screen::Settings)[1].0 == Screen::Contacts);
            assert(transitions(Screen::Settings)[2].0 == Screen::Calls);
            assert(transitions(Screen::Settings)[3].0 == Screen::MiniApp);
        if is_edge(Screen::Settings, t) {
            let i = choose|i: int| 0 <= i < transitions(Screen::Settings).len() && #[trigger] transitions(Screen::Settings)[i].0 == t
                && transitions(Screen::Settings)[i].1 > 0;
            assert(0 <= i < 4);
        }
    }
    assert forall|t: Screen| is_edge(Screen::MiniApp, t) <==> (t == Screen::Settings || t == Screen::Chats) by {
            assert(transitions(Screen::MiniApp)[0].0 == Screen::Settings);
            assert(transitions(Screen::MiniApp)[1].0 == Screen::Chats);
        if is_edge(Screen::MiniApp, t) {
            let i = choose|i: int| 0 <= i < transitions(Screen::MiniApp).len() && #[trigger] transitions(Screen::MiniApp)[i].0 == t
                && transitions(Screen::MiniApp)[i].1 > 0;
            assert(0 <= i < 2);
        }
    }
}

proof fn lemma_transitions_distinct(s: Screen, i: int, j: int)
    requires
        0 <= i < j < transitions(s).len(),
    ensures
        transitions(s)[i].0 != transitions(s)[j].0,
{
    let t = transitions(s);
    assert(t[0].0 != t[1].0);
    if t.len() > 2 {
        assert(t[0].0 != t[2].0 && t[1].0 != t[2].0);
    }
    if t.len() > 3 {
        assert(t[0].0 != t[3].0 && t[1].0 != t[3].0 && t[2].0 != t[3].0);
    }
    if t.len() > 4 {
        assert(t[0].0 != t[4].0 && t[1].0 != t[4].0 && t[2].0 != t[4].0 && t[3].0 != t[4].0);
    }
    if t.len() > 5 {
        assert(t[0].0 != t[5].0 && t[1].0 != t[5].0 && t[2].0 != t[5].0 && t[3].0 != t[5].0 && t[4].0 != t[5].0);
    }
}

/// The protocol knows each screen by its own number and its own name: no
/// two screens share either.
pub proof fn lemma_screen_codes()
    ensures
        screen_id(Screen::Background) == 1 && screen_name(Screen::Background) == "BACKGROUND"@,
        screen_id(Screen::Contacts) == 100 && screen_name(Screen::Contacts) == "CONTACTS"@,
        screen_id(Screen::Chats) == 150 && screen_name(Screen::Chats) == "CHATS"@,
        screen_id(Screen::Search) == 151 && screen_name(Screen::Search) == "SEARCH"@,
        screen_id(Screen::Calls) == 300 && screen_name(Screen::Calls) == "CALLS"@,
        screen_id(Screen::Chat) == 350 && screen_name(Screen::Chat) == "CHAT"@,
        screen_id(Screen::Settings) == 450 && screen_name(Screen::Settings) == "SETTINGS"@,
        screen_id(Screen::MiniApp) == 500 && screen_name(Screen::MiniApp) == "MINIAPP"@,
        forall|a: Screen, b: Screen| a != b ==> #[trigger] screen_id(a) != #[trigger] screen_id(b),
        forall|a: Screen, b: Screen| a != b ==> #[trigger] screen_name(a) != #[trigger] screen_name(b),
{
    reveal_strlit("BACKGROUND");
    reveal_strlit("CONTACTS");
    reveal_strlit("CHATS");
    reveal_strlit("SEARCH");
    reveal_strlit("CALLS");
    reveal_strlit("CHAT");
    reveal_strlit("SETTINGS");
    reveal_strlit("MINIAPP");
    assert("BACKGROUND"@.len() == 10);
    assert("CONTACTS"@.len() == 8);
    assert("CHATS"@.len() == 5);
    assert("SEARCH"@.len() == 6);
    assert("CALLS"@.len() == 5);
    assert("CHAT"@.len() == 4);
    assert("SETTINGS"@.len() == 8);
    assert("MINIAPP"@.len() == 7);
    assert("CONTACTS"@[0] != "SETTINGS"@[0]);
    assert("CHATS"@[1] != "CALLS"@[1]);
}

} // verus!
