//! The game session: the screen being shown, the items left in the maze, the
//! money picked up so far and the bag. A level starts from the welcome screen;
//! while playing, each frame first picks up the items the player stands next
//! to, then places the bag once all money is in hand, then applies the
//! outcome of the player's movement, an enemy catching the player, and a
//! request to go back to the menu, in that order.

use vstd::prelude::*;
use crate::collectable::{
    Collectable,
    count_key,
    count_near_key,
    count_true,
    kept_items,
    lemma_count_near_prefix,
    lemma_count_split,
    lemma_kept_len,
};
use crate::level::{Level, LevelSetup, level_setup, level_enemies, level_collectables, LEVEL_MONEY, BAG_X_TENTHS, BAG_Y_TENTHS};

verus! {

/// The screen the game is on.
#[derive(Clone, Copy, PartialEq, Eq, Structural, Debug)]
pub enum GameState {
    Welcome,
    Playing,
    GameOver,
    GameWon,
}

/// What the library knows of a session.
pub struct SessionView {
    pub state: GameState,
    pub items: Seq<Collectable>,
    pub money_collected: nat,
    pub max_money: nat,
    pub bag_created: bool,
    pub bag_collected: bool,
}

/// The session's bookkeeping: the money picked up and the money still lying
/// in the maze add up to the money of the level; the bag lies in the maze
/// exactly while it has been placed and not picked up, and it is only ever
/// placed once all money is in hand.
pub open spec fn session_wf(v: SessionView) -> bool {
    &&& v.money_collected + count_key(v.items, 'm') == v.max_money
    &&& count_key(v.items, 'b') == (if v.bag_created && !v.bag_collected { 1nat } else { 0nat })
    &&& v.bag_created ==> v.money_collected == v.max_money
    &&& v.bag_collected ==> v.bag_created
}

/// The session as a level starts.
pub open spec fn level_start(level: Level) -> SessionView {
    SessionView {
        state: GameState::Playing,
        items: level_collectables(level),
        money_collected: 0,
        max_money: LEVEL_MONEY as nat,
        bag_created: false,
        bag_collected: false,
    }
}

/// The screen after a frame of play: going back to the menu wins over being
/// caught, which wins over reaching the goal.
pub open spec fn after_frame(state: GameState, goal_reached: bool, caught: bool, back_to_menu: bool) -> GameState {
    if back_to_menu {
        GameState::Welcome
    } else if caught {
        GameState::GameOver
    } else if goal_reached {
        GameState::GameWon
    } else {
        state
    }
}

/// The bag, once it appears.
pub open spec fn bag_item() -> Collectable {
    Collectable { x_tenths: BAG_X_TENTHS, y_tenths: BAG_Y_TENTHS, texture_key: 'b' }
}

/// Whether the bag is due: all money is in hand and the bag has not been
/// placed or picked up yet.
pub open spec fn bag_due(v: SessionView) -> bool {
    v.money_collected == v.max_money && !v.bag_created && !v.bag_collected
}

/// The session once the bag has been placed.
pub open spec fn with_bag(v: SessionView) -> SessionView {
    SessionView { items: v.items.push(bag_item()), bag_created: true, ..v }
}

/// A running game.
pub struct Session {
    state: GameState,
    items: Vec<Collectable>,
    money_collected: u32,
    max_money: u32,
    bag_created: bool,
    bag_collected: bool,
}

impl View for Session {
    type V = SessionView;

    closed spec fn view(&self) -> SessionView {
        SessionView {
            state: self.state,
            items: self.items@,
            money_collected: self.money_collected as nat,
            max_money: self.max_money as nat,
            bag_created: self.bag_created,
            bag_collected: self.bag_collected,
        }
    }
}

fn copy_items(v: &Vec<Collectable>) -> (r: Vec<Collectable>)
    ensures
        r@ == v@,
{
    let mut r: Vec<Collectable> = Vec::new();
    for i in 0..v.len()
        invariant
            r@ == v@.take(i as int),
    {
        r.push(v[i]);
        proof {
            assert(r@ =~= v@.take(i + 1));
        }
    }
    proof {
        assert(v@.take(v@.len() as int) =~= v@);
    }
    r
}

impl Session {
    /// A session on the welcome screen, with no level loaded.
    pub fn new() -> (s: Session)
        ensures
            s@ == (SessionView {
                state: GameState::Welcome,
                items: seq![],
                money_collected: 0,
                max_money: 0,
                bag_created: false,
                bag_collected: false,
            }),
            session_wf(s@),
    {
        Session {
            state: GameState::Welcome,
            items: Vec::new(),
            money_collected: 0,
            max_money: 0,
            bag_created: false,
            bag_collected: false,
        }
    }

    /// The screen the game is on.
    pub fn state(&self) -> (r: GameState)
        ensures
            r == self@.state,
    {
        self.state
    }

    /// The items still lying in the maze.
    pub fn items(&self) -> (r: &Vec<Collectable>)
        ensures
            r@ == self@.items,
    {
        &self.items
    }

    /// The money picked up in this level.
    pub fn money_collected(&self) -> (r: u32)
        ensures
            r == self@.money_collected,
    {
        self.money_collected
    }

    /// The money of this level.
    pub fn max_money(&self) -> (r: u32)
        ensures
            r == self@.max_money,
    {
        self.max_money
    }

    /// Whether the bag has been placed in the maze.
    pub fn bag_created(&self) -> (r: bool)
        ensures
            r == self@.bag_created,
    {
        self.bag_created
    }

    /// Whether the bag has been picked up.
    pub fn bag_collected(&self) -> (r: bool)
        ensures
            r == self@.bag_collected,
    {
        self.bag_collected
    }

    /// One frame of the welcome screen. Key 1 picks the debt level and key 2
    /// the police level (key 2 wins when both are down); picking a level
    /// starts it and hands back what it starts with. Without a key nothing
    /// changes.
    pub fn welcome_frame(&mut self, key_one: bool, key_two: bool) -> (r: Option<LevelSetup>)
        requires
            session_wf(old(self)@),
            old(self)@.state == GameState::Welcome,
        ensures
            session_wf(final(self)@),
            r is Some <==> (key_one || key_two),
            !(key_one || key_two) ==> final(self)@ == old(self)@,
            (key_one || key_two) ==> {
                let level = if key_two { Level::Police } else { Level::Debt };
                &&& final(self)@ == level_start(level)
                &&& r matches Some(s) && s.enemies@ == level_enemies(level) && s.collectables@
                    == level_collectables(level) && s.max_money == LEVEL_MONEY && s.start_x_tenths == 15
                    && s.start_y_tenths == 65
            },
    {
        let mut chosen: Option<LevelSetup> = None;
        if key_one {
            chosen = Some(level_setup(Level::Debt));
        }
        if key_two {
            chosen = Some(level_setup(Level::Police));
        }
        match chosen {
            Some(setup) => {
                self.items = copy_items(&setup.collectables);
                self.max_money = setup.max_money;
                self.money_collected = 0;
                self.bag_created = false;
                self.bag_collected = false;
                self.state = GameState::Playing;
                Some(setup)
            },
            None => None,
        }
    }

    /// Picks up every item whose flag in `near` is set (the player stands
    /// within reach of it) and returns how many were picked up. Money adds to
    /// the money collected; picking up the bag wins the game. The items not
    /// picked up stay, in their order.
    pub fn collect(&mut self, near: &Vec<bool>) -> (collected: usize)
        requires
            session_wf(old(self)@),
            near@.len() == old(self)@.items.len(),
        ensures
            session_wf(final(self)@),
            collected == count_true(near@),
            collected + final(self)@.items.len() == old(self)@.items.len(),
            final(self)@.items == kept_items(old(self)@.items, near@),
            final(self)@.money_collected == old(self)@.money_collected + count_near_key(
                old(self)@.items,
                near@,
                'm',
            ),
            final(self)@.bag_collected == (old(self)@.bag_collected || count_near_key(old(self)@.items, near@, 'b') > 0),
            final(self)@.state == (if count_near_key(old(self)@.items, near@, 'b') > 0 {
                GameState::GameWon
            } else {
                old(self)@.state
            }),
            final(self)@.max_money == old(self)@.max_money,
            final(self)@.bag_created == old(self)@.bag_created,
    {
        let ghost old_view = self@;
        let ghost items = self@.items;
        let n = self.items.len();
        let mut kept: Vec<Collectable> = Vec::new();
        let mut collected: usize = 0;
        let mut money = self.money_collected;
        let mut bag = false;
        proof {
            lemma_count_split(items, near@, 'm');
        }
        for i in 0..n
            invariant
                n == items.len(),
                n == near@.len(),
                items == self.items@,
                self@ == old_view,
                session_wf(old_view),
                count_near_key(items, near@, 'm') <= count_key(items, 'm'),
                kept@ == kept_items(items.take(i as int), near@.take(i as int)),
                money == old_view.money_collected + count_near_key(items.take(i as int), near@.take(i as int), 'm'),
                bag == (count_near_key(items.take(i as int), near@.take(i as int), 'b') > 0),
                collected == count_true(near@.take(i as int)),
                collected <= i,
        {
            proof {
                assert(items.take(i + 1).drop_last() =~= items.take(i as int));
                assert(near@.take(i + 1).drop_last() =~= near@.take(i as int));
                lemma_count_near_prefix(items, near@, 'm', i + 1);
            }
            let item = self.items[i];
            if near[i] {
                collected = collected + 1;
                if item.texture_key == 'm' {
                    money = money + 1;
                } else if item.texture_key == 'b' {
                    bag = true;
                }
            } else {
                kept.push(item);
            }
        }
        proof {
            assert(items.take(n as int) =~= items);
            assert(near@.take(n as int) =~= near@);
            lemma_count_split(items, near@, 'b');
            lemma_kept_len(items, near@);
        }
        self.items = kept;
        self.money_collected = money;
        if bag {
            self.bag_collected = true;
            self.state = GameState::GameWon;
        }
        collected
    }

    /// Places the bag in the maze once all money is in hand, unless it has
    /// been placed before; says whether it was placed now.
    pub fn spawn_bag_if_ready(&mut self) -> (placed: bool)
        requires
            session_wf(old(self)@),
        ensures
            session_wf(final(self)@),
            placed == bag_due(old(self)@),
            placed ==> final(self)@ == with_bag(old(self)@),
            !placed ==> final(self)@ == old(self)@,
    {
        if self.money_collected == self.max_money && !self.bag_created && !self.bag_collected {
            proof {
                crate::collectable::lemma_count_push(self.items@, bag_item(), 'm');
                crate::collectable::lemma_count_push(self.items@, bag_item(), 'b');
            }
            self.items.push(Collectable { x_tenths: BAG_X_TENTHS, y_tenths: BAG_Y_TENTHS, texture_key: 'b' });
            self.bag_created = true;
            true
        } else {
            false
        }
    }

    /// Whether the goal is open: all money of the level is in hand, so none
    /// is left in the maze.
    pub fn goal_unlocked(&self) -> (r: bool)
        requires
            session_wf(self@),
        ensures
            r == (self@.money_collected >= self@.max_money),
            r == (self@.money_collected == self@.max_money),
            r == (count_key(self@.items, 'm') == 0),
    {
        self.money_collected >= self.max_money
    }

    /// Whether to tell the player to look for the bag: all money is in hand
    /// and the bag lies in the maze.
    pub fn show_bag_hint(&self) -> (r: bool)
        ensures
            r == (self@.money_collected == self@.max_money && self@.bag_created && !self@.bag_collected),
    {
        self.money_collected == self.max_money && self.bag_created && !self.bag_collected
    }

    /// Ends a frame of play: reaching the unlocked goal wins, being caught by
    /// an enemy loses, and the menu key goes back to the welcome screen, each
    /// overriding the ones before.
    pub fn end_frame(&mut self, goal_reached: bool, caught: bool, back_to_menu: bool)
        requires
            session_wf(old(self)@),
        ensures
            session_wf(final(self)@),
            final(self)@ == (SessionView {
                state: after_frame(old(self)@.state, goal_reached, caught, back_to_menu),
                ..old(self)@
            }),
            back_to_menu ==> final(self)@.state == GameState::Welcome,
            !back_to_menu && caught ==> final(self)@.state == GameState::GameOver,
            !back_to_menu && !caught && goal_reached ==> final(self)@.state == GameState::GameWon,
            !back_to_menu && !caught && !goal_reached ==> final(self)@.state == old(self)@.state,
    {
        if goal_reached {
            self.state = GameState::GameWon;
        }
        if caught {
            self.state = GameState::GameOver;
        }
        if back_to_menu {
            self.state = GameState::Welcome;
        }
    }

    /// One frame of the game-over or victory screen. Enter on the game-over
    /// screen goes back to the welcome screen; Enter on the victory screen
    /// ends the program, which the result says.
    pub fn confirm_frame(&mut self, enter: bool) -> (quit: bool)
        requires
            session_wf(old(self)@),
            old(self)@.state == GameState::GameOver || old(self)@.state == GameState::GameWon,
        ensures
            session_wf(final(self)@),
            quit == (enter && old(self)@.state == GameState::GameWon),
            final(self)@ == (SessionView {
                state: if enter && old(self)@.state == GameState::GameOver {
                    GameState::Welcome
                } else {
                    old(self)@.state
                },
                ..old(self)@
            }),
    {
        match self.state {
            GameState::GameOver => {
                if enter {
                    self.state = GameState::Welcome;
                }
                false
            },
            _ => enter,
        }
    }
}

/// How a frame of play ends: the menu key always leads back to the welcome
/// screen; otherwise being caught always loses; otherwise reaching the goal
/// wins; and with none of the three the screen stays as it was.
pub proof fn lemma_frame_end_law(state: GameState, goal_reached: bool, caught: bool, back_to_menu: bool)
    ensures
        back_to_menu ==> after_frame(state, goal_reached, caught, back_to_menu) == GameState::Welcome,
        !back_to_menu && caught ==> after_frame(state, goal_reached, caught, back_to_menu) == GameState::GameOver,
        !back_to_menu && !caught && goal_reached ==> after_frame(state, goal_reached, caught, back_to_menu)
            == GameState::GameWon,
        !back_to_menu && !caught && !goal_reached ==> after_frame(state, goal_reached, caught, back_to_menu)
            == state,
{
}

/// The bag is placed at most once in a level: right after it is placed it is
/// no longer due, and picking up items cannot make it due again.
pub proof fn lemma_bag_placed_once(v: SessionView, near: Seq<bool>)
    requires
        session_wf(v),
        bag_due(v),
        near.len() == v.items.len() + 1,
    ensures
        session_wf(with_bag(v)),
        !bag_due(with_bag(v)),
        !bag_due(SessionView {
            items: kept_items(with_bag(v).items, near),
            money_collected: with_bag(v).money_collected + count_near_key(with_bag(v).items, near, 'm'),
            bag_collected: with_bag(v).bag_collected || count_near_key(with_bag(v).items, near, 'b') > 0,
            ..with_bag(v)
        }),
{
    crate::collectable::lemma_count_push(v.items, bag_item(), 'm');
    crate::collectable::lemma_count_push(v.items, bag_item(), 'b');
}

/// The money picked up never exceeds the money of the level, and while the
/// bag lies in the maze there is no money left to pick up.
pub proof fn lemma_bag_after_money(v: SessionView)
    requires
        session_wf(v),
    ensures
        v.money_collected <= v.max_money,
        count_key(v.items, 'b') <= 1,
        count_key(v.items, 'b') > 0 ==> v.money_collected == v.max_money && count_key(v.items, 'm') == 0,
{
}

} // verus!
