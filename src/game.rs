//! The game session and its per-frame update.

use vstd::prelude::*;
use rand::rngs::StdRng;
use crate::falling::{all_fallen, FallingItems, Item};
use crate::keys::{edit_for_key, edit_of, is_start_key, starts_game, Key};
use crate::random::{draw_below, seeded_rng};
use crate::scheduler::{spawn_band, spawn_band_for, ticked, SpawnScheduler, DEFAULT_INTERVAL_MS};
use crate::text_buffer::{applied_all, bounded, clamped, settled, Edit, TextBuffer};

verus! {

/// Fall speed of new games, in pixels per second.
pub const DEFAULT_FALL_SPEED: u32 = 10;

/// The mode of the game.
#[derive(Clone, Copy, Debug, PartialEq, Eq, Structural)]
pub enum GameState {
    Stopped,
    Started,
    Paused,
}

/// One game session: the mode, the falling items, the typed text, the spawn
/// countdown, the fall speed, the viewport size in pixels and the generator
/// that spawn positions are drawn from.
pub struct Game {
    pub state: GameState,
    pub items: FallingItems,
    pub buffer: TextBuffer,
    pub scheduler: SpawnScheduler,
    pub fall_speed: u32,
    pub width: u32,
    pub height: u32,
    pub rng: StdRng,
}

/// The label every spawned item carries.
pub open spec fn placeholder_word() -> Seq<char> {
    seq!['a', 's', 'd', 'f']
}

/// Whether the start key is among the keys held down.
pub open spec fn start_held(held: Seq<Key>) -> bool {
    exists|i: int| 0 <= i < held.len() && is_start_key(#[trigger] held[i])
}

/// The edits that a frame's newly pressed keys request, in order.
pub open spec fn edits_of(pressed: Seq<Key>) -> Seq<Edit> {
    pressed.map_values(|k: Key| edit_of(k))
}

/// `after` is `before` with one new item at height zero carrying the
/// placeholder word and an `x` inside the spawn band of `width`, when the
/// countdown fired and the band is not empty; otherwise `after` is `before`.
pub open spec fn spawned_onto(before: Seq<Item>, after: Seq<Item>, fired: bool, width: u32) -> bool {
    if fired && spawn_band(width) is Some {
        let (lo, hi) = spawn_band(width)->0;
        &&& after.len() == before.len() + 1
        &&& after.drop_last() == before
        &&& after.last().y == 0
        &&& after.last().word@ == placeholder_word()
        &&& lo <= after.last().x < hi
    } else {
        after == before
    }
}

/// What one frame may turn `g` into, given the keys held down, the keys newly
/// pressed and the milliseconds elapsed. Stopped waits for the start key and
/// changes nothing else; Started applies the edits, clamps the cursor, lets
/// the items fall and ticks the countdown, spawning on expiry; Paused is inert.
pub open spec fn frame_step(g: Game, h: Game, held: Seq<Key>, pressed: Seq<Key>, elapsed_ms: u32) -> bool {
    match g.state {
        GameState::Stopped => h == (Game {
            state: if start_held(held) { GameState::Started } else { GameState::Stopped },
            ..g
        }),
        GameState::Paused => h == g,
        GameState::Started => {
            let (sched, fired) = ticked(g.scheduler, elapsed_ms);
            &&& h.state == GameState::Started
            &&& h.fall_speed == g.fall_speed
            &&& h.width == g.width
            &&& h.height == g.height
            &&& h.buffer@ == clamped(applied_all(g.buffer@, edits_of(pressed)))
            &&& h.scheduler == sched
            &&& spawned_onto(all_fallen(g.items@, elapsed_ms, g.fall_speed), h.items@, fired, g.width)
        },
    }
}

/// From the stopped mode, a frame without the start key held changes nothing
/// at all, whatever else is pressed; with it held, the game moves to Started
/// and nothing else changes.
pub proof fn lemma_stopped_waits_for_start(g: Game, h: Game, held: Seq<Key>, pressed: Seq<Key>, elapsed_ms: u32)
    requires
        g.state == GameState::Stopped,
        frame_step(g, h, held, pressed, elapsed_ms),
    ensures
        !start_held(held) ==> h == g,
        start_held(held) ==> h == (Game { state: GameState::Started, ..g }),
{
}

/// Once started, no frame leaves the started mode, so holding the start key
/// over many frames starts the game once.
pub proof fn lemma_started_stays_started(g: Game, h: Game, held: Seq<Key>, pressed: Seq<Key>, elapsed_ms: u32)
    requires
        g.state == GameState::Started,
        frame_step(g, h, held, pressed, elapsed_ms),
    ensures
        h.state == GameState::Started,
{
}

/// No frame removes an item: the count never drops, and every earlier item
/// keeps its place, its `x` and its label.
pub proof fn lemma_items_never_removed(g: Game, h: Game, held: Seq<Key>, pressed: Seq<Key>, elapsed_ms: u32)
    requires
        frame_step(g, h, held, pressed, elapsed_ms),
    ensures
        h.items@.len() >= g.items@.len(),
        forall|i: int| 0 <= i < g.items@.len() ==> (#[trigger] h.items@[i]).x == g.items@[i].x
            && h.items@[i].word == g.items@[i].word,
{
    if g.state == GameState::Started {
        let fallen = all_fallen(g.items@, elapsed_ms, g.fall_speed);
        assert forall|i: int| 0 <= i < g.items@.len() implies (#[trigger] h.items@[i]).x == g.items@[i].x
            && h.items@[i].word == g.items@[i].word by {
            assert(h.items@[i] == fallen[i]) by {
                if h.items@.len() != fallen.len() {
                    assert(h.items@.drop_last()[i] == h.items@[i]);
                }
            }
        }
    }
}

/// Every item a frame spawns lies inside the spawn band of the viewport
/// width, which is then not empty.
pub proof fn lemma_spawns_inside_band(g: Game, h: Game, held: Seq<Key>, pressed: Seq<Key>, elapsed_ms: u32)
    requires
        frame_step(g, h, held, pressed, elapsed_ms),
    ensures
        forall|i: int| g.items@.len() <= i < h.items@.len() ==> {
            let (lo, hi) = spawn_band(g.width)->0;
            &&& spawn_band(g.width) is Some
            &&& lo <= (#[trigger] h.items@[i]).x < hi
        },
{
}

impl Game {
    /// A stopped game with no items, an empty buffer, a full countdown of
    /// the default interval, the default fall speed and the given viewport;
    /// spawn positions are drawn from a generator seeded with `seed`.
    pub fn new(seed: u64, width: u32, height: u32) -> (r: Game)
        ensures
            r.state == GameState::Stopped,
            r.items@ == Seq::<Item>::empty(),
            r.buffer@.text == Seq::<char>::empty(),
            r.buffer@.cursor == 0,
            r.scheduler == (SpawnScheduler { remaining_ms: DEFAULT_INTERVAL_MS, interval_ms: DEFAULT_INTERVAL_MS }),
            r.fall_speed == DEFAULT_FALL_SPEED,
            r.width == width,
            r.height == height,
    {
        Game {
            state: GameState::Stopped,
            items: FallingItems::new(),
            buffer: TextBuffer::new(),
            scheduler: SpawnScheduler::new(DEFAULT_INTERVAL_MS),
            fall_speed: DEFAULT_FALL_SPEED,
            width,
            height,
            rng: seeded_rng(seed),
        }
    }

    /// Records the current viewport size.
    pub fn set_viewport(&mut self, width: u32, height: u32)
        ensures
            *final(self) == (Game { width, height, ..*old(self) }),
    {
        self.width = width;
        self.height = height;
    }

    /// Runs one frame: `held` are the keys down now, `pressed` the keys
    /// newly pressed this frame in order, `elapsed_ms` the frame's duration.
    pub fn update(&mut self, held: &Vec<Key>, pressed: &Vec<Key>, elapsed_ms: u32)
        requires
            bounded(old(self).buffer@),
        ensures
            frame_step(*old(self), *final(self), held@, pressed@, elapsed_ms),
            bounded(final(self).buffer@),
            old(self).state == GameState::Started ==> settled(final(self).buffer@),
    {
        match self.state {
            GameState::Stopped => {
                if any_start_key(held) {
                    self.state = GameState::Started;
                }
            },
            GameState::Started => {
                self.apply_keys(pressed);
                self.buffer.clamp_cursor();
                self.items.advance(elapsed_ms, self.fall_speed);
                let ghost fallen_items = self.items@;
                let fired = self.scheduler.tick(elapsed_ms);
                if fired {
                    match spawn_band_for(self.width) {
                        Some((lo, hi)) => {
                            let x = draw_below(&mut self.rng, lo, hi);
                            let word = "asdf".to_owned();
                            proof {
                                reveal_strlit("asdf");
                            }
                            assert(word@ =~= placeholder_word());
                            self.items.spawn(x, word);
                            assert(self.items@.drop_last() =~= fallen_items);
                        },
                        None => {},
                    }
                }
            },
            GameState::Paused => {},
        }
    }

    /// Applies the edit of each pressed key to the buffer, in order, without
    /// clamping the cursor in between.
    fn apply_keys(&mut self, pressed: &Vec<Key>)
        requires
            bounded(old(self).buffer@),
        ensures
            final(self).buffer@ == applied_all(old(self).buffer@, edits_of(pressed@)),
            bounded(final(self).buffer@),
            final(self).state == old(self).state,
            final(self).items == old(self).items,
            final(self).scheduler == old(self).scheduler,
            final(self).fall_speed == old(self).fall_speed,
            final(self).width == old(self).width,
            final(self).height == old(self).height,
            final(self).rng == old(self).rng,
    {
        let n: usize = pressed.len();
        let mut i: usize = 0;
        while i < n
            invariant
                n == pressed@.len(),
                0 <= i <= n,
                self.buffer@ == applied_all(old(self).buffer@, edits_of(pressed@.take(i as int))),
                bounded(self.buffer@),
                self.state == old(self).state,
                self.items == old(self).items,
                self.scheduler == old(self).scheduler,
                self.fall_speed == old(self).fall_speed,
                self.width == old(self).width,
                self.height == old(self).height,
                self.rng == old(self).rng,
            decreases n - i,
        {
            let e = edit_for_key(pressed[i]);
            self.buffer.apply(e);
            proof {
                let next = edits_of(pressed@.take(i + 1));
                assert(next.drop_last() =~= edits_of(pressed@.take(i as int)));
                assert(next.last() == e);
            }
            i = i + 1;
        }
        assert(pressed@.take(n as int) =~= pressed@);
    }
}

/// Whether the start key is among `held`.
fn any_start_key(held: &Vec<Key>) -> (r: bool)
    ensures
        r == start_held(held@),
{
    let mut i: usize = 0;
    while i < held.len()
        invariant
            0 <= i <= held@.len(),
            forall|j: int| 0 <= j < i ==> !is_start_key(#[trigger] held@[j]),
        decreases held@.len() - i,
    {
        if starts_game(held[i]) {
            return true;
        }
        i = i + 1;
    }
    false
}

} // verus!
