use falling_words::falling::FallingItems;
use falling_words::game::{Game, GameState};
use falling_words::keys::{edit_for_key, starts_game, Key};
use falling_words::scheduler::{spawn_band_for, SpawnScheduler, DEFAULT_INTERVAL_MS};
use falling_words::text_buffer::{Edit, TextBuffer};

fn started_game(width: u32) -> Game {
    let mut g = Game::new(7, width, 600);
    g.update(&vec![Key::Space], &vec![], 0);
    assert_eq!(g.state, GameState::Started);
    g
}

fn typed(g: &Game) -> String {
    g.buffer.chars().iter().collect()
}

#[test]
fn cursor_clamped_after_far_moves() {
    let mut g = started_game(800);
    g.update(&vec![], &vec![Key::A, Key::B], 16);
    assert_eq!(g.buffer.cursor(), 2);
    let lefts = vec![Key::Left; 10];
    g.update(&vec![], &lefts, 16);
    assert_eq!(g.buffer.cursor(), 0);
    let rights = vec![Key::Right; 10];
    g.update(&vec![], &rights, 16);
    assert_eq!(g.buffer.cursor(), 2);
}

#[test]
fn cursor_moves_are_not_clamped_within_a_frame() {
    let mut g = started_game(800);
    g.update(&vec![], &vec![Key::A], 16);
    // Two steps left go to -1, one right comes back to 0: the insert lands in front.
    g.update(&vec![], &vec![Key::Left, Key::Left, Key::Right, Key::B], 16);
    assert_eq!(typed(&g), "ba");
    assert_eq!(g.buffer.cursor(), 1);
}

#[test]
fn insert_then_delete_restores_buffer() {
    let mut t = TextBuffer::new();
    t.insert_char('x');
    t.insert_char('y');
    t.move_left();
    let before: Vec<char> = t.chars().clone();
    let cursor = t.cursor();
    t.insert_char('q');
    assert_eq!(t.chars(), &vec!['x', 'q', 'y']);
    t.delete_before_cursor();
    assert_eq!(t.chars(), &before);
    assert_eq!(t.cursor(), cursor);
}

#[test]
fn delete_at_start_is_a_no_op() {
    let mut t = TextBuffer::new();
    t.delete_before_cursor();
    assert_eq!(t.len(), 0);
    assert_eq!(t.cursor(), 0);
    t.insert_char('a');
    t.move_left();
    t.delete_before_cursor();
    assert_eq!(t.chars(), &vec!['a']);
    assert_eq!(t.cursor(), 0);
}

#[test]
fn out_of_range_edits_do_nothing() {
    let mut t = TextBuffer::new();
    t.move_left();
    t.insert_char('a');
    assert_eq!(t.len(), 0);
    assert_eq!(t.cursor(), -1);
    t.clamp_cursor();
    assert_eq!(t.cursor(), 0);
}

#[test]
fn spawn_timing_fires_once() {
    let mut s = SpawnScheduler::new(5000);
    assert!(!s.tick(2500));
    assert_eq!(s.remaining_ms, 2500);
    assert!(s.tick(2600));
    assert_eq!(s.remaining_ms, 5000);
    assert_eq!(s.interval_ms, 5000);
}

#[test]
fn spawn_fires_only_below_zero() {
    let mut s = SpawnScheduler::new(DEFAULT_INTERVAL_MS);
    assert!(!s.tick(5000));
    assert_eq!(s.remaining_ms, 0);
    assert!(s.tick(1));
    assert_eq!(s.remaining_ms, 5000);
}

#[test]
fn oversized_frame_spawns_once() {
    let mut g = started_game(800);
    g.update(&vec![], &vec![], 60_000);
    assert_eq!(g.items.len(), 1);
    assert_eq!(g.scheduler.remaining_ms, 5000);
}

#[test]
fn fall_advancement() {
    let mut f = FallingItems::new();
    f.spawn(0, "w".to_string());
    f.advance(1500, 10);
    assert_eq!(f.items()[0].y, 15_000);
    assert_eq!(f.items()[0].x, 0);
    assert_eq!(f.items()[0].word, "w");
}

#[test]
fn fall_saturates_at_the_largest_position() {
    let mut f = FallingItems::new();
    f.spawn(5, "w".to_string());
    for _ in 0..5 {
        f.advance(u32::MAX, u32::MAX);
    }
    assert_eq!(f.items()[0].y, u64::MAX);
}

#[test]
fn spawn_band_values() {
    assert_eq!(spawn_band_for(800), Some((10_000, 770_000)));
    assert_eq!(spawn_band_for(41), Some((10_000, 11_000)));
    assert_eq!(spawn_band_for(40), None);
    assert_eq!(spawn_band_for(0), None);
}

#[test]
fn spawned_items_lie_in_band() {
    for seed in 0..20u64 {
        let mut g = Game::new(seed, 100, 600);
        g.update(&vec![Key::Space], &vec![], 0);
        for _ in 0..5 {
            g.update(&vec![], &vec![], 5001);
        }
        assert_eq!(g.items.len(), 5);
        for it in g.items.items().iter() {
            assert!(it.x >= 10_000 && it.x < 70_000);
            assert_eq!(it.word, "asdf");
        }
    }
}

#[test]
fn spawn_draws_vary() {
    let mut g = started_game(800);
    for _ in 0..20 {
        g.update(&vec![], &vec![], 5001);
    }
    let first = g.items.items()[0].x;
    assert!(g.items.items().iter().any(|it| it.x != first));
    assert!(g.items.items().iter().all(|it| it.x >= 10_000 && it.x < 770_000));
}

#[test]
fn narrow_viewport_spawns_nothing() {
    let mut g = started_game(40);
    g.update(&vec![], &vec![], 5001);
    assert_eq!(g.items.len(), 0);
    assert_eq!(g.scheduler.remaining_ms, 5000);
}

#[test]
fn new_item_starts_at_top_and_falls() {
    let mut g = started_game(800);
    g.update(&vec![], &vec![], 5001);
    assert_eq!(g.items.items()[0].y, 0);
    g.update(&vec![], &vec![], 1500);
    assert_eq!(g.items.items()[0].y, 15_000);
}

#[test]
fn stopped_ignores_other_keys() {
    let mut g = Game::new(1, 800, 600);
    g.update(&vec![Key::A, Key::Return, Key::Left], &vec![Key::A, Key::B, Key::Back], 10_000);
    assert_eq!(g.state, GameState::Stopped);
    assert_eq!(g.buffer.len(), 0);
    assert_eq!(g.items.len(), 0);
    assert_eq!(g.scheduler.remaining_ms, 5000);
}

#[test]
fn start_key_starts_once_while_held() {
    let mut g = Game::new(1, 800, 600);
    g.update(&vec![Key::Space], &vec![Key::Space], 16);
    assert_eq!(g.state, GameState::Started);
    assert_eq!(g.buffer.len(), 0);
    assert_eq!(g.scheduler.remaining_ms, 5000);
    g.update(&vec![Key::Space], &vec![], 16);
    assert_eq!(g.state, GameState::Started);
}

#[test]
fn paused_is_inert() {
    let mut g = started_game(800);
    g.state = GameState::Paused;
    g.update(&vec![Key::Space], &vec![Key::A], 10_000);
    assert_eq!(g.state, GameState::Paused);
    assert_eq!(g.buffer.len(), 0);
    assert_eq!(g.items.len(), 0);
    assert_eq!(g.scheduler.remaining_ms, 5000);
}

#[test]
fn item_count_never_drops() {
    let mut g = started_game(800);
    let mut last: usize = 0;
    for frame in 0..200u32 {
        let pressed = if frame % 3 == 0 { vec![Key::A, Key::S, Key::D, Key::F] } else { vec![Key::Back] };
        g.update(&vec![], &pressed, 700);
        assert!(g.items.len() >= last);
        last = g.items.len();
    }
    assert!(last > 20);
}

#[test]
fn key_table() {
    assert_eq!(edit_for_key(Key::A), Edit::Insert('a'));
    assert_eq!(edit_for_key(Key::Z), Edit::Insert('z'));
    assert_eq!(edit_for_key(Key::Key7), Edit::Insert('7'));
    assert_eq!(edit_for_key(Key::Numpad7), Edit::Insert('7'));
    assert_eq!(edit_for_key(Key::Key0), Edit::Insert('0'));
    assert_eq!(edit_for_key(Key::Space), Edit::Insert(' '));
    assert_eq!(edit_for_key(Key::Back), Edit::DeleteBefore);
    assert_eq!(edit_for_key(Key::Left), Edit::CursorLeft);
    assert_eq!(edit_for_key(Key::Right), Edit::CursorRight);
    assert_eq!(edit_for_key(Key::Return), Edit::Nothing);
    assert_eq!(edit_for_key(Key::Up), Edit::Nothing);
    assert_eq!(edit_for_key(Key::Down), Edit::Nothing);
    assert_eq!(edit_for_key(Key::Escape), Edit::Nothing);
    assert_eq!(edit_for_key(Key::Other), Edit::Nothing);
    assert!(starts_game(Key::Space));
    assert!(!starts_game(Key::Return));
}

#[test]
fn typing_a_word() {
    let mut g = started_game(800);
    g.update(&vec![], &vec![Key::H, Key::I, Key::Space, Key::Numpad4, Key::Key2], 16);
    assert_eq!(typed(&g), "hi 42");
    g.update(&vec![], &vec![Key::Back, Key::Left, Key::Left, Key::Back], 16);
    assert_eq!(typed(&g), "h 4");
    assert_eq!(g.buffer.cursor(), 1);
}

#[test]
fn new_game_defaults() {
    let g = Game::new(0, 800, 600);
    assert_eq!(g.state, GameState::Stopped);
    assert_eq!(g.fall_speed, 10);
    assert_eq!((g.width, g.height), (800, 600));
    assert_eq!(g.scheduler.remaining_ms, 5000);
    let mut g = g;
    g.set_viewport(1024, 768);
    assert_eq!((g.width, g.height), (1024, 768));
}
