use fetris::app_state::{after_menu, game_over_check, handle_global_input, on_escape, return_to_menu_on_space, AppState};
use fetris::audio::{cues_for_events, event_cue, grade_sound_index, lines_cleared_cue, Macroquad, SoundCue};
use fetris::constants::{gravity_g, LOCK_DELAY, SPAWN_DELAY_NORMAL};
use fetris::data::{
    GameConfig, GameEvent, GameKey, GameMode, Grade, HiScoreEntry, InputSnapshot, JudgeEvent, Kind,
    Piece, PieceKind, PiecePhase, BOARD_COLS, BOARD_ROWS,
};
use fetris::diagram::parse_rotations;
use fetris::game::Game;
use fetris::hiscores::{insert_entry, slot_index, storage_key};
use fetris::hud::{format_time, grade_bar_color, maybe_bracket, next_level_barrier, piece_color};
use fetris::input::{clear_just_pressed, debug_digit, map_game_key, menu_input_of, sample_input, Key};
use fetris::judge::Judge;
use fetris::overlay::{overlay_label, overlay_text_rgba, LineClearOverlay, OverlayKind, OVERLAY_LIFETIME};
use fetris::menu::{Menu, MenuInput, MenuResult, MenuScreen};
use fetris::randomizer::{first_piece_of_draw, pick, Randomizer};
use fetris::rotation_system::{cells_of, Ars, PieceState, RotationSystem, Srs};
use fetris::snapshot::{board_cells, cell_borders, compute_ghost_row, GameSnapshot};
use fetris::storage::Storage;

fn game_with(mode: GameMode, rotation: Kind, kind: PieceKind) -> Game {
    let mut game = Game::new(mode, rotation, Some(7));
    game.active = Piece::new(kind);
    game.active.row = 8;
    game.board = [[None; BOARD_COLS]; BOARD_ROWS];
    game.next = kind;
    game.phase = PiecePhase::Falling;
    game
}

fn fits_now(game: &Game, row: i32) -> bool {
    game.fits(game.active.col, row, game.active.rotation)
}

fn idle(game: &mut Game, ticks: u32) {
    for _ in 0..ticks {
        game.frame(&InputSnapshot::empty());
    }
}

// --- the game state machine -------------------------------------------------

#[test]
fn new_game_deals_first_piece_and_spawns_on_first_tick() {
    let mut game = Game::new(GameMode::Master, Kind::Ars, Some(3));
    assert_eq!(game.active.kind, game.next);
    assert_eq!(game.phase, PiecePhase::Spawning { ticks_left: 0 });
    assert_eq!(game.level(), 0);
    let first = game.next;
    idle(&mut game, 1);
    assert_eq!(game.phase, PiecePhase::Falling);
    assert_eq!(game.active.kind, first);
    assert_eq!(game.active.rotation, 0);
    assert_eq!(game.level(), 1, "a spawn raises the level");
    assert_eq!(game.progress.ticks_elapsed, 1);
}

#[test]
fn first_piece_is_never_s_z_or_o() {
    for seed in 0..300u64 {
        let game = Game::new(GameMode::Master, Kind::Ars, Some(seed));
        assert!(
            matches!(game.next, PieceKind::I | PieceKind::T | PieceKind::J | PieceKind::L),
            "seed {seed} gave {:?}",
            game.next
        );
    }
}

#[test]
fn same_seed_deals_same_pieces() {
    let mut a = Randomizer::with_seed(42);
    let mut b = Randomizer::with_seed(42);
    let sa: Vec<PieceKind> = (0..50).map(|_| a.next()).collect();
    let sb: Vec<PieceKind> = (0..50).map(|_| b.next()).collect();
    assert_eq!(sa, sb);
    let distinct: std::collections::HashSet<PieceKind> = sa.iter().copied().collect();
    assert!(distinct.len() >= 5, "the generator's draws vary: {sa:?}");
}

#[test]
fn first_piece_draws_select_i_t_j_l() {
    assert_eq!(first_piece_of_draw(0), PieceKind::I);
    assert_eq!(first_piece_of_draw(1), PieceKind::T);
    assert_eq!(first_piece_of_draw(2), PieceKind::J);
    assert_eq!(first_piece_of_draw(3), PieceKind::L);
}

#[test]
fn different_seeds_give_different_generators() {
    let mut a = Randomizer::with_seed(1);
    let mut b = Randomizer::with_seed(2);
    let sa: Vec<PieceKind> = (0..50).map(|_| a.next()).collect();
    let sb: Vec<PieceKind> = (0..50).map(|_| b.next()).collect();
    assert_ne!(sa, sb);
}

#[test]
fn dealt_piece_joins_history_at_the_back() {
    let mut r = Randomizer::with_seed(11);
    assert_eq!(r.history(), [PieceKind::Z; 4]);
    for _ in 0..40 {
        let before = r.history();
        let p = r.next();
        let after = r.history();
        assert_eq!(after, [before[1], before[2], before[3], p]);
    }
}

#[test]
fn ended_game_stays_frozen() {
    let mut game = game_with(GameMode::Master, Kind::Ars, PieceKind::T);
    game.progress.game_over = true;
    let board = game.board;
    let active = game.active;
    let ticks = game.progress.ticks_elapsed;
    game.frame(&InputSnapshot::pressed(GameKey::Left));
    game.frame(&InputSnapshot::pressed(GameKey::SonicDrop));
    assert_eq!(game.board, board);
    assert_eq!(game.active, active);
    assert_eq!(game.progress.ticks_elapsed, ticks);
    assert_eq!(game.tick_start, None);
    assert!(game.events.is_empty());
    assert!(game.is_over());
}

#[test]
fn each_running_tick_counts_one() {
    let mut game = game_with(GameMode::Master, Kind::Ars, PieceKind::L);
    for n in 1..=120u64 {
        game.frame(&InputSnapshot::empty());
        assert_eq!(game.progress.ticks_elapsed, n);
    }
}

#[test]
fn sonic_drop_rests_the_piece_on_the_floor() {
    for kind in PieceKind::all() {
        let mut game = game_with(GameMode::Master, Kind::Srs, kind);
        game.frame(&InputSnapshot::pressed(GameKey::SonicDrop));
        let row = game.active.row;
        assert!(fits_now(&game, row));
        assert!(!fits_now(&game, row + 1));
        assert_eq!(game.phase, PiecePhase::Locking { ticks_left: LOCK_DELAY });
        assert_eq!(game.drop_tracking.sonic_drop_rows as i32, row - 8);
    }
}

#[test]
fn twenty_g_lands_in_one_tick() {
    let mut game = game_with(GameMode::TwentyG, Kind::Ars, PieceKind::I);
    game.frame(&InputSnapshot::empty());
    let row = game.active.row;
    assert!(fits_now(&game, row));
    assert!(!fits_now(&game, row + 1));
    assert_eq!(row, 18, "the flat I rests with its cells on row 19");
}

#[test]
fn piece_always_fits_while_playing() {
    let mut game = Game::new(GameMode::Master, Kind::Srs, Some(99));
    let keys = [
        GameKey::Left,
        GameKey::RotateCw,
        GameKey::Right,
        GameKey::SoftDrop,
        GameKey::RotateCcw,
        GameKey::SonicDrop,
    ];
    for t in 0..3000usize {
        let key = keys[t % keys.len()];
        let input = if t % 3 == 0 {
            InputSnapshot::pressed(key)
        } else {
            InputSnapshot::holding(&[key])
        };
        let level_before = game.level();
        let lines_before = game.progress.lines;
        game.frame(&input);
        assert!(game.level() >= level_before && game.level() <= 999);
        assert!(game.progress.lines >= lines_before);
        if game.is_over() {
            break;
        }
        if matches!(game.phase, PiecePhase::Falling | PiecePhase::Locking { .. }) {
            let row = game.active.row;
            assert!(fits_now(&game, row), "tick {t}: the active piece overlaps");
        }
    }
}

#[test]
fn soft_drop_counts_frames_and_scores() {
    let mut game = game_with(GameMode::Master, Kind::Ars, PieceKind::I);
    for c in 0..BOARD_COLS {
        if !(3..7).contains(&c) {
            game.board[BOARD_ROWS - 1][c] = Some(PieceKind::O);
        }
    }
    for _ in 0..20 {
        game.frame(&InputSnapshot::holding(&[GameKey::SoftDrop]));
        if !matches!(game.phase, PiecePhase::Falling | PiecePhase::Locking { .. }) {
            break;
        }
    }
    assert!(matches!(game.phase, PiecePhase::LineClearDelay { .. }));
    assert_eq!(game.pending, vec![BOARD_ROWS - 1]);
    assert!(game.score() > 0);
    assert_eq!(game.judge_events.len(), 1);
}

#[test]
fn game_over_when_spawn_is_blocked() {
    let mut game = game_with(GameMode::Master, Kind::Ars, PieceKind::T);
    for r in 0..4 {
        for c in 0..BOARD_COLS {
            if c != 9 || r > 1 {
                game.board[r][c] = Some(PieceKind::O);
            }
        }
    }
    game.phase = PiecePhase::Spawning { ticks_left: 0 };
    game.frame(&InputSnapshot::empty());
    assert!(game.progress.game_over);
    assert!(game.events.contains(&GameEvent::GameEnded));
}

#[test]
fn das_charges_during_spawn_delay_after_frozen_frames() {
    let mut game = game_with(GameMode::Master, Kind::Ars, PieceKind::T);
    game.phase = PiecePhase::Spawning { ticks_left: SPAWN_DELAY_NORMAL };
    game.frame(&InputSnapshot::holding(&[GameKey::Left]));
    assert_eq!(game.das.counter, 0);
    assert_eq!(game.das.direction, None, "the first frames of the delay do not charge");
    for _ in 0..4 {
        game.frame(&InputSnapshot::holding(&[GameKey::Left]));
    }
    assert_eq!(game.das.direction, Some(fetris::data::HorizDir::Left));
    assert_eq!(game.das.counter, 0);
    game.frame(&InputSnapshot::holding(&[GameKey::Left]));
    assert_eq!(game.das.counter, 1);
    assert_eq!(game.active.col, 3, "nothing moves during the delay");
}

#[test]
fn drain_events_keeps_only_line_clears() {
    let mut game = game_with(GameMode::Master, Kind::Ars, PieceKind::T);
    game.events = vec![
        GameEvent::PieceBeganLocking,
        GameEvent::LineClear { count: 2 },
        GameEvent::GameEnded,
    ];
    assert_eq!(game.drain_events(), vec![GameEvent::LineClear { count: 2 }]);
    assert!(game.events.is_empty());
}

#[test]
fn next_level_barrier_of_game() {
    let mut game = game_with(GameMode::Master, Kind::Ars, PieceKind::T);
    game.progress.level = 350;
    assert_eq!(game.next_level_barrier(), 400);
    game.progress.level = 950;
    assert_eq!(game.next_level_barrier(), 999);
}

// --- rotation ---------------------------------------------------------------

#[test]
fn open_board_turns_in_place_in_both_systems() {
    let board = [[None; BOARD_COLS]; BOARD_ROWS];
    for kind in PieceKind::all() {
        for rotation in 0..4usize {
            let piece = PieceState { kind, rotation, col: 3, row: 8 };
            for (turned, dir) in [
                ((rotation + 1) % 4, fetris::data::RotationDirection::Clockwise),
                ((rotation + 3) % 4, fetris::data::RotationDirection::Counterclockwise),
            ] {
                let a = Ars.try_rotate(&piece, dir, &board).unwrap();
                let s = Srs.try_rotate(&piece, dir, &board).unwrap();
                assert_eq!(a, PieceState { rotation: turned, ..piece });
                assert_eq!(s, PieceState { rotation: turned, ..piece });
            }
        }
    }
}

#[test]
fn srs_cw_ccw_equivalence() {
    for kind in PieceKind::all() {
        let cells = |cw: usize, ccw: usize| {
            let mut game = game_with(GameMode::Master, Kind::Srs, kind);
            for _ in 0..cw {
                game.frame(&InputSnapshot::pressed(GameKey::RotateCw));
            }
            for _ in 0..ccw {
                game.frame(&InputSnapshot::pressed(GameKey::RotateCcw));
            }
            (game.active.col, cells_of(Kind::Srs, kind, game.active.rotation))
        };
        assert_eq!(cells(1, 0), cells(0, 3));
        assert_eq!(cells(2, 0), cells(0, 2));
        assert_eq!(cells(4, 0), cells(0, 0));
    }
}

#[test]
fn ars_i_never_kicks_at_the_wall() {
    let board = [[None; BOARD_COLS]; BOARD_ROWS];
    let piece = PieceState { kind: PieceKind::I, rotation: 1, col: -2, row: 8 };
    assert_eq!(
        Ars.try_rotate(&piece, fetris::data::RotationDirection::Clockwise, &board),
        None
    );
}

#[test]
fn parse_rotations_reads_t_diagram() {
    let shape = parse_rotations(
        "
        .... | .O.. | .... | .O..
        OOO. | OO.. | .O.. | .OO.
        .O.. | .O.. | OOO. | .O..
        .... | .... | .... | ....
        ",
    );
    assert_eq!(shape[0], [(0, 1), (1, 1), (2, 1), (1, 2)]);
    assert_eq!(shape[1], [(1, 0), (0, 1), (1, 1), (1, 2)]);
    assert_eq!(shape[2], [(1, 1), (0, 2), (1, 2), (2, 2)]);
    assert_eq!(shape[3], [(1, 0), (1, 1), (2, 1), (1, 2)]);
    assert_eq!(shape[1], Ars.cells(PieceKind::T, 1));
}

// --- snapshot ---------------------------------------------------------------

#[test]
fn ghost_row_is_landing_row_on_open_board() {
    let board = [[None; BOARD_COLS]; BOARD_ROWS];
    assert_eq!(compute_ghost_row(&board, Kind::Ars, PieceKind::O, 0, 3, 0), 17);
    let mut blocked = board;
    blocked[10][4] = Some(PieceKind::Z);
    assert_eq!(compute_ghost_row(&blocked, Kind::Ars, PieceKind::O, 0, 3, 0), 7);
}

#[test]
fn snapshot_copies_counters_and_shows_ghost_below() {
    let mut game = game_with(GameMode::Master, Kind::Ars, PieceKind::O);
    game.progress.level = 123;
    game.progress.lines = 45;
    game.pending = vec![3, 4];
    let snap = GameSnapshot::from_game(&game);
    assert_eq!(snap.level, 123);
    assert_eq!(snap.lines, 45);
    assert_eq!(snap.rows_pending_compaction, vec![3, 4]);
    assert_eq!(snap.active_cells, Some([(4, 9), (5, 9), (4, 10), (5, 10)]));
    assert_eq!(snap.ghost_cells, Some([(4, 18), (5, 18), (4, 19), (5, 19)]));
    assert_eq!(snap.next_kind, PieceKind::O);
}

// --- scoring, grades, hi scores ---------------------------------------------

#[test]
fn judge_score_and_best_grade_never_fall() {
    let mut j = Judge::new();
    let mut last_score = 0;
    let mut last_grade = Grade::Nine;
    for i in 0..60u32 {
        let event = if i % 3 == 2 {
            JudgeEvent::LockedWithoutClear
        } else {
            JudgeEvent::ClearedLines {
                level: i * 10,
                cleared_playfield: i % 7 == 0,
                num_lines: 1 + i % 4,
                frames_soft_drop_held: i % 5,
                sonic_drop_rows: i % 3,
                ticks_elapsed: i as u64 * 100,
            }
        };
        j.on_event(&event);
        assert!(j.score() >= last_score);
        assert!(j.grade_entry().grade >= last_grade);
        last_score = j.score();
        last_grade = j.grade_entry().grade;
    }
}

#[test]
fn judge_scores_one_line_exactly() {
    let mut j = Judge::new();
    j.on_event(&JudgeEvent::ClearedLines {
        level: 100,
        cleared_playfield: true,
        num_lines: 2,
        frames_soft_drop_held: 3,
        sonic_drop_rows: 4,
        ticks_elapsed: 77,
    });
    // ((100 + 3) / 4 + 3 + 2 * 4) * 2 lines * combo 3 * bravo 4
    assert_eq!(j.score(), (25 + 3 + 8) * 2 * 3 * 4);
}

#[test]
fn grade_follows_score_thresholds() {
    assert_eq!(Grade::of_score(0), Grade::Nine);
    assert_eq!(Grade::of_score(399), Grade::Nine);
    assert_eq!(Grade::of_score(400), Grade::Eight);
    assert_eq!(Grade::of_score(16000), Grade::SOne);
    assert_eq!(Grade::of_score(119999), Grade::SEight);
    assert_eq!(Grade::of_score(u32::MAX), Grade::SNine);
    let mut last = 0;
    for s in (0..130000u32).step_by(250) {
        let idx = Grade::of_score(s).index();
        assert!(idx >= last);
        last = idx;
    }
    assert_eq!(Grade::grade_progress(500), (400, Some(800)));
    assert_eq!(Grade::grade_progress(200000), (120000, None));
    assert_eq!(Grade::SThree.to_string(), "S3");
    assert_eq!(Grade::Two.to_string(), " 2");
}

#[test]
fn hi_score_tables_stay_sorted_and_short() {
    let mut entries: Vec<HiScoreEntry> = Vec::new();
    let grades = [Grade::Three, Grade::SOne, Grade::Nine, Grade::SOne, Grade::Five, Grade::SNine];
    for (i, g) in grades.iter().enumerate() {
        insert_entry(&mut entries, HiScoreEntry { grade: *g, ticks: 1000 - i as u64 * 10 }, 5);
        assert!(entries.len() <= 5);
        for w in entries.windows(2) {
            assert!(w[0].grade > w[1].grade || (w[0].grade == w[1].grade && w[0].ticks <= w[1].ticks));
        }
    }
    assert_eq!(entries.len(), 5);
    assert_eq!(entries[0].grade, Grade::SNine);
    assert!(!entries.iter().any(|e| e.grade == Grade::Nine));
    insert_entry(&mut entries, HiScoreEntry { grade: Grade::One, ticks: 5 }, 0);
    assert!(entries.is_empty());
}

#[test]
fn storage_keys_and_slots() {
    assert_eq!(storage_key(GameMode::Master, Kind::Ars), "hi_master_ars");
    assert_eq!(storage_key(GameMode::TwentyG, Kind::Srs), "hi_20g_srs");
    assert_eq!(slot_index(GameMode::Master, Kind::Srs), 1);
    assert_eq!(slot_index(GameMode::TwentyG, Kind::Ars), 2);
}

#[test]
fn gravity_for_twenty_g_mode() {
    assert_eq!(gravity_g(GameMode::TwentyG, 0), 5120);
    assert_eq!(gravity_g(GameMode::Master, 999), 5120);
    assert_eq!(gravity_g(GameMode::Master, 220), 32);
}

// --- display ----------------------------------------------------------------

#[test]
fn format_time_pads_and_grows() {
    assert_eq!(format_time(59), "00:00.983");
    assert_eq!(format_time(60 * 60 * 100), "100:00.000");
    assert_eq!(format_time(60 * 61 + 30), "01:01.500");
}

#[test]
fn level_barriers() {
    assert_eq!(next_level_barrier(0), 100);
    assert_eq!(next_level_barrier(99), 100);
    assert_eq!(next_level_barrier(100), 200);
    assert_eq!(next_level_barrier(898), 900);
    assert_eq!(next_level_barrier(899), 900);
    assert_eq!(next_level_barrier(900), 999);
    assert_eq!(next_level_barrier(999), 999);
}

#[test]
fn labels_and_colours() {
    assert_eq!(maybe_bracket("START", true), "< START >");
    assert_eq!(maybe_bracket("START", false), "  START  ");
    assert_eq!(grade_bar_color(0), (220, 50, 50, 200));
    assert_eq!(grade_bar_color(7), (220, 50, 50, 200));
    assert_eq!(grade_bar_color(13), (150, 0, 220, 200));
    assert_eq!(piece_color(PieceKind::L), (255, 150, 100, 255));
}

// --- storage, input, audio, screens ----------------------------------------

#[test]
fn storage_reads_back_what_was_written() {
    let mut s = Storage::new();
    assert_eq!(s.get("muted"), None);
    s.set("muted", "true");
    s.set("game_config", "{}");
    assert_eq!(s.get("muted"), Some("true".to_string()));
    s.set("muted", "false");
    assert_eq!(s.get("muted"), Some("false".to_string()));
    assert_eq!(s.get("game_config"), Some("{}".to_string()));
    assert_eq!(s.entries().len(), 2);
}

#[test]
fn keyboard_maps_to_game_keys() {
    assert_eq!(map_game_key(Key::KeyH), Some(GameKey::Left));
    assert_eq!(map_game_key(Key::ArrowDown), Some(GameKey::SoftDrop));
    assert_eq!(map_game_key(Key::Space), Some(GameKey::SonicDrop));
    assert_eq!(map_game_key(Key::KeyZ), Some(GameKey::RotateCcw));
    assert_eq!(map_game_key(Key::Other), None);
    let mut input = InputSnapshot::empty();
    sample_input(&mut input, &[Key::ArrowLeft, Key::KeyX], &[Key::KeyX]);
    sample_input(&mut input, &[Key::ArrowLeft], &[]);
    assert!(input.held.contains(&GameKey::Left));
    assert!(!input.held.contains(&GameKey::RotateCw));
    assert!(input.just_pressed.contains(&GameKey::RotateCw), "a press between ticks is kept");
    clear_just_pressed(&mut input);
    assert!(input.just_pressed.is_empty());
    assert!(input.held.contains(&GameKey::Left));
}

#[test]
fn sounds_for_events() {
    assert_eq!(lines_cleared_cue(1), SoundCue::Single);
    assert_eq!(lines_cleared_cue(3), SoundCue::Triple);
    assert_eq!(lines_cleared_cue(4), SoundCue::Fetris);
    assert_eq!(event_cue(GameEvent::GradeAdvanced(Grade::SNine)), SoundCue::Grade(17));
    assert_eq!(grade_sound_index(Grade::Nine), 0);
    let events = vec![GameEvent::PieceBeganLocking, GameEvent::GameEnded];
    assert_eq!(cues_for_events(&events, false), vec![SoundCue::PieceBeganLocking, SoundCue::GameOver]);
    assert!(cues_for_events(&events, true).is_empty());
    let mut bank = Macroquad::new(1, 2, 3, 4, 5, 6, 7, 8, (100..118).collect());
    assert_eq!(*bank.grade_sound(Grade::SOne), 109);
    assert_eq!(*bank.lines_sound(2), 5);
    assert_eq!(bank.play(&7), Some(&7));
    bank.set_muted(true);
    assert!(bank.is_muted());
    assert_eq!(bank.play(&7), None);
}

#[test]
fn screen_transitions() {
    let mut menu = Menu::new(GameConfig::default());
    assert!(on_escape(AppState::Menu, &mut menu), "escape on the main screen quits");
    assert!(on_escape(AppState::Playing, &mut menu));
    let tables: [Vec<HiScoreEntry>; 4] = [vec![], vec![], vec![], vec![]];
    for _ in 0..3 {
        menu.tick(&MenuInput { down: true, ..MenuInput::default() }, &tables);
    }
    menu.tick(&MenuInput { confirm: true, ..MenuInput::default() }, &tables);
    assert_eq!(menu.screen(), MenuScreen::Controls);
    assert!(!on_escape(AppState::Menu, &mut menu), "escape on a sub-screen returns");
    assert_eq!(menu.screen(), MenuScreen::Main);
    assert_eq!(after_menu(MenuResult::Stay), None);
    assert_eq!(after_menu(MenuResult::EnterDebug), Some(AppState::Debug));
    assert_eq!(
        after_menu(MenuResult::StartGame { mode: GameMode::Master, rotation: Kind::Ars }),
        Some(AppState::Ready)
    );
    assert_eq!(game_over_check(AppState::Playing, true), Some(AppState::GameOver));
    assert_eq!(game_over_check(AppState::Playing, false), None);
    assert_eq!(return_to_menu_on_space(AppState::GameOver, true), Some(AppState::Menu));
    assert_eq!(return_to_menu_on_space(AppState::Playing, true), None);
}

#[test]
fn debug_entry_unlocks_and_opens_debug() {
    let mut menu = Menu::new(GameConfig::default());
    let tables: [Vec<HiScoreEntry>; 4] = [vec![], vec![], vec![], vec![]];
    menu.tick(&MenuInput { unlock_debug: true, ..MenuInput::default() }, &tables);
    assert!(menu.debug_unlocked());
    for _ in 0..10 {
        menu.tick(&MenuInput { down: true, ..MenuInput::default() }, &tables);
    }
    assert_eq!(menu.cursor(), 5);
    menu.tick(&MenuInput { up: true, ..MenuInput::default() }, &tables);
    assert_eq!(
        menu.tick(&MenuInput { confirm: true, ..MenuInput::default() }, &tables),
        MenuResult::EnterDebug
    );
}

#[test]
fn hi_scores_open_on_current_settings_with_stored_tables() {
    let mut menu = Menu::new(GameConfig { game_mode: GameMode::TwentyG, rotation: Kind::Srs });
    let e = HiScoreEntry { grade: Grade::SOne, ticks: 1234 };
    let tables: [Vec<HiScoreEntry>; 4] = [vec![], vec![], vec![], vec![e]];
    menu.tick(&MenuInput { down: true, ..MenuInput::default() }, &tables);
    menu.tick(&MenuInput { down: true, ..MenuInput::default() }, &tables);
    menu.tick(&MenuInput { confirm: true, ..MenuInput::default() }, &tables);
    assert_eq!(menu.screen(), MenuScreen::HiScores);
    assert_eq!(menu.hi_scores_tab(), 3);
    assert_eq!(menu.hi_scores_data()[3], vec![e]);
    menu.tick(&MenuInput { right: true, ..MenuInput::default() }, &tables);
    assert_eq!(menu.hi_scores_tab(), 3, "the last tab stays");
    menu.tick(&MenuInput { left: true, ..MenuInput::default() }, &tables);
    assert_eq!(menu.hi_scores_tab(), 2);
}

#[test]
fn line_clear_banners() {
    assert_eq!(LineClearOverlay::for_clear(1), None);
    let mut o = LineClearOverlay::for_clear(4).unwrap();
    assert_eq!(o.kind, OverlayKind::Fetris);
    assert_eq!(o.ticks_left, OVERLAY_LIFETIME);
    assert_eq!(overlay_label(OverlayKind::Triple), "TRIPLE");
    assert_eq!(overlay_text_rgba(OverlayKind::Fetris), (255, 60, 60, 255));
    assert_eq!(overlay_text_rgba(OverlayKind::Double), (255, 255, 255, 255));
    let mut up = 0;
    while o.tick() {
        up += 1;
    }
    assert_eq!(up, OVERLAY_LIFETIME);
}

#[test]
fn ready_screen_buffers_rotation_and_charges_das() {
    let mut game = game_with(GameMode::Master, Kind::Ars, PieceKind::T);
    game.tick_ready(&InputSnapshot::holding(&[GameKey::RotateCcw, GameKey::Right]));
    game.tick_ready(&InputSnapshot::holding(&[GameKey::RotateCcw, GameKey::Right]));
    assert_eq!(game.rotation_buffer, Some(fetris::data::RotationDirection::Counterclockwise));
    assert_eq!(game.das.counter, 1);
    assert_eq!(game.active.col, 3);
    game.apply_irs();
    assert_eq!(game.active.rotation, 3);
    assert_eq!(game.rotation_buffer, None);
    game.tick_ready(&InputSnapshot::empty());
    assert_eq!(game.rotation_buffer, None);
    assert_eq!(game.das.direction, None);
}

#[test]
fn pick_takes_first_candidate_outside_history() {
    let z = [PieceKind::Z; 4];
    assert_eq!(pick(&z, &vec![PieceKind::Z, PieceKind::S, PieceKind::I]), PieceKind::S);
    assert_eq!(pick(&z, &vec![PieceKind::T]), PieceKind::T);
    let h = [PieceKind::I, PieceKind::T, PieceKind::J, PieceKind::L];
    assert_eq!(pick(&h, &vec![PieceKind::I, PieceKind::T, PieceKind::J, PieceKind::L]), PieceKind::L);
    assert_eq!(pick(&h, &vec![PieceKind::J, PieceKind::O]), PieceKind::O);
    assert_eq!(pick(&z, &vec![PieceKind::Z, PieceKind::Z]), PieceKind::Z);
}

#[test]
fn same_seed_starts_same_game() {
    let mut a = Game::new(GameMode::Master, Kind::Ars, Some(99));
    let mut b = Game::new(GameMode::Master, Kind::Ars, Some(99));
    assert_eq!(a.next, b.next);
    for _ in 0..3000 {
        a.tick(&InputSnapshot::empty());
        b.tick(&InputSnapshot::empty());
        assert_eq!(a.next, b.next);
        assert_eq!(a.active, b.active);
    }
}

#[test]
fn tick_clearing_lock_leaves_full_line_clear_delay() {
    let mut game = Game::new(GameMode::Master, Kind::Ars, Some(0));
    for c in 0..BOARD_COLS {
        if c != 2 {
            game.board[BOARD_ROWS - 1][c] = Some(PieceKind::O);
        }
    }
    game.active = Piece::new(PieceKind::I);
    game.active.col = 0;
    game.active.row = (BOARD_ROWS - 4) as i32;
    game.active.rotation = 1;
    game.phase = PiecePhase::Locking { ticks_left: 0 };
    let mut frame_game = Game::new(GameMode::Master, Kind::Ars, Some(0));
    frame_game.board = game.board;
    frame_game.active = game.active;
    frame_game.phase = game.phase;
    game.tick(&InputSnapshot::empty());
    assert_eq!(game.phase, PiecePhase::LineClearDelay { ticks_left: 40 });
    assert_eq!(game.pending, vec![BOARD_ROWS - 1]);
    assert!(game.board[BOARD_ROWS - 1].iter().all(|c| c.is_some()));
    assert_eq!(game.progress.lines, 1);
    assert_eq!(game.progress.level, 1);
    assert_eq!(game.progress.ticks_elapsed, 1);
    frame_game.frame(&InputSnapshot::empty());
    assert_eq!(frame_game.phase, PiecePhase::LineClearDelay { ticks_left: 39 });
}

#[test]
fn sonic_drop_while_locking_restarts_delay_only_in_tick() {
    let mut a = game_with(GameMode::Master, Kind::Ars, PieceKind::T);
    while a.try_move(0, 1) {}
    a.phase = PiecePhase::Locking { ticks_left: 10 };
    let mut b = game_with(GameMode::Master, Kind::Ars, PieceKind::T);
    b.active = a.active;
    b.phase = a.phase;
    a.tick(&InputSnapshot::pressed(GameKey::SonicDrop));
    assert_eq!(a.phase, PiecePhase::Locking { ticks_left: LOCK_DELAY });
    b.frame(&InputSnapshot::pressed(GameKey::SonicDrop));
    assert_eq!(b.phase, PiecePhase::Locking { ticks_left: 10 });
}

#[test]
fn try_move_accepts_any_offset() {
    let mut game = game_with(GameMode::Master, Kind::Ars, PieceKind::O);
    game.active.col = 3;
    game.active.row = 8;
    assert!(game.try_move(3, 5));
    assert_eq!((game.active.col, game.active.row), (6, 13));
    assert!(!game.try_move(100, 0));
    assert_eq!((game.active.col, game.active.row), (6, 13));
}

#[test]
fn cell_borders_face_edges_and_empty_cells() {
    let mut board = [[None; BOARD_COLS]; BOARD_ROWS];
    board[19][0] = Some(PieceKind::I);
    board[19][1] = Some(PieceKind::I);
    board[18][1] = Some(PieceKind::I);
    assert_eq!(cell_borders(&board, 0, 19), (true, true, false, true));
    assert_eq!(cell_borders(&board, 1, 19), (false, false, true, true));
    assert_eq!(cell_borders(&board, 1, 18), (true, true, true, false));
    assert_eq!(cell_borders(&board, 5, 0), (true, true, true, true));
}

#[test]
fn global_keys_toggle_mute_and_quit() {
    let mut menu = Menu::new(GameConfig::default());
    let mut muted = false;
    assert!(!handle_global_input(true, false, AppState::Menu, &mut menu, &mut muted));
    assert!(muted);
    assert!(!handle_global_input(true, false, AppState::Menu, &mut menu, &mut muted));
    assert!(!muted);
    assert!(handle_global_input(false, true, AppState::Menu, &mut menu, &mut muted));
    assert!(handle_global_input(false, true, AppState::Playing, &mut menu, &mut muted));
}

#[test]
fn read_gives_last_write_after_other_keys() {
    let mut s = Storage::new();
    s.set("a", "1");
    s.set("b", "2");
    s.set("c", "3");
    s.set("b", "4");
    assert_eq!(s.get("a"), Some("1".to_string()));
    assert_eq!(s.get("b"), Some("4".to_string()));
    assert_eq!(s.get("zz"), None);
}

#[test]
fn judge_combo_starts_at_one() {
    let j = Judge::new();
    assert_eq!(j.combo(), 1);
}

#[test]
fn store_loads_saved_json_object() {
    let s = Storage::from_json("{\"muted\":\"true\",\"game_config\":\"x\"}");
    assert_eq!(s.get("muted"), Some("true".to_string()));
    assert_eq!(s.get("game_config"), Some("x".to_string()));
    assert_eq!(s.get("other"), None);
    assert_eq!(s.entries().len(), 2);
}

#[test]
fn store_from_unreadable_text_is_empty() {
    for text in ["", "not json", "[1, 2]", "{\"a\": 1}"] {
        let s = Storage::from_json(text);
        assert!(s.entries().is_empty(), "{text:?}");
    }
}

#[test]
fn store_saves_as_json_and_loads_back() {
    let mut s = Storage::new();
    s.set("b", "two \"quoted\"");
    s.set("a", "1");
    let text = s.to_json().expect("a map of strings is written");
    assert_eq!(text, "{\"a\":\"1\",\"b\":\"two \\\"quoted\\\"\"}");
    let t = Storage::from_json(&text);
    assert_eq!(t.get("a"), Some("1".to_string()));
    assert_eq!(t.get("b"), Some("two \"quoted\"".to_string()));
}

#[test]
fn menu_keys_map_both_layouts() {
    let m = menu_input_of(&[Key::KeyK, Key::Enter]);
    assert!(m.up && m.confirm && !m.down && !m.left && !m.right && !m.back && !m.unlock_debug);
    let m = menu_input_of(&[Key::ArrowDown, Key::KeyH, Key::Backspace, Key::KeyD]);
    assert!(m.down && m.left && m.back && m.unlock_debug && !m.up && !m.right && !m.confirm);
    let m = menu_input_of(&[Key::ArrowRight, Key::Space]);
    assert!(m.right && m.confirm);
    let m = menu_input_of(&[Key::Other]);
    assert!(!(m.up || m.down || m.left || m.right || m.confirm || m.back || m.unlock_debug));
}

#[test]
fn debug_digit_takes_lowest_pressed() {
    assert_eq!(debug_digit(&[Key::Digit3]), Some(3));
    assert_eq!(debug_digit(&[Key::Digit4, Key::Digit2]), Some(2));
    assert_eq!(debug_digit(&[Key::Digit1]), Some(1));
    assert_eq!(debug_digit(&[Key::Space]), None);
    assert_eq!(map_game_key(Key::Digit1), None);
}

#[test]
fn board_cells_skip_rows_being_cleared() {
    let mut board = [[None; BOARD_COLS]; BOARD_ROWS];
    board[18][3] = Some(PieceKind::T);
    for c in 0..BOARD_COLS {
        board[19][c] = Some(PieceKind::O);
    }
    let all = board_cells(&board, &vec![]);
    assert_eq!(all.len(), 11);
    assert_eq!(all[0], (3, 18, PieceKind::T, (true, true, true, false)));
    assert_eq!(all[1], (0, 19, PieceKind::O, (true, true, false, true)));
    assert_eq!(all[4], (3, 19, PieceKind::O, (false, false, false, true)));
    let kept = board_cells(&board, &vec![19]);
    assert_eq!(kept, vec![(3, 18, PieceKind::T, (true, true, true, false))]);
}

#[test]
fn fresh_game_frame_is_safe() {
    let game = Game::new(GameMode::Master, Kind::Ars, Some(1));
    assert!(game.frame_is_safe());
    assert!(game.tick_is_safe());
    let mut worn = Game::new(GameMode::Master, Kind::Ars, Some(1));
    worn.progress.ticks_elapsed = u64::MAX;
    assert!(!worn.frame_is_safe());
    let mut high = Game::new(GameMode::Master, Kind::Ars, Some(1));
    high.judge.set_score_for_debug(u32::MAX - 10);
    assert!(!high.frame_is_safe());
}

#[test]
fn grades_order_by_rank() {
    assert!(Grade::Nine < Grade::Eight);
    assert!(Grade::One < Grade::SOne);
    assert!(Grade::SEight < Grade::SNine);
    assert!(Grade::SNine > Grade::Nine);
    assert_eq!(Grade::Five.partial_cmp(&Grade::Five), Some(std::cmp::Ordering::Equal));
    assert_eq!(Grade::Two.cmp(&Grade::Three), std::cmp::Ordering::Greater);
}
