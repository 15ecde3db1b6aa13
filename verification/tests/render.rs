use snake_game::game::GameContext;
use snake_game::point::Point;
use snake_game::render::{
    background_color, can_draw, can_draw_all, dot, frame, window_size, Dot, Rgb, DOT_SIZE_IN_PXS,
};
use snake_game::rules::{GameState, PlayerDirection};

#[test]
fn window_shows_the_whole_grid() {
    assert_eq!(window_size(), (800, 600));
    assert_eq!(DOT_SIZE_IN_PXS, 20);
}

#[test]
fn background_depends_on_the_state() {
    assert_eq!(background_color(&GameState::Playing), Rgb(0, 0, 0));
    assert_eq!(background_color(&GameState::Paused), Rgb(30, 30, 30));
}

#[test]
fn dot_scales_the_cell() {
    assert_eq!(dot(&Point(3, 1)), Dot { x: 60, y: 20, side: 20 });
    assert_eq!(dot(&Point(0, 0)), Dot { x: 0, y: 0, side: 20 });
    assert_eq!(dot(&Point(-1, 30)), Dot { x: -20, y: 600, side: 20 });
}

#[test]
fn can_draw_up_to_the_last_pixel() {
    assert!(can_draw(&Point(107_374_182, -107_374_182)));
    assert!(!can_draw(&Point(107_374_183, 0)));
    assert!(!can_draw(&Point(0, -107_374_183)));
    assert_eq!(dot(&Point(107_374_182, 0)).x, 2_147_483_640);
}

#[test]
fn frame_of_a_new_game() {
    let g = GameContext::with_food(Point(7, 9));
    assert!(can_draw_all(&g));
    let f = frame(&g);
    assert_eq!(f.background, Rgb(30, 30, 30));
    assert_eq!(f.player_color, Rgb(0, 255, 0));
    assert_eq!(f.food_color, Rgb(255, 0, 0));
    assert_eq!(
        f.player,
        vec![
            Dot { x: 60, y: 20, side: 20 },
            Dot { x: 40, y: 20, side: 20 },
            Dot { x: 20, y: 20, side: 20 },
        ]
    );
    assert_eq!(f.food, Dot { x: 140, y: 180, side: 20 });
}

#[test]
fn frame_of_a_running_game() {
    let mut g = GameContext::with_food(Point(0, 29));
    g.toggle_pause();
    g.tick_with(Point(0, 0));
    let f = frame(&g);
    assert_eq!(f.background, Rgb(0, 0, 0));
    assert_eq!(f.player.len(), 3);
    assert_eq!(f.player[0], Dot { x: 80, y: 20, side: 20 });
    assert_eq!(f.food, Dot { x: 0, y: 580, side: 20 });
}

#[test]
fn can_draw_all_scans_food_and_body() {
    let far = GameContext {
        player_position: vec![Point(3, 1), Point(2, 1), Point(200_000_000, 1)],
        player_direction: PlayerDirection::Right,
        food: Point(0, 0),
        state: GameState::Playing,
    };
    assert!(!can_draw_all(&far));
    let far_food = GameContext::with_food(Point(0, i32::MIN));
    assert!(!can_draw_all(&far_food));
}
