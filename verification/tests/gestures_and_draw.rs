use snake_game::direction::Direction;
use snake_game::grid::Cell;
use snake_game::snake::{Color, DrawCmd, Snake, Tick};

fn cell(x: u32, y: u32) -> Cell {
    Cell { x, y }
}

#[test]
fn swipe_right_resolves_to_right() {
    let mut s = Snake::new(5, 5, cell(2, 2), cell(0, 0));
    s.touch_down(0, 0);
    s.touch_up(10, 0);
    assert_eq!(s.direction, Some(Direction::Right));
}

#[test]
fn swipe_left_resolves_to_left() {
    // Head the snake Up first so that a Left request is not a reversal.
    let mut s = Snake::new(5, 5, cell(2, 2), cell(0, 0));
    s.change_direction(Direction::Up);
    assert_eq!(s.update(cell(0, 0), cell(0, 0)), Tick::Moved);
    s.touch_down(0, 0);
    s.touch_up(-10, 0);
    assert_eq!(s.direction, Some(Direction::Left));
}

#[test]
fn swipe_quadrants() {
    // dx > 0, dy < 0 lies in the fourth quadrant of atan2: Down.
    let mut s = Snake::new(5, 5, cell(2, 2), cell(0, 0));
    s.touch_down(0, 0);
    s.touch_up(10, -5);
    assert_eq!(s.direction, Some(Direction::Down));
    // dx < 0, dy > 0 lies in the second quadrant: Up.
    let mut s2 = Snake::new(5, 5, cell(2, 2), cell(0, 0));
    s2.touch_down(0, 0);
    s2.touch_up(-10, 5);
    assert_eq!(s2.direction, Some(Direction::Up));
}

#[test]
fn vertical_swipe_is_ignored() {
    // With no horizontal delta the gesture is degenerate and changes nothing.
    let mut s = Snake::new(5, 5, cell(2, 2), cell(0, 0));
    s.touch_down(7, 3);
    s.touch_up(7, 100);
    assert_eq!(s.direction, None);
    assert_eq!(s.next_direction, None);
}

#[test]
fn touch_down_records_the_origin() {
    let mut s = Snake::new(5, 5, cell(2, 2), cell(0, 0));
    s.touch_down(31, -8);
    assert_eq!(s.touch_start_x, 31);
    assert_eq!(s.touch_start_y, -8);
    // A swipe is measured against the recorded origin, not against zero:
    // ending right of the origin resolves to Right even at negative x.
    s.touch_up(-2, -8);
    assert_eq!(s.direction, None);
    s.touch_down(-10, 0);
    s.touch_up(-2, 0);
    assert_eq!(s.direction, Some(Direction::Right));
}

#[test]
fn draw_paints_head_tail_food_in_order() {
    let mut s = Snake::new(5, 5, cell(2, 2), cell(4, 4));
    assert_eq!(s.update(cell(0, 0), cell(0, 0)), Tick::Moved);
    let cmds = s.draw();
    assert_eq!(cmds.len(), 4);
    assert_eq!(cmds[0], DrawCmd::Clear);
    assert_eq!(cmds[1], DrawCmd::Paint { at: cell(3, 2), color: Color::Green });
    assert_eq!(cmds[2], DrawCmd::Paint { at: cell(2, 2), color: Color::LightGreen });
    assert_eq!(cmds[3], DrawCmd::Paint { at: cell(4, 4), color: Color::Red });
}

#[test]
fn draw_with_empty_tail() {
    let s = Snake::new(5, 5, cell(1, 1), cell(3, 3));
    let cmds = s.draw();
    assert_eq!(cmds.len(), 3);
    assert_eq!(cmds[0], DrawCmd::Clear);
    assert_eq!(cmds[1], DrawCmd::Paint { at: cell(1, 1), color: Color::Green });
    assert_eq!(cmds[2], DrawCmd::Paint { at: cell(3, 3), color: Color::Red });
}
