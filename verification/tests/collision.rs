use motion2d::body::{ControlledBody, StaticBody};
use motion2d::collision::{
    find_clause, heading, place_against, resolve, resolve_against, Clause, Face,
};
use motion2d::fixed::Fixed;
use motion2d::vector::Vector2;

fn raw_vector(x: i64, y: i64) -> Vector2 {
    Vector2::new(Fixed::from_raw(x), Fixed::from_raw(y))
}

fn wall() -> StaticBody {
    StaticBody::new(Vector2::from_ints(-400, 0), Vector2::from_ints(50, 500)).unwrap()
}

fn obstacle(x: i32, y: i32, width: i32, height: i32) -> StaticBody {
    StaticBody::new(Vector2::from_ints(x, y), Vector2::from_ints(width, height)).unwrap()
}

fn body(x: i32, y: i32, vx: i32, vy: i32) -> ControlledBody {
    ControlledBody::new(Vector2::from_ints(x, y), Vector2::from_ints(50, 50))
        .unwrap()
        .with_velocity(Vector2::from_ints(vx, vy))
}

#[test]
fn heading_gives_the_signs_of_the_velocity() {
    assert_eq!(heading(Vector2::zero()), (0, 0));
    assert_eq!(heading(raw_vector(1, -1)), (1, -1));
    assert_eq!(heading(raw_vector(-800_000, 0)), (-1, 0));
    assert_eq!(heading(raw_vector(0, i64::MAX)), (0, 1));
    assert_eq!(heading(raw_vector(i64::MIN, i64::MIN)), (-1, -1));
}

#[test]
fn each_rule_has_its_face() {
    assert_eq!(Clause::OrthogonalDown.target(), Face::Top);
    assert_eq!(Clause::DiagonalDown.target(), Face::Top);
    assert_eq!(Clause::OrthogonalUp.target(), Face::Bottom);
    assert_eq!(Clause::DiagonalUp.target(), Face::Bottom);
    assert_eq!(Clause::OrthogonalRight.target(), Face::Left);
    assert_eq!(Clause::DiagonalRight.target(), Face::Left);
    assert_eq!(Clause::OrthogonalLeft.target(), Face::Right);
    assert_eq!(Clause::DiagonalLeft.target(), Face::Right);
}

#[test]
fn moving_left_into_the_wall_stops_at_its_right_face() {
    let mut b = ControlledBody::new(Vector2::from_ints(-360, 0), Vector2::from_ints(50, 50))
        .unwrap()
        .with_velocity(raw_vector(-1_440_000, 0));
    assert_eq!(find_clause(&b, &wall()), Some(Clause::OrthogonalLeft));
    resolve(&mut b, &[wall()]);
    assert_eq!(b.rect.center, Vector2::from_ints(-350, 0));
    assert_eq!(b.velocity, Vector2::zero());
    assert_eq!(b.rect.edges().left, wall().rect.edges().right);
    assert!(!b.rect.intersects(&wall().rect));
}

#[test]
fn moving_right_into_the_wall_stops_at_its_left_face() {
    let mut b = body(-440, 0, 1, 0);
    assert_eq!(find_clause(&b, &wall()), Some(Clause::OrthogonalRight));
    resolve(&mut b, &[wall()]);
    assert_eq!(b.rect.center, Vector2::from_ints(-450, 0));
    assert_eq!(b.velocity, Vector2::zero());
    assert_eq!(b.rect.edges().right, wall().rect.edges().left);
    assert!(!b.rect.intersects(&wall().rect));
}

#[test]
fn moving_down_onto_the_wall_rests_on_its_top() {
    let mut b = body(-400, 270, 0, -1);
    assert_eq!(find_clause(&b, &wall()), Some(Clause::OrthogonalDown));
    resolve(&mut b, &[wall()]);
    assert_eq!(b.rect.center, Vector2::from_ints(-400, 275));
    assert_eq!(b.velocity, Vector2::zero());
    assert_eq!(b.rect.edges().bottom, wall().rect.edges().top);
    assert!(!b.rect.intersects(&wall().rect));
}

#[test]
fn moving_up_into_the_wall_stops_under_its_bottom() {
    let mut b = body(-400, -270, 0, 1);
    assert_eq!(find_clause(&b, &wall()), Some(Clause::OrthogonalUp));
    resolve(&mut b, &[wall()]);
    assert_eq!(b.rect.center, Vector2::from_ints(-400, -275));
    assert_eq!(b.velocity, Vector2::zero());
    assert_eq!(b.rect.edges().top, wall().rect.edges().bottom);
    assert!(!b.rect.intersects(&wall().rect));
}

#[test]
fn diagonal_motion_from_the_left_is_stopped_along_x() {
    let mut b = body(-440, 0, 1, 1);
    assert_eq!(find_clause(&b, &wall()), Some(Clause::DiagonalRight));
    assert_eq!(resolve_against(&mut b, &wall()), Some(Clause::DiagonalRight));
    assert_eq!(b.rect.center, Vector2::from_ints(-450, 0));
    assert_eq!(b.velocity, Vector2::from_ints(0, 1));
}

#[test]
fn diagonal_motion_from_the_right_is_stopped_along_x() {
    let mut b = body(-360, 10, -1, -1);
    assert_eq!(find_clause(&b, &wall()), Some(Clause::DiagonalLeft));
    assert_eq!(resolve_against(&mut b, &wall()), Some(Clause::DiagonalLeft));
    assert_eq!(b.rect.center, Vector2::from_ints(-350, 10));
    assert_eq!(b.velocity, Vector2::from_ints(0, -1));
}

#[test]
fn diagonal_motion_from_above_is_stopped_along_y() {
    let mut b = body(-395, 270, 1, -1);
    assert_eq!(find_clause(&b, &wall()), Some(Clause::DiagonalDown));
    assert_eq!(resolve_against(&mut b, &wall()), Some(Clause::DiagonalDown));
    assert_eq!(b.rect.center, Vector2::from_ints(-395, 275));
    assert_eq!(b.velocity, Vector2::from_ints(1, 0));
}

#[test]
fn diagonal_motion_from_below_is_stopped_along_y() {
    let mut b = body(-405, -270, -1, 1);
    assert_eq!(find_clause(&b, &wall()), Some(Clause::DiagonalUp));
    assert_eq!(resolve_against(&mut b, &wall()), Some(Clause::DiagonalUp));
    assert_eq!(b.rect.center, Vector2::from_ints(-405, -275));
    assert_eq!(b.velocity, Vector2::from_ints(-1, 0));
}

#[test]
fn at_a_corner_the_rules_along_x_come_first() {
    let mut b = body(-440, 270, 1, -1);
    assert_eq!(find_clause(&b, &wall()), Some(Clause::DiagonalRight));
    resolve(&mut b, &[wall()]);
    assert_eq!(b.rect.center, Vector2::from_ints(-450, 270));
    assert_eq!(b.velocity, Vector2::from_ints(0, -1));

    let mut b = body(-360, -270, -1, 1);
    assert_eq!(find_clause(&b, &wall()), Some(Clause::DiagonalLeft));
    resolve(&mut b, &[wall()]);
    assert_eq!(b.rect.center, Vector2::from_ints(-350, -270));
    assert_eq!(b.velocity, Vector2::from_ints(0, 1));
}

#[test]
fn diagonal_motion_inside_an_obstacle_matches_no_rule() {
    let mut b = body(-380, 0, 1, 1);
    let before = b;
    assert!(b.rect.intersects(&wall().rect));
    assert_eq!(find_clause(&b, &wall()), None);
    assert_eq!(resolve_against(&mut b, &wall()), None);
    assert_eq!(b, before);
    resolve(&mut b, &[wall()]);
    assert_eq!(b, before);
    assert!(b.rect.intersects(&wall().rect));
}

#[test]
fn a_body_at_rest_matches_no_rule() {
    let mut b = body(-380, 0, 0, 0);
    let before = b;
    assert!(b.rect.intersects(&wall().rect));
    assert_eq!(find_clause(&b, &wall()), None);
    resolve(&mut b, &[wall()]);
    assert_eq!(b, before);
}

#[test]
fn a_body_clear_of_the_obstacle_is_left_alone() {
    for (vx, vy) in [(0, 0), (-1, 0), (1, 0), (0, 1), (0, -1), (-1, -1), (1, 1)] {
        let mut b = body(0, 0, vx, vy);
        let before = b;
        assert_eq!(find_clause(&b, &wall()), None);
        resolve(&mut b, &[wall()]);
        assert_eq!(b, before);
    }
}

#[test]
fn touching_the_wall_is_no_collision() {
    let mut b = body(-350, 0, -1, 0);
    let before = b;
    assert_eq!(find_clause(&b, &wall()), None);
    resolve(&mut b, &[wall()]);
    assert_eq!(b, before);
}

#[test]
fn without_obstacles_nothing_changes() {
    for (vx, vy) in [(0, 0), (-1, 0), (0, 1), (-1, -1), (3, 2)] {
        let mut b = body(-380, 7, vx, vy);
        let before = b;
        resolve(&mut b, &[]);
        assert_eq!(b, before);
    }
}

#[test]
fn placing_against_each_face() {
    let start = body(-380, 10, 2, -3);
    let mut b = start;
    place_against(&mut b, &wall(), Face::Top);
    assert_eq!(b.rect.center, Vector2::from_ints(-380, 275));
    assert_eq!(b.velocity, Vector2::from_ints(2, 0));
    let mut b = start;
    place_against(&mut b, &wall(), Face::Bottom);
    assert_eq!(b.rect.center, Vector2::from_ints(-380, -275));
    assert_eq!(b.velocity, Vector2::from_ints(2, 0));
    let mut b = start;
    place_against(&mut b, &wall(), Face::Left);
    assert_eq!(b.rect.center, Vector2::from_ints(-450, 10));
    assert_eq!(b.velocity, Vector2::from_ints(0, -3));
    let mut b = start;
    place_against(&mut b, &wall(), Face::Right);
    assert_eq!(b.rect.center, Vector2::from_ints(-350, 10));
    assert_eq!(b.velocity, Vector2::from_ints(0, -3));
    assert_eq!(b.rect.size, start.rect.size);
}

#[test]
fn the_body_is_placed_by_its_own_width() {
    let wide = obstacle(100, 0, 100, 50);
    let mut b = body(30, 0, 1, 0);
    assert_eq!(find_clause(&b, &wide), Some(Clause::OrthogonalRight));
    resolve(&mut b, &[wide]);
    assert_eq!(b.rect.center, Vector2::from_ints(25, 0));
    assert_eq!(b.rect.edges().right, wide.rect.edges().left);
}

#[test]
fn edges_coincide_for_odd_sizes_too() {
    let small = StaticBody::new(raw_vector(10, 10), raw_vector(9, 11)).unwrap();
    let start = ControlledBody::new(raw_vector(8, 9), raw_vector(5, 7)).unwrap();
    let mut b = start.with_velocity(raw_vector(0, -1));
    resolve(&mut b, &[small]);
    assert_eq!(b.rect.edges().bottom, small.rect.edges().top);
    assert_eq!(b.rect.center, raw_vector(8, 19));
    let mut b = start.with_velocity(raw_vector(0, 1));
    resolve(&mut b, &[small]);
    assert_eq!(b.rect.edges().top, small.rect.edges().bottom);
    assert_eq!(b.rect.center, raw_vector(8, 1));
    let mut b = start.with_velocity(raw_vector(1, 0));
    resolve(&mut b, &[small]);
    assert_eq!(b.rect.edges().right, small.rect.edges().left);
    assert_eq!(b.rect.center, raw_vector(3, 9));
    let mut b = start.with_velocity(raw_vector(-1, 0));
    resolve(&mut b, &[small]);
    assert_eq!(b.rect.edges().left, small.rect.edges().right);
    assert_eq!(b.rect.center, raw_vector(17, 9));
}

#[test]
fn obstacles_are_resolved_in_order_each_on_what_the_last_left() {
    let around = obstacle(0, 0, 200, 200);
    let beside = obstacle(-40, 0, 50, 50);

    let mut b = body(0, 0, -1, -1);
    resolve(&mut b, &[around, beside]);
    assert_eq!(b.rect.center, Vector2::from_ints(10, 0));
    assert_eq!(b.velocity, Vector2::from_ints(0, -1));

    let mut b = body(0, 0, -1, -1);
    resolve(&mut b, &[beside, around]);
    assert_eq!(b.rect.center, Vector2::from_ints(10, 125));
    assert_eq!(b.velocity, Vector2::zero());
}

#[test]
fn resolving_twice_against_one_obstacle_is_resolving_once() {
    let starts = [
        body(-360, 0, -1, 0),
        body(-440, 0, 1, 0),
        body(-400, 270, 0, -1),
        body(-400, -270, 0, 1),
        body(-440, 270, 1, -1),
        body(-360, -270, -1, 1),
        body(-395, 270, 1, -1),
        body(-380, 0, 1, 1),
        body(-380, 0, 0, 0),
        body(0, 0, -1, -1),
    ];
    for start in starts.iter() {
        let mut once = *start;
        resolve(&mut once, &[wall()]);
        let mut twice = once;
        resolve(&mut twice, &[wall()]);
        assert_eq!(twice, once);
    }
}

#[test]
fn resolving_twice_along_an_axis_is_resolving_once() {
    let obstacles = [obstacle(0, 0, 200, 200), obstacle(-40, 0, 50, 50), wall()];
    for (vx, vy) in [(0, 0), (-1, 0), (1, 0), (0, 1), (0, -1)] {
        for x in [-380, -40, 0, 90, 300] {
            let mut once = body(x, 10, vx, vy);
            resolve(&mut once, &obstacles);
            let mut twice = once;
            resolve(&mut twice, &obstacles);
            assert_eq!(twice, once);
        }
    }
}

#[test]
fn a_second_pass_can_move_a_body_that_the_first_left_moving_inside_an_obstacle() {
    let obstacles = [obstacle(0, 0, 200, 200), obstacle(-40, 0, 50, 50)];
    let mut once = body(0, 0, -1, -1);
    resolve(&mut once, &obstacles);
    assert_eq!(once.rect.center, Vector2::from_ints(10, 0));
    assert_eq!(once.velocity, Vector2::from_ints(0, -1));
    assert!(once.rect.intersects(&obstacles[0].rect));
    let mut twice = once;
    resolve(&mut twice, &obstacles);
    assert_eq!(twice.rect.center, Vector2::from_ints(10, 125));
    assert_eq!(twice.velocity, Vector2::zero());
    let mut thrice = twice;
    resolve(&mut thrice, &obstacles);
    assert_eq!(thrice, twice);
}
