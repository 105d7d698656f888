use pong::collider::Collider;
use pong::collision::Collision;
use pong::collision_direction::CollisionDirection;
use pong::location::Location;

#[test]
fn collider_constructor() {
    let location_x = 32;
    let location_y = 32;
    let width = 64;
    let height = 32;

    let collider = Collider::new(location_x, location_y, width, height);

    assert_eq!(collider.location().x(), 32);
    assert_eq!(collider.location().y(), 32);
    assert_eq!(collider.width(), 64);
    assert_eq!(collider.height(), 32);
}

#[test]
fn setting_location() {
    let location_x = 0;
    let location_y = 0;
    let width = 4;
    let height = 8;

    let new_location_x = 2;
    let new_location_y = 2;

    let new_location = Location::new(new_location_x, new_location_y);

    let mut collider = Collider::new(location_x, location_y, width, height);
    collider.set_location(&new_location);

    assert_eq!(collider.location().x(), new_location_x);
    assert_eq!(collider.location().y(), new_location_y);
}

#[test]
fn collision_constructor() {
    let direction = CollisionDirection::Left;
    let depth = 4;

    let collision = Collision::new(0, 0, direction, depth);

    assert_eq!(collision.entry_direction(), direction);
    assert_eq!(collision.penetration_depth(), depth);
}

#[test]
fn collision_reports_both_indices() {
    let collision = Collision::new(3, 7, CollisionDirection::Bottom, 16);

    assert_eq!(collision.primary_index(), 3);
    assert_eq!(collision.secondary_index(), 7);
    assert_eq!(collision.entry_direction(), CollisionDirection::Bottom);
    assert_eq!(collision.penetration_depth(), 16);
}

#[test]
fn constructed_at() {
    let location_x = 32;
    let location_y = 64;

    let location = Location::new(location_x, location_y);

    assert_eq!(location.x(), location_x);
    assert_eq!(location.y(), location_y);
}

#[test]
fn translation() {
    let location_x = 32;
    let location_y = 64;
    let translation_x = 32;
    let translation_y = 64;

    let mut location = Location::new(location_x, location_y);

    assert_eq!(location.x(), location_x);
    assert_eq!(location.y(), location_y);

    location.translate(translation_x, translation_y);

    assert_eq!(location.x(), location_x + translation_x);
    assert_eq!(location.y(), location_y + translation_y);
}

#[test]
fn setting() {
    let location_x = 2;
    let location_y = 4;
    let new_location_x = 4;
    let new_location_y = 2;

    let mut location = Location::new(location_x, location_y);

    assert_eq!(location.x(), location_x);
    assert_eq!(location.y(), location_y);

    location.set(new_location_x, new_location_y);

    assert_eq!(location.x(), new_location_x);
    assert_eq!(location.y(), new_location_y);
}
