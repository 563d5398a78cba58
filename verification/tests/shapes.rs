use kinematics::dynamics::acceleration::Acceleration;
use kinematics::dynamics::velocity::Velocity;
use kinematics::shapes::circle::Circle;
use kinematics::shapes::rectangle::Rectangle;

// The circle fixture uses tenth units: 5.9 length units are the grid value 59.

#[test]
fn it_circle() {
    let velocity = Velocity::new(50, 50, 0);

    let acceleration = Acceleration::new(0, 0, 0);

    let my_circle = Circle::new(100, 200, 59, None, velocity, acceleration);

    let radius: i64 = 59;

    assert_eq!(my_circle.get_position(), (100, 200));
    assert_eq!(my_circle.get_radius(), 59);
    // the area comes back in multiples of pi: radius^2
    assert_eq!(my_circle.get_area(), radius * radius);
    assert_eq!(my_circle.get_angle(), 0);
}

#[test]
fn circle_with_explicit_angle() {
    let velocity = Velocity::new(0, 0, 0);
    let acceleration = Acceleration::new(0, 0, 0);

    let my_circle = Circle::new(1, 2, 3, Some(4), velocity, acceleration);

    assert_eq!(my_circle.get_angle(), 4);
    assert_eq!(my_circle.get_velocity(), velocity);
    assert_eq!(my_circle.get_acceleration(), acceleration);
}

#[test]
fn it_rectangle() {
    let my_rect = Rectangle::new(10, 20, 5, 7, None);
    assert_eq!(my_rect.get_position(), (10, 20));
    assert_eq!(my_rect.get_size(), (5, 7));
    assert_eq!(my_rect.get_angle(), 0);
}
