use lunchbox::common::{http_status, zerotime, Reply, Status, Timestamp};
use lunchbox::meal::{self, Meal, MealRequest, MealStep};

fn at(secs: i64) -> Timestamp {
    Timestamp { secs, nanos: 0 }
}

fn request(restaurant: &str) -> MealRequest {
    MealRequest { user_id: 7, restaurant: restaurant.to_string() }
}

fn fresh() -> Meal {
    Meal::open(3, request("Pizza Place"), at(100))
}

fn body(reply: Reply<Meal>) -> Meal {
    match reply {
        Reply::Json(m) => m,
        Reply::Status(s) => panic!("expected a meal, got {:?}", s),
    }
}

#[test]
fn open_creates_an_open_meal() {
    let m = fresh();
    assert_eq!(m.id, 3);
    assert_eq!(m.user_id, 7);
    assert_eq!(m.restaurant, "Pizza Place");
    assert_eq!(m.opened, at(100));
    assert_eq!(m.closed, None);
    assert_eq!(m.ordered, None);
    assert_eq!(m.acquired, None);
    assert_eq!(m.delivered, None);
}

#[test]
fn full_lifecycle_in_order() {
    let m = body(meal::close(Some(fresh()), at(200)));
    let m = body(meal::order(Some(m), at(300)));
    let m = body(meal::acquire(Some(m), at(400)));
    let m = body(meal::deliver(Some(m), at(500)));
    assert_eq!(m.opened, at(100));
    assert_eq!(m.closed, Some(at(200)));
    assert_eq!(m.ordered, Some(at(300)));
    assert_eq!(m.acquired, Some(at(400)));
    assert_eq!(m.delivered, Some(at(500)));
}

#[test]
fn open_meal_only_closes() {
    for step in [MealStep::Order, MealStep::Acquire, MealStep::Deliver] {
        let m = fresh().advance(step, at(200));
        assert_eq!(m.closed, None);
        assert_eq!(m.ordered, None);
        assert_eq!(m.acquired, None);
        assert_eq!(m.delivered, None);
    }
    let m = fresh().advance(MealStep::Close, at(200));
    assert_eq!(m.closed, Some(at(200)));
}

#[test]
fn steps_out_of_order_do_nothing() {
    let closed = fresh().advance(MealStep::Close, at(200));
    let m = closed.advance(MealStep::Deliver, at(300));
    assert_eq!(m.delivered, None);
    let m = m.advance(MealStep::Acquire, at(300));
    assert_eq!(m.acquired, None);
    let m = m.advance(MealStep::Order, at(300));
    assert_eq!(m.ordered, Some(at(300)));
}

#[test]
fn step_twice_keeps_first_time() {
    let m = fresh().advance(MealStep::Close, at(200)).advance(MealStep::Close, at(900));
    assert_eq!(m.closed, Some(at(200)));
    let m = m.advance(MealStep::Order, at(300)).advance(MealStep::Order, at(901));
    assert_eq!(m.ordered, Some(at(300)));
}

#[test]
fn recorded_times_stay_after_rename() {
    let m = fresh().advance(MealStep::Close, at(200));
    let m = m.rename(&request("Noodle Bar"));
    assert_eq!(m.restaurant, "Noodle Bar");
    assert_eq!(m.closed, Some(at(200)));
    assert_eq!(m.opened, at(100));
    assert_eq!(m.user_id, 7);
    assert_eq!(m.id, 3);
}

#[test]
fn can_take_follows_the_stages() {
    let m = fresh();
    assert!(m.can_take(MealStep::Close));
    assert!(!m.can_take(MealStep::Order));
    let m = m.advance(MealStep::Close, at(1));
    assert!(!m.can_take(MealStep::Close));
    assert!(m.can_take(MealStep::Order));
    assert!(!m.can_take(MealStep::Acquire));
}

#[test]
fn missing_meal_is_not_found() {
    for reply in [
        meal::close(None, at(1)),
        meal::order(None, at(1)),
        meal::acquire(None, at(1)),
        meal::deliver(None, at(1)),
        meal::update(None, &request("x")),
    ] {
        assert!(matches!(reply, Reply::Status(Status::NotFound)));
        assert_eq!(http_status(&Ok(reply)), 404);
    }
}

#[test]
fn update_renames_only() {
    let m = body(meal::update(Some(fresh()), &MealRequest { user_id: 99, restaurant: "Sushi".to_string() }));
    assert_eq!(m.restaurant, "Sushi");
    assert_eq!(m.user_id, 7);
}

#[test]
fn zerotime_is_the_epoch() {
    assert_eq!(zerotime(), Timestamp { secs: 0, nanos: 0 });
}

fn delivered() -> Meal {
    fresh()
        .advance(MealStep::Close, at(200))
        .advance(MealStep::Order, at(300))
        .advance(MealStep::Acquire, at(400))
        .advance(MealStep::Deliver, at(500))
}

#[test]
fn delivered_meal_is_final() {
    for step in [MealStep::Close, MealStep::Order, MealStep::Acquire, MealStep::Deliver] {
        let m = delivered().advance(step, at(999));
        assert_eq!(m.closed, Some(at(200)));
        assert_eq!(m.ordered, Some(at(300)));
        assert_eq!(m.acquired, Some(at(400)));
        assert_eq!(m.delivered, Some(at(500)));
    }
}

#[test]
fn mixed_changes_keep_history() {
    let m = fresh()
        .advance(MealStep::Close, at(200))
        .rename(&request("Curry House"))
        .advance(MealStep::Acquire, at(250))
        .advance(MealStep::Close, at(260))
        .advance(MealStep::Order, at(300))
        .rename(&request("Taco Stand"));
    assert_eq!(m.id, 3);
    assert_eq!(m.user_id, 7);
    assert_eq!(m.opened, at(100));
    assert_eq!(m.restaurant, "Taco Stand");
    assert_eq!(m.closed, Some(at(200)));
    assert_eq!(m.ordered, Some(at(300)));
    assert_eq!(m.acquired, None);
    assert_eq!(m.delivered, None);
}

#[test]
fn timestamps_order_by_seconds_then_nanos() {
    assert!(at(1).is_before(&at(2)));
    assert!(!at(2).is_before(&at(2)));
    assert!(Timestamp { secs: 2, nanos: 1 }.is_before(&Timestamp { secs: 2, nanos: 2 }));
    assert!(!Timestamp { secs: 3, nanos: 0 }.is_before(&Timestamp { secs: 2, nanos: 9 }));
}
