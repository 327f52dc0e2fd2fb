use lunchbox::common::{insert_id_u32, or_404, Reply, Status};
use lunchbox::order::{self, Order};
use lunchbox::paymethod::{self, PayMethod};
use lunchbox::user::{self, User};

fn an_order() -> Order {
    Order { id: 42, meal_id: 3, user_id: 7, paid: 0, paid_method: None }
}

#[test]
fn order_update_changes_person_and_payment_only() {
    let changes = Order { id: 1, meal_id: 99, user_id: 8, paid: 1, paid_method: Some("cash".to_string()) };
    match order::update(Some(an_order()), changes) {
        Reply::Json(o) => {
            assert_eq!(o.id, 42);
            assert_eq!(o.meal_id, 3);
            assert_eq!(o.user_id, 8);
            assert_eq!(o.paid, 1);
            assert_eq!(o.paid_method.as_deref(), Some("cash"));
        }
        Reply::Status(s) => panic!("unexpected {:?}", s),
    }
}

#[test]
fn order_update_twice_is_update_once() {
    let changes = || Order { id: 0, meal_id: 0, user_id: 9, paid: 1, paid_method: Some("card".to_string()) };
    let once = an_order().apply_changes(changes());
    let twice = an_order().apply_changes(changes()).apply_changes(changes());
    assert_eq!((once.id, once.meal_id, once.user_id, once.paid), (twice.id, twice.meal_id, twice.user_id, twice.paid));
    assert_eq!(once.paid_method, twice.paid_method);
}

#[test]
fn order_update_of_missing_order_is_not_found() {
    assert!(matches!(order::update(None, an_order()), Reply::Status(Status::NotFound)));
}

#[test]
fn or_404_answers_found_rows() {
    assert!(matches!(or_404(Some(5u8)), Reply::Json(5)));
    assert!(matches!(or_404::<u8>(None), Reply::Status(Status::NotFound)));
}

#[test]
fn insert_id_keeps_low_bits() {
    assert_eq!(insert_id_u32(17), 17);
    assert_eq!(insert_id_u32(0x1_0000_0005), 5);
    assert_eq!(insert_id_u32(u64::MAX), u32::MAX);
}

#[test]
fn user_create_takes_insert_id() {
    let u = user::create(User { id: 0, name: "Ann".to_string() }, 0x2_0000_0003);
    assert_eq!(u.id, 3);
    assert_eq!(u.name, "Ann");
}

#[test]
fn user_update_uses_path_id() {
    let u = user::update(12, User { id: 99, name: "Bob".to_string() });
    assert_eq!(u.id, 12);
    assert_eq!(u.name, "Bob");
}

#[test]
fn paymethod_update_uses_path() {
    let body = PayMethod { user_id: 0, method: "ignored".to_string(), method_info: "IBAN 1".to_string() };
    let m = paymethod::update(4, "bank".to_string(), body);
    assert_eq!(m.user_id, 4);
    assert_eq!(m.method, "bank");
    assert_eq!(m.method_info, "IBAN 1");
}

#[test]
fn paymethod_create_stores_for_path_user_and_answers_body() {
    let body = PayMethod { user_id: 0, method: "paypal".to_string(), method_info: "me@x".to_string() };
    let (row, answer) = paymethod::create(6, body);
    assert_eq!(row.user_id, 6);
    assert_eq!(row.method, "paypal");
    assert_eq!(row.method_info, "me@x");
    assert_eq!(answer.user_id, 0);
    assert_eq!(answer.method, "paypal");
}
