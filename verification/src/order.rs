use vstd::prelude::*;

use crate::common::{found_reply, or_404, Reply};

verus! {

/// One person's order in a meal, and whether and how it was paid.
#[derive(Debug)]
pub struct Order {
    pub id: u64,
    pub meal_id: u32,
    pub user_id: u32,
    pub paid: u8,
    pub paid_method: Option<String>,
}

impl Order {
    /// The order after an update: who ordered and the payment come from the
    /// request; the order's id and meal stay.
    pub open spec fn changed(self, changes: Order) -> Order {
        Order { user_id: changes.user_id, paid: changes.paid, paid_method: changes.paid_method, ..self }
    }

    /// Applies an update to the order.
    pub fn apply_changes(self, changes: Order) -> (o: Order)
        ensures
            o == self.changed(changes),
            o.user_id == changes.user_id,
            o.paid == changes.paid,
            o.paid_method == changes.paid_method,
            o.id == self.id,
            o.meal_id == self.meal_id,
    {
        Order { user_id: changes.user_id, paid: changes.paid, paid_method: changes.paid_method, ..self }
    }
}

/// Updates the order that was looked up by id and meal; 404 when there is none.
pub fn update(found: Option<Order>, changes: Order) -> (r: Reply<Order>)
    ensures
        found is None ==> r == Reply::<Order>::Status(crate::common::Status::NotFound),
        found matches Some(o) ==> ({
            &&& r matches Reply::Json(n)
            &&& n.user_id == changes.user_id
            &&& n.paid == changes.paid
            &&& n.paid_method == changes.paid_method
            &&& n.id == o.id
            &&& n.meal_id == o.meal_id
        }),
        r == match found {
            Some(o) => Reply::Json(o.changed(changes)),
            None => found_reply(found),
        },
{
    match found {
        Some(o) => Reply::Json(o.apply_changes(changes)),
        None => or_404(found),
    }
}

/// An update never moves an order to another id or meal.
pub proof fn lemma_update_keeps_key(o: Order, changes: Order)
    ensures
        o.changed(changes).id == o.id,
        o.changed(changes).meal_id == o.meal_id,
{
}

/// Updating twice with the same request is the same as updating once.
pub proof fn lemma_update_idempotent(o: Order, changes: Order)
    ensures
        o.changed(changes).changed(changes) == o.changed(changes),
{
}

/// An update takes the person and the payment from the request, whatever
/// the order held before: an order marked paid can be marked unpaid again,
/// and the way it was paid is replaced, an absent one included.
pub proof fn lemma_update_takes_payment_from_request(o: Order, changes: Order)
    ensures
        o.changed(changes).user_id == changes.user_id,
        o.changed(changes).paid == changes.paid,
        o.changed(changes).paid_method == changes.paid_method,
        o.changed(changes).id == o.id,
        o.changed(changes).meal_id == o.meal_id,
{
}

} // verus!
