use vstd::prelude::*;

use crate::common::{found_reply, or_404, Reply, Timestamp};

verus! {

/// A shared meal: someone opens it for a restaurant, then it is closed for
/// new orders, ordered at the restaurant, picked up and delivered.  Each of
/// these four stages records the time at which it happened.
#[derive(Debug)]
pub struct Meal {
    pub id: u32,
    pub user_id: u32,
    pub restaurant: String,
    pub opened: Timestamp,
    pub closed: Option<Timestamp>,
    pub ordered: Option<Timestamp>,
    pub acquired: Option<Timestamp>,
    pub delivered: Option<Timestamp>,
}

/// The body of a request that opens or renames a meal.
#[derive(Debug)]
pub struct MealRequest {
    pub user_id: u32,
    pub restaurant: String,
}

/// One step of a meal's lifecycle.
#[derive(Clone, Copy, Debug, PartialEq, Eq, Structural)]
pub enum MealStep {
    Close,
    Order,
    Acquire,
    Deliver,
}

impl Meal {
    /// The stages were reached in order: a meal is delivered only once
    /// acquired, acquired only once ordered, and ordered only once closed.
    pub open spec fn lifecycle_consistent(self) -> bool {
        &&& self.delivered is Some ==> self.acquired is Some
        &&& self.acquired is Some ==> self.ordered is Some
        &&& self.ordered is Some ==> self.closed is Some
    }

    /// The time recorded for a step, if the step has happened.
    pub open spec fn stage_time(self, step: MealStep) -> Option<Timestamp> {
        match step {
            MealStep::Close => self.closed,
            MealStep::Order => self.ordered,
            MealStep::Acquire => self.acquired,
            MealStep::Deliver => self.delivered,
        }
    }

    /// A step can be taken when it has not happened yet and the step before
    /// it has (closing needs nothing before it).
    pub open spec fn may_take(self, step: MealStep) -> bool {
        match step {
            MealStep::Close => self.closed is None,
            MealStep::Order => self.ordered is None && self.closed is Some,
            MealStep::Acquire => self.acquired is None && self.ordered is Some,
            MealStep::Deliver => self.delivered is None && self.acquired is Some,
        }
    }

    /// The meal after a step at time `now`: the step's time is recorded when
    /// the step may be taken, and otherwise the meal is left as it is.
    pub open spec fn after_step(self, step: MealStep, now: Timestamp) -> Meal {
        if self.may_take(step) {
            match step {
                MealStep::Close => Meal { closed: Some(now), ..self },
                MealStep::Order => Meal { ordered: Some(now), ..self },
                MealStep::Acquire => Meal { acquired: Some(now), ..self },
                MealStep::Deliver => Meal { delivered: Some(now), ..self },
            }
        } else {
            self
        }
    }

    /// The meal after its restaurant is changed; nothing else changes.
    pub open spec fn renamed(self, restaurant: String) -> Meal {
        Meal { restaurant, ..self }
    }

    /// The meal that opening creates: the requester's restaurant, opened at
    /// `now`, with no later stage reached.
    pub open spec fn opened_meal(id: u32, request: MealRequest, now: Timestamp) -> Meal {
        Meal {
            id,
            user_id: request.user_id,
            restaurant: request.restaurant,
            opened: now,
            closed: None,
            ordered: None,
            acquired: None,
            delivered: None,
        }
    }

    /// Opens a meal for the restaurant and user of the request at `now`.
    pub fn open(id: u32, request: MealRequest, now: Timestamp) -> (m: Meal)
        ensures
            m == Meal::opened_meal(id, request, now),
            m.lifecycle_consistent(),
            m.id == id,
            m.user_id == request.user_id,
            m.restaurant == request.restaurant,
            m.opened == now,
            m.closed is None,
            m.ordered is None,
            m.acquired is None,
            m.delivered is None,
    {
        Meal {
            id,
            user_id: request.user_id,
            restaurant: request.restaurant,
            opened: now,
            closed: None,
            ordered: None,
            acquired: None,
            delivered: None,
        }
    }

    /// Whether a step can be taken now.
    pub fn can_take(&self, step: MealStep) -> (b: bool)
        ensures
            b == self.may_take(step),
    {
        match step {
            MealStep::Close => self.closed.is_none(),
            MealStep::Order => self.ordered.is_none() && self.closed.is_some(),
            MealStep::Acquire => self.acquired.is_none() && self.ordered.is_some(),
            MealStep::Deliver => self.delivered.is_none() && self.acquired.is_some(),
        }
    }

    /// Takes a step of the lifecycle at `now`, if it may be taken; a step
    /// that may not be taken leaves the meal unchanged.
    pub fn advance(self, step: MealStep, now: Timestamp) -> (m: Meal)
        ensures
            m == self.after_step(step, now),
    {
        if self.can_take(step) {
            match step {
                MealStep::Close => Meal { closed: Some(now), ..self },
                MealStep::Order => Meal { ordered: Some(now), ..self },
                MealStep::Acquire => Meal { acquired: Some(now), ..self },
                MealStep::Deliver => Meal { delivered: Some(now), ..self },
            }
        } else {
            self
        }
    }

    /// Changes the restaurant to the one in the request.
    pub fn rename(self, request: &MealRequest) -> (m: Meal)
        ensures
            m == self.renamed(request.restaurant),
            m.restaurant == request.restaurant,
            keeps_identity_but_restaurant(m, self),
            m.closed == self.closed,
            m.ordered == self.ordered,
            m.acquired == self.acquired,
            m.delivered == self.delivered,
    {
        Meal { restaurant: request.restaurant.clone(), ..self }
    }
}

/// The meal's id, its opener, its restaurant and its opening time are those
/// of `m`.
pub open spec fn keeps_identity(n: Meal, m: Meal) -> bool {
    &&& n.id == m.id
    &&& n.user_id == m.user_id
    &&& n.restaurant == m.restaurant
    &&& n.opened == m.opened
}

/// The meal's id, its opener and its opening time are those of `m`.
pub open spec fn keeps_identity_but_restaurant(n: Meal, m: Meal) -> bool {
    &&& n.id == m.id
    &&& n.user_id == m.user_id
    &&& n.opened == m.opened
}

/// The reply to a lifecycle step on the meal that was looked up: 404 when
/// there is none, else the meal after the step.
pub open spec fn step_reply(found: Option<Meal>, step: MealStep, now: Timestamp) -> Reply<Meal> {
    match found {
        Some(m) => Reply::Json(m.after_step(step, now)),
        None => found_reply(found),
    }
}

/// Takes a lifecycle step on the meal that was looked up.
pub fn take_step(found: Option<Meal>, step: MealStep, now: Timestamp) -> (r: Reply<Meal>)
    ensures
        r == step_reply(found, step, now),
        found is None ==> r == Reply::<Meal>::Status(crate::common::Status::NotFound),
        found matches Some(m) ==> r == Reply::Json(m.after_step(step, now)),
        found matches Some(m) ==> ({
            &&& r matches Reply::Json(n)
            &&& keeps_identity(n, m)
            &&& forall|st: MealStep| #[trigger] m.stage_time(st) is Some ==> n.stage_time(st) == m.stage_time(st)
            &&& forall|st: MealStep| st != step ==> #[trigger] n.stage_time(st) == m.stage_time(st)
        }),
{
    match found {
        Some(m) => Reply::Json(m.advance(step, now)),
        None => or_404(found),
    }
}

/// Closes the meal for new orders, unless it is closed already.
pub fn close(found: Option<Meal>, now: Timestamp) -> (r: Reply<Meal>)
    ensures
        r == step_reply(found, MealStep::Close, now),
        found is None ==> r == Reply::<Meal>::Status(crate::common::Status::NotFound),
        found matches Some(m) ==> ({
            &&& r matches Reply::Json(n)
            &&& n.closed == (if m.closed is None { Some(now) } else { m.closed })
            &&& n.ordered == m.ordered
            &&& n.acquired == m.acquired
            &&& n.delivered == m.delivered
            &&& keeps_identity(n, m)
        }),
{
    take_step(found, MealStep::Close, now)
}

/// Records that the meal was ordered, if it is closed and not yet ordered.
pub fn order(found: Option<Meal>, now: Timestamp) -> (r: Reply<Meal>)
    ensures
        r == step_reply(found, MealStep::Order, now),
        found is None ==> r == Reply::<Meal>::Status(crate::common::Status::NotFound),
        found matches Some(m) ==> ({
            &&& r matches Reply::Json(n)
            &&& n.ordered == (if m.ordered is None && m.closed is Some { Some(now) } else { m.ordered })
            &&& n.closed == m.closed
            &&& n.acquired == m.acquired
            &&& n.delivered == m.delivered
            &&& keeps_identity(n, m)
        }),
{
    take_step(found, MealStep::Order, now)
}

/// Records that the meal was picked up, if it is ordered and not yet picked up.
pub fn acquire(found: Option<Meal>, now: Timestamp) -> (r: Reply<Meal>)
    ensures
        r == step_reply(found, MealStep::Acquire, now),
        found is None ==> r == Reply::<Meal>::Status(crate::common::Status::NotFound),
        found matches Some(m) ==> ({
            &&& r matches Reply::Json(n)
            &&& n.acquired == (if m.acquired is None && m.ordered is Some { Some(now) } else { m.acquired })
            &&& n.closed == m.closed
            &&& n.ordered == m.ordered
            &&& n.delivered == m.delivered
            &&& keeps_identity(n, m)
        }),
{
    take_step(found, MealStep::Acquire, now)
}

/// Records that the meal was delivered, if it is picked up and not yet delivered.
pub fn deliver(found: Option<Meal>, now: Timestamp) -> (r: Reply<Meal>)
    ensures
        r == step_reply(found, MealStep::Deliver, now),
        found is None ==> r == Reply::<Meal>::Status(crate::common::Status::NotFound),
        found matches Some(m) ==> ({
            &&& r matches Reply::Json(n)
            &&& n.delivered == (if m.delivered is None && m.acquired is Some { Some(now) } else { m.delivered })
            &&& n.closed == m.closed
            &&& n.ordered == m.ordered
            &&& n.acquired == m.acquired
            &&& keeps_identity(n, m)
        }),
{
    take_step(found, MealStep::Deliver, now)
}

/// Renames the meal that was looked up; 404 when there is none.
pub fn update(found: Option<Meal>, request: &MealRequest) -> (r: Reply<Meal>)
    ensures
        found is None ==> r == Reply::<Meal>::Status(crate::common::Status::NotFound),
        found matches Some(m) ==> ({
            &&& r matches Reply::Json(n)
            &&& n.restaurant == request.restaurant
            &&& keeps_identity_but_restaurant(n, m)
            &&& n.closed == m.closed
            &&& n.ordered == m.ordered
            &&& n.acquired == m.acquired
            &&& n.delivered == m.delivered
        }),
        r == match found {
            Some(m) => Reply::Json(m.renamed(request.restaurant)),
            None => found_reply(found),
        },
{
    match found {
        Some(m) => Reply::Json(m.rename(request)),
        None => or_404(found),
    }
}

// ---------------------------------------------------------------------------
// Laws of the lifecycle

/// Every step keeps a consistent lifecycle consistent.
pub proof fn lemma_step_keeps_lifecycle(m: Meal, step: MealStep, now: Timestamp)
    requires
        m.lifecycle_consistent(),
    ensures
        m.after_step(step, now).lifecycle_consistent(),
{
}

/// Renaming keeps a consistent lifecycle consistent.
pub proof fn lemma_rename_keeps_lifecycle(m: Meal, restaurant: String)
    requires
        m.lifecycle_consistent(),
    ensures
        m.renamed(restaurant).lifecycle_consistent(),
{
}

/// A step changes the meal exactly when it may be taken, and then it records
/// `now` for that step and nothing else.
pub proof fn lemma_step_effect(m: Meal, step: MealStep, now: Timestamp)
    ensures
        m.may_take(step) ==> m.after_step(step, now).stage_time(step) == Some(now),
        !m.may_take(step) ==> m.after_step(step, now) == m,
        forall|other: MealStep|
            other != step ==> #[trigger] m.after_step(step, now).stage_time(other)
                == m.stage_time(other),
        m.after_step(step, now).id == m.id,
        m.after_step(step, now).user_id == m.user_id,
        m.after_step(step, now).restaurant == m.restaurant,
        m.after_step(step, now).opened == m.opened,
{
}

/// A recorded time is never overwritten, whatever step comes later.
pub proof fn lemma_recorded_times_stay(m: Meal, step: MealStep, now: Timestamp, stage: MealStep)
    requires
        m.stage_time(stage) is Some,
    ensures
        m.after_step(step, now).stage_time(stage) == m.stage_time(stage),
{
}

/// Taking a step a second time changes nothing.
pub proof fn lemma_step_idempotent(m: Meal, step: MealStep, t1: Timestamp, t2: Timestamp)
    ensures
        m.after_step(step, t1).after_step(step, t2) == m.after_step(step, t1),
{
}

/// A freshly opened meal can only be closed: ordering, picking up and
/// delivering it first leave it unchanged.
pub proof fn lemma_open_meal_only_closes(id: u32, request: MealRequest, t0: Timestamp, step: MealStep, now: Timestamp)
    requires
        step != MealStep::Close,
    ensures
        Meal::opened_meal(id, request, t0).after_step(step, now) == Meal::opened_meal(id, request, t0),
{
}

/// Closing, ordering, picking up and delivering a freshly opened meal, in
/// that order, records each of the four times.
pub proof fn lemma_full_lifecycle(
    id: u32,
    request: MealRequest,
    t0: Timestamp,
    t1: Timestamp,
    t2: Timestamp,
    t3: Timestamp,
    t4: Timestamp,
)
    ensures
        ({
            let m = Meal::opened_meal(id, request, t0).after_step(MealStep::Close, t1).after_step(
                MealStep::Order,
                t2,
            ).after_step(MealStep::Acquire, t3).after_step(MealStep::Deliver, t4);
            &&& m.opened == t0
            &&& m.closed == Some(t1)
            &&& m.ordered == Some(t2)
            &&& m.acquired == Some(t3)
            &&& m.delivered == Some(t4)
            &&& m.lifecycle_consistent()
        }),
{
}

/// A change that a request can make to a stored meal.
#[derive(Debug)]
pub enum MealChange {
    Step(MealStep, Timestamp),
    Rename(String),
}

/// The meal after one change.
pub open spec fn after_change(m: Meal, change: MealChange) -> Meal {
    match change {
        MealChange::Step(step, now) => m.after_step(step, now),
        MealChange::Rename(restaurant) => m.renamed(restaurant),
    }
}

/// The meal after a sequence of changes, applied first to last.
pub open spec fn after_changes(m: Meal, changes: Seq<MealChange>) -> Meal
    decreases changes.len(),
{
    if changes.len() == 0 {
        m
    } else {
        after_change(after_changes(m, changes.drop_last()), changes.last())
    }
}

/// Whatever requests follow, in whatever order, a meal whose stages were
/// reached in order keeps them in order.
pub proof fn lemma_changes_keep_lifecycle(m: Meal, changes: Seq<MealChange>)
    requires
        m.lifecycle_consistent(),
    ensures
        after_changes(m, changes).lifecycle_consistent(),
    decreases changes.len(),
{
    if changes.len() > 0 {
        lemma_changes_keep_lifecycle(m, changes.drop_last());
    }
}

/// Whatever requests follow, a recorded stage time, the opening time, the
/// meal's id and the user who opened it never change.
pub proof fn lemma_changes_keep_history(m: Meal, changes: Seq<MealChange>, stage: MealStep)
    ensures
        m.stage_time(stage) is Some ==> after_changes(m, changes).stage_time(stage) == m.stage_time(stage),
        after_changes(m, changes).opened == m.opened,
        after_changes(m, changes).id == m.id,
        after_changes(m, changes).user_id == m.user_id,
    decreases changes.len(),
{
    if changes.len() > 0 {
        lemma_changes_keep_history(m, changes.drop_last(), stage);
    }
}

/// A delivered meal with a consistent lifecycle is final: no step changes it.
pub proof fn lemma_delivered_meal_is_final(m: Meal, step: MealStep, now: Timestamp)
    requires
        m.lifecycle_consistent(),
        m.delivered is Some,
    ensures
        m.after_step(step, now) == m,
{
}

/// Renaming changes only the restaurant: every other field, every stage
/// time included (recorded or not), stays as it was.
pub proof fn lemma_rename_changes_only_restaurant(m: Meal, restaurant: String)
    ensures
        m.renamed(restaurant).restaurant == restaurant,
        m.renamed(restaurant).id == m.id,
        m.renamed(restaurant).user_id == m.user_id,
        m.renamed(restaurant).opened == m.opened,
        m.renamed(restaurant).closed == m.closed,
        m.renamed(restaurant).ordered == m.ordered,
        m.renamed(restaurant).acquired == m.acquired,
        m.renamed(restaurant).delivered == m.delivered,
{
}

/// The reply to a step on a meal that was found is that meal with the
/// step's stage recorded at `now` when, and only when, the stage is not yet
/// recorded and the stage before it is (closing needs nothing before it);
/// nothing else changes.
pub proof fn lemma_step_reply_fields(m: Meal, now: Timestamp)
    ensures
        ({
            let n = step_reply(Some(m), MealStep::Close, now);
            &&& n matches Reply::Json(k)
            &&& k.closed == (if m.closed is None { Some(now) } else { m.closed })
            &&& k.ordered == m.ordered && k.acquired == m.acquired && k.delivered == m.delivered
            &&& keeps_identity(k, m)
        }),
        ({
            let n = step_reply(Some(m), MealStep::Order, now);
            &&& n matches Reply::Json(k)
            &&& k.ordered == (if m.ordered is None && m.closed is Some { Some(now) } else { m.ordered })
            &&& k.closed == m.closed && k.acquired == m.acquired && k.delivered == m.delivered
            &&& keeps_identity(k, m)
        }),
        ({
            let n = step_reply(Some(m), MealStep::Acquire, now);
            &&& n matches Reply::Json(k)
            &&& k.acquired == (if m.acquired is None && m.ordered is Some { Some(now) } else { m.acquired })
            &&& k.closed == m.closed && k.ordered == m.ordered && k.delivered == m.delivered
            &&& keeps_identity(k, m)
        }),
        ({
            let n = step_reply(Some(m), MealStep::Deliver, now);
            &&& n matches Reply::Json(k)
            &&& k.delivered == (if m.delivered is None && m.acquired is Some { Some(now) } else { m.delivered })
            &&& k.closed == m.closed && k.ordered == m.ordered && k.acquired == m.acquired
            &&& keeps_identity(k, m)
        }),
{
}

/// No step answered for a found meal overwrites a recorded stage time or
/// records any stage but its own, and it records its own stage only when
/// the stage before it was recorded already.
pub proof fn lemma_step_reply_never_overwrites(m: Meal, step: MealStep, now: Timestamp, stage: MealStep)
    ensures
        step_reply(Some(m), step, now) matches Reply::Json(k) && (m.stage_time(stage) is Some ==> k.stage_time(stage) == m.stage_time(stage)),
        step_reply(Some(m), step, now) matches Reply::Json(k) && (stage != step ==> k.stage_time(stage) == m.stage_time(stage)),
        step_reply(Some(m), MealStep::Close, now) matches Reply::Json(k) && (k.closed != m.closed ==> m.closed is None && k.closed == Some(now)),
        step_reply(Some(m), MealStep::Order, now) matches Reply::Json(k) && (k.ordered != m.ordered ==> m.ordered is None && m.closed is Some && k.ordered == Some(now)),
        step_reply(Some(m), MealStep::Acquire, now) matches Reply::Json(k) && (k.acquired != m.acquired ==> m.acquired is None && m.ordered is Some && k.acquired == Some(now)),
        step_reply(Some(m), MealStep::Deliver, now) matches Reply::Json(k) && (k.delivered != m.delivered ==> m.delivered is None && m.acquired is Some && k.delivered == Some(now)),
        step_reply(Some(m), MealStep::Deliver, now) matches Reply::Json(k) && k.acquired == m.acquired,
{
}

} // verus!
