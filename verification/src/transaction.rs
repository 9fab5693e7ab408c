//! The creation of an order with its items and their extras, all or nothing.
//!
//! The library decides and the caller acts. `plan_order` lays out every row
//! that an incoming order comes to. An `OrderTransaction` then says, state by
//! state, what is to be done with the store: open a transaction, insert the
//! next row, commit, or roll back. The caller does it and reports how it went,
//! and the transaction moves on. After the first failure nothing more is
//! inserted and the transaction is rolled back.

use vstd::prelude::*;
use crate::error::{OrderCreationFailed, StorageError};
use crate::ids::{is_hyphenated_id, new_id};
use crate::models::order::{IncomingOrder, IncomingOrderItem, NewOrder, Order, OrderApiModel};
use crate::models::order::{IncomingOrderItemView, IncomingOrderView, OrderView};
use crate::models::order_item_extras::{NewOrderItemExtra, OrderItemExtra, OrderItemExtraView};
use crate::models::order_items::{NewOrderItem, OrderItem, OrderItemView};

verus! {

/// One drink of an order with the links to its extras, ready to be inserted.
#[derive(Clone, Debug, PartialEq, Eq)]
pub struct PlannedItem {
    pub item: OrderItem,
    pub extras: Vec<OrderItemExtra>,
}

/// All the rows that make up an order, ready to be inserted: the order, then
/// each item, each followed by the links to its extras.
#[derive(Clone, Debug, PartialEq, Eq)]
pub struct OrderPlan {
    pub order: Order,
    pub items: Vec<PlannedItem>,
}

/// What a planned item is.
pub struct PlannedItemView {
    pub item: OrderItemView,
    pub extras: Seq<OrderItemExtraView>,
}

/// What a plan is.
pub struct OrderPlanView {
    pub order: OrderView,
    pub items: Seq<PlannedItemView>,
}

impl View for PlannedItem {
    type V = PlannedItemView;

    open spec fn view(&self) -> PlannedItemView {
        PlannedItemView {
            item: self.item@,
            extras: self.extras@.map_values(|link: OrderItemExtra| link@),
        }
    }
}

impl View for OrderPlan {
    type V = OrderPlanView;

    open spec fn view(&self) -> OrderPlanView {
        OrderPlanView {
            order: self.order@,
            items: self.items@.map_values(|planned: PlannedItem| planned@),
        }
    }
}

impl PlannedItemView {
    /// Whether these are the rows for the drink `incoming` of the order
    /// `order_id`: the item repeats the drink, the size and the price as they
    /// were given, and there is one link for each extra, in the order given,
    /// from the item to the extra. Which identifiers the rows have is left open.
    pub open spec fn is_for(self, order_id: Seq<char>, incoming: IncomingOrderItemView) -> bool {
        &&& self.item == (OrderItemView {
            id: self.item.id,
            order_id,
            drink_id: incoming.drink_id,
            size: incoming.size,
            total_price: incoming.total_price,
        })
        &&& self.extras.len() == incoming.extras.len()
        &&& forall|j: int|
            0 <= j < self.extras.len() ==> #[trigger] self.extras[j] == (OrderItemExtraView {
                id: self.extras[j].id,
                order_item_id: self.item.id,
                extra_id: incoming.extras[j],
            })
    }

    /// Whether every row has an identifier of its own making.
    pub open spec fn has_fresh_ids(self) -> bool {
        &&& is_hyphenated_id(self.item.id)
        &&& forall|j: int|
            0 <= j < self.extras.len() ==> is_hyphenated_id((#[trigger] self.extras[j]).id)
    }
}

impl OrderPlanView {
    /// Whether these are the rows for the order `incoming`: the order repeats
    /// customer, employee and status as they were given, was created and last
    /// updated at one moment, and there are the rows of each drink, in the order
    /// given. Which identifiers the rows have, and which moment it is, is left
    /// open.
    pub open spec fn is_for(self, incoming: IncomingOrderView) -> bool {
        &&& self.order == OrderView::created(
            incoming.customer_id,
            incoming.employee_id,
            incoming.status,
            self.order.id,
            self.order.created_at,
        )
        &&& self.items.len() == incoming.items.len()
        &&& forall|i: int|
            0 <= i < self.items.len() ==> (#[trigger] self.items[i]).is_for(
                self.order.id,
                incoming.items[i],
            )
    }

    /// Whether every row has an identifier of its own making.
    pub open spec fn has_fresh_ids(self) -> bool {
        &&& is_hyphenated_id(self.order.id)
        &&& forall|i: int| 0 <= i < self.items.len() ==> (#[trigger] self.items[i]).has_fresh_ids()
    }

    /// How many extras each item has.
    pub open spec fn shape(self) -> Seq<nat> {
        self.items.map_values(|planned: PlannedItemView| planned.extras.len())
    }
}

/// The rows for one drink of an order: the item, with a fresh identifier, and
/// one link with a fresh identifier for each of its extras.
pub fn plan_item(order_id: &String, incoming: &IncomingOrderItem) -> (planned: PlannedItem)
    ensures
        planned@.is_for(order_id@, incoming@),
        planned@.has_fresh_ids(),
{
    let item = OrderItem::from_new(
        NewOrderItem {
            order_id: order_id.clone(),
            drink_id: incoming.drink_id.clone(),
            size: incoming.size,
            total_price: incoming.total_price,
        },
        new_id(),
    );
    let mut extras: Vec<OrderItemExtra> = Vec::new();
    let mut j: usize = 0;
    while j < incoming.extras.len()
        invariant
            j <= incoming.extras@.len(),
            extras@.len() == j,
            forall|k: int|
                0 <= k < j ==> (#[trigger] extras@[k])@ == (OrderItemExtraView {
                    id: extras@[k]@.id,
                    order_item_id: item@.id,
                    extra_id: incoming.extras@[k]@,
                }) && is_hyphenated_id(extras@[k]@.id),
        decreases incoming.extras@.len() - j,
    {
        let link = OrderItemExtra::from_new(
            NewOrderItemExtra {
                order_item_id: item.id.clone(),
                extra_id: incoming.extras[j].clone(),
            },
            new_id(),
        );
        extras.push(link);
        j += 1;
    }
    PlannedItem { item, extras }
}

/// The rows for an incoming order: the order, with a fresh identifier and the
/// present moment as the time of creation and of the last update, and the rows
/// of each of its drinks. Nothing is checked: not that customer, employee,
/// drinks or extras exist, not that a price is what the catalogue says.
pub fn plan_order(incoming: &IncomingOrder) -> (plan: OrderPlan)
    ensures
        plan@.is_for(incoming@),
        plan@.has_fresh_ids(),
{
    let order = Order::from_new(
        NewOrder {
            customer_id: incoming.customer_id.clone(),
            employee_id: incoming.employee_id.clone(),
            status: incoming.status,
        },
        new_id(),
    );
    let mut items: Vec<PlannedItem> = Vec::new();
    let mut i: usize = 0;
    while i < incoming.items.len()
        invariant
            i <= incoming.items@.len(),
            items@.len() == i,
            forall|k: int|
                0 <= k < i ==> (#[trigger] items@[k])@.is_for(order@.id, incoming.items@[k]@)
                    && items@[k]@.has_fresh_ids(),
        decreases incoming.items@.len() - i,
    {
        let planned = plan_item(&order.id, &incoming.items[i]);
        items.push(planned);
        i += 1;
    }
    OrderPlan { order, items }
}

/// Where the creation of an order stands. In each state but the last two
/// there is one thing to do (see [`Action`]); the outcome of doing it decides
/// the next state.
#[derive(Clone, Copy, Debug, PartialEq, Eq, Structural)]
pub enum State {
    /// The transaction is to be opened.
    Begin,
    /// The order is to be inserted.
    InsertOrder,
    /// The item at this position is to be inserted.
    InsertOrderItem(usize),
    /// Of the item at the first position, the link at the second position is
    /// to be inserted.
    InsertOrderItemExtra(usize, usize),
    /// Every row was inserted; the transaction is to be committed.
    Commit,
    /// Something failed; the transaction is to be rolled back.
    Abort,
    /// The transaction was committed: the order and all that belongs to it
    /// are in the store.
    Committed,
    /// The transaction was given up: nothing of the order is in the store.
    Aborted,
}

/// A state with its positions as numbers without an upper limit. The states
/// are those of [`State`].
pub enum StateView {
    /// The transaction is to be opened.
    Begin,
    /// The order is to be inserted.
    InsertOrder,
    /// The item at this position is to be inserted.
    InsertOrderItem(nat),
    /// Of the item at the first position, the link at the second position is
    /// to be inserted.
    InsertOrderItemExtra(nat, nat),
    /// The transaction is to be committed.
    Commit,
    /// The transaction is to be rolled back.
    Abort,
    /// The transaction was committed.
    Committed,
    /// The transaction was given up.
    Aborted,
}

impl View for State {
    type V = StateView;

    open spec fn view(&self) -> StateView {
        match *self {
            State::Begin => StateView::Begin,
            State::InsertOrder => StateView::InsertOrder,
            State::InsertOrderItem(i) => StateView::InsertOrderItem(i as nat),
            State::InsertOrderItemExtra(i, j) => StateView::InsertOrderItemExtra(
                i as nat,
                j as nat,
            ),
            State::Commit => StateView::Commit,
            State::Abort => StateView::Abort,
            State::Committed => StateView::Committed,
            State::Aborted => StateView::Aborted,
        }
    }
}

impl StateView {
    /// Whether the positions of the state lie in a plan with this many extras
    /// for each item.
    pub open spec fn fits(self, shape: Seq<nat>) -> bool {
        match self {
            StateView::InsertOrderItem(i) => i < shape.len(),
            StateView::InsertOrderItemExtra(i, j) => i < shape.len() && j < shape[i as int],
            _ => true,
        }
    }

    /// The state in which item `i` is inserted, or `Commit` where the plan has
    /// no item `i`.
    pub open spec fn item_or_commit(shape: Seq<nat>, i: nat) -> StateView {
        if i < shape.len() {
            StateView::InsertOrderItem(i)
        } else {
            StateView::Commit
        }
    }

    /// The state in which link `j` of item `i` is inserted, or, where the item
    /// has no link `j`, the state for the next item.
    pub open spec fn extra_or_next(shape: Seq<nat>, i: nat, j: nat) -> StateView {
        if j < shape[i as int] {
            StateView::InsertOrderItemExtra(i, j)
        } else {
            Self::item_or_commit(shape, i + 1)
        }
    }

    /// The state that follows when what was to be done succeeded: the rows
    /// follow one another as they stand in the plan, the commit follows the last
    /// row, and a state in which nothing is left to do stays.
    pub open spec fn after_success(self, shape: Seq<nat>) -> StateView {
        match self {
            StateView::Begin => StateView::InsertOrder,
            StateView::InsertOrder => Self::item_or_commit(shape, 0),
            StateView::InsertOrderItem(i) => Self::extra_or_next(shape, i, 0),
            StateView::InsertOrderItemExtra(i, j) => Self::extra_or_next(shape, i, j + 1),
            StateView::Commit => StateView::Committed,
            StateView::Abort => StateView::Aborted,
            StateView::Committed => StateView::Committed,
            StateView::Aborted => StateView::Aborted,
        }
    }

    /// The state that follows when what was to be done failed: the
    /// transaction is to be rolled back, whatever was under way; a rollback that
    /// fails leaves nothing more to do.
    pub open spec fn after_failure(self) -> StateView {
        match self {
            StateView::Committed => StateView::Committed,
            StateView::Abort => StateView::Aborted,
            StateView::Aborted => StateView::Aborted,
            _ => StateView::Abort,
        }
    }

    /// The state that follows on an outcome.
    pub open spec fn next(self, shape: Seq<nat>, succeeded: bool) -> StateView {
        if succeeded {
            self.after_success(shape)
        } else {
            self.after_failure()
        }
    }
}

/// What is to be done in a state.
#[derive(Clone, Copy, Debug, PartialEq, Eq)]
pub enum Action<'a> {
    /// Open a transaction.
    Begin,
    /// Insert this order.
    InsertOrder(&'a Order),
    /// Insert this item.
    InsertOrderItem(&'a OrderItem),
    /// Insert this link.
    InsertOrderItemExtra(&'a OrderItemExtra),
    /// Commit the transaction.
    Commit,
    /// Roll the transaction back.
    Rollback,
    /// Nothing: the creation is over.
    Nothing,
}

/// The creation of one order with all that belongs to it, as a single unit:
/// either every row of the plan gets into the store, or none.
#[derive(Debug)]
pub struct OrderTransaction {
    plan: OrderPlan,
    state: State,
}

impl OrderTransaction {
    #[verifier::type_invariant]
    spec fn state_fits_plan(self) -> bool {
        self.state@.fits(self.plan@.shape())
    }

    /// The rows that are to get into the store.
    pub closed spec fn plan(self) -> OrderPlan {
        self.plan
    }

    /// Where the creation stands.
    pub closed spec fn state(self) -> State {
        self.state
    }

    /// What is to be done in the state `state` of a creation with the plan
    /// `plan`.
    pub open spec fn action_in(plan: OrderPlan, state: State) -> Action<'static> {
        match state {
            State::Begin => Action::Begin,
            State::InsertOrder => Action::InsertOrder(&plan.order),
            State::InsertOrderItem(i) => Action::InsertOrderItem(&plan.items@[i as int].item),
            State::InsertOrderItemExtra(i, j) => Action::InsertOrderItemExtra(
                &plan.items@[i as int].extras@[j as int],
            ),
            State::Commit => Action::Commit,
            State::Abort => Action::Rollback,
            State::Committed => Action::Nothing,
            State::Aborted => Action::Nothing,
        }
    }

    /// A creation with the rows of `plan`, at its beginning.
    pub fn new(plan: OrderPlan) -> (transaction: OrderTransaction)
        ensures
            transaction.plan() == plan,
            transaction.state() == State::Begin,
    {
        OrderTransaction { plan, state: State::Begin }
    }

    /// A creation of the order `incoming`, at its beginning.
    pub fn begin(incoming: &IncomingOrder) -> (transaction: OrderTransaction)
        ensures
            transaction.plan()@.is_for(incoming@),
            transaction.plan()@.has_fresh_ids(),
            transaction.state() == State::Begin,
    {
        Self::new(plan_order(incoming))
    }

    /// Where the creation stands.
    pub fn current_state(&self) -> (state: State)
        ensures
            state == self.state(),
            state@.fits(self.plan()@.shape()),
    {
        proof {
            use_type_invariant(self);
        }
        self.state
    }

    /// The rows that are to get into the store.
    pub fn planned(&self) -> (plan: &OrderPlan)
        ensures
            *plan == self.plan(),
    {
        &self.plan
    }

    /// What is to be done now.
    pub fn action(&self) -> (action: Action<'_>)
        ensures
            action == Self::action_in(self.plan(), self.state()),
    {
        proof {
            use_type_invariant(self);
        }
        match self.state {
            State::Begin => Action::Begin,
            State::InsertOrder => Action::InsertOrder(&self.plan.order),
            State::InsertOrderItem(i) => {
                assert(self.plan@.shape().len() == self.plan.items@.len());
                Action::InsertOrderItem(&self.plan.items[i].item)
            },
            State::InsertOrderItemExtra(i, j) => {
                assert(self.plan@.shape().len() == self.plan.items@.len());
                assert(self.plan@.shape()[i as int] == self.plan.items@[i as int].extras@.len());
                Action::InsertOrderItemExtra(&self.plan.items[i].extras[j])
            },
            State::Commit => Action::Commit,
            State::Abort => Action::Rollback,
            State::Committed => Action::Nothing,
            State::Aborted => Action::Nothing,
        }
    }

    fn item_or_commit(&self, i: usize) -> (state: State)
        requires
            i <= self.plan.items@.len(),
        ensures
            state@ == StateView::item_or_commit(self.plan@.shape(), i as nat),
            state@.fits(self.plan@.shape()),
    {
        if i < self.plan.items.len() {
            State::InsertOrderItem(i)
        } else {
            State::Commit
        }
    }

    fn extra_or_next(&self, i: usize, j: usize) -> (state: State)
        requires
            i < self.plan.items@.len(),
            j <= self.plan.items@[i as int].extras@.len(),
        ensures
            state@ == StateView::extra_or_next(self.plan@.shape(), i as nat, j as nat),
            state@.fits(self.plan@.shape()),
    {
        assert(self.plan@.shape()[i as int] == self.plan.items@[i as int].extras@.len());
        if j < self.plan.items[i].extras.len() {
            State::InsertOrderItemExtra(i, j)
        } else {
            assert(i < self.plan.items.len());
            self.item_or_commit(i + 1)
        }
    }

    /// Takes note of the outcome of what was to be done, and moves on to the
    /// state that follows. After the first failure the transaction is to be
    /// rolled back, and no further row is asked for.
    pub fn advance(&mut self, outcome: Result<(), StorageError>)
        ensures
            final(self).plan() == old(self).plan(),
            final(self).state()@ == old(self).state()@.next(
                old(self).plan()@.shape(),
                outcome is Ok,
            ),
    {
        proof {
            use_type_invariant(&*self);
        }
        let next = match outcome {
            Err(_) => match self.state {
                State::Committed => State::Committed,
                State::Abort => State::Aborted,
                State::Aborted => State::Aborted,
                _ => State::Abort,
            },
            Ok(_) => match self.state {
                State::Begin => State::InsertOrder,
                State::InsertOrder => self.item_or_commit(0),
                State::InsertOrderItem(i) => self.extra_or_next(i, 0),
                State::InsertOrderItemExtra(i, j) => {
                    assert(self.plan@.shape()[i as int]
                        == self.plan.items@[i as int].extras@.len());
                    assert(j < self.plan.items[i as int].extras.len());
                    self.extra_or_next(i, j + 1)
                },
                State::Commit => State::Committed,
                State::Abort => State::Aborted,
                State::Committed => State::Committed,
                State::Aborted => State::Aborted,
            },
        };
        self.state = next;
    }

    /// What the creation came to in the state `state`, if it is over.
    pub open spec fn result_in(plan: OrderPlan, state: State) -> Option<
        Result<OrderView, OrderCreationFailed>,
    > {
        match state {
            State::Committed => Some(Ok(plan.order@)),
            State::Aborted => Some(Err(OrderCreationFailed)),
            _ => None,
        }
    }

    /// What the creation came to, if it is over: the order, without its items,
    /// where the transaction was committed; `OrderCreationFailed` where it was
    /// given up.
    pub fn result(&self) -> (r: Option<Result<OrderApiModel, OrderCreationFailed>>)
        ensures
            match r {
                Some(Ok(api)) => Self::result_in(self.plan(), self.state()) == Some(
                    Ok::<OrderView, OrderCreationFailed>(api@),
                ),
                Some(Err(e)) => Self::result_in(self.plan(), self.state()) == Some(
                    Err::<OrderView, OrderCreationFailed>(e),
                ),
                None => Self::result_in(self.plan(), self.state()) is None,
            },
    {
        match self.state {
            State::Committed => Some(Ok(self.plan.order.to_api_model())),
            State::Aborted => Some(Err(OrderCreationFailed)),
            _ => None,
        }
    }
}

/// How many rows, items and links together, the first `i` items of a plan
/// come to.
pub open spec fn rows_before(shape: Seq<nat>, i: nat) -> nat
    decreases i,
{
    if i == 0 {
        0
    } else {
        rows_before(shape, (i - 1) as nat) + 1 + shape[i - 1]
    }
}

/// How many things have to succeed, one after the other, for an order to be
/// created: the opening of the transaction, the insert of the order and of each
/// further row, and the commit.
pub open spec fn steps(shape: Seq<nat>) -> nat {
    3 + rows_before(shape, shape.len())
}

impl StateView {
    /// How many things have succeeded when a creation that nothing has failed
    /// in stands in this state.
    pub open spec fn progress(self, shape: Seq<nat>) -> nat {
        match self {
            StateView::Begin => 0,
            StateView::InsertOrder => 1,
            StateView::InsertOrderItem(i) => 2 + rows_before(shape, i),
            StateView::InsertOrderItemExtra(i, j) => 3 + rows_before(shape, i) + j,
            StateView::Commit => 2 + rows_before(shape, shape.len()),
            StateView::Committed => steps(shape),
            StateView::Abort => 0,
            StateView::Aborted => 0,
        }
    }

    /// Whether nothing has failed yet.
    pub open spec fn on_course(self) -> bool {
        !(self is Abort) && !(self is Aborted)
    }
}

/// The state that a creation is in after the outcomes `outcomes`, taken one
/// after the other from the state `state` on.
pub open spec fn run(state: StateView, shape: Seq<nat>, outcomes: Seq<bool>) -> StateView
    decreases outcomes.len(),
{
    if outcomes.len() == 0 {
        state
    } else {
        run(state.next(shape, outcomes[0]), shape, outcomes.drop_first())
    }
}

proof fn lemma_rows_before_grows(shape: Seq<nat>, i: nat, k: nat)
    requires
        i <= k,
    ensures
        rows_before(shape, i) + (k - i) <= rows_before(shape, k),
    decreases k,
{
    if i < k {
        lemma_rows_before_grows(shape, i, (k - 1) as nat);
    }
}

/// Each success takes a creation one step on: to the next row of the plan, in
/// the order in which the rows stand there, or from the last row to the commit.
pub proof fn lemma_success_moves_one_step_on(state: StateView, shape: Seq<nat>)
    requires
        state.fits(shape),
        state.on_course(),
        !(state is Committed),
    ensures
        state.after_success(shape).fits(shape),
        state.after_success(shape).on_course(),
        state.after_success(shape).progress(shape) == state.progress(shape) + 1,
        state.progress(shape) < steps(shape),
{
    match state {
        StateView::InsertOrder => {
            lemma_rows_before_grows(shape, 0, shape.len());
        },
        StateView::InsertOrderItem(i) => {
            lemma_rows_before_grows(shape, i + 1, shape.len());
            assert(rows_before(shape, i + 1) == rows_before(shape, i) + 1 + shape[i as int]);
        },
        StateView::InsertOrderItemExtra(i, j) => {
            lemma_rows_before_grows(shape, i + 1, shape.len());
            assert(rows_before(shape, i + 1) == rows_before(shape, i) + 1 + shape[i as int]);
        },
        _ => {},
    }
}

/// Once something has failed, no row is asked for any more, and the creation
/// never comes to be committed: it is to be rolled back, and then it is over.
pub proof fn lemma_failure_is_final(state: StateView, shape: Seq<nat>, outcomes: Seq<bool>)
    requires
        !state.on_course(),
    ensures
        !run(state, shape, outcomes).on_course(),
        outcomes.len() > 0 ==> run(state, shape, outcomes) is Aborted,
    decreases outcomes.len(),
{
    if outcomes.len() > 0 {
        lemma_failure_is_final(state.next(shape, outcomes[0]), shape, outcomes.drop_first());
    }
}

/// A creation that was committed stays committed.
pub proof fn lemma_committed_is_final(shape: Seq<nat>, outcomes: Seq<bool>)
    ensures
        run(StateView::Committed, shape, outcomes) is Committed,
    decreases outcomes.len(),
{
    if outcomes.len() > 0 {
        lemma_committed_is_final(shape, outcomes.drop_first());
    }
}

proof fn lemma_run_from(state: StateView, shape: Seq<nat>, outcomes: Seq<bool>)
    requires
        state.fits(shape),
        state.on_course(),
    ensures
        run(state, shape, outcomes) is Committed <==> {
            &&& state.progress(shape) + outcomes.len() >= steps(shape)
            &&& forall|k: int|
                0 <= k < steps(shape) - state.progress(shape) ==> #[trigger] outcomes[k]
        },
    decreases outcomes.len(),
{
    if state is Committed {
        lemma_committed_is_final(shape, outcomes);
    } else {
        lemma_success_moves_one_step_on(state, shape);
        if outcomes.len() > 0 {
            let rest = outcomes.drop_first();
            if outcomes[0] {
                let next = state.after_success(shape);
                lemma_run_from(next, shape, rest);
                assert forall|k: int| 0 <= k < rest.len() implies (#[trigger] rest[k])
                    == outcomes[k + 1] by {}
                let left = steps(shape) - state.progress(shape);
                if run(state, shape, outcomes) is Committed {
                    assert forall|k: int| 0 <= k < left implies #[trigger] outcomes[k] by {
                        if k > 0 {
                            assert(rest[k - 1]);
                        }
                    }
                }
                if state.progress(shape) + outcomes.len() >= steps(shape) && (forall|k: int|
                    0 <= k < steps(shape) - state.progress(shape) ==> #[trigger] outcomes[k]) {
                    assert forall|k: int|
                        0 <= k < steps(shape) - next.progress(shape) implies #[trigger] rest[k] by {
                        assert(outcomes[k + 1]);
                    }
                }
            } else {
                lemma_failure_is_final(state.after_failure(), shape, rest);
            }
        }
    }
}

/// All or nothing: a creation comes to be committed if and only if everything
/// succeeded, from the opening of the transaction over every row of the plan to
/// the commit. If anything fails on the way, it does not.
pub proof fn lemma_all_or_nothing(shape: Seq<nat>, outcomes: Seq<bool>)
    ensures
        run(StateView::Begin, shape, outcomes) is Committed <==> {
            &&& outcomes.len() >= steps(shape)
            &&& forall|k: int| 0 <= k < steps(shape) ==> #[trigger] outcomes[k]
        },
{
    lemma_run_from(StateView::Begin, shape, outcomes);
}

/// If the thing at position `k` fails, and nothing before it did, the creation
/// is to be rolled back at once: the state after that outcome is `Abort`,
/// whichever row was under way, and from then on the creation is not on course.
pub proof fn lemma_first_failure_aborts(shape: Seq<nat>, outcomes: Seq<bool>, k: int)
    requires
        0 <= k < outcomes.len(),
        k < steps(shape),
        !outcomes[k],
        forall|m: int| 0 <= m < k ==> #[trigger] outcomes[m],
    ensures
        run(StateView::Begin, shape, outcomes.subrange(0, k + 1)) is Abort,
        !run(StateView::Begin, shape, outcomes).on_course(),
{
    lemma_prefix_reaches(StateView::Begin, shape, outcomes, k);
}

proof fn lemma_prefix_reaches(state: StateView, shape: Seq<nat>, outcomes: Seq<bool>, k: int)
    requires
        state.fits(shape),
        state.on_course(),
        0 <= k < outcomes.len(),
        state.progress(shape) + k < steps(shape),
        !outcomes[k],
        forall|m: int| 0 <= m < k ==> #[trigger] outcomes[m],
    ensures
        run(state, shape, outcomes.subrange(0, k + 1)) is Abort,
        !run(state, shape, outcomes).on_course(),
    decreases k,
{
    let prefix = outcomes.subrange(0, k + 1);
    let rest = outcomes.drop_first();
    if k == 0 {
        assert(prefix.drop_first() =~= Seq::<bool>::empty());
        assert(prefix[0] == outcomes[0]);
        assert(!(state is Committed));
        assert(run(state.next(shape, false), shape, prefix.drop_first()) is Abort);
        lemma_failure_is_final(state.after_failure(), shape, rest);
    } else {
        assert(outcomes[0]);
        assert(!(state is Committed));
        lemma_success_moves_one_step_on(state, shape);
        let next = state.after_success(shape);
        assert forall|m: int| 0 <= m < k - 1 implies #[trigger] rest[m] by {
            assert(outcomes[m + 1]);
        }
        lemma_prefix_reaches(next, shape, rest, k - 1);
        assert(prefix.drop_first() =~= rest.subrange(0, k));
        assert(prefix[0] == outcomes[0]);
    }
}

} // verus!
