use coffee_shop::decimal::Decimal;
use coffee_shop::error::{ApiError, OrderCreationFailed, StorageError};
use coffee_shop::models::drink_size::DrinkSize;
use coffee_shop::models::order::{IncomingOrder, IncomingOrderItem, Order};
use coffee_shop::models::order_item_extras::OrderItemExtra;
use coffee_shop::models::order_items::OrderItem;
use coffee_shop::models::order_status::OrderStatus;
use coffee_shop::operations::get_by_id;
use coffee_shop::transaction::{plan_item, plan_order, Action, OrderTransaction, State};

fn item(drink_id: &str, size: DrinkSize, price: &str, extras: &[&str]) -> IncomingOrderItem {
    IncomingOrderItem {
        drink_id: drink_id.to_string(),
        size,
        total_price: Decimal::from_text(price).unwrap(),
        extras: extras.iter().map(|e| e.to_string()).collect(),
    }
}

fn incoming(items: Vec<IncomingOrderItem>) -> IncomingOrder {
    IncomingOrder {
        customer_id: "C".to_string(),
        employee_id: "E".to_string(),
        status: OrderStatus::Pending,
        items,
    }
}

/// A store in memory with transactions: what is inserted is held aside until
/// the commit, and thrown away on a rollback.
#[derive(Default)]
struct Store {
    orders: Vec<Order>,
    items: Vec<OrderItem>,
    links: Vec<OrderItemExtra>,
    pending_orders: Vec<Order>,
    pending_items: Vec<OrderItem>,
    pending_links: Vec<OrderItemExtra>,
    inserts: usize,
    fail_on_insert: Option<usize>,
    fail_on_commit: bool,
    log: Vec<String>,
}

fn perform(store: &mut Store, action: Action<'_>) -> Result<(), StorageError> {
    let failed = || Err(StorageError::Failed("FOREIGN KEY constraint failed".to_string()));
    match action {
        Action::Begin => {
            store.log.push("begin".to_string());
            Ok(())
        }
        Action::InsertOrder(_) | Action::InsertOrderItem(_) | Action::InsertOrderItemExtra(_) => {
            store.inserts += 1;
            if store.fail_on_insert == Some(store.inserts) {
                store.log.push("failed".to_string());
                return failed();
            }
            match action {
                Action::InsertOrder(row) => {
                    store.log.push("order".to_string());
                    store.pending_orders.push(row.clone());
                }
                Action::InsertOrderItem(row) => {
                    store.log.push("item".to_string());
                    store.pending_items.push(row.clone());
                }
                Action::InsertOrderItemExtra(row) => {
                    store.log.push("link".to_string());
                    store.pending_links.push(row.clone());
                }
                _ => unreachable!(),
            }
            Ok(())
        }
        Action::Commit => {
            if store.fail_on_commit {
                store.log.push("failed".to_string());
                return failed();
            }
            store.log.push("commit".to_string());
            store.orders.append(&mut store.pending_orders);
            store.items.append(&mut store.pending_items);
            store.links.append(&mut store.pending_links);
            Ok(())
        }
        Action::Rollback => {
            store.log.push("rollback".to_string());
            store.pending_orders.clear();
            store.pending_items.clear();
            store.pending_links.clear();
            Ok(())
        }
        Action::Nothing => panic!("nothing is to be done"),
    }
}

fn drive(store: &mut Store, transaction: &mut OrderTransaction) {
    let mut turns = 0;
    while transaction.result().is_none() {
        let outcome = perform(store, transaction.action());
        transaction.advance(outcome);
        turns += 1;
        assert!(turns < 1000);
    }
}

#[test]
fn plan_item_links_each_extra_to_the_item() {
    let planned = plan_item(
        &"o-1".to_string(),
        &item("D", DrinkSize::Large, "5.10", &["X", "Y", "X"]),
    );
    assert_eq!(planned.item.order_id, "o-1");
    assert_eq!(planned.item.drink_id, "D");
    assert_eq!(planned.item.size.into_drink_size(), DrinkSize::Large);
    assert_eq!(planned.item.total_price.into_decimal().to_text(), "5.10");
    assert_eq!(planned.item.id.len(), 36);
    assert_eq!(planned.extras.len(), 3);
    let extra_ids: Vec<&str> = planned.extras.iter().map(|l| l.extra_id.as_str()).collect();
    assert_eq!(extra_ids, vec!["X", "Y", "X"]);
    for link in &planned.extras {
        assert_eq!(link.order_item_id, planned.item.id);
        assert_eq!(link.id.len(), 36);
    }
    assert!(planned.extras[0].id != planned.extras[2].id);
    assert!(planned.extras[0].id != planned.item.id);
}

#[test]
fn plan_order_repeats_the_incoming_order() {
    let plan = plan_order(&incoming(vec![
        item("D1", DrinkSize::Small, "2.50", &[]),
        item("D2", DrinkSize::Medium, "4.75", &["X"]),
        item("D1", DrinkSize::Standard, "3.00", &["X", "Y"]),
    ]));
    assert_eq!(plan.order.customer_id, "C");
    assert_eq!(plan.order.employee_id, "E");
    assert_eq!(plan.order.status.into_order_status(), OrderStatus::Pending);
    assert_eq!(plan.order.created_at, plan.order.updated_at);
    assert_eq!(plan.items.len(), 3);
    let drinks: Vec<&str> = plan.items.iter().map(|p| p.item.drink_id.as_str()).collect();
    assert_eq!(drinks, vec!["D1", "D2", "D1"]);
    let counts: Vec<usize> = plan.items.iter().map(|p| p.extras.len()).collect();
    assert_eq!(counts, vec![0, 1, 2]);
    for planned in &plan.items {
        assert_eq!(planned.item.order_id, plan.order.id);
        for link in &planned.extras {
            assert_eq!(link.order_item_id, planned.item.id);
        }
    }
    assert_eq!(plan.items[2].extras[1].extra_id, "Y");
    assert_eq!(plan.items[1].item.total_price.into_decimal().to_text(), "4.75");
    let mut ids: Vec<&str> = vec![plan.order.id.as_str()];
    for planned in &plan.items {
        ids.push(planned.item.id.as_str());
        for link in &planned.extras {
            ids.push(link.id.as_str());
        }
    }
    let total = ids.len();
    ids.sort();
    ids.dedup();
    assert_eq!(ids.len(), total);
    assert_eq!(total, 7);
}

#[test]
fn plan_order_without_items_is_the_order_alone() {
    let plan = plan_order(&incoming(vec![]));
    assert_eq!(plan.items.len(), 0);
    assert_eq!(plan.order.customer_id, "C");
}

#[test]
fn order_with_one_item_and_one_extra() {
    let mut store = Store::default();
    let mut transaction = OrderTransaction::begin(
        &incoming(vec![item("D", DrinkSize::Medium, "4.75", &["X"])]),
    );
    assert_eq!(transaction.current_state(), State::Begin);
    drive(&mut store, &mut transaction);
    assert_eq!(transaction.current_state(), State::Committed);
    assert_eq!(store.log, vec!["begin", "order", "item", "link", "commit"]);
    assert_eq!((store.orders.len(), store.items.len(), store.links.len()), (1, 1, 1));
    let order = transaction.result().unwrap().unwrap();
    assert_eq!(order, store.orders[0].to_api_model());
    assert_eq!(order.customer_id, "C");
    assert_eq!(order.employee_id, "E");
    assert_eq!(order.status, OrderStatus::Pending);
    assert_eq!(order.created_at, order.updated_at);
    assert_eq!(store.items[0].order_id, order.id);
    assert_eq!(store.items[0].drink_id, "D");
    assert_eq!(store.items[0].size.into_drink_size(), DrinkSize::Medium);
    assert_eq!(store.items[0].total_price.encode(), "4.75");
    assert_eq!(store.links[0].order_item_id, store.items[0].id);
    assert_eq!(store.links[0].extra_id, "X");
    assert_eq!(get_by_id::<Order>(&order.id, Ok(store.orders.clone())), Ok(order));
    assert_eq!(
        get_by_id::<OrderItem>(&store.items[0].id, Ok(store.items.clone())),
        Ok(store.items[0].to_api_model())
    );
    assert_eq!(
        get_by_id::<OrderItemExtra>(&store.links[0].id, Ok(store.links.clone())),
        Ok(store.links[0].to_api_model())
    );
}

#[test]
fn rows_are_inserted_in_the_order_of_the_plan() {
    let mut store = Store::default();
    let mut transaction = OrderTransaction::begin(&incoming(vec![
        item("D1", DrinkSize::Small, "2.50", &["X", "Y"]),
        item("D2", DrinkSize::Large, "3.00", &[]),
        item("D3", DrinkSize::Large, "3.00", &["Z"]),
    ]));
    let states = {
        let mut seen = vec![transaction.current_state()];
        while transaction.result().is_none() {
            let outcome = perform(&mut store, transaction.action());
            transaction.advance(outcome);
            seen.push(transaction.current_state());
        }
        seen
    };
    assert_eq!(
        states,
        vec![
            State::Begin,
            State::InsertOrder,
            State::InsertOrderItem(0),
            State::InsertOrderItemExtra(0, 0),
            State::InsertOrderItemExtra(0, 1),
            State::InsertOrderItem(1),
            State::InsertOrderItem(2),
            State::InsertOrderItemExtra(2, 0),
            State::Commit,
            State::Committed,
        ]
    );
    assert_eq!(
        store.log,
        vec!["begin", "order", "item", "link", "link", "item", "item", "link", "commit"]
    );
    let plan = transaction.planned();
    assert_eq!(store.orders, vec![plan.order.clone()]);
    let items: Vec<OrderItem> = plan.items.iter().map(|p| p.item.clone()).collect();
    assert_eq!(store.items, items);
    let links: Vec<OrderItemExtra> = plan.items.iter().flat_map(|p| p.extras.clone()).collect();
    assert_eq!(store.links, links);
}

#[test]
fn order_without_items_is_committed_after_the_order() {
    let mut store = Store::default();
    let mut transaction = OrderTransaction::begin(&incoming(vec![]));
    drive(&mut store, &mut transaction);
    assert_eq!(store.log, vec!["begin", "order", "commit"]);
    assert_eq!(transaction.current_state(), State::Committed);
    assert_eq!(store.orders.len(), 1);
}

#[test]
fn failure_of_the_second_of_three_items_leaves_nothing() {
    let mut store = Store::default();
    // Insert 1 is the order, insert 2 the first item, insert 3 its extra,
    // insert 4 the second item.
    store.fail_on_insert = Some(4);
    let mut transaction = OrderTransaction::begin(&incoming(vec![
        item("D1", DrinkSize::Small, "2.50", &["X"]),
        item("D2", DrinkSize::Medium, "4.75", &["X"]),
        item("D3", DrinkSize::Large, "5.00", &[]),
    ]));
    drive(&mut store, &mut transaction);
    assert_eq!(store.log, vec!["begin", "order", "item", "link", "failed", "rollback"]);
    assert_eq!(transaction.current_state(), State::Aborted);
    assert_eq!(transaction.result(), Some(Err(OrderCreationFailed)));
    assert_eq!(OrderCreationFailed.api_error(), ApiError::InternalError);
    assert_eq!((store.orders.len(), store.items.len(), store.links.len()), (0, 0, 0));
    let order_id = transaction.planned().order.id.clone();
    assert_eq!(get_by_id::<Order>(&order_id, Ok(store.orders.clone())), Err(ApiError::NotFound));
    let item_id = transaction.planned().items[0].item.id.clone();
    assert_eq!(get_by_id::<OrderItem>(&item_id, Ok(store.items.clone())), Err(ApiError::NotFound));
}

#[test]
fn failure_at_any_place_leaves_nothing() {
    for place in 1..=6 {
        let mut store = Store::default();
        store.fail_on_insert = Some(place);
        let mut transaction = OrderTransaction::begin(&incoming(vec![
            item("D1", DrinkSize::Small, "2.50", &["X", "Y"]),
            item("D2", DrinkSize::Medium, "4.75", &["X"]),
        ]));
        drive(&mut store, &mut transaction);
        assert_eq!(transaction.result(), Some(Err(OrderCreationFailed)));
        assert_eq!((store.orders.len(), store.items.len(), store.links.len()), (0, 0, 0));
        assert_eq!(store.inserts, place);
        assert_eq!(store.log.last().unwrap(), "rollback");
        assert!(!store.log.contains(&"commit".to_string()));
    }
}

#[test]
fn failure_of_the_commit_leaves_nothing() {
    let mut store = Store::default();
    store.fail_on_commit = true;
    let mut transaction = OrderTransaction::begin(
        &incoming(vec![item("D", DrinkSize::Small, "2.50", &[])]),
    );
    drive(&mut store, &mut transaction);
    assert_eq!(store.log, vec!["begin", "order", "item", "failed", "rollback"]);
    assert_eq!(transaction.result(), Some(Err(OrderCreationFailed)));
    assert_eq!((store.orders.len(), store.items.len(), store.links.len()), (0, 0, 0));
}

#[test]
fn failure_to_open_or_to_roll_back_ends_the_creation() {
    let mut transaction = OrderTransaction::begin(
        &incoming(vec![item("D", DrinkSize::Small, "2.50", &[])]),
    );
    assert_eq!(transaction.action(), Action::Begin);
    transaction.advance(Err(StorageError::Failed("database is locked".to_string())));
    assert_eq!(transaction.current_state(), State::Abort);
    assert_eq!(transaction.action(), Action::Rollback);
    assert_eq!(transaction.result(), None);
    transaction.advance(Err(StorageError::Failed("no transaction is active".to_string())));
    assert_eq!(transaction.current_state(), State::Aborted);
    assert_eq!(transaction.action(), Action::Nothing);
    assert_eq!(transaction.result(), Some(Err(OrderCreationFailed)));
    transaction.advance(Ok(()));
    assert_eq!(transaction.current_state(), State::Aborted);
}

#[test]
fn a_committed_creation_stays_committed() {
    let mut store = Store::default();
    let mut transaction = OrderTransaction::new(plan_order(&incoming(vec![])));
    drive(&mut store, &mut transaction);
    let order = transaction.result().unwrap().unwrap();
    transaction.advance(Err(StorageError::NotFound));
    assert_eq!(transaction.current_state(), State::Committed);
    transaction.advance(Ok(()));
    assert_eq!(transaction.result(), Some(Ok(order)));
    assert_eq!(transaction.action(), Action::Nothing);
}

#[test]
fn actions_hand_out_the_rows_of_the_plan() {
    let mut transaction = OrderTransaction::begin(
        &incoming(vec![item("D", DrinkSize::Small, "2.50", &["X"])]),
    );
    transaction.advance(Ok(()));
    let plan = transaction.planned().clone();
    assert_eq!(transaction.action(), Action::InsertOrder(&plan.order));
    transaction.advance(Ok(()));
    assert_eq!(transaction.action(), Action::InsertOrderItem(&plan.items[0].item));
    transaction.advance(Ok(()));
    assert_eq!(transaction.action(), Action::InsertOrderItemExtra(&plan.items[0].extras[0]));
    transaction.advance(Ok(()));
    assert_eq!(transaction.action(), Action::Commit);
    transaction.advance(Ok(()));
    assert_eq!(transaction.action(), Action::Nothing);
}
