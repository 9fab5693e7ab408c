use coffee_shop::datetime::{NaiveDate, NaiveDateTime};
use coffee_shop::decimal::Decimal;
use coffee_shop::error::{ApiError, StorageError};
use coffee_shop::models::customer::{Customer, NewCustomer, UpdateCustomer};
use coffee_shop::models::drink::{Drink, NewDrink, UpdateDrink};
use coffee_shop::models::employee::{Employee, NewEmployee};
use coffee_shop::models::extra::{Extra, NewExtra};
use coffee_shop::models::infra::sqlite_types::{SqliteDateTime, SqliteDecimal};
use coffee_shop::operations::customers::{
    check_customer_update, check_new_customer, create_customer, customer_written, get_customer,
    get_customers, update_customer,
};
use coffee_shop::operations::drinks::{
    check_drink_update, check_new_drink, create_drink, drink_written, get_drink, get_drinks,
    update_drink,
};
use coffee_shop::operations::{check_id, conclude_write, find_visible};
use coffee_shop::operations::{get_by_id, list_active, take_by_id};

fn at(second: u32) -> NaiveDateTime {
    NaiveDate::from_ymd_opt(2024, 3, 1).unwrap().and_hms_nano_opt(8, 0, second, 0).unwrap()
}

fn money(text: &str) -> Decimal {
    Decimal::from_text(text).unwrap()
}

fn customer(id: &str, name: &str, email: &str) -> Customer {
    Customer::from_new_at(
        NewCustomer { name: name.to_string(), email: email.to_string() },
        id.to_string(),
        at(0),
    )
}

fn deleted_customer(id: &str, name: &str, email: &str) -> Customer {
    let mut c = customer(id, name, email);
    c.soft_delete_at(at(1));
    c
}

fn drink(id: &str, name: &str, text: &str) -> Drink {
    Drink::from_new_at(
        NewDrink { name: name.to_string(), base_price: money(text) },
        id.to_string(),
        at(0),
    )
}

fn unique_violation() -> StorageError {
    StorageError::Failed("UNIQUE constraint failed: customers.email".to_string())
}

fn disk_full() -> StorageError {
    StorageError::Failed("database or disk is full".to_string())
}

/// A table of customers in memory that refuses a second row with an email that
/// a row already has.
fn insert_customer(table: &mut Vec<Customer>, row: &Customer) -> Result<(), StorageError> {
    if table.iter().any(|held| held.email == row.email) {
        return Err(unique_violation());
    }
    table.push(row.clone());
    Ok(())
}

#[test]
fn storage_errors_are_told_apart() {
    assert_eq!(StorageError::NotFound.read_error(), ApiError::NotFound);
    assert_eq!(disk_full().read_error(), ApiError::InternalError);
    assert_eq!(unique_violation().read_error(), ApiError::InternalError);
    assert_eq!(unique_violation().write_error(), ApiError::Conflict);
    assert_eq!(disk_full().write_error(), ApiError::InternalError);
    assert_eq!(StorageError::NotFound.write_error(), ApiError::InternalError);
    assert_eq!(
        StorageError::Failed("unique constraint failed".to_string()).write_error(),
        ApiError::InternalError
    );
    assert_eq!(StorageError::Failed("".to_string()).write_error(), ApiError::InternalError);
}

#[test]
fn check_id_refuses_blank_identifiers() {
    assert_eq!(check_id(""), Err(ApiError::InvalidInput));
    assert_eq!(check_id("   "), Err(ApiError::InvalidInput));
    assert_eq!(check_id("\t\n"), Err(ApiError::InvalidInput));
    assert_eq!(check_id("c-1"), Ok(()));
    assert_eq!(check_id(" c-1 "), Ok(()));
}

#[test]
fn get_customers_leaves_deleted_rows_out() {
    let rows = vec![
        customer("c-1", "Ada", "ada@x.com"),
        deleted_customer("c-2", "Bo", "bo@x.com"),
        customer("c-3", "Cy", "cy@x.com"),
        deleted_customer("c-4", "Di", "di@x.com"),
    ];
    let listed = get_customers(Ok(rows.clone())).unwrap();
    assert_eq!(listed, vec![rows[0].to_api_model(), rows[2].to_api_model()]);
    assert_eq!(get_customers(Ok(vec![])), Ok(vec![]));
    assert_eq!(get_customers(Ok(vec![deleted_customer("c-2", "Bo", "bo@x.com")])), Ok(vec![]));
}

#[test]
fn get_customers_reports_a_failed_load() {
    assert_eq!(get_customers(Err(disk_full())), Err(ApiError::InternalError));
    assert_eq!(get_customers(Err(StorageError::NotFound)), Err(ApiError::InternalError));
}

#[test]
fn get_customer_finds_the_row_with_the_identifier() {
    let rows = vec![
        customer("c-1", "Ada", "ada@x.com"),
        customer("c-2", "Bo", "bo@x.com"),
        customer("c-3", "Cy", "cy@x.com"),
    ];
    assert_eq!(get_customer("c-2", Ok(rows.clone())), Ok(rows[1].to_api_model()));
    assert_eq!(get_customer("c-3", Ok(rows.clone())), Ok(rows[2].to_api_model()));
    assert_eq!(get_customer("c-9", Ok(rows.clone())), Err(ApiError::NotFound));
    assert_eq!(get_customer("C-2", Ok(rows.clone())), Err(ApiError::NotFound));
    assert_eq!(get_customer("c-2 ", Ok(rows)), Err(ApiError::NotFound));
    assert_eq!(get_customer("c-1", Ok(vec![])), Err(ApiError::NotFound));
}

#[test]
fn get_customer_refuses_a_blank_identifier_first() {
    let rows = vec![customer("", "Ada", "ada@x.com"), customer(" ", "Bo", "bo@x.com")];
    assert_eq!(get_customer("", Ok(rows.clone())), Err(ApiError::InvalidInput));
    assert_eq!(get_customer(" ", Ok(rows)), Err(ApiError::InvalidInput));
    assert_eq!(get_customer("  ", Err(disk_full())), Err(ApiError::InvalidInput));
    assert_eq!(get_customer("", Err(StorageError::NotFound)), Err(ApiError::InvalidInput));
}

#[test]
fn get_customer_maps_the_errors_of_the_load() {
    assert_eq!(get_customer("c-1", Err(StorageError::NotFound)), Err(ApiError::NotFound));
    assert_eq!(get_customer("c-1", Err(disk_full())), Err(ApiError::InternalError));
    assert_eq!(get_customer("c-1", Err(unique_violation())), Err(ApiError::InternalError));
}

#[test]
fn soft_deleted_customer_is_invisible() {
    let mut rows = vec![customer("c-1", "Ada", "ada@x.com"), customer("c-2", "Bo", "bo@x.com")];
    assert_eq!(get_customer("c-2", Ok(rows.clone())), Ok(rows[1].to_api_model()));
    rows[1].soft_delete_at(at(30));
    assert_eq!(get_customer("c-2", Ok(rows.clone())), Err(ApiError::NotFound));
    assert_eq!(get_customers(Ok(rows.clone())), Ok(vec![rows[0].to_api_model()]));
    assert_eq!(
        update_customer(
            "c-2",
            UpdateCustomer { name: "Bo".to_string(), email: "bo@y.com".to_string() },
            Ok(rows.clone())
        ),
        Err(ApiError::NotFound)
    );
    assert_eq!(get_customer("c-1", Ok(rows.clone())), Ok(rows[0].to_api_model()));
}

#[test]
fn soft_deleted_drink_is_invisible() {
    let mut rows = vec![drink("d-1", "Espresso", "2.50"), drink("d-2", "Latte", "3.20")];
    rows[0].soft_delete_at(at(30));
    assert_eq!(get_drink("d-1", Ok(rows.clone())), Err(ApiError::NotFound));
    assert_eq!(get_drinks(Ok(rows.clone())), Ok(vec![rows[1].to_api_model()]));
    assert_eq!(
        update_drink("d-1", UpdateDrink { base_price: money("2.60") }, Ok(rows.clone())),
        Err(ApiError::NotFound)
    );
}

#[test]
fn soft_deleted_employee_is_invisible() {
    let born = NaiveDate::from_ymd_opt(1990, 7, 4).unwrap();
    let make = |id: &str| {
        Employee::from_new_at(
            NewEmployee { name: "Bo".to_string(), email: "bo@x.com".to_string(), birth_date: born },
            id.to_string(),
            at(0),
        )
    };
    let mut rows = vec![make("e-1"), make("e-2")];
    assert_eq!(get_by_id::<Employee>("e-1", Ok(rows.clone())), Ok(rows[0].to_api_model()));
    rows[0].soft_delete_at(at(30));
    assert_eq!(get_by_id::<Employee>("e-1", Ok(rows.clone())), Err(ApiError::NotFound));
    assert_eq!(list_active::<Employee>(Ok(rows.clone())), Ok(vec![rows[1].to_api_model()]));
}

#[test]
fn a_deleted_row_does_not_hide_a_later_one() {
    let rows = vec![
        deleted_customer("c-1", "Old", "old@x.com"),
        customer("c-1", "New", "new@x.com"),
        customer("c-1", "Newer", "newer@x.com"),
    ];
    assert_eq!(get_customer("c-1", Ok(rows.clone())), Ok(rows[1].to_api_model()));
    assert_eq!(find_visible(&rows, "c-1"), Some(1));
    assert_eq!(find_visible(&rows, "c-2"), None);
    assert_eq!(take_by_id::<Customer>("c-1", Ok(rows.clone())), Ok(rows[1].clone()));
}

#[test]
fn extras_are_all_listed() {
    let make = |id: &str, available: Option<bool>| {
        Extra::from_new(
            NewExtra {
                name: "Syrup".to_string(),
                extra_price: money("0.40"),
                is_available: available,
            },
            id.to_string(),
        )
    };
    let rows = vec![make("x-1", None), make("x-2", Some(false))];
    assert_eq!(
        list_active::<Extra>(Ok(rows.clone())),
        Ok(vec![rows[0].to_api_model(), rows[1].to_api_model()])
    );
    assert_eq!(get_by_id::<Extra>("x-2", Ok(rows.clone())), Ok(rows[1].to_api_model()));
    assert_eq!(list_active::<Extra>(Err(disk_full())), Err(ApiError::InternalError));
}

#[test]
fn customer_validation_boundary() {
    let check = |name: &str, email: &str| {
        check_new_customer(&NewCustomer { name: name.to_string(), email: email.to_string() })
    };
    assert_eq!(check("", "a@b.com"), Err(ApiError::InvalidInput));
    assert_eq!(check("   ", "a@b.com"), Err(ApiError::InvalidInput));
    assert_eq!(check("A", ""), Err(ApiError::InvalidInput));
    assert_eq!(check("A", "  "), Err(ApiError::InvalidInput));
    assert_eq!(check("A", "a.b.com"), Err(ApiError::InvalidInput));
    assert_eq!(check("A", "a@b.com"), Ok(()));
    assert_eq!(check("A", "@"), Ok(()));
    assert_eq!(check(" A ", " a@b "), Ok(()));
}

#[test]
fn create_customer_refuses_an_empty_name() {
    assert_eq!(
        create_customer(NewCustomer { name: "".to_string(), email: "a@b.com".to_string() }),
        Err(ApiError::InvalidInput)
    );
    assert_eq!(
        create_customer(NewCustomer { name: "A".to_string(), email: "ab.com".to_string() }),
        Err(ApiError::InvalidInput)
    );
    assert_eq!(
        create_customer(NewCustomer { name: "A".to_string(), email: " ".to_string() }),
        Err(ApiError::InvalidInput)
    );
}

#[test]
fn create_customer_makes_the_row_to_insert() {
    let row = create_customer(
        NewCustomer { name: "A".to_string(), email: "a@x.com".to_string() },
    ).unwrap();
    assert_eq!(row.name, "A");
    assert_eq!(row.email, "a@x.com");
    assert_eq!(row.created_at, row.updated_at);
    assert_eq!(row.deleted_at, None);
    assert_eq!(row.id.len(), 36);
    assert_eq!(check_id(&row.id), Ok(()));
    let api = customer_written(row.clone(), Ok(())).unwrap();
    assert_eq!(api, row.to_api_model());
}

#[test]
fn create_customer_twice_with_one_email_is_a_conflict() {
    let mut table: Vec<Customer> = Vec::new();
    let first = create_customer(
        NewCustomer { name: "A".to_string(), email: "dup@x.com".to_string() },
    ).unwrap();
    let outcome = insert_customer(&mut table, &first);
    assert_eq!(customer_written(first.clone(), outcome), Ok(first.to_api_model()));
    let second = create_customer(
        NewCustomer { name: "A".to_string(), email: "dup@x.com".to_string() },
    ).unwrap();
    assert!(second.id != first.id);
    let outcome = insert_customer(&mut table, &second);
    assert_eq!(customer_written(second, outcome), Err(ApiError::Conflict));
    assert_eq!(table.len(), 1);
}

#[test]
fn written_maps_the_errors_of_the_write() {
    let row = customer("c-1", "Ada", "ada@x.com");
    assert_eq!(customer_written(row.clone(), Err(unique_violation())), Err(ApiError::Conflict));
    assert_eq!(customer_written(row.clone(), Err(disk_full())), Err(ApiError::InternalError));
    assert_eq!(
        customer_written(row.clone(), Err(StorageError::NotFound)),
        Err(ApiError::InternalError)
    );
    assert_eq!(conclude_write::<Customer>(row.clone(), Ok(())), Ok(row.to_api_model()));
    let d = drink("d-1", "Espresso", "2.50");
    assert_eq!(drink_written(d.clone(), Ok(())), Ok(d.to_api_model()));
    assert_eq!(drink_written(d.clone(), Err(unique_violation())), Err(ApiError::Conflict));
    assert_eq!(drink_written(d, Err(disk_full())), Err(ApiError::InternalError));
}

#[test]
fn update_customer_checks_the_input_first() {
    let rows = vec![customer("c-1", "Ada", "ada@x.com")];
    let update = |name: &str, email: &str| UpdateCustomer {
        name: name.to_string(),
        email: email.to_string(),
    };
    assert_eq!(
        update_customer("", update("B", "b@x.com"), Ok(rows.clone())),
        Err(ApiError::InvalidInput)
    );
    assert_eq!(
        update_customer(" ", update("B", "b@x.com"), Err(disk_full())),
        Err(ApiError::InvalidInput)
    );
    assert_eq!(
        update_customer("c-1", update("", "b@x.com"), Ok(rows.clone())),
        Err(ApiError::InvalidInput)
    );
    assert_eq!(
        update_customer("c-1", update("B", ""), Ok(rows.clone())),
        Err(ApiError::InvalidInput)
    );
    assert_eq!(
        update_customer("c-1", update("B", "bx.com"), Ok(rows.clone())),
        Err(ApiError::InvalidInput)
    );
    assert_eq!(
        update_customer("c-9", update("", "b@x.com"), Ok(rows.clone())),
        Err(ApiError::InvalidInput)
    );
    assert_eq!(check_customer_update("c-1", &update("B", "b@x.com")), Ok(()));
    assert_eq!(check_customer_update("", &update("B", "b@x.com")), Err(ApiError::InvalidInput));
    assert_eq!(check_customer_update("c-1", &update("B", "b")), Err(ApiError::InvalidInput));
}

#[test]
fn update_customer_changes_name_and_email_only() {
    let rows = vec![customer("c-0", "Zed", "zed@x.com"), customer("c-1", "Ada", "ada@x.com")];
    let row = update_customer(
        "c-1",
        UpdateCustomer { name: "Ada L.".to_string(), email: "lovelace@x.com".to_string() },
        Ok(rows.clone()),
    )
    .unwrap();
    assert_eq!(row.id, "c-1");
    assert_eq!(row.name, "Ada L.");
    assert_eq!(row.email, "lovelace@x.com");
    assert_eq!(row.created_at, SqliteDateTime(at(0)));
    assert!(row.updated_at != SqliteDateTime(at(0)));
    assert_eq!(row.deleted_at, None);
    assert_eq!(customer_written(row.clone(), Ok(())), Ok(row.to_api_model()));
    assert_eq!(customer_written(row, Err(unique_violation())), Err(ApiError::Conflict));
}

#[test]
fn update_customer_maps_the_errors_of_the_load() {
    let update = || UpdateCustomer { name: "B".to_string(), email: "b@x.com".to_string() };
    assert_eq!(update_customer("c-1", update(), Ok(vec![])), Err(ApiError::NotFound));
    assert_eq!(
        update_customer("c-1", update(), Err(StorageError::NotFound)),
        Err(ApiError::NotFound)
    );
    assert_eq!(update_customer("c-1", update(), Err(disk_full())), Err(ApiError::InternalError));
    assert_eq!(
        update_customer("c-1", update(), Ok(vec![customer("c-2", "Bo", "bo@x.com")])),
        Err(ApiError::NotFound)
    );
}

#[test]
fn drink_validation_boundary() {
    let check = |name: &str, text: &str| {
        check_new_drink(&NewDrink { name: name.to_string(), base_price: money(text) })
    };
    assert_eq!(check("Latte", "0"), Err(ApiError::InvalidInput));
    assert_eq!(check("Latte", "0.00"), Err(ApiError::InvalidInput));
    assert_eq!(check("Latte", "-1"), Err(ApiError::InvalidInput));
    assert_eq!(check("Latte", "-0.01"), Err(ApiError::InvalidInput));
    assert_eq!(check("", "3.20"), Err(ApiError::InvalidInput));
    assert_eq!(check(" \t", "3.20"), Err(ApiError::InvalidInput));
    assert_eq!(check("Latte", "0.01"), Ok(()));
    assert_eq!(check("Latte", "3.20"), Ok(()));
    assert_eq!(check_drink_update("d-1", &UpdateDrink { base_price: money("3") }), Ok(()));
    assert_eq!(
        check_drink_update("d-1", &UpdateDrink { base_price: money("0") }),
        Err(ApiError::InvalidInput)
    );
    assert_eq!(
        check_drink_update(" ", &UpdateDrink { base_price: money("3") }),
        Err(ApiError::InvalidInput)
    );
}

#[test]
fn create_drink_refuses_a_price_of_zero() {
    assert_eq!(
        create_drink(NewDrink { name: "Latte".to_string(), base_price: money("0") }),
        Err(ApiError::InvalidInput)
    );
    assert_eq!(
        create_drink(NewDrink { name: "Latte".to_string(), base_price: money("-2.50") }),
        Err(ApiError::InvalidInput)
    );
    assert_eq!(
        create_drink(NewDrink { name: " ".to_string(), base_price: money("2.50") }),
        Err(ApiError::InvalidInput)
    );
}

#[test]
fn create_drink_then_get_it_by_id() {
    let row = create_drink(
        NewDrink { name: "Espresso".to_string(), base_price: money("2.50") },
    ).unwrap();
    let id = row.id.clone();
    // The store holds text: what comes back is what the text stands for.
    let stored = (
        row.id.clone(),
        row.name.clone(),
        row.base_price.encode(),
        row.created_at.encode(),
        row.updated_at.encode(),
        row.deleted_at.map(|t| t.encode()),
    );
    assert_eq!(stored.2, "2.50");
    assert_eq!(drink_written(row.clone(), Ok(())), Ok(row.to_api_model()));
    let loaded = Drink {
        id: stored.0,
        name: stored.1,
        base_price: SqliteDecimal::decode(&stored.2).unwrap(),
        created_at: SqliteDateTime::decode(&stored.3).unwrap(),
        updated_at: SqliteDateTime::decode(&stored.4).unwrap(),
        deleted_at: stored.5.map(|t| SqliteDateTime::decode(&t).unwrap()),
    };
    assert_eq!(loaded, row);
    let got = get_drink(&id, Ok(vec![loaded])).unwrap();
    assert_eq!(got.id, id);
    assert_eq!(got.name, "Espresso");
    assert_eq!(got.base_price.to_text(), "2.50");
    assert_eq!(got.base_price, money("2.50"));
    assert!(got.base_price != money("2.5"));
    assert_eq!(got.created_at, got.updated_at);
    assert_eq!(got.deleted_at, None);
}

#[test]
fn get_drink_and_get_drinks_read_the_load() {
    let rows = vec![drink("d-1", "Espresso", "2.50"), drink("d-2", "Latte", "3.20")];
    assert_eq!(
        get_drinks(Ok(rows.clone())),
        Ok(vec![rows[0].to_api_model(), rows[1].to_api_model()])
    );
    assert_eq!(get_drinks(Err(disk_full())), Err(ApiError::InternalError));
    assert_eq!(get_drink("d-2", Ok(rows.clone())), Ok(rows[1].to_api_model()));
    assert_eq!(get_drink("d-3", Ok(rows.clone())), Err(ApiError::NotFound));
    assert_eq!(get_drink("", Ok(rows)), Err(ApiError::InvalidInput));
    assert_eq!(get_drink("d-1", Err(StorageError::NotFound)), Err(ApiError::NotFound));
    assert_eq!(get_drink("d-1", Err(disk_full())), Err(ApiError::InternalError));
}

#[test]
fn update_drink_changes_the_price_only() {
    let rows = vec![drink("d-1", "Espresso", "2.50"), drink("d-2", "Latte", "3.20")];
    let row = update_drink(
        "d-2",
        UpdateDrink { base_price: money("3.50") },
        Ok(rows.clone()),
    ).unwrap();
    assert_eq!(row.id, "d-2");
    assert_eq!(row.name, "Latte");
    assert_eq!(row.base_price, SqliteDecimal(money("3.50")));
    assert_eq!(row.created_at, SqliteDateTime(at(0)));
    assert!(row.updated_at != SqliteDateTime(at(0)));
    assert_eq!(row.deleted_at, None);
    assert_eq!(drink_written(row.clone(), Ok(())), Ok(row.to_api_model()));
}

#[test]
fn update_drink_checks_the_input_first() {
    let rows = vec![drink("d-1", "Espresso", "2.50")];
    assert_eq!(
        update_drink("", UpdateDrink { base_price: money("3") }, Ok(rows.clone())),
        Err(ApiError::InvalidInput)
    );
    assert_eq!(
        update_drink("d-1", UpdateDrink { base_price: money("0") }, Ok(rows.clone())),
        Err(ApiError::InvalidInput)
    );
    assert_eq!(
        update_drink("d-9", UpdateDrink { base_price: money("-3") }, Err(disk_full())),
        Err(ApiError::InvalidInput)
    );
    assert_eq!(
        update_drink("d-9", UpdateDrink { base_price: money("3") }, Ok(rows)),
        Err(ApiError::NotFound)
    );
    assert_eq!(
        update_drink("d-1", UpdateDrink { base_price: money("3") }, Err(disk_full())),
        Err(ApiError::InternalError)
    );
}
