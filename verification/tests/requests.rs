use chrono::NaiveDate;
use chrono::NaiveDateTime;
use portrait_booth::admin::change_user_role;
use portrait_booth::admin::get_all_staff;
use portrait_booth::admin::get_allow_order_creation_setting;
use portrait_booth::admin::get_user_by_email;
use portrait_booth::admin::home_page_request;
use portrait_booth::admin::toggle_allow_order_creation;
use portrait_booth::admin::view_reports_request;
use portrait_booth::admin::AppName;
use portrait_booth::admin::HomePageResponse;
use portrait_booth::database::Database;
use portrait_booth::error::RequestError;
use portrait_booth::order::Order;
use portrait_booth::order::OrderStatus;
use portrait_booth::order::PaymentMode;
use portrait_booth::order_item::Mode;
use portrait_booth::policy::Action;
use portrait_booth::pricing::Pricing;
use portrait_booth::processing::fetch_order_request;
use portrait_booth::processing::mark_ready_for_delivery_request;
use portrait_booth::processing::skip_order_request;
use portrait_booth::requests::clear_stripe_pending_status;
use portrait_booth::requests::create_order_request;
use portrait_booth::requests::delete_order_request;
use portrait_booth::requests::get_order_request;
use portrait_booth::requests::get_orders_request;
use portrait_booth::requests::get_user_order;
use portrait_booth::requests::mark_paid_request;
use portrait_booth::requests::mark_stripe_paid_request;
use portrait_booth::requests::order_ref_for;
use portrait_booth::requests::order_status_change_request;
use portrait_booth::requests::override_note_for;
use portrait_booth::requests::start_cash_payment_request;
use portrait_booth::requests::start_stripe_payment_request;
use portrait_booth::requests::status_change_request;
use portrait_booth::requests::store_stripe_confirmation;
use portrait_booth::requests::ConfirmationParams;
use portrait_booth::setting::Setting;
use portrait_booth::transition::OrderUpdate;
use portrait_booth::user::Role;
use portrait_booth::user::User;

fn noon() -> NaiveDateTime {
    NaiveDate::from_ymd_opt(2024, 6, 1).unwrap().and_hms_opt(12, 0, 0).unwrap()
}

fn staff(db: &mut Database, name: &str, role: Role) -> User {
    let id = User::create(
        Some(format!("{}@example.com", name.to_lowercase())),
        Some("555-0100".to_string()),
        "hash".to_string(),
        name.to_string(),
        role,
        db,
    )
    .unwrap();
    User::get_by_id(id, db).unwrap()
}

struct Desk {
    db: Database,
    ann: User,
    bob: User,
    cashier: User,
    operator: User,
    processor: User,
    manager: User,
}

fn desk() -> Desk {
    let mut db = Database::new();
    let ann = staff(&mut db, "Ann", Role::Customer);
    let bob = staff(&mut db, "Bob", Role::Customer);
    let cashier = staff(&mut db, "Carl", Role::Cashier);
    let operator = staff(&mut db, "Olga", Role::Operator);
    let processor = staff(&mut db, "Pete", Role::Processor);
    let manager = staff(&mut db, "Mia", Role::Manager);
    Desk { db, ann, bob, cashier, operator, processor, manager }
}

fn five() -> Pricing {
    Pricing { base_price: 5, unit_price: 5 }
}

fn place(d: &mut Desk, photos: u64) -> u64 {
    let ann = d.ann.clone();
    create_order_request(&mut d.db, &ann, photos, &five(), noon()).unwrap().id
}

fn force(d: &mut Desk, id: u64, from: OrderStatus, to: OrderStatus) {
    assert!(d.db.execute(&OrderUpdate::ChangeStatus { id, from, to }));
}

#[test]
fn one_to_three_photos_can_be_ordered() {
    let mut d = desk();
    for (photos, total) in [(1, 10), (2, 15), (3, 20)] {
        let placed = create_order_request(&mut d.db, &d.ann, photos, &five(), noon()).unwrap();
        assert_eq!(placed.no_of_photos, photos);
        assert_eq!(placed.order_total, total);
        assert_eq!(placed.status, OrderStatus::Created);
        assert_eq!(placed.mode_of_payment, PaymentMode::NotSelected);
        assert_eq!(placed.customer_id, d.ann.id);
        assert_eq!(placed.name, "Ann");
        assert_eq!(placed.email, "ann@example.com");
        assert_eq!(placed.phone, Some("555-0100".to_string()));
    }
    for photos in [0, 4, 5, 100, u64::MAX] {
        let before = d.db.orders();
        assert_eq!(
            create_order_request(&mut d.db, &d.ann, photos, &five(), noon()),
            Err(RequestError::InvalidPhotoCount)
        );
        assert_eq!(d.db.orders(), before);
    }
}

#[test]
fn order_too_dear_for_the_machine_is_refused() {
    let mut d = desk();
    let pricing = Pricing { base_price: 10, unit_price: u64::MAX / 2 };
    assert!(create_order_request(&mut d.db, &d.ann, 1, &pricing, noon()).is_ok());
    let before = d.db.orders();
    assert_eq!(
        create_order_request(&mut d.db, &d.ann, 3, &pricing, noon()),
        Err(RequestError::TooLarge)
    );
    assert_eq!(d.db.orders(), before);
}

#[test]
fn order_of_an_unknown_person_has_no_customer_to_show() {
    let mut d = desk();
    let mut nobody = d.ann.clone();
    nobody.id = 999;
    assert_eq!(
        create_order_request(&mut d.db, &nobody, 1, &five(), noon()),
        Err(RequestError::RowMissing)
    );
    assert_eq!(get_user_order(&d.db, 1), Err(RequestError::RowMissing));
    assert_eq!(get_user_order(&d.db, 5), Err(RequestError::RowMissing));
}

#[test]
fn customer_cannot_delete_order_of_another() {
    let mut d = desk();
    let id = place(&mut d, 2);
    let before = d.db.orders();
    assert!(!delete_order_request(&mut d.db, &d.bob, id));
    assert!(!delete_order_request(&mut d.db, &d.manager, id));
    assert_eq!(d.db.orders(), before);
    assert!(delete_order_request(&mut d.db, &d.ann, id));
    assert_eq!(get_order_request(&d.db, id), None);
}

#[test]
fn customer_lists_own_orders() {
    let mut d = desk();
    let a = place(&mut d, 1);
    let bob = d.bob.clone();
    create_order_request(&mut d.db, &bob, 2, &five(), noon()).unwrap();
    let c = place(&mut d, 3);
    let mine = get_orders_request(&d.db, &d.ann);
    assert_eq!(mine.iter().map(|o| o.id).collect::<Vec<_>>(), vec![a, c]);
    assert_eq!(d.ann.orders(&d.db), mine);
    assert!(get_orders_request(&d.db, &d.manager).is_empty());
}

#[test]
fn cash_payment_goes_customer_then_cashier() {
    let mut d = desk();
    let id = place(&mut d, 2);
    assert!(!start_cash_payment_request(&mut d.db, &d.bob, id));
    assert!(start_cash_payment_request(&mut d.db, &d.ann, id));
    let paid = mark_paid_request(&mut d.db, Some(&d.cashier), id).unwrap();
    assert_eq!(paid.status, OrderStatus::Paid);
    assert_eq!(paid.mode_of_payment, PaymentMode::Cash);
    assert_eq!(Order::get_by_id(id, &d.db).unwrap().cashier_id, Some(d.cashier.id));
    // Paid once: a second collection is a lost race.
    assert_eq!(
        mark_paid_request(&mut d.db, Some(&d.manager), id),
        Err(RequestError::SaveFailed)
    );
    assert_eq!(Order::get_by_id(id, &d.db).unwrap().cashier_id, Some(d.cashier.id));
}

#[test]
fn manager_may_collect_cash_too() {
    let mut d = desk();
    let id = place(&mut d, 1);
    assert!(start_cash_payment_request(&mut d.db, &d.ann, id));
    let paid = mark_paid_request(&mut d.db, Some(&d.manager), id).unwrap();
    assert_eq!(paid.status, OrderStatus::Paid);
}

#[test]
fn only_cashier_or_manager_collects_cash() {
    let mut d = desk();
    let id = place(&mut d, 1);
    assert!(start_cash_payment_request(&mut d.db, &d.ann, id));
    let before = d.db.orders();
    for user in [&d.ann, &d.operator, &d.processor] {
        assert_eq!(
            mark_paid_request(&mut d.db, Some(user), id),
            Err(RequestError::NotAllowed(Action::CollectCash))
        );
    }
    assert_eq!(mark_paid_request(&mut d.db, None, id), Err(RequestError::NotLoggedIn));
    assert_eq!(d.db.orders(), before);
}

#[test]
fn card_payment_starts_with_a_token() {
    let mut d = desk();
    let id = place(&mut d, 1);
    assert_eq!(order_ref_for("ann@example.com", 1), "Email: ann@example.com, Order #:1");
    let order = start_stripe_payment_request(&mut d.db, &d.ann, id).unwrap();
    assert_eq!(order.status, OrderStatus::PaymentPending);
    assert_eq!(order.mode_of_payment, PaymentMode::Stripe);
    assert_eq!(
        order.order_ref,
        Some("RW1haWw6IGFubkBleGFtcGxlLmNvbSwgT3JkZXIgIzox".to_string())
    );
    assert_eq!(
        start_stripe_payment_request(&mut d.db, &d.ann, id),
        Err(RequestError::StripeStartFailed)
    );
    let other = place(&mut d, 1);
    assert_eq!(
        start_stripe_payment_request(&mut d.db, &d.bob, other),
        Err(RequestError::StripeStartFailed)
    );
    assert_eq!(get_order_request(&d.db, other).unwrap().status, OrderStatus::Created);
}

#[test]
fn gateway_confirms_by_token() {
    let mut d = desk();
    let id = place(&mut d, 1);
    let token = start_stripe_payment_request(&mut d.db, &d.ann, id).unwrap().order_ref.unwrap();
    assert_eq!(
        store_stripe_confirmation(
            &mut d.db,
            ConfirmationParams { order_ref: "invalid".to_string(), payment_ref: "cs_1".to_string() }
        ),
        Err(RequestError::InvalidOrderReference)
    );
    let confirmed = store_stripe_confirmation(
        &mut d.db,
        ConfirmationParams { order_ref: token.clone(), payment_ref: "cs_1".to_string() },
    )
    .unwrap();
    assert_eq!(confirmed.id, id);
    assert_eq!(confirmed.status, OrderStatus::Paid);
    assert_eq!(Order::get_by_id(id, &d.db).unwrap().payment_ref, Some("cs_1".to_string()));
    // The redirect may arrive twice: the second finds nothing to confirm.
    assert_eq!(
        store_stripe_confirmation(
            &mut d.db,
            ConfirmationParams { order_ref: token, payment_ref: "cs_2".to_string() }
        ),
        Err(RequestError::ConfirmationFailed)
    );
    assert_eq!(Order::get_by_id(id, &d.db).unwrap().payment_ref, Some("cs_1".to_string()));
}

#[test]
fn manager_overrides_a_pending_card_payment() {
    let mut d = desk();
    let id = place(&mut d, 1);
    start_stripe_payment_request(&mut d.db, &d.ann, id).unwrap();
    assert_eq!(override_note_for("Mia", "mia@example.com"), "Manager override by Mia,mia@example.com");
    let paid = mark_stripe_paid_request(&mut d.db, &d.manager, id).unwrap();
    assert_eq!(paid.status, OrderStatus::Paid);
    let stored = Order::get_by_id(id, &d.db).unwrap();
    assert_eq!(
        stored.payment_ref,
        Some("Manager override by Mia,mia@example.com".to_string())
    );
    assert_eq!(stored.mode_of_payment, PaymentMode::Stripe);
    assert_eq!(
        mark_stripe_paid_request(&mut d.db, &d.manager, id),
        Err(RequestError::SaveFailed)
    );
    assert_eq!(
        mark_stripe_paid_request(&mut d.db, &d.manager, 99),
        Err(RequestError::InvalidOrderId)
    );
}

#[test]
fn override_of_a_cash_payment_fails() {
    let mut d = desk();
    let id = place(&mut d, 1);
    assert!(start_cash_payment_request(&mut d.db, &d.ann, id));
    let before = d.db.orders();
    assert_eq!(
        mark_stripe_paid_request(&mut d.db, &d.manager, id),
        Err(RequestError::SaveFailed)
    );
    assert_eq!(d.db.orders(), before);
}

#[test]
fn customer_cannot_do_what_only_a_manager_may() {
    let mut d = desk();
    let id = place(&mut d, 1);
    start_stripe_payment_request(&mut d.db, &d.ann, id).unwrap();
    let orders = d.db.orders();
    let users = d.db.users();
    let settings = d.db.settings();
    for user in [&d.ann, &d.cashier, &d.operator, &d.processor] {
        assert_eq!(
            mark_stripe_paid_request(&mut d.db, user, id),
            Err(RequestError::NotAllowed(Action::OverridePayment))
        );
        assert_eq!(
            clear_stripe_pending_status(&mut d.db, user, id),
            Err(RequestError::NotAllowed(Action::ClearPending))
        );
        assert_eq!(
            status_change_request(
                &mut d.db,
                user,
                id,
                OrderStatus::PaymentPending,
                OrderStatus::Paid
            ),
            Err(RequestError::NotAllowed(Action::ChangeStatus))
        );
        assert_eq!(
            toggle_allow_order_creation(&mut d.db, user, false),
            Err(RequestError::NotAllowed(Action::ManageBooth))
        );
        assert_eq!(
            change_user_role(&mut d.db, user, d.ann.id, Role::Manager),
            Err(RequestError::NotAllowed(Action::ManageBooth))
        );
        assert_eq!(get_all_staff(&d.db, user), Err(RequestError::NotAllowed(Action::ManageBooth)));
        assert_eq!(
            get_user_by_email(&d.db, user, "ann@example.com".to_string()),
            Err(RequestError::NotAllowed(Action::ManageBooth))
        );
        assert_eq!(
            view_reports_request(user),
            Err(RequestError::NotAllowed(Action::ViewReports))
        );
    }
    assert_eq!(d.db.orders(), orders);
    assert_eq!(d.db.users(), users);
    assert_eq!(d.db.settings(), settings);
    assert_eq!(view_reports_request(&d.manager), Ok(()));
}

#[test]
fn manager_clears_a_pending_payment() {
    let mut d = desk();
    let id = place(&mut d, 1);
    assert!(start_cash_payment_request(&mut d.db, &d.ann, id));
    let cleared = clear_stripe_pending_status(&mut d.db, &d.manager, id).unwrap();
    assert_eq!(cleared.status, OrderStatus::Created);
    assert_eq!(cleared.mode_of_payment, PaymentMode::NotSelected);
    // Nothing pending: the order is shown as it is.
    let again = clear_stripe_pending_status(&mut d.db, &d.manager, id).unwrap();
    assert_eq!(again, cleared);
    assert_eq!(
        clear_stripe_pending_status(&mut d.db, &d.manager, 42),
        Err(RequestError::InvalidOrderId)
    );
}

#[test]
fn manager_changes_status_along_the_workflow_only() {
    let mut d = desk();
    let id = place(&mut d, 1);
    force(&mut d, id, OrderStatus::Created, OrderStatus::Uploading);
    let shown = status_change_request(
        &mut d.db,
        &d.manager,
        id,
        OrderStatus::Uploading,
        OrderStatus::Uploaded,
    )
    .unwrap();
    assert_eq!(shown.status, OrderStatus::Uploaded);
    // The stored status has moved on: a stale request changes nothing.
    let stale = status_change_request(
        &mut d.db,
        &d.manager,
        id,
        OrderStatus::Uploading,
        OrderStatus::Uploaded,
    )
    .unwrap();
    assert_eq!(stale.status, OrderStatus::Uploaded);
    assert_eq!(
        status_change_request(
            &mut d.db,
            &d.manager,
            id,
            OrderStatus::Uploaded,
            OrderStatus::ReadyForDelivery
        ),
        Err(RequestError::NotAStep)
    );
    assert_eq!(
        status_change_request(&mut d.db, &d.manager, id, OrderStatus::Created, OrderStatus::Paid),
        Err(RequestError::NotAStep)
    );
    // Payments are not settled by hand, though the workflow has the step.
    assert!(OrderStatus::PaymentPending.may_become(OrderStatus::Paid));
    assert_eq!(
        status_change_request(
            &mut d.db,
            &d.manager,
            id,
            OrderStatus::PaymentPending,
            OrderStatus::Paid
        ),
        Err(RequestError::NotAStep)
    );
    assert_eq!(get_order_request(&d.db, id).unwrap().status, OrderStatus::Uploaded);
    let back = status_change_request(
        &mut d.db,
        &d.manager,
        id,
        OrderStatus::Uploaded,
        OrderStatus::Uploading,
    )
    .unwrap();
    assert_eq!(back.status, OrderStatus::Uploading);
    assert_eq!(
        status_change_request(
            &mut d.db,
            &d.manager,
            77,
            OrderStatus::Uploaded,
            OrderStatus::Uploading
        ),
        Err(RequestError::RowMissing)
    );
}

#[test]
fn operator_opens_a_paid_order_for_upload() {
    let mut d = desk();
    let id = place(&mut d, 1);
    force(&mut d, id, OrderStatus::Created, OrderStatus::Paid);
    let shown = get_user_order(&d.db, id).unwrap();
    assert_eq!(
        order_status_change_request(
            &mut d.db,
            &d.cashier,
            shown.clone(),
            OrderStatus::Paid,
            OrderStatus::Uploading
        ),
        Err(RequestError::NotAllowed(Action::StartUploading))
    );
    assert_eq!(
        order_status_change_request(
            &mut d.db,
            &d.operator,
            shown.clone(),
            OrderStatus::Paid,
            OrderStatus::Uploaded
        ),
        Err(RequestError::NotAStep)
    );
    let opened = order_status_change_request(
        &mut d.db,
        &d.operator,
        shown.clone(),
        OrderStatus::Paid,
        OrderStatus::Uploading,
    )
    .unwrap();
    assert_eq!(opened.status, OrderStatus::Uploading);
    assert_eq!(Order::get_by_id(id, &d.db).unwrap().operator_id, Some(d.operator.id));
    // A second click with the stale order: nothing is written, the order
    // comes back as it was handed in.
    let stale = order_status_change_request(
        &mut d.db,
        &d.operator,
        shown.clone(),
        OrderStatus::Paid,
        OrderStatus::Uploading,
    )
    .unwrap();
    assert_eq!(stale, shown);
    assert_eq!(get_order_request(&d.db, id).unwrap().status, OrderStatus::Uploading);
}

#[test]
fn manager_releases_an_order_in_process() {
    let mut d = desk();
    let id = place(&mut d, 1);
    force(&mut d, id, OrderStatus::Created, OrderStatus::InProcess);
    let shown = status_change_request(
        &mut d.db,
        &d.manager,
        id,
        OrderStatus::InProcess,
        OrderStatus::Uploading,
    )
    .unwrap();
    assert_eq!(shown.status, OrderStatus::Uploading);
}

#[test]
fn operator_reopens_an_uploaded_order() {
    let mut d = desk();
    let id = place(&mut d, 1);
    force(&mut d, id, OrderStatus::Created, OrderStatus::Uploaded);
    let shown = get_user_order(&d.db, id).unwrap();
    let opened = order_status_change_request(
        &mut d.db,
        &d.operator,
        shown,
        OrderStatus::Uploaded,
        OrderStatus::Uploading,
    )
    .unwrap();
    assert_eq!(opened.status, OrderStatus::Uploading);
    assert!(!Order::start_upload(id, OrderStatus::Created, d.operator.id, &mut d.db));
    assert!(!Order::start_upload(id, OrderStatus::Uploading, d.operator.id, &mut d.db));
    assert_eq!(get_order_request(&d.db, id).unwrap().status, OrderStatus::Uploading);
}

#[test]
fn only_processors_fetch_orders() {
    let mut d = desk();
    let id = place(&mut d, 1);
    force(&mut d, id, OrderStatus::Created, OrderStatus::Uploaded);
    for user in [&d.ann, &d.cashier, &d.operator, &d.manager] {
        assert_eq!(
            fetch_order_request(&mut d.db, user),
            Err(RequestError::NotAllowed(Action::ProcessOrders))
        );
        assert_eq!(
            skip_order_request(&mut d.db, user),
            Err(RequestError::NotAllowed(Action::ProcessOrders))
        );
        assert_eq!(
            mark_ready_for_delivery_request(&mut d.db, user),
            Err(RequestError::NotAllowed(Action::ProcessOrders))
        );
    }
    assert_eq!(get_order_request(&d.db, id).unwrap().status, OrderStatus::Uploaded);
    let mine = fetch_order_request(&mut d.db, &d.processor).unwrap().unwrap();
    assert_eq!(mine.id, id);
    assert_eq!(mine.processor_id, Some(d.processor.id));
}

#[test]
fn concurrent_claims_give_one_winner() {
    let mut d = desk();
    let id = place(&mut d, 1);
    force(&mut d, id, OrderStatus::Created, OrderStatus::Uploaded);
    let rival = staff(&mut d.db, "Rita", Role::Processor);
    let first = fetch_order_request(&mut d.db, &d.processor).unwrap();
    let second = fetch_order_request(&mut d.db, &rival).unwrap();
    assert_eq!(first.map(|o| o.id), Some(id));
    assert_eq!(second, None);
    assert_eq!(Order::get_by_id(id, &d.db).unwrap().processor_id, Some(d.processor.id));
}

#[test]
fn processor_skips_and_completes() {
    let mut d = desk();
    assert_eq!(skip_order_request(&mut d.db, &d.processor), Err(RequestError::InvalidOrder));
    assert_eq!(
        mark_ready_for_delivery_request(&mut d.db, &d.processor),
        Err(RequestError::InvalidOrder)
    );
    let first = place(&mut d, 1);
    let second = place(&mut d, 1);
    force(&mut d, first, OrderStatus::Created, OrderStatus::Uploaded);
    force(&mut d, second, OrderStatus::Created, OrderStatus::Uploaded);
    // Skipping fetches the first order and gives it back.
    assert_eq!(skip_order_request(&mut d.db, &d.processor), Ok(true));
    assert_eq!(get_order_request(&d.db, first).unwrap().status, OrderStatus::Uploading);
    // The next fetch claims the second.
    let mine = fetch_order_request(&mut d.db, &d.processor).unwrap().unwrap();
    assert_eq!(mine.id, second);
    // Not processed yet: it cannot be completed.
    assert_eq!(
        mark_ready_for_delivery_request(&mut d.db, &d.processor),
        Err(RequestError::StatusUpdateFailed)
    );
    let item = mine
        .add_order_item(
            "done.jpg".to_string(),
            Mode::Processed,
            "https://files/done.jpg".to_string(),
            "https://put/done.jpg".to_string(),
            noon(),
            &mut d.db,
        )
        .unwrap();
    assert_eq!(mine.set_uploaded_for_zero_remaining(Mode::Processed, &mut d.db), 1);
    // A processed order cannot be skipped.
    assert_eq!(skip_order_request(&mut d.db, &d.processor), Ok(false));
    let note = mark_ready_for_delivery_request(&mut d.db, &d.processor).unwrap();
    assert_eq!(note.to, "ann@example.com");
    assert_eq!(note.name, "Ann");
    assert_eq!(note.links, vec![item.get_url]);
    assert_eq!(get_order_request(&d.db, second).unwrap().status, OrderStatus::ReadyForDelivery);
}

#[test]
fn ready_order_without_customer_account_is_reported() {
    let mut d = desk();
    let mut nobody = d.ann.clone();
    nobody.id = 999;
    let order = Order::create(nobody.id, 1, &five(), noon(), &mut d.db).unwrap();
    force(&mut d, order.id, OrderStatus::Created, OrderStatus::Uploaded);
    let mine = fetch_order_request(&mut d.db, &d.processor).unwrap().unwrap();
    assert!(mine.mark_order_processed(d.processor.id, &mut d.db));
    assert_eq!(
        mark_ready_for_delivery_request(&mut d.db, &d.processor),
        Err(RequestError::CustomerMissing)
    );
    assert_eq!(get_order_request(&d.db, order.id).unwrap().status, OrderStatus::ReadyForDelivery);
}

#[test]
fn booth_is_open_unless_closed() {
    let mut d = desk();
    assert!(get_allow_order_creation_setting(&d.db));
    let default = Setting::get_allow_order_creation(&d.db);
    assert_eq!(default.name, "AllowOrderCreation");
    assert_eq!(default.value, "1");
    assert!(default.is_true());
    assert_eq!(toggle_allow_order_creation(&mut d.db, &d.manager, false), Ok(true));
    assert!(!get_allow_order_creation_setting(&d.db));
    assert_eq!(Setting::get_allow_order_creation(&d.db).value, "0");
    assert_eq!(toggle_allow_order_creation(&mut d.db, &d.manager, true), Ok(true));
    assert!(get_allow_order_creation_setting(&d.db));
    assert_eq!(d.db.settings().len(), 1);
    assert!(Setting::toggle_allow_order_creation(false, &mut d.db));
    assert!(!Setting::get_allow_order_creation(&d.db).is_true());
}

#[test]
fn setting_is_true_for_one_only() {
    for (value, on) in [("1", true), ("0", false), ("", false), ("true", false), ("11", false), (" 1", false)] {
        let setting = Setting { name: "x".to_string(), value: value.to_string() };
        assert_eq!(setting.is_true(), on, "{value:?}");
    }
}

#[test]
fn manager_sees_staff_and_changes_roles() {
    let mut d = desk();
    let names = |list: Vec<User>| list.into_iter().map(|u| u.name).collect::<Vec<_>>();
    assert_eq!(
        names(get_all_staff(&d.db, &d.manager).unwrap()),
        vec!["Carl", "Olga", "Pete", "Mia"]
    );
    assert_eq!(change_user_role(&mut d.db, &d.manager, d.bob.id, Role::Cashier), Ok(true));
    assert_eq!(User::get_by_id(d.bob.id, &d.db).unwrap().role, Role::Cashier);
    assert_eq!(change_user_role(&mut d.db, &d.manager, 404, Role::Cashier), Ok(false));
    assert_eq!(change_user_role(&mut d.db, &d.manager, d.cashier.id, Role::Customer), Ok(true));
    assert_eq!(
        names(get_all_staff(&d.db, &d.manager).unwrap()),
        vec!["Bob", "Olga", "Pete", "Mia"]
    );
    assert_eq!(
        get_user_by_email(&d.db, &d.manager, "olga@example.com".to_string())
            .unwrap()
            .map(|u| u.id),
        Some(d.operator.id)
    );
    assert_eq!(get_user_by_email(&d.db, &d.manager, "none@example.com".to_string()), Ok(None));
    assert!(d.db.is_well_formed());
}

#[test]
fn home_page_shows_who_is_logged_in() {
    let d = desk();
    assert_eq!(AppName::or_default(None), AppName("Portrait Booth".to_string()));
    assert_eq!(AppName::or_default(Some("Studio".to_string())), AppName("Studio".to_string()));
    assert_eq!(home_page_request(None), HomePageResponse::NotLoggedIn);
    assert_eq!(home_page_request(Some(d.ann.clone())), HomePageResponse::LoggedIn(d.ann));
}

#[test]
fn every_refusal_has_its_message() {
    let messages = [
        (RequestError::NotAllowed(Action::CollectCash), "Only Manager or Cashier can collect payment"),
        (
            RequestError::NotAllowed(Action::OverridePayment),
            "Only Manager can mark pending stripe payment to paid",
        ),
        (
            RequestError::NotAllowed(Action::ClearPending),
            "Only Manager can reset pending payment status",
        ),
        (
            RequestError::NotAllowed(Action::ChangeStatus),
            "Only Manager is allowed to make this request",
        ),
        (RequestError::NotAllowed(Action::ViewReports), "Only Managers can execute"),
        (
            RequestError::NotAllowed(Action::ProcessOrders),
            "Only processors are allowed to make this request",
        ),
        (RequestError::NotLoggedIn, "Unable to fetch logged in user"),
        (RequestError::InvalidPhotoCount, "Only 1, 2, or 3 photos can be ordered"),
        (RequestError::InvalidOrderId, "Invalid Order Id"),
        (RequestError::InvalidOrderReference, "Invalid Order Reference"),
        (RequestError::InvalidOrder, "Invalid order"),
        (RequestError::SaveFailed, "Unable to save changes to order"),
        (RequestError::ConfirmationFailed, "Unable to save order confirmation"),
        (RequestError::StripeStartFailed, "Error starting Stripe Request"),
        (RequestError::StatusUpdateFailed, "Unable to update order status"),
        (RequestError::CustomerMissing, "Failed to retrieve customer details"),
        (RequestError::NoMoreUploads, "No more uploads allowed"),
        (
            RequestError::MissingSearchTerm,
            "Search query should include at least one of order_no, name, email, or phone",
        ),
        (RequestError::PriceUnreadable, "Unable to find or parse price"),
        (RequestError::SecretFailed, "Unable to generate OTP Secret"),
    ];
    for (error, text) in messages {
        assert_eq!(error.message(), text);
    }
}
