use portrait_booth::order::OrderStatus;
use portrait_booth::order::PaymentMode;
use portrait_booth::order_item::Mode;
use portrait_booth::policy::Action;
use portrait_booth::setting::SettingKey;
use portrait_booth::user::Role;
use portrait_booth::user::User;
use portrait_booth::user_order::UserOrder;
use portrait_booth::views::allow_delete;
use portrait_booth::views::may_view;
use portrait_booth::views::role_choices;
use portrait_booth::views::set_upload_state;
use portrait_booth::views::status_label;
use portrait_booth::views::ActiveView;
use portrait_booth::views::UploadEntry;
use portrait_booth::views::FileUploadState;
use portrait_booth::views::HomePageViews;
use portrait_booth::views::Offer;

const ROLES: [Role; 6] = [
    Role::Anonymous,
    Role::Customer,
    Role::Cashier,
    Role::Operator,
    Role::Processor,
    Role::Manager,
];

const STATUSES: [OrderStatus; 9] = [
    OrderStatus::Created,
    OrderStatus::PaymentPending,
    OrderStatus::PaymentError,
    OrderStatus::Paid,
    OrderStatus::Uploading,
    OrderStatus::Uploaded,
    OrderStatus::InProcess,
    OrderStatus::Processed,
    OrderStatus::ReadyForDelivery,
];

const OFFERS: [Offer; 12] = [
    Offer::PayWithStripe,
    Offer::PayWithCash,
    Offer::Delete,
    Offer::MarkPaid,
    Offer::ClearPendingStatus,
    Offer::MarkStripePaid,
    Offer::SetUploadingStatus,
    Offer::SetUploadedStatus,
    Offer::StartUploading,
    Offer::UploadOriginals,
    Offer::UploadProcessed,
    Offer::CompleteOrder,
];

fn person(id: u64, role: Role) -> User {
    User { id, role, ..User::default() }
}

fn order(status: OrderStatus, mode: PaymentMode) -> UserOrder {
    UserOrder {
        id: 1,
        name: "Ann".to_string(),
        email: "ann@example.com".to_string(),
        phone: None,
        customer_id: 10,
        no_of_photos: 1,
        order_total: 10,
        mode_of_payment: mode,
        status,
    }
}

#[test]
fn permission_table_is_as_listed() {
    let table = [
        (Action::PlaceOrder, vec![0, 1, 2, 3, 4, 5]),
        (Action::CollectCash, vec![2, 5]),
        (Action::OverridePayment, vec![5]),
        (Action::ClearPending, vec![5]),
        (Action::ChangeStatus, vec![5]),
        (Action::ViewReports, vec![5]),
        (Action::ManageBooth, vec![5]),
        (Action::StartUploading, vec![3]),
        (Action::ManageOriginals, vec![3]),
        (Action::ManageProcessed, vec![4]),
        (Action::ProcessOrders, vec![4]),
        (Action::SearchOrders, vec![2, 3, 5]),
    ];
    for (action, allowed) in table {
        for role in ROLES {
            assert_eq!(role.may(action), allowed.contains(&role.code()), "{role:?} {action:?}");
        }
        assert!(!action.refusal().is_empty());
    }
    assert_eq!(Action::files(Mode::Original), Action::ManageOriginals);
    assert_eq!(Action::files(Mode::Processed), Action::ManageProcessed);
}

#[test]
fn files_are_removed_by_operator_or_processor() {
    for role in ROLES {
        assert_eq!(allow_delete(role, Mode::Original), role == Role::Operator);
        assert_eq!(allow_delete(role, Mode::Processed), role == Role::Processor);
    }
}

#[test]
fn every_offer_is_allowed_by_the_table() {
    for offer in OFFERS {
        for role in ROLES {
            for status in STATUSES {
                for mode in [PaymentMode::NotSelected, PaymentMode::Cash, PaymentMode::Stripe] {
                    for id in [10, 11] {
                        if offer.offered(&person(id, role), &order(status, mode)) {
                            assert!(role.may(offer.action()), "{offer:?} {role:?}");
                        }
                    }
                }
            }
        }
    }
}

#[test]
fn offers_go_by_role_and_status() {
    let ann = person(10, Role::Customer);
    let bob = person(11, Role::Customer);
    let created = order(OrderStatus::Created, PaymentMode::NotSelected);
    for offer in [Offer::PayWithStripe, Offer::PayWithCash, Offer::Delete] {
        assert!(offer.offered(&ann, &created));
        assert!(!offer.offered(&bob, &created));
        assert!(!offer.offered(&ann, &order(OrderStatus::PaymentPending, PaymentMode::Cash)));
    }
    let cashier = person(2, Role::Cashier);
    let manager = person(3, Role::Manager);
    let operator = person(4, Role::Operator);
    let processor = person(5, Role::Processor);
    let cash = order(OrderStatus::PaymentPending, PaymentMode::Cash);
    let card = order(OrderStatus::PaymentPending, PaymentMode::Stripe);
    assert!(Offer::MarkPaid.offered(&cashier, &cash));
    assert!(!Offer::MarkPaid.offered(&cashier, &card));
    assert!(!Offer::MarkPaid.offered(&manager, &cash));
    assert!(Offer::ClearPendingStatus.offered(&manager, &cash));
    assert!(Offer::ClearPendingStatus.offered(&manager, &card));
    assert!(!Offer::ClearPendingStatus.offered(&manager, &created));
    assert!(Offer::MarkStripePaid.offered(&manager, &card));
    assert!(!Offer::MarkStripePaid.offered(&manager, &cash));
    assert!(!Offer::MarkStripePaid.offered(&cashier, &card));
    for status in STATUSES {
        let o = order(status, PaymentMode::Cash);
        assert_eq!(
            Offer::SetUploadingStatus.offered(&manager, &o),
            status == OrderStatus::InProcess || status == OrderStatus::Uploaded
        );
        assert_eq!(Offer::SetUploadedStatus.offered(&manager, &o), status == OrderStatus::Uploading);
        assert_eq!(Offer::StartUploading.offered(&operator, &o), status == OrderStatus::Paid);
        assert_eq!(
            Offer::UploadOriginals.offered(&operator, &o),
            status == OrderStatus::Uploading || status == OrderStatus::Uploaded
        );
        assert_eq!(Offer::UploadProcessed.offered(&processor, &o), status == OrderStatus::InProcess);
        assert_eq!(Offer::CompleteOrder.offered(&processor, &o), status == OrderStatus::Processed);
        assert!(!Offer::StartUploading.offered(&manager, &o));
        assert!(!Offer::CompleteOrder.offered(&operator, &o));
    }
}

#[test]
fn order_is_shown_to_its_customer_and_to_staff() {
    let o = order(OrderStatus::Created, PaymentMode::NotSelected);
    assert!(may_view(&person(10, Role::Customer), &o));
    assert!(may_view(&person(10, Role::Anonymous), &o));
    assert!(!may_view(&person(11, Role::Customer), &o));
    assert!(may_view(&person(11, Role::Cashier), &o));
    assert!(may_view(&person(11, Role::Operator), &o));
    assert!(may_view(&person(11, Role::Manager), &o));
    assert!(!may_view(&person(11, Role::Processor), &o));
}

#[test]
fn start_view_goes_by_role() {
    let starts = [
        (Role::Anonymous, HomePageViews::MyOrders),
        (Role::Customer, HomePageViews::MyOrders),
        (Role::Cashier, HomePageViews::SearchOrders),
        (Role::Operator, HomePageViews::SearchOrders),
        (Role::Processor, HomePageViews::ProcessOrders),
        (Role::Manager, HomePageViews::SearchOrders),
    ];
    for (role, view) in starts {
        assert_eq!(role.first_view(), view);
    }
    let both = vec![HomePageViews::SearchOrders, HomePageViews::MyOrders];
    assert_eq!(Role::Manager.view_choices(), both);
    assert_eq!(Role::Cashier.view_choices(), both);
    assert_eq!(Role::Operator.view_choices(), both);
    assert_eq!(Role::Processor.view_choices(), vec![HomePageViews::ProcessOrders]);
    assert!(Role::Customer.view_choices().is_empty());
    assert!(Role::Anonymous.view_choices().is_empty());
    assert_eq!(HomePageViews::SearchOrders.title(), "Search Orders");
    assert_eq!(HomePageViews::MyOrders.title(), "My Orders");
    assert_eq!(HomePageViews::ProcessOrders.title(), "Process Orders");
}

#[test]
fn status_is_shown_with_mode_while_pending() {
    assert_eq!(status_label(OrderStatus::PaymentPending, PaymentMode::Cash), "PaymentPending (Cash)");
    assert_eq!(
        status_label(OrderStatus::PaymentPending, PaymentMode::Stripe),
        "PaymentPending (Stripe)"
    );
    assert_eq!(status_label(OrderStatus::Paid, PaymentMode::Cash), "Paid");
    for status in STATUSES {
        assert_eq!(status.name(), format!("{status:?}"));
        if status != OrderStatus::PaymentPending {
            assert_eq!(status_label(status, PaymentMode::Stripe), format!("{status:?}"));
        }
    }
    for mode in [PaymentMode::NotSelected, PaymentMode::Cash, PaymentMode::Stripe, PaymentMode::Override] {
        assert_eq!(mode.name(), format!("{mode:?}"));
    }
    assert_eq!(Mode::Original.folder(), "original");
    assert_eq!(Mode::Processed.folder(), "processed");
    assert_eq!(Mode::Original.working(), OrderStatus::Uploading);
    assert_eq!(Mode::Original.complete(), OrderStatus::Uploaded);
    assert_eq!(Mode::Processed.working(), OrderStatus::InProcess);
    assert_eq!(Mode::Processed.complete(), OrderStatus::Processed);
    assert_eq!(FileUploadState::Added.label(), " added");
    assert_eq!(FileUploadState::Uploading.label(), " uploading");
    assert_eq!(FileUploadState::Done.label(), " done");
    assert_eq!(FileUploadState::Error.label(), " error");
    assert_eq!(SettingKey::AllowOrderCreation.name(), "AllowOrderCreation");
}

#[test]
fn upload_list_follows_each_file() {
    let entry = |name: &str, state| UploadEntry { file_name: name.to_string(), state };
    let mut files = vec![
        entry("a.jpg", FileUploadState::Added),
        entry("b.jpg", FileUploadState::Added),
        entry("a.jpg", FileUploadState::Done),
    ];
    set_upload_state(&mut files, "a.jpg", FileUploadState::Uploading);
    assert_eq!(
        files,
        vec![
            entry("a.jpg", FileUploadState::Uploading),
            entry("b.jpg", FileUploadState::Added),
            entry("a.jpg", FileUploadState::Uploading),
        ]
    );
    set_upload_state(&mut files, "c.jpg", FileUploadState::Error);
    assert_eq!(files[1].state, FileUploadState::Added);
    set_upload_state(&mut files, "b.jpg", FileUploadState::Error);
    assert_eq!(files[1].state, FileUploadState::Error);
    assert_eq!(ActiveView::Signup.toggled(), ActiveView::LoginOtp);
    assert_eq!(ActiveView::LoginOtp.toggled(), ActiveView::Signup);
}

#[test]
fn manager_can_give_every_other_role() {
    assert_eq!(
        role_choices(Role::Customer),
        vec![Role::Cashier, Role::Operator, Role::Processor, Role::Manager]
    );
    assert_eq!(
        role_choices(Role::Processor),
        vec![Role::Customer, Role::Cashier, Role::Operator, Role::Manager]
    );
    assert_eq!(
        role_choices(Role::Anonymous),
        vec![Role::Customer, Role::Cashier, Role::Operator, Role::Processor, Role::Manager]
    );
    for role in ROLES {
        assert!(!role_choices(role).contains(&role));
        assert!(!role_choices(role).contains(&Role::Anonymous));
    }
    assert_eq!(Mode::Original.title(), "Original Photos");
    assert_eq!(Mode::Processed.title(), "Processed Photos");
}
