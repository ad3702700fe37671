//! What the pages show to whom: which view a person starts with, and which
//! steps a person is offered for an order.

use vstd::prelude::*;
use crate::order::OrderStatus;
use crate::order::PaymentMode;
use crate::order_item::Mode;
use crate::policy::Action;
use crate::user::Role;
use crate::user::User;
use crate::user::UserView;
use crate::user_order::UserOrder;
use crate::user_order::UserOrderView;

verus! {

/// The views of the start page.
#[derive(Debug, Clone, Copy, PartialEq, Eq, PartialOrd, Structural)]
pub enum HomePageViews {
    Loading,
    MyOrders,
    SearchOrders,
    ProcessOrders,
    Settings,
}

/// What a visitor who is not logged in sees.
#[derive(Debug, Clone, Copy, PartialEq, Eq, PartialOrd, Structural)]
pub enum ActiveView {
    LoginOtp,
    Signup,
}

/// Where the upload of a file stands.
#[derive(Debug, Clone, Copy, PartialEq, Eq, PartialOrd, Structural)]
pub enum FileUploadState {
    Added,
    Uploading,
    Done,
    Error,
}

/// A step that a person can be offered for an order.
#[derive(Debug, Clone, Copy, PartialEq, Eq, Structural)]
pub enum Offer {
    PayWithStripe,
    PayWithCash,
    Delete,
    MarkPaid,
    ClearPendingStatus,
    MarkStripePaid,
    SetUploadingStatus,
    SetUploadedStatus,
    StartUploading,
    UploadOriginals,
    UploadProcessed,
    CompleteOrder,
}

impl OrderStatus {
    /// The name of the status.
    pub open spec fn spec_name(self) -> Seq<char> {
        match self {
            OrderStatus::Created => "Created"@,
            OrderStatus::PaymentPending => "PaymentPending"@,
            OrderStatus::PaymentError => "PaymentError"@,
            OrderStatus::Paid => "Paid"@,
            OrderStatus::Uploading => "Uploading"@,
            OrderStatus::Uploaded => "Uploaded"@,
            OrderStatus::InProcess => "InProcess"@,
            OrderStatus::Processed => "Processed"@,
            OrderStatus::ReadyForDelivery => "ReadyForDelivery"@,
        }
    }

    /// The name of the status.
    pub fn name(self) -> (name: &'static str)
        ensures
            name@ == self.spec_name(),
    {
        match self {
            OrderStatus::Created => "Created",
            OrderStatus::PaymentPending => "PaymentPending",
            OrderStatus::PaymentError => "PaymentError",
            OrderStatus::Paid => "Paid",
            OrderStatus::Uploading => "Uploading",
            OrderStatus::Uploaded => "Uploaded",
            OrderStatus::InProcess => "InProcess",
            OrderStatus::Processed => "Processed",
            OrderStatus::ReadyForDelivery => "ReadyForDelivery",
        }
    }
}

impl PaymentMode {
    /// The name of the mode of payment.
    pub open spec fn spec_name(self) -> Seq<char> {
        match self {
            PaymentMode::NotSelected => "NotSelected"@,
            PaymentMode::Cash => "Cash"@,
            PaymentMode::Stripe => "Stripe"@,
            PaymentMode::Override => "Override"@,
        }
    }

    /// The name of the mode of payment.
    pub fn name(self) -> (name: &'static str)
        ensures
            name@ == self.spec_name(),
    {
        match self {
            PaymentMode::NotSelected => "NotSelected",
            PaymentMode::Cash => "Cash",
            PaymentMode::Stripe => "Stripe",
            PaymentMode::Override => "Override",
        }
    }
}

impl ActiveView {
    /// The other of the two views: from signing up to logging in and back.
    pub fn toggled(self) -> (other: ActiveView)
        ensures
            other == match self {
                ActiveView::Signup => ActiveView::LoginOtp,
                ActiveView::LoginOtp => ActiveView::Signup,
            },
    {
        match self {
            ActiveView::Signup => ActiveView::LoginOtp,
            ActiveView::LoginOtp => ActiveView::Signup,
        }
    }
}

/// A file in the list of uploads, with where its upload stands.
#[derive(Debug, Clone, PartialEq, Eq)]
pub struct UploadEntry {
    pub file_name: String,
    pub state: FileUploadState,
}

/// Sets every file with the name `file_name` in the list of uploads to
/// `state` and leaves the others as they are.
pub fn set_upload_state(files: &mut Vec<UploadEntry>, file_name: &str, state: FileUploadState)
    ensures
        final(files).len() == old(files).len(),
        forall|i: int|
            0 <= i < old(files).len() ==> (#[trigger] final(files)[i]).file_name@ == old(files)[i].file_name@ && final(files)[i].state == if old(files)[i].file_name@
                == file_name@ {
                state
            } else {
                old(files)[i].state
            },
{
    let mut k: usize = 0;
    while k < files.len()
        invariant
            k <= files.len(),
            files.len() == old(files).len(),
            forall|i: int|
                0 <= i < k ==> (#[trigger] files[i]).file_name@ == old(files)[i].file_name@
                    && files[i].state == if old(files)[i].file_name@ == file_name@ {
                    state
                } else {
                    old(files)[i].state
                },
            forall|i: int| k <= i < files.len() ==> #[trigger] files[i] == old(files)[i],
        decreases files.len() - k,
    {
        if crate::text::same_text(files[k].file_name.as_str(), file_name) {
            files[k].state = state;
        }
        k += 1;
    }
}

impl FileUploadState {
    /// What is shown behind the name of a file.
    pub open spec fn spec_label(self) -> Seq<char> {
        match self {
            FileUploadState::Added => " added"@,
            FileUploadState::Uploading => " uploading"@,
            FileUploadState::Done => " done"@,
            FileUploadState::Error => " error"@,
        }
    }

    /// What is shown behind the name of a file.
    pub fn label(self) -> (label: &'static str)
        ensures
            label@ == self.spec_label(),
    {
        match self {
            FileUploadState::Added => " added",
            FileUploadState::Uploading => " uploading",
            FileUploadState::Done => " done",
            FileUploadState::Error => " error",
        }
    }
}

/// How the status of an order is shown: by its name, and for an order that
/// waits for payment with the mode of payment in brackets.
pub open spec fn status_text(status: OrderStatus, mode: PaymentMode) -> Seq<char> {
    if status == OrderStatus::PaymentPending {
        status.spec_name() + " ("@ + mode.spec_name() + ")"@
    } else {
        status.spec_name()
    }
}

/// How the status of an order is shown.
pub fn status_label(status: OrderStatus, mode: PaymentMode) -> (label: String)
    ensures
        label@ == status_text(status, mode),
{
    let mut label = String::from_str(status.name());
    if status == OrderStatus::PaymentPending {
        label.append(" (");
        label.append(mode.name());
        label.append(")");
    }
    label
}

impl Role {
    /// The view that a person of this role starts with.
    pub open spec fn spec_first_view(self) -> HomePageViews {
        match self {
            Role::Manager => HomePageViews::SearchOrders,
            Role::Operator => HomePageViews::SearchOrders,
            Role::Cashier => HomePageViews::SearchOrders,
            Role::Processor => HomePageViews::ProcessOrders,
            _ => HomePageViews::MyOrders,
        }
    }

    /// The view that a person of this role starts with.
    pub fn first_view(self) -> (view: HomePageViews)
        ensures
            view == self.spec_first_view(),
    {
        match self {
            Role::Manager => HomePageViews::SearchOrders,
            Role::Operator => HomePageViews::SearchOrders,
            Role::Cashier => HomePageViews::SearchOrders,
            Role::Processor => HomePageViews::ProcessOrders,
            _ => HomePageViews::MyOrders,
        }
    }

    /// The views between which a person of this role can choose.
    pub open spec fn spec_view_choices(self) -> Seq<HomePageViews> {
        match self {
            Role::Manager | Role::Cashier | Role::Operator => seq![
                HomePageViews::SearchOrders,
                HomePageViews::MyOrders,
            ],
            Role::Processor => seq![HomePageViews::ProcessOrders],
            _ => Seq::empty(),
        }
    }

    /// The views between which a person of this role can choose.
    pub fn view_choices(self) -> (choices: Vec<HomePageViews>)
        ensures
            choices@ == self.spec_view_choices(),
    {
        let mut choices: Vec<HomePageViews> = Vec::new();
        match self {
            Role::Manager | Role::Cashier | Role::Operator => {
                choices.push(HomePageViews::SearchOrders);
                choices.push(HomePageViews::MyOrders);
            },
            Role::Processor => {
                choices.push(HomePageViews::ProcessOrders);
            },
            _ => {},
        }
        proof {
            assert(choices@ =~= self.spec_view_choices());
        }
        choices
    }
}

impl HomePageViews {
    /// The title of the view on its button.
    pub open spec fn spec_title(self) -> Seq<char> {
        match self {
            HomePageViews::Loading => "Loading"@,
            HomePageViews::MyOrders => "My Orders"@,
            HomePageViews::SearchOrders => "Search Orders"@,
            HomePageViews::ProcessOrders => "Process Orders"@,
            HomePageViews::Settings => "Settings"@,
        }
    }

    /// The title of the view on its button.
    pub fn title(self) -> (title: &'static str)
        ensures
            title@ == self.spec_title(),
    {
        match self {
            HomePageViews::Loading => "Loading",
            HomePageViews::MyOrders => "My Orders",
            HomePageViews::SearchOrders => "Search Orders",
            HomePageViews::ProcessOrders => "Process Orders",
            HomePageViews::Settings => "Settings",
        }
    }
}

impl Mode {
    /// The title over the list of the files of the track.
    pub open spec fn spec_title(self) -> Seq<char> {
        match self {
            Mode::Original => "Original Photos"@,
            Mode::Processed => "Processed Photos"@,
        }
    }

    /// The title over the list of the files of the track.
    pub fn title(self) -> (title: &'static str)
        ensures
            title@ == self.spec_title(),
    {
        match self {
            Mode::Original => "Original Photos",
            Mode::Processed => "Processed Photos",
        }
    }
}

/// The roles that a manager can give an account that has the role `role`:
/// every role of a person with an account but the one it has.
pub open spec fn other_roles(role: Role) -> Seq<Role> {
    seq![Role::Customer, Role::Cashier, Role::Operator, Role::Processor, Role::Manager].filter(
        role_other_than(role),
    )
}

/// The condition "the role is another than `role`".
pub open spec fn role_other_than(role: Role) -> spec_fn(Role) -> bool {
    |other: Role| other != role
}

/// The roles that a manager can give an account that has the role `role`.
pub fn role_choices(role: Role) -> (choices: Vec<Role>)
    ensures
        choices@ == other_roles(role),
{
    let all = [Role::Customer, Role::Cashier, Role::Operator, Role::Processor, Role::Manager];
    let ghost each = seq![
        Role::Customer,
        Role::Cashier,
        Role::Operator,
        Role::Processor,
        Role::Manager,
    ];
    let ghost pred = role_other_than(role);
    let mut choices: Vec<Role> = Vec::new();
    let mut k: usize = 0;
    proof {
        assert(all@ =~= each);
        crate::rows::lemma_filter_nothing(each.take(0), pred);
        assert(choices@ =~= each.take(0).filter(pred));
    }
    while k < 5
        invariant
            k <= 5,
            all@ == each,
            each.len() == 5,
            pred == role_other_than(role),
            choices@ == each.take(k as int).filter(pred),
        decreases 5 - k,
    {
        proof {
            assert(each.take(k + 1) =~= each.take(k as int).push(each[k as int]));
            crate::rows::lemma_filter_push(each.take(k as int), each[k as int], pred);
        }
        if all[k] != role {
            choices.push(all[k]);
            proof {
                assert(choices@ =~= each.take(k as int).filter(pred) + seq![each[k as int]]);
            }
        } else {
            proof {
                assert(choices@ + Seq::<Role>::empty() =~= choices@);
            }
        }
        k += 1;
    }
    proof {
        assert(each.take(5) =~= each);
    }
    choices
}

impl Offer {
    /// The action in the table of permissions that taking up this offer is.
    pub open spec fn spec_action(self) -> Action {
        match self {
            Offer::PayWithStripe => Action::PlaceOrder,
            Offer::PayWithCash => Action::PlaceOrder,
            Offer::Delete => Action::PlaceOrder,
            Offer::MarkPaid => Action::CollectCash,
            Offer::ClearPendingStatus => Action::ClearPending,
            Offer::MarkStripePaid => Action::OverridePayment,
            Offer::SetUploadingStatus => Action::ChangeStatus,
            Offer::SetUploadedStatus => Action::ChangeStatus,
            Offer::StartUploading => Action::StartUploading,
            Offer::UploadOriginals => Action::ManageOriginals,
            Offer::UploadProcessed => Action::ManageProcessed,
            Offer::CompleteOrder => Action::ProcessOrders,
        }
    }

    /// The action in the table of permissions that taking up this offer is.
    pub fn action(self) -> (action: Action)
        ensures
            action == self.spec_action(),
    {
        match self {
            Offer::PayWithStripe => Action::PlaceOrder,
            Offer::PayWithCash => Action::PlaceOrder,
            Offer::Delete => Action::PlaceOrder,
            Offer::MarkPaid => Action::CollectCash,
            Offer::ClearPendingStatus => Action::ClearPending,
            Offer::MarkStripePaid => Action::OverridePayment,
            Offer::SetUploadingStatus => Action::ChangeStatus,
            Offer::SetUploadedStatus => Action::ChangeStatus,
            Offer::StartUploading => Action::StartUploading,
            Offer::UploadOriginals => Action::ManageOriginals,
            Offer::UploadProcessed => Action::ManageProcessed,
            Offer::CompleteOrder => Action::ProcessOrders,
        }
    }

    /// Whether the person is offered this step for the order.
    ///
    /// Its customer is offered to pay or withdraw an order that is
    /// `Created`. A cashier is offered to mark paid an order that waits for
    /// cash. A manager is offered to clear a pending payment, to mark a
    /// pending card payment paid, to set an order that is uploaded or in
    /// process to `Uploading`, and one that is `Uploading` to `Uploaded`. An
    /// operator is offered to start the upload of a paid order and to upload
    /// originals while the order is `Uploading` or `Uploaded`. A processor
    /// is offered to upload processed files while the order is in process,
    /// and to complete it once it is processed.
    pub open spec fn spec_offered(self, user: UserView, order: UserOrderView) -> bool {
        match self {
            Offer::PayWithStripe | Offer::PayWithCash | Offer::Delete => user.id
                == order.customer_id && order.status == OrderStatus::Created,
            Offer::MarkPaid => user.role == Role::Cashier && order.status
                == OrderStatus::PaymentPending && order.mode_of_payment == PaymentMode::Cash,
            Offer::ClearPendingStatus => user.role == Role::Manager && order.status
                == OrderStatus::PaymentPending,
            Offer::MarkStripePaid => user.role == Role::Manager && order.status
                == OrderStatus::PaymentPending && order.mode_of_payment == PaymentMode::Stripe,
            Offer::SetUploadingStatus => user.role == Role::Manager && (order.status
                == OrderStatus::InProcess || order.status == OrderStatus::Uploaded),
            Offer::SetUploadedStatus => user.role == Role::Manager && order.status
                == OrderStatus::Uploading,
            Offer::StartUploading => user.role == Role::Operator && order.status
                == OrderStatus::Paid,
            Offer::UploadOriginals => user.role == Role::Operator && (order.status
                == OrderStatus::Uploading || order.status == OrderStatus::Uploaded),
            Offer::UploadProcessed => user.role == Role::Processor && order.status
                == OrderStatus::InProcess,
            Offer::CompleteOrder => user.role == Role::Processor && order.status
                == OrderStatus::Processed,
        }
    }

    /// Whether the person is offered this step for the order.
    pub fn offered(self, user: &User, order: &UserOrder) -> (offered: bool)
        ensures
            offered == self.spec_offered(user@, order@),
    {
        match self {
            Offer::PayWithStripe | Offer::PayWithCash | Offer::Delete => user.id
                == order.customer_id && order.status == OrderStatus::Created,
            Offer::MarkPaid => user.role == Role::Cashier && order.status
                == OrderStatus::PaymentPending && order.mode_of_payment == PaymentMode::Cash,
            Offer::ClearPendingStatus => user.role == Role::Manager && order.status
                == OrderStatus::PaymentPending,
            Offer::MarkStripePaid => user.role == Role::Manager && order.status
                == OrderStatus::PaymentPending && order.mode_of_payment == PaymentMode::Stripe,
            Offer::SetUploadingStatus => user.role == Role::Manager && (order.status
                == OrderStatus::InProcess || order.status == OrderStatus::Uploaded),
            Offer::SetUploadedStatus => user.role == Role::Manager && order.status
                == OrderStatus::Uploading,
            Offer::StartUploading => user.role == Role::Operator && order.status
                == OrderStatus::Paid,
            Offer::UploadOriginals => user.role == Role::Operator && (order.status
                == OrderStatus::Uploading || order.status == OrderStatus::Uploaded),
            Offer::UploadProcessed => user.role == Role::Processor && order.status
                == OrderStatus::InProcess,
            Offer::CompleteOrder => user.role == Role::Processor && order.status
                == OrderStatus::Processed,
        }
    }
}

/// Whether the person may look at the order: its customer may, and so may
/// a cashier, an operator and a manager.
pub open spec fn spec_may_view(user: UserView, order: UserOrderView) -> bool {
    user.id == order.customer_id || user.role == Role::Cashier || user.role == Role::Operator
        || user.role == Role::Manager
}

/// Whether the person may look at the order.
pub fn may_view(user: &User, order: &UserOrder) -> (allowed: bool)
    ensures
        allowed == spec_may_view(user@, order@),
{
    user.id == order.customer_id || user.role == Role::Cashier || user.role == Role::Operator
        || user.role == Role::Manager
}

/// Whether a person of role `role` may remove files of track `mode`: an
/// operator the originals, a processor the processed files.
pub fn allow_delete(role: Role, mode: Mode) -> (allowed: bool)
    ensures
        allowed == role.spec_may(Action::spec_files(mode)),
        allowed == ((mode == Mode::Original && role == Role::Operator) || (mode
            == Mode::Processed && role == Role::Processor)),
{
    role.may(Action::files(mode))
}

/// Every step that a person is offered is one that the table of
/// permissions allows their role.
pub proof fn law_offers_are_allowed(offer: Offer, user: UserView, order: UserOrderView)
    requires
        offer.spec_offered(user, order),
    ensures
        user.role.spec_may(offer.spec_action()),
{
}

} // verus!
