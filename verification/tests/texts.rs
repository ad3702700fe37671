use portrait_booth::error::RequestError;
use portrait_booth::mailer::confirmation_url_for;
use portrait_booth::mailer::otp_body_for;
use portrait_booth::mailer::otp_page_url_for;
use portrait_booth::mailer::otp_subject_for;
use portrait_booth::mailer::processed_body_for;
use portrait_booth::mailer::processed_subject_for;
use portrait_booth::order::Order;
use portrait_booth::order_item::Mode;
use portrait_booth::pricing::Pricing;
use portrait_booth::requests::ConfirmationParams;
use portrait_booth::search::field;
use portrait_booth::search::OrderSearchForm;
use portrait_booth::search::SearchBind;
use portrait_booth::storage::attachment_for;
use portrait_booth::storage::get_files;
use portrait_booth::storage::get_mime_type;
use portrait_booth::storage::ListingPage;
use portrait_booth::storage::get_prefix;
use portrait_booth::storage::mime_for_extension;
use portrait_booth::storage::new_stored_name;
use portrait_booth::storage::object_path_for;
use portrait_booth::storage::stored_name_for;
use portrait_booth::text::decimal_len;
use portrait_booth::text::decimal_string;
use portrait_booth::text::extension_of;
use portrait_booth::text::parse_number;
use portrait_booth::text::push_zero_padded;
use portrait_booth::text::same_text;
use portrait_booth::user_order::UserOrder;

#[test]
fn prefix_pads_the_order_number_to_six_digits() {
    assert_eq!(get_prefix(12, Mode::Original), "/000012/original");
    assert_eq!(get_prefix(12, Mode::Processed), "/000012/processed");
    assert_eq!(get_prefix(0, Mode::Original), "/000000/original");
    assert_eq!(get_prefix(999_999, Mode::Original), "/999999/original");
    assert_eq!(get_prefix(1_000_000, Mode::Processed), "/1000000/processed");
    assert_eq!(get_prefix(u64::MAX, Mode::Original), "/18446744073709551615/original");
    for id in [0u64, 7, 42, 123456, 7654321] {
        assert_eq!(get_prefix(id, Mode::Original), format!("/{:0>6}/{:?}", id, Mode::Original).to_lowercase());
    }
}

#[test]
fn numbers_are_written_in_decimal() {
    for n in [0u64, 1, 9, 10, 11, 99, 100, 12345, u64::MAX] {
        assert_eq!(decimal_string(n), n.to_string());
        assert_eq!(decimal_len(n), n.to_string().len());
        let mut padded = String::from(">");
        push_zero_padded(&mut padded, n, 4);
        assert_eq!(padded, format!(">{:04}", n));
    }
}

#[test]
fn numbers_are_read_as_the_standard_library_reads_them() {
    let cases = [
        ("5", Some(5)),
        ("+7", Some(7)),
        ("007", Some(7)),
        ("0", Some(0)),
        ("18446744073709551615", Some(u64::MAX)),
        ("18446744073709551616", None),
        ("99999999999999999999", None),
        ("", None),
        ("+", None),
        ("++1", None),
        ("-1", None),
        ("12a", None),
        (" 5", None),
        ("5 ", None),
        ("1.5", None),
        ("٣", None),
    ];
    for (text, number) in cases {
        assert_eq!(parse_number(text), number, "{text:?}");
        assert_eq!(parse_number(text), text.parse::<u64>().ok(), "{text:?}");
    }
}

#[test]
fn prices_default_to_five() {
    let some = |t: &str| Some(t.to_string());
    assert_eq!(Order::get_unit_price(None, None), Ok(Pricing { base_price: 5, unit_price: 5 }));
    assert_eq!(
        Order::get_unit_price(some("7"), None),
        Ok(Pricing { base_price: 5, unit_price: 7 })
    );
    assert_eq!(
        Order::get_unit_price(None, some("0")),
        Ok(Pricing { base_price: 0, unit_price: 5 })
    );
    assert_eq!(
        Order::get_unit_price(some("12"), some("30")),
        Ok(Pricing { base_price: 30, unit_price: 12 })
    );
    assert_eq!(Order::get_unit_price(some("five"), None), Err(RequestError::PriceUnreadable));
    assert_eq!(Order::get_unit_price(None, some("")), Err(RequestError::PriceUnreadable));
    assert_eq!(Order::get_unit_price(some("x"), some("y")), Err(RequestError::PriceUnreadable));
}

#[test]
fn extension_follows_the_last_dot() {
    assert_eq!(extension_of("photo.jpg"), "jpg");
    assert_eq!(extension_of("my.holiday.PNG"), "PNG");
    assert_eq!(extension_of("noext"), "noext");
    assert_eq!(extension_of("trailing."), "");
    assert_eq!(extension_of(".hidden"), "hidden");
    assert_eq!(extension_of(""), "");
    assert_eq!(extension_of("."), "");
    assert_eq!(extension_of("żółw.jpeg"), "jpeg");
    for name in ["a.b.c", "x", "", "..", "a."] {
        assert_eq!(extension_of(name), name.split('.').last().unwrap());
    }
}

#[test]
fn mime_type_goes_by_extension_in_any_case() {
    let kind = |name: &str| get_mime_type(name.to_string());
    assert_eq!(kind("a.jpg"), Ok("image/jpeg".to_string()));
    assert_eq!(kind("a.JPG"), Ok("image/jpeg".to_string()));
    assert_eq!(kind("a.Jpeg"), Ok("image/jpeg".to_string()));
    assert_eq!(kind("a.b.PNG"), Ok("image/png".to_string()));
    assert_eq!(kind("a.gif"), Ok("application/octet-stream".to_string()));
    assert_eq!(kind("jpg"), Ok("image/jpeg".to_string()));
    assert_eq!(kind("a.jpg.txt"), Ok("application/octet-stream".to_string()));
    assert_eq!(kind(""), Ok("application/octet-stream".to_string()));
    assert_eq!(mime_for_extension("jpg"), "image/jpeg");
    assert_eq!(mime_for_extension("jpeg"), "image/jpeg");
    assert_eq!(mime_for_extension("png"), "image/png");
    assert_eq!(mime_for_extension("JPG"), "application/octet-stream");
    assert_eq!(mime_for_extension(""), "application/octet-stream");
}

#[test]
fn stored_name_keeps_the_extension() {
    assert_eq!(stored_name_for("id-1", "photo.jpg"), "id-1.jpg");
    assert_eq!(stored_name_for("id-1", "a.b.PNG"), "id-1.PNG");
    assert_eq!(stored_name_for("id-1", "noext"), "id-1.noext");
    let fresh = new_stored_name("photo.jpg");
    assert!(fresh.ends_with(".jpg"));
    assert_eq!(fresh.len(), 40);
    assert_eq!(fresh.matches('-').count(), 4);
    assert_ne!(fresh, new_stored_name("photo.jpg"));
    assert_eq!(object_path_for("/000001/original", "id-1.jpg"), "/000001/original/id-1.jpg");
    assert_eq!(attachment_for("id-1.jpg"), "attachment; filename=\"id-1.jpg\"");
}

#[test]
fn texts_are_compared_by_content() {
    assert!(same_text("a", "a"));
    assert!(same_text("", ""));
    assert!(!same_text("a", "A"));
    assert!(!same_text("a", "ab"));
}

#[test]
fn otp_mail_names_the_code() {
    assert_eq!(otp_subject_for(), "Login Code for Portrait Booth");
    assert_eq!(
        otp_body_for("119246"),
        "Your login code is: 119246.\nThis code will expire soon after which you will need to request a new login code."
    );
}

#[test]
fn processed_mail_links_each_portrait() {
    assert_eq!(processed_subject_for(), "Your portraits are ready");
    let links = vec!["https://files/a".to_string(), "https://files/b".to_string()];
    let body = processed_body_for("Ann", &links, "help@example.com", "The Booth");
    let expected = "\n<p>Dear Ann,</p>\n\n<p>Your portraits are ready.  To download your portraits, please click on the link(s) below.</p>\n<p><strong>The below links will expire in 5 days.</strong></p>\n\n<p><a href=\"https://files/a\">Portrait 1</a></p><p><a href=\"https://files/b\">Portrait 2</a></p>\n\n<p>Please download these portraits before the links expire. \nIf you have any questions about your portraits, please send an email to help@example.com.\nWe will try and get back with you within a few days.</p>\n\n<p>Please DO NOT respond to this email as this mailbox is not monitored.</p>\n\n<p>Regards,</p>\n\n<p>The Booth</p>\n";
    assert_eq!(body, expected);
    let none = processed_body_for("Ann", &Vec::new(), "r", "f");
    assert!(!none.contains("Portrait 1"));
    let many: Vec<String> = (0..12).map(|n| format!("l{n}")).collect();
    let long = processed_body_for("Ann", &many, "r", "f");
    assert!(long.contains("<p><a href=\"l11\">Portrait 12</a></p>"));
}

#[test]
fn addresses_are_put_together() {
    assert_eq!(
        confirmation_url_for("https://booth.example.com", "RW1haWw6"),
        "https://booth.example.com/confirmation/RW1haWw6/{CHECKOUT_SESSION_ID}"
    );
    assert_eq!(
        otp_page_url_for("ann+booth@example.com"),
        "/otp?email=ann%2bbooth@example.com&show_email=false"
    );
    assert_eq!(otp_page_url_for("a++b"), "/otp?email=a%2b%2bb&show_email=false");
    assert_eq!(otp_page_url_for(""), "/otp?email=&show_email=false");
    assert_eq!(otp_page_url_for("żółw@example.com"), "/otp?email=żółw@example.com&show_email=false");
}

const HEAD: &str =
    "select u.name, u.email, u.phone, o.* from orders o inner join users u on o.customer_id = u.id where ";
const TAIL: &str = " order by case when o.status = 3 then 1 when o.status = 1 then 2 when o.status = 6 then 3 else 10+o.status end, o.id desc";

#[test]
fn search_needs_something_to_search_for() {
    assert_eq!(
        UserOrder::search_query(OrderSearchForm::default()),
        Err(RequestError::MissingSearchTerm)
    );
}

#[test]
fn search_joins_its_conditions() {
    let by_number = UserOrder::search_query(OrderSearchForm {
        order_no: Some(12),
        ..OrderSearchForm::default()
    })
    .unwrap();
    assert_eq!(by_number.sql, format!("{HEAD} o.id = ? {TAIL}"));
    assert_eq!(by_number.binds, vec![SearchBind::Number(12)]);

    let by_name = UserOrder::search_query(OrderSearchForm {
        name: Some("ann".to_string()),
        ..OrderSearchForm::default()
    })
    .unwrap();
    assert_eq!(by_name.sql, format!("{HEAD} lower(u.name) like lower(?) {TAIL}"));
    assert_eq!(by_name.binds, vec![SearchBind::Text("%ann%".to_string())]);

    let by_phone = UserOrder::search_query(OrderSearchForm {
        phone: Some("555".to_string()),
        ..OrderSearchForm::default()
    })
    .unwrap();
    assert_eq!(by_phone.sql, format!("{HEAD} lower(u.phone) = lower(?) {TAIL}"));

    let all = UserOrder::search_query(OrderSearchForm {
        order_no: Some(3),
        name: Some("Lee".to_string()),
        email: Some("ann@example.com".to_string()),
        phone: Some("555".to_string()),
    })
    .unwrap();
    assert_eq!(
        all.sql,
        format!(
            "{HEAD} o.id = ?  and  lower(u.name) like lower(?)  and  lower(u.email) = lower(?)  and  lower(u.phone) = lower(?) {TAIL}"
        )
    );
    assert_eq!(
        all.binds,
        vec![
            SearchBind::Number(3),
            SearchBind::Text("%Lee%".to_string()),
            SearchBind::Text("ann@example.com".to_string()),
            SearchBind::Text("555".to_string()),
        ]
    );
    assert_eq!(all.sql.matches('?').count(), all.binds.len());

    let two = UserOrder::search_query(OrderSearchForm {
        name: Some("Lee".to_string()),
        phone: Some("555".to_string()),
        ..OrderSearchForm::default()
    })
    .unwrap();
    assert_eq!(
        two.sql,
        format!("{HEAD} lower(u.name) like lower(?)  and  lower(u.phone) = lower(?) {TAIL}")
    );
    assert_eq!(two.binds.len(), 2);
}

#[test]
fn listing_names_folders_before_files() {
    let page = |folders: &[&str], files: &[&str]| ListingPage {
        folders: folders.iter().map(|f| f.to_string()).collect(),
        files: files.iter().map(|f| f.to_string()).collect(),
    };
    let pages = vec![
        page(&["/000001/original/", "/000001/processed/"], &["/000001/readme"]),
        page(&[], &["a", "b"]),
        page(&[], &[]),
        page(&["z/"], &[]),
    ];
    assert_eq!(
        get_files(&pages),
        vec!["/000001/original/", "/000001/processed/", "/000001/readme", "a", "b", "z/"]
    );
    assert!(get_files(&Vec::new()).is_empty());
}

#[test]
fn empty_fields_of_a_form_are_left_out() {
    let text = |t: &str| t.to_string();
    assert_eq!(field(text("")), None);
    assert_eq!(field(text(" ")), Some(text(" ")));
    let form = OrderSearchForm::from_fields(text("12"), text(""), text("ann@example.com"), text(""));
    assert_eq!(
        form,
        OrderSearchForm {
            order_no: Some(12),
            name: None,
            email: Some(text("ann@example.com")),
            phone: None
        }
    );
    let odd = OrderSearchForm::from_fields(text("twelve"), text("Lee"), text(""), text("555"));
    assert_eq!(odd.order_no, None);
    assert_eq!(odd.name, Some(text("Lee")));
    assert_eq!(odd.phone, Some(text("555")));
    let none = OrderSearchForm::from_fields(text(""), text(""), text(""), text(""));
    assert_eq!(none, OrderSearchForm::default());
    assert_eq!(UserOrder::search_query(none), Err(RequestError::MissingSearchTerm));
}

#[test]
fn missing_confirmation_parts_read_invalid() {
    let text = |t: &str| t.to_string();
    assert_eq!(
        ConfirmationParams::from_params(Some(text("tok")), Some(text("cs_1"))),
        ConfirmationParams { order_ref: text("tok"), payment_ref: text("cs_1") }
    );
    assert_eq!(
        ConfirmationParams::from_params(None, None),
        ConfirmationParams { order_ref: text("invalid"), payment_ref: text("invalid") }
    );
}
