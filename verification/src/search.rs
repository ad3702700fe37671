//! Searching the orders of all customers.
//!
//! A search is handed to the store as a query text with places for the
//! values, and the values in the order of their places.

use vstd::prelude::*;
use crate::error::RequestError;
use crate::text::number_of;
use crate::text::parse_number;
use crate::user::text_of;
use crate::user_order::UserOrder;

verus! {

/// What to search for. A field that is left out restricts nothing.
#[derive(Debug, Clone, PartialEq, Eq)]
pub struct OrderSearchForm {
    pub order_no: Option<u64>,
    pub name: Option<String>,
    pub email: Option<String>,
    pub phone: Option<String>,
}

/// What a field of a form stands for: nothing where it is empty.
pub open spec fn field_of(text: Seq<char>) -> Option<Seq<char>> {
    if text.len() == 0 {
        None
    } else {
        Some(text)
    }
}

/// What a field of a form stands for: nothing where it is empty.
pub fn field(text: String) -> (value: Option<String>)
    ensures
        text_of(value) == field_of(text@),
{
    if text.as_str().is_empty() {
        None
    } else {
        Some(text)
    }
}

impl OrderSearchForm {
    /// The search that the four fields of the form stand for. An empty
    /// field is left out, and so is a number of the order that is no number.
    pub fn from_fields(order_no: String, name: String, email: String, phone: String) -> (form:
        OrderSearchForm)
        ensures
            form.order_no == number_of(order_no@),
            text_of(form.name) == field_of(name@),
            text_of(form.email) == field_of(email@),
            text_of(form.phone) == field_of(phone@),
    {
        OrderSearchForm {
            order_no: parse_number(order_no.as_str()),
            name: field(name),
            email: field(email),
            phone: field(phone),
        }
    }
}

impl Default for OrderSearchForm {
    fn default() -> (form: OrderSearchForm)
        ensures
            form.order_no is None,
            form.name is None,
            form.email is None,
            form.phone is None,
    {
        OrderSearchForm { order_no: None, name: None, email: None, phone: None }
    }
}

/// A value for a place of a query.
#[derive(Debug, Clone, PartialEq, Eq)]
pub enum SearchBind {
    Number(u64),
    Text(String),
}

/// A value for a place of a query, as a plain value.
pub enum SearchBindView {
    Number(u64),
    Text(Seq<char>),
}

impl View for SearchBind {
    type V = SearchBindView;

    open spec fn view(&self) -> SearchBindView {
        match *self {
            SearchBind::Number(n) => SearchBindView::Number(n),
            SearchBind::Text(t) => SearchBindView::Text(t@),
        }
    }
}

/// A query with the values for its places.
#[derive(Debug, Clone, PartialEq, Eq)]
pub struct SearchQuery {
    pub sql: String,
    pub binds: Vec<SearchBind>,
}

/// The views of a list of values.
pub open spec fn bind_views(binds: Seq<SearchBind>) -> Seq<SearchBindView> {
    Seq::new(binds.len(), |i: int| binds[i]@)
}

/// How a query begins.
pub open spec fn query_head() -> Seq<char> {
    "select u.name, u.email, u.phone, o.* from orders o inner join users u on o.customer_id = u.id where "@
}

/// How a query ends: paid orders first, then those that wait for payment,
/// then the uploaded ones, then the rest by status; within each the newest
/// first.
pub open spec fn query_tail() -> Seq<char> {
    " order by case when o.status = 3 then 1 when o.status = 1 then 2 when o.status = 6 then 3 else 10+o.status end, o.id desc"@
}

/// A condition of a query: nothing where the field is left out, else the
/// condition, after the word `and` where another condition precedes it.
pub open spec fn condition(present: bool, preceded: bool, text: Seq<char>) -> Seq<char> {
    if !present {
        Seq::empty()
    } else if preceded {
        " and "@ + text
    } else {
        text
    }
}

/// What a name is matched against: the name anywhere in the text.
pub open spec fn name_pattern(name: Seq<char>) -> Seq<char> {
    "%"@ + name + "%"@
}

/// Whether a search names anything to search for.
pub open spec fn names_something(form: OrderSearchForm) -> bool {
    form.order_no is Some || form.name is Some || form.email is Some || form.phone is Some
}

/// The text of the query for a search.
pub open spec fn query_text(form: OrderSearchForm) -> Seq<char> {
    query_head() + condition(form.order_no is Some, false, " o.id = ? "@) + condition(
        form.name is Some,
        form.order_no is Some,
        " lower(u.name) like lower(?) "@,
    ) + condition(
        form.email is Some,
        form.order_no is Some || form.name is Some,
        " lower(u.email) = lower(?) "@,
    ) + condition(
        form.phone is Some,
        form.order_no is Some || form.name is Some || form.email is Some,
        " lower(u.phone) = lower(?) "@,
    ) + query_tail()
}

/// The value for one place, where the field is there.
pub open spec fn place(value: Option<SearchBindView>) -> Seq<SearchBindView> {
    match value {
        Some(value) => seq![value],
        None => Seq::empty(),
    }
}

/// The values for the places of the query for a search, in the order of
/// the places.
pub open spec fn query_binds(form: OrderSearchForm) -> Seq<SearchBindView> {
    place(
        match form.order_no {
            Some(n) => Some(SearchBindView::Number(n)),
            None => None,
        },
    ) + place(
        match form.name {
            Some(name) => Some(SearchBindView::Text(name_pattern(name@))),
            None => None,
        },
    ) + place(
        match form.email {
            Some(email) => Some(SearchBindView::Text(email@)),
            None => None,
        },
    ) + place(
        match form.phone {
            Some(phone) => Some(SearchBindView::Text(phone@)),
            None => None,
        },
    )
}

/// Appends a condition to the text of a query.
fn push_condition(sql: &mut String, present: bool, preceded: bool, text: &str)
    ensures
        final(sql)@ == old(sql)@ + condition(present, preceded, text@),
{
    if present {
        if preceded {
            sql.append(" and ");
        }
        sql.append(text);
        proof {
            assert(final(sql)@ =~= old(sql)@ + condition(present, preceded, text@));
        }
    } else {
        proof {
            assert(sql@ =~= old(sql)@ + Seq::<char>::empty());
        }
    }
}

/// Appends the value for one place, where the field is there.
fn push_place(binds: &mut Vec<SearchBind>, value: Option<SearchBind>)
    ensures
        bind_views(final(binds)@) == bind_views(old(binds)@) + place(
            match value {
                Some(value) => Some(value@),
                None => None,
            },
        ),
{
    match value {
        Some(value) => {
            binds.push(value);
            proof {
                assert(bind_views(binds@) =~= bind_views(old(binds)@) + seq![value@]);
            }
        },
        None => {
            proof {
                assert(bind_views(binds@) =~= bind_views(old(binds)@) + Seq::<
                    SearchBindView,
                >::empty());
            }
        },
    }
}

impl UserOrder {
    /// The query for a search of the orders: every field of the form that is
    /// there is a condition, and all conditions must hold. The number of the
    /// order and the two addresses are matched as a whole, the name anywhere
    /// in the name of the customer, all without regard to small and capital
    /// letters.
    ///
    /// Fails with `MissingSearchTerm` where the form names nothing.
    pub fn search_query(form: OrderSearchForm) -> (query: Result<SearchQuery, RequestError>)
        ensures
            match query {
                Ok(query) => names_something(form) && query.sql@ == query_text(form)
                    && bind_views(query.binds@) == query_binds(form),
                Err(error) => !names_something(form) && error == RequestError::MissingSearchTerm,
            },
    {
        if form.order_no.is_none() && form.name.is_none() && form.email.is_none()
            && form.phone.is_none() {
            return Err(RequestError::MissingSearchTerm);
        }
        let by_number = form.order_no.is_some();
        let by_name = form.name.is_some();
        let by_email = form.email.is_some();
        let by_phone = form.phone.is_some();
        let mut sql = String::from_str(
            "select u.name, u.email, u.phone, o.* from orders o inner join users u on o.customer_id = u.id where ",
        );
        push_condition(&mut sql, by_number, false, " o.id = ? ");
        push_condition(&mut sql, by_name, by_number, " lower(u.name) like lower(?) ");
        push_condition(&mut sql, by_email, by_number || by_name, " lower(u.email) = lower(?) ");
        push_condition(
            &mut sql,
            by_phone,
            by_number || by_name || by_email,
            " lower(u.phone) = lower(?) ",
        );
        sql.append(
            " order by case when o.status = 3 then 1 when o.status = 1 then 2 when o.status = 6 then 3 else 10+o.status end, o.id desc",
        );
        let mut binds: Vec<SearchBind> = Vec::new();
        proof {
            assert(bind_views(binds@) =~= Seq::<SearchBindView>::empty());
        }
        let OrderSearchForm { order_no, name, email, phone } = form;
        push_place(
            &mut binds,
            match order_no {
                Some(n) => Some(SearchBind::Number(n)),
                None => None,
            },
        );
        push_place(
            &mut binds,
            match name {
                Some(name) => {
                    let mut pattern = String::from_str("%");
                    pattern.append(name.as_str());
                    pattern.append("%");
                    Some(SearchBind::Text(pattern))
                },
                None => None,
            },
        );
        push_place(
            &mut binds,
            match email {
                Some(email) => Some(SearchBind::Text(email)),
                None => None,
            },
        );
        push_place(
            &mut binds,
            match phone {
                Some(phone) => Some(SearchBind::Text(phone)),
                None => None,
            },
        );
        proof {
            assert(bind_views(binds@) =~= query_binds(form));
        }
        Ok(SearchQuery { sql, binds })
    }
}

} // verus!
