//! List queries: which documents to select (equality filter and optional
//! case-insensitive text search), in which order, and which page.

use vstd::prelude::*;
use crate::documents::{entry, opt_bool, opt_text_value, FieldValue, Fields, ValueView};
use crate::numbers::{decimal, parse_i64, parsed_i64, decimal_text};
use crate::pagination::{limit_of, page_of_query, Pagination};
use crate::text::{contains, contains_text, lower_of, lowercase, trim, trim_of};

verus! {

#[derive(Debug)]
pub struct WorkerListQuery {
    pub status: Option<String>,
    pub is_verified: Option<bool>,
    pub page: Option<i64>,
    pub limit: Option<i64>,
}

#[derive(Debug)]
pub struct JobSeekerListQuery {
    pub is_verified: Option<bool>,
    pub page: Option<i64>,
    pub limit: Option<i64>,
}

#[derive(Debug)]
pub struct JobListQuery {
    pub status: Option<String>,
    pub page: Option<i64>,
    pub limit: Option<i64>,
}

#[derive(Debug)]
pub struct UserListQuery {
    pub is_active: Option<bool>,
    pub page: Option<i64>,
    pub limit: Option<i64>,
    pub search: Option<String>,
}

#[derive(Debug)]
pub struct SubscriptionListQuery {
    pub subscription_type: Option<String>,
    pub status: Option<String>,
    pub page: Option<i64>,
    pub limit: Option<i64>,
    pub search: Option<String>,
}

#[derive(Debug)]
pub struct ServiceListQuery {
    pub page: Option<i64>,
    pub limit: Option<i64>,
    pub search: Option<String>,
    pub category: Option<String>,
}

/// Case-insensitive search for `term` inside any of `fields`.
#[derive(Debug)]
pub struct TextSearch {
    pub fields: Vec<String>,
    pub term: String,
}

/// What a list query selects: documents matching every entry of `filter`
/// (and `search`, if any), ordered by `sort` (field, 1 rising or -1
/// falling), one page of them.
#[derive(Debug)]
pub struct ListPlan {
    pub filter: Fields,
    pub search: Option<TextSearch>,
    pub sort: Vec<(String, i32)>,
    pub page: Pagination,
}

pub open spec fn search_view(s: Option<TextSearch>) -> Option<(Seq<Seq<char>>, Seq<char>)> {
    match s {
        Some(t) => Some((t.fields@.map_values(|f: String| f@), t.term@)),
        None => None,
    }
}

pub open spec fn sort_view(s: Vec<(String, i32)>) -> Seq<(Seq<char>, i32)> {
    s@.map_values(|e: (String, i32)| (e.0@, e.1))
}

/// Newest first.
pub open spec fn newest_first() -> Seq<(Seq<char>, i32)> {
    seq![("created_at"@, -1i32)]
}

/// The page a query asks for, at most `max` items, `default` if unsaid.
pub open spec fn page_of(page: Option<i64>, limit: Option<i64>, default: i64, max: i64, p: Pagination) -> bool {
    &&& p.page == page_of_query(page)
    &&& p.limit == limit_of(limit, default, max)
    &&& p.skip == (p.page - 1) * p.limit
}

/// A search term that is given and not empty.
pub open spec fn given_term(s: Option<String>) -> Option<Seq<char>> {
    match s {
        Some(t) => if t@.len() > 0 {
            Some(t@)
        } else {
            None
        },
        None => None,
    }
}

fn one_key(key: &str, dir: i32) -> (r: Vec<(String, i32)>)
    ensures
        sort_view(r) == seq![(key@, dir)],
{
    let mut v: Vec<(String, i32)> = Vec::new();
    v.push((key.to_string(), dir));
    assert(sort_view(v) =~= seq![(key@, dir)]);
    v
}

fn search_in(a: &str, b: &str, c: &str, term: String) -> (r: TextSearch)
    ensures
        r.fields@.map_values(|f: String| f@) == seq![a@, b@, c@],
        r.term@ == term@,
{
    let mut fields: Vec<String> = Vec::new();
    fields.push(a.to_string());
    fields.push(b.to_string());
    fields.push(c.to_string());
    assert(fields@.map_values(|f: String| f@) =~= seq![a@, b@, c@]);
    TextSearch { fields, term }
}

fn nonempty(s: Option<String>) -> (r: Option<String>)
    ensures
        opt_text_value(r) == (match given_term(s) {
            Some(t) => Some(ValueView::Text(t)),
            None => None,
        }),
        given_term(s) == (match r {
            Some(t) => Some(t@),
            None => None,
        }),
{
    match s {
        Some(t) => if t.as_str().is_empty() {
            None
        } else {
            Some(t)
        },
        None => None,
    }
}

/// Worker profiles, newest first, filtered on verification; twenty per page
/// unless asked, at most a hundred.
pub fn worker_list_plan(q: WorkerListQuery) -> (r: ListPlan)
    ensures
        r.filter@ == entry("is_verified"@, opt_bool(q.is_verified)),
        r.search is None,
        sort_view(r.sort) == newest_first(),
        page_of(q.page, q.limit, 20, 100, r.page),
{
    let mut filter = Fields::new();
    filter.set_opt_bool("is_verified", q.is_verified);
    assert(filter@ =~= entry("is_verified"@, opt_bool(q.is_verified)));
    ListPlan {
        filter,
        search: None,
        sort: one_key("created_at", -1),
        page: Pagination::resolve(q.page, q.limit, 20, 100),
    }
}

/// Job-seeker profiles, newest first, filtered on verification.
pub fn job_seeker_list_plan(q: JobSeekerListQuery) -> (r: ListPlan)
    ensures
        r.filter@ == entry("is_verified"@, opt_bool(q.is_verified)),
        r.search is None,
        sort_view(r.sort) == newest_first(),
        page_of(q.page, q.limit, 20, 100, r.page),
{
    let mut filter = Fields::new();
    filter.set_opt_bool("is_verified", q.is_verified);
    assert(filter@ =~= entry("is_verified"@, opt_bool(q.is_verified)));
    ListPlan {
        filter,
        search: None,
        sort: one_key("created_at", -1),
        page: Pagination::resolve(q.page, q.limit, 20, 100),
    }
}

/// Job postings, newest first, filtered on status.
pub fn job_list_plan(q: JobListQuery) -> (r: ListPlan)
    ensures
        r.filter@ == entry("status"@, opt_text_value(q.status)),
        r.search is None,
        sort_view(r.sort) == newest_first(),
        page_of(q.page, q.limit, 20, 100, r.page),
{
    let ghost status = q.status;
    let mut filter = Fields::new();
    filter.set_opt_text("status", q.status);
    assert(filter@ =~= entry("status"@, opt_text_value(status)));
    ListPlan {
        filter,
        search: None,
        sort: one_key("created_at", -1),
        page: Pagination::resolve(q.page, q.limit, 20, 100),
    }
}

/// User accounts, newest first, filtered on activity and searched by name,
/// mobile number or address.
pub fn user_list_plan(q: UserListQuery) -> (r: ListPlan)
    ensures
        r.filter@ == entry("is_active"@, opt_bool(q.is_active)),
        search_view(r.search) == (match given_term(q.search) {
            Some(t) => Some((seq!["name"@, "mobile"@, "email"@], t)),
            None => None,
        }),
        sort_view(r.sort) == newest_first(),
        page_of(q.page, q.limit, 20, 100, r.page),
{
    let mut filter = Fields::new();
    filter.set_opt_bool("is_active", q.is_active);
    assert(filter@ =~= entry("is_active"@, opt_bool(q.is_active)));
    let search = match nonempty(q.search) {
        Some(t) => Some(search_in("name", "mobile", "email", t)),
        None => None,
    };
    ListPlan {
        filter,
        search,
        sort: one_key("created_at", -1),
        page: Pagination::resolve(q.page, q.limit, 20, 100),
    }
}

/// Catalogue services, by category then name, filtered on a given category
/// and searched by name, description or category; fifty per page unless
/// asked, at most two hundred.
pub fn service_list_plan(q: ServiceListQuery) -> (r: ListPlan)
    ensures
        r.filter@ == entry(
            "serviceCategory"@,
            match given_term(q.category) {
                Some(c) => Some(ValueView::Text(c)),
                None => None,
            },
        ),
        search_view(r.search) == (match given_term(q.search) {
            Some(t) => Some((seq!["name"@, "description"@, "serviceCategory"@], t)),
            None => None,
        }),
        sort_view(r.sort) == seq![("serviceCategory"@, 1i32), ("name"@, 1i32)],
        page_of(q.page, q.limit, 50, 200, r.page),
{
    let ghost category = q.category;
    let mut filter = Fields::new();
    let c = nonempty(q.category);
    filter.set_opt_text("serviceCategory", c);
    assert(filter@ =~= entry(
        "serviceCategory"@,
        match given_term(category) {
            Some(c) => Some(ValueView::Text(c)),
            None => None,
        },
    ));
    let search = match nonempty(q.search) {
        Some(t) => Some(search_in("name", "description", "serviceCategory", t)),
        None => None,
    };
    let mut sort: Vec<(String, i32)> = Vec::new();
    sort.push(("serviceCategory".to_string(), 1));
    sort.push(("name".to_string(), 1));
    assert(sort_view(sort) =~= seq![("serviceCategory"@, 1i32), ("name"@, 1i32)]);
    ListPlan { filter, search, sort, page: Pagination::resolve(q.page, q.limit, 50, 200) }
}

/// The invoice number that a subscription search names, when the search is
/// a number (surrounding white space aside).
pub open spec fn invoice_searched(search: Option<String>) -> Option<i64> {
    match search {
        Some(s) => parsed_i64(trim_of(s@)),
        None => None,
    }
}

/// Reads a subscription search as an invoice number.
pub fn invoice_search(search: &Option<String>) -> (r: Option<i64>)
    ensures
        r == invoice_searched(*search),
{
    match search {
        Some(s) => parse_i64(trim(s.as_str())),
        None => None,
    }
}

/// Subscriptions in invoice order, filtered on type and status, and on the
/// invoice number when the search is a number.
pub fn subscription_list_plan(q: SubscriptionListQuery) -> (r: ListPlan)
    ensures
        r.filter@ == entry("subscription_type"@, opt_text_value(q.subscription_type))
            + entry("status"@, opt_text_value(q.status))
            + entry(
            "invoice_number"@,
            match invoice_searched(q.search) {
                Some(n) => Some(ValueView::Int(n)),
                None => None,
            },
        ),
        r.search is None,
        sort_view(r.sort) == seq![("invoice_number"@, 1i32)],
        page_of(q.page, q.limit, 20, 100, r.page),
{
    let ghost qs = q.subscription_type;
    let ghost st = q.status;
    let invoice = invoice_search(&q.search);
    let mut filter = Fields::new();
    filter.set_opt_text("subscription_type", q.subscription_type);
    filter.set_opt_text("status", q.status);
    match invoice {
        Some(n) => filter.set("invoice_number", FieldValue::Int(n)),
        None => {},
    }
    assert(filter@ =~= entry("subscription_type"@, opt_text_value(qs)) + entry("status"@, opt_text_value(st))
        + entry(
        "invoice_number"@,
        match invoice {
            Some(n) => Some(ValueView::Int(n)),
            None => None,
        },
    ));
    ListPlan {
        filter,
        search: None,
        sort: one_key("invoice_number", 1),
        page: Pagination::resolve(q.page, q.limit, 20, 100),
    }
}

/// The free-text term by which listed subscriptions are further narrowed: a
/// given, non-empty search that is not an invoice number.
pub fn subscription_search_term(search: &Option<String>) -> (r: Option<String>)
    ensures
        (match r {
            Some(t) => Some(t@),
            None => None,
        }) == (match *search {
            Some(s) => if s@.len() > 0 && invoice_searched(*search) is None {
                Some(s@)
            } else {
                None
            },
            None => None,
        }),
{
    match search {
        Some(s) => {
            if !s.as_str().is_empty() && invoice_search(search).is_none() {
                Some(s.clone())
            } else {
                None
            }
        },
        None => None,
    }
}

/// A subscription matches a free-text search when its user's name or
/// address (ignoring case) or mobile number holds the lower-cased search, or
/// the decimal text of its invoice number holds the search as given. Absent
/// values count as empty text.
pub open spec fn subscription_match(
    search: Seq<char>,
    name: Seq<char>,
    mobile: Seq<char>,
    email: Seq<char>,
    invoice: Option<i64>,
) -> bool {
    let term = lower_of(search);
    ||| contains_text(lower_of(name), term)
    ||| contains_text(mobile, term)
    ||| contains_text(lower_of(email), term)
    ||| contains_text(
        match invoice {
            Some(n) => decimal(n as int),
            None => Seq::<char>::empty(),
        },
        search,
    )
}

/// Whether a listed subscription matches a free-text search.
pub fn subscription_matches(search: &str, name: &str, mobile: &str, email: &str, invoice: Option<i64>) -> (r: bool)
    ensures
        r == subscription_match(search@, name@, mobile@, email@, invoice),
{
    let term = lowercase(search);
    let inv = match invoice {
        Some(n) => decimal_text(n),
        None => String::new(),
    };
    contains(lowercase(name).as_str(), term.as_str()) || contains(mobile, term.as_str())
        || contains(lowercase(email).as_str(), term.as_str()) || contains(inv.as_str(), search)
}

} // verus!
