//! Subscriptions of users to worker or job-seeker plans: creation with an
//! expiry and the next invoice number, edits, removal, and the fields kept
//! in step on the user and the profile.

use vstd::prelude::*;
use crate::documents::{entry, opt_bool, opt_real, opt_text_value, FieldValue, Fields, ValueView};
use crate::errors::{fails_with, ApiError, ErrorKind};
use crate::ids::DocumentId;
use crate::text::{lower_of, lowercase};

verus! {

/// Milliseconds in a day.
pub const DAY_MS: i64 = 86_400_000;

/// Days a subscription runs when no duration is given.
pub const DEFAULT_DURATION_DAYS: i64 = 30;

/// Which profile a subscription belongs to.
#[derive(Clone, Copy, Debug, PartialEq, Eq, Structural)]
pub enum SubscriptionType {
    Worker,
    JobSeeker,
}

/// State of a subscription.
#[derive(Clone, Copy, Debug, PartialEq, Eq, Structural)]
pub enum SubscriptionStatus {
    Active,
    Expired,
    Cancelled,
    Pending,
}

/// Stored name of each subscription type.
pub open spec fn subscription_type_name(t: SubscriptionType) -> Seq<char> {
    match t {
        SubscriptionType::Worker => "worker"@,
        SubscriptionType::JobSeeker => "jobseeker"@,
    }
}

impl SubscriptionType {
    pub fn as_str(&self) -> (r: &'static str)
        ensures
            r@ == subscription_type_name(*self),
    {
        match self {
            SubscriptionType::Worker => "worker",
            SubscriptionType::JobSeeker => "jobseeker",
        }
    }
}

/// Subscription type named by request text, in any case: `worker`, or
/// `jobseeker` / `job_seeker`.
pub open spec fn type_named(s: Seq<char>) -> Option<SubscriptionType> {
    let l = lower_of(s);
    if l == "worker"@ {
        Some(SubscriptionType::Worker)
    } else if l == "jobseeker"@ || l == "job_seeker"@ {
        Some(SubscriptionType::JobSeeker)
    } else {
        None
    }
}

/// Reads the subscription type of a request.
pub fn parse_subscription_type(s: &str) -> (r: Result<SubscriptionType, ApiError>)
    ensures
        type_named(s@) matches Some(t) ==> r == Ok::<SubscriptionType, ApiError>(t),
        type_named(s@) is None ==> fails_with(
            r,
            ErrorKind::BadRequest,
            "Invalid subscription type. Use 'worker' or 'jobseeker'"@,
        ),
{
    let l = lowercase(s);
    if l == "worker".to_string() {
        Ok(SubscriptionType::Worker)
    } else if l == "jobseeker".to_string() || l == "job_seeker".to_string() {
        Ok(SubscriptionType::JobSeeker)
    } else {
        Err(ApiError::bad_request("Invalid subscription type. Use 'worker' or 'jobseeker'"))
    }
}

/// Request to subscribe a user. `price` holds IEEE-754 bits.
#[derive(Debug)]
pub struct CreateSubscriptionDto {
    pub user_id: String,
    pub subscription_type: String,
    pub plan_name: String,
    pub price: u64,
    pub duration_days: Option<i64>,
    pub payment_id: Option<String>,
    pub auto_renew: Option<bool>,
}

/// Partial edit of a subscription. `price` holds IEEE-754 bits;
/// `duration_days` restarts the expiry from the time of the edit.
#[derive(Debug)]
pub struct UpdateSubscriptionDto {
    pub plan_name: Option<String>,
    pub price: Option<u64>,
    pub status: Option<String>,
    pub auto_renew: Option<bool>,
    pub duration_days: Option<i64>,
    pub payment_id: Option<String>,
}

/// A stored subscription. Times are milliseconds since the Unix epoch.
#[derive(Debug)]
pub struct Subscription {
    pub id: Option<DocumentId>,
    pub user_id: DocumentId,
    pub subscription_type: SubscriptionType,
    pub plan_name: String,
    pub price: u64,
    pub status: SubscriptionStatus,
    pub starts_at: i64,
    pub expires_at: i64,
    pub auto_renew: bool,
    pub payment_id: Option<String>,
    pub invoice_number: Option<i64>,
    pub created_at: i64,
    pub updated_at: i64,
}

/// End of a run of `days` days from `start`, where the span in milliseconds
/// and the end both fit 64 bits.
pub open spec fn expiry_after(start: i64, days: i64) -> Option<i64> {
    let span = days * DAY_MS;
    let e = start + span;
    if i64::MIN <= span <= i64::MAX && i64::MIN <= e <= i64::MAX {
        Some(e as i64)
    } else {
        None
    }
}

/// Computes the end of a run of `days` days from `start`.
pub fn expiry(start: i64, days: i64) -> (r: Result<i64, ApiError>)
    ensures
        expiry_after(start, days) matches Some(e) ==> r == Ok::<i64, ApiError>(e),
        expiry_after(start, days) is None ==> fails_with(r, ErrorKind::BadRequest, "Invalid duration"@),
{
    let span = match days.checked_mul(DAY_MS) {
        Some(s) => s,
        None => {
            return Err(ApiError::bad_request("Invalid duration"));
        },
    };
    match start.checked_add(span) {
        Some(e) => Ok(e),
        None => Err(ApiError::bad_request("Invalid duration")),
    }
}

/// Builds a new active subscription for `user_id`, starting at `now`
/// (milliseconds), running `duration_days` (default thirty) days, with the
/// invoice number after `max_invoice`, the largest one issued so far.
pub fn new_subscription(
    dto: CreateSubscriptionDto,
    user_id: DocumentId,
    kind: SubscriptionType,
    now: i64,
    max_invoice: Option<i64>,
) -> (r: Result<Subscription, ApiError>)
    ensures
        ({
            let days = match dto.duration_days {
                Some(d) => d,
                None => DEFAULT_DURATION_DAYS,
            };
            let prev = match max_invoice {
                Some(m) => m,
                None => 0,
            };
            &&& expiry_after(now, days) is None ==> fails_with(r, ErrorKind::BadRequest, "Invalid duration"@)
            &&& expiry_after(now, days) is Some && prev == i64::MAX
                ==> fails_with(r, ErrorKind::InternalError, "No invoice number left"@)
            &&& expiry_after(now, days) is Some && prev < i64::MAX ==> r is Ok
            &&& r matches Ok(s) ==> {
                &&& s.id is None
                &&& s.user_id@ == user_id@
                &&& s.subscription_type == kind
                &&& s.plan_name@ == dto.plan_name@
                &&& s.price == dto.price
                &&& s.status == SubscriptionStatus::Active
                &&& s.starts_at == now
                &&& Some(s.expires_at) == expiry_after(now, days)
                &&& s.auto_renew == (match dto.auto_renew {
                    Some(b) => b,
                    None => false,
                })
                &&& opt_text_value(s.payment_id) == opt_text_value(dto.payment_id)
                &&& s.invoice_number == Some((prev + 1) as i64)
                &&& s.created_at == now
                &&& s.updated_at == now
            }
        }),
{
    let days = match dto.duration_days {
        Some(d) => d,
        None => DEFAULT_DURATION_DAYS,
    };
    let expires_at = match expiry(now, days) {
        Ok(e) => e,
        Err(e) => {
            return Err(e);
        },
    };
    let prev = match max_invoice {
        Some(m) => m,
        None => 0,
    };
    if prev == i64::MAX {
        return Err(ApiError::internal_error("No invoice number left"));
    }
    Ok(Subscription {
        id: None,
        user_id,
        subscription_type: kind,
        plan_name: dto.plan_name,
        price: dto.price,
        status: SubscriptionStatus::Active,
        starts_at: now,
        expires_at,
        auto_renew: match dto.auto_renew {
            Some(b) => b,
            None => false,
        },
        payment_id: dto.payment_id,
        invoice_number: Some(prev + 1),
        created_at: now,
        updated_at: now,
    })
}

/// Each new subscription gets an invoice number above every one issued
/// before it, and runs exactly the requested number of days.
pub proof fn lemma_invoice_and_expiry(now: i64, days: i64, max_invoice: Option<i64>, invoice: i64, expires_at: i64)
    requires
        invoice == (match max_invoice {
            Some(m) => m,
            None => 0,
        }) + 1,
        Some(expires_at) == expiry_after(now, days),
    ensures
        max_invoice matches Some(m) ==> invoice > m,
        max_invoice is None ==> invoice == 1,
        expires_at == now + days * 86_400_000,
{
}

/// Profile collection that a subscription type keeps in step.
pub fn profile_collection(kind: SubscriptionType) -> (r: &'static str)
    ensures
        kind == SubscriptionType::Worker ==> r@ == "worker_profiles"@,
        kind == SubscriptionType::JobSeeker ==> r@ == "job_seeker_profiles"@,
{
    match kind {
        SubscriptionType::Worker => "worker_profiles",
        SubscriptionType::JobSeeker => "job_seeker_profiles",
    }
}

/// Fields set on the subscribing user when a subscription is created.
pub fn user_subscription_update(plan_name: &str, subscription_id: DocumentId, expires_at: i64, now: i64) -> (r: Fields)
    ensures
        r@ == seq![
            ("subscription_plan"@, ValueView::Text(plan_name@)),
            ("subscription_id"@, ValueView::Id(subscription_id@)),
            ("subscription_expires_at"@, ValueView::Time(expires_at)),
            ("updated_at"@, ValueView::Time(now)),
        ],
{
    let ghost sid = subscription_id@;
    let mut f = Fields::new();
    f.set("subscription_plan", FieldValue::Text(plan_name.to_string()));
    f.set("subscription_id", FieldValue::Id(subscription_id));
    f.set("subscription_expires_at", FieldValue::Time(expires_at));
    f.set("updated_at", FieldValue::Time(now));
    assert(f@ =~= seq![
        ("subscription_plan"@, ValueView::Text(plan_name@)),
        ("subscription_id"@, ValueView::Id(sid)),
        ("subscription_expires_at"@, ValueView::Time(expires_at)),
        ("updated_at"@, ValueView::Time(now)),
    ]);
    f
}

/// Fields set on the subscriber's profile when its subscription is created
/// or edited.
pub fn profile_subscription_update(plan_name: &str, expires_at: i64, now: i64) -> (r: Fields)
    ensures
        r@ == seq![
            ("subscription_plan"@, ValueView::Text(plan_name@)),
            ("subscription_expires_at"@, ValueView::Time(expires_at)),
            ("updated_at"@, ValueView::Time(now)),
        ],
{
    let mut f = Fields::new();
    f.set("subscription_plan", FieldValue::Text(plan_name.to_string()));
    f.set("subscription_expires_at", FieldValue::Time(expires_at));
    f.set("updated_at", FieldValue::Time(now));
    assert(f@ =~= seq![
        ("subscription_plan"@, ValueView::Text(plan_name@)),
        ("subscription_expires_at"@, ValueView::Time(expires_at)),
        ("updated_at"@, ValueView::Time(now)),
    ]);
    f
}

/// Fields set by a subscription edit at `now` (milliseconds), where the new
/// expiry (if a duration is given) is `expires_at`.
pub open spec fn subscription_fields(dto: UpdateSubscriptionDto, now: i64, expires_at: Option<i64>) -> Seq<(Seq<char>, ValueView)> {
    seq![("updated_at"@, ValueView::Time(now))] + entry("plan_name"@, opt_text_value(dto.plan_name))
        + entry("price"@, opt_real(dto.price))
        + entry("status"@, opt_text_value(dto.status))
        + entry("auto_renew"@, opt_bool(dto.auto_renew))
        + entry("payment_id"@, opt_text_value(dto.payment_id))
        + entry(
            "expires_at"@,
            match expires_at {
                Some(e) => Some(ValueView::Time(e)),
                None => None,
            },
        )
}

/// The `$set` of a subscription edit at `now` (milliseconds).
pub fn subscription_update(dto: UpdateSubscriptionDto, now: i64) -> (r: Result<Fields, ApiError>)
    ensures
        dto.duration_days matches Some(d) && expiry_after(now, d) is None
            ==> fails_with(r, ErrorKind::BadRequest, "Invalid duration"@),
        r is Err ==> (dto.duration_days matches Some(d) && expiry_after(now, d) is None),
        r matches Ok(f) ==> f@ == subscription_fields(
            dto,
            now,
            match dto.duration_days {
                Some(d) => expiry_after(now, d),
                None => None,
            },
        ),
{
    let ghost d = dto;
    let expires_at = match dto.duration_days {
        Some(days) => match expiry(now, days) {
            Ok(e) => Some(e),
            Err(e) => {
                return Err(e);
            },
        },
        None => None,
    };
    let mut f = Fields::new();
    f.set("updated_at", FieldValue::Time(now));
    f.set_opt_text("plan_name", dto.plan_name);
    f.set_opt_real("price", dto.price);
    f.set_opt_text("status", dto.status);
    f.set_opt_bool("auto_renew", dto.auto_renew);
    f.set_opt_text("payment_id", dto.payment_id);
    match expires_at {
        Some(e) => f.set("expires_at", FieldValue::Time(e)),
        None => {},
    }
    assert(f@ =~= subscription_fields(d, now, expires_at));
    Ok(f)
}

/// Fields set on the subscriber after an edit: the update time, the plan
/// when the edit named one, the expiry when it gave a duration.
pub fn user_sync_update(plan_changed: bool, expiry_changed: bool, plan_name: &str, expires_at: i64, now: i64) -> (r: Fields)
    ensures
        r@ == seq![("updated_at"@, ValueView::Time(now))]
            + entry("subscription_plan"@, if plan_changed { Some(ValueView::Text(plan_name@)) } else { None })
            + entry("subscription_expires_at"@, if expiry_changed { Some(ValueView::Time(expires_at)) } else { None }),
{
    let mut f = Fields::new();
    f.set("updated_at", FieldValue::Time(now));
    if plan_changed {
        f.set("subscription_plan", FieldValue::Text(plan_name.to_string()));
    }
    if expiry_changed {
        f.set("subscription_expires_at", FieldValue::Time(expires_at));
    }
    assert(f@ =~= seq![("updated_at"@, ValueView::Time(now))]
        + entry("subscription_plan"@, if plan_changed { Some(ValueView::Text(plan_name@)) } else { None })
        + entry("subscription_expires_at"@, if expiry_changed { Some(ValueView::Time(expires_at)) } else { None }));
    f
}

/// Fields set on the user when a subscription is removed: the subscription
/// fields get the text `null`.
pub fn user_removal_update(now: i64) -> (r: Fields)
    ensures
        r@ == seq![
            ("subscription_plan"@, ValueView::Text("null"@)),
            ("subscription_id"@, ValueView::Text("null"@)),
            ("subscription_expires_at"@, ValueView::Text("null"@)),
            ("updated_at"@, ValueView::Time(now)),
        ],
{
    let mut f = Fields::new();
    f.set("subscription_plan", FieldValue::Text("null".to_string()));
    f.set("subscription_id", FieldValue::Text("null".to_string()));
    f.set("subscription_expires_at", FieldValue::Text("null".to_string()));
    f.set("updated_at", FieldValue::Time(now));
    assert(f@ =~= seq![
        ("subscription_plan"@, ValueView::Text("null"@)),
        ("subscription_id"@, ValueView::Text("null"@)),
        ("subscription_expires_at"@, ValueView::Text("null"@)),
        ("updated_at"@, ValueView::Time(now)),
    ]);
    f
}

/// Plan a profile falls back to when its subscription is removed.
pub open spec fn fallback_plan(kind: SubscriptionType) -> Seq<char> {
    match kind {
        SubscriptionType::Worker => "none"@,
        SubscriptionType::JobSeeker => "free"@,
    }
}

/// Fields set on the profile when its subscription is removed; the profile's
/// expiry is unset as well (see `removed_profile_field`).
pub fn profile_removal_update(kind: SubscriptionType, now: i64) -> (r: Fields)
    ensures
        r@ == seq![
            ("subscription_plan"@, ValueView::Text(fallback_plan(kind))),
            ("updated_at"@, ValueView::Time(now)),
        ],
{
    let plan = match kind {
        SubscriptionType::Worker => "none",
        SubscriptionType::JobSeeker => "free",
    };
    let mut f = Fields::new();
    f.set("subscription_plan", FieldValue::Text(plan.to_string()));
    f.set("updated_at", FieldValue::Time(now));
    assert(f@ =~= seq![
        ("subscription_plan"@, ValueView::Text(fallback_plan(kind))),
        ("updated_at"@, ValueView::Time(now)),
    ]);
    f
}

/// Field of the profile that is unset when its subscription is removed.
pub fn removed_profile_field() -> (r: &'static str)
    ensures
        r@ == "subscription_expires_at"@,
{
    "subscription_expires_at"
}

} // verus!
