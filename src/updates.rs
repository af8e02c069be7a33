//! Partial updates of stored records: only the fields a request supplies are
//! set, together with the update time where the record keeps one.

use vstd::prelude::*;
use crate::documents::{
    apply_set, entry, keys_of, lemma_apply_set_keeps_others, lemma_apply_set_last_wins, opt_bool,
    opt_int32, opt_real, opt_text_value, opt_texts, FieldValue, Fields, ValueView,
};

verus! {

/// Request to change the verification flag of a worker profile.
#[derive(Clone, Copy, Debug)]
pub struct UpdateWorkerVerificationDto {
    pub is_verified: bool,
}

/// Request to change the verification flag of a job-seeker profile.
#[derive(Debug)]
pub struct UpdateJobSeekerVerificationDto {
    pub is_verified: bool,
    pub rejection_reason: Option<String>,
}

/// Partial update of a worker profile. `hourly_rate` holds IEEE-754 bits.
#[derive(Debug)]
pub struct UpdateWorkerDto {
    pub categories: Option<Vec<String>>,
    pub subcategories: Option<Vec<String>>,
    pub experience_years: Option<i32>,
    pub description: Option<String>,
    pub hourly_rate: Option<u64>,
    pub license_number: Option<String>,
    pub service_areas: Option<Vec<String>>,
    pub is_verified: Option<bool>,
    pub is_available: Option<bool>,
}

/// Partial update of a user account.
#[derive(Debug)]
pub struct UpdateUserDto {
    pub name: Option<String>,
    pub email: Option<String>,
    pub city: Option<String>,
    pub pincode: Option<String>,
    pub is_active: Option<bool>,
}

/// New moderation status of a job posting.
#[derive(Debug)]
pub struct UpdateJobStatusDto {
    pub status: String,
    pub rejection_reason: Option<String>,
}

/// A service offered in the catalogue, as created or replaced by an admin.
#[derive(Debug)]
pub struct CreateServiceDto {
    pub name: String,
    pub service_category: String,
    pub price: Option<String>,
    pub description: Option<String>,
    pub icon: Option<String>,
    pub color: Option<String>,
    pub rating: Option<String>,
}

/// A service given as a subcategory of a category.
#[derive(Debug)]
pub struct CreateSubcategoryDto {
    pub main_category_id: String,
    pub name: String,
    pub description: Option<String>,
    pub order: Option<i32>,
    pub is_active: Option<bool>,
    pub price: Option<String>,
    pub rating: Option<String>,
    pub icon: Option<String>,
    pub color: Option<String>,
}

/// A category; categories are the distinct category names of services.
#[derive(Debug)]
pub struct CreateCategoryDto {
    pub name: String,
    pub description: Option<String>,
    pub icon: Option<String>,
    pub order: Option<i32>,
    pub is_active: Option<bool>,
}

/// Fields set when a profile's verification flag changes.
pub open spec fn verification_fields(is_verified: bool, now: i64) -> Seq<(Seq<char>, ValueView)> {
    seq![("is_verified"@, ValueView::Bool(is_verified)), ("updated_at"@, ValueView::Time(now))]
}

/// The `$set` of a verification change at `now` (milliseconds).
pub fn verification_update(is_verified: bool, now: i64) -> (r: Fields)
    ensures
        r@ == verification_fields(is_verified, now),
{
    let mut f = Fields::new();
    f.set("is_verified", FieldValue::Bool(is_verified));
    f.set("updated_at", FieldValue::Time(now));
    assert(f@ =~= verification_fields(is_verified, now));
    f
}

/// Message answering a worker verification change.
pub fn worker_verification_message(is_verified: bool) -> (r: &'static str)
    ensures
        is_verified ==> r@ == "Worker verified successfully"@,
        !is_verified ==> r@ == "Worker verification revoked"@,
{
    if is_verified {
        "Worker verified successfully"
    } else {
        "Worker verification revoked"
    }
}

/// Message answering a job-seeker verification change.
pub fn job_seeker_verification_message(is_verified: bool) -> (r: &'static str)
    ensures
        is_verified ==> r@ == "Job seeker verified successfully"@,
        !is_verified ==> r@ == "Job seeker verification revoked"@,
{
    if is_verified {
        "Job seeker verified successfully"
    } else {
        "Job seeker verification revoked"
    }
}

/// Fields set by a worker-profile update.
pub open spec fn worker_fields(dto: UpdateWorkerDto, now: i64) -> Seq<(Seq<char>, ValueView)> {
    seq![("updated_at"@, ValueView::Time(now))] + entry("categories"@, opt_texts(dto.categories))
        + entry("subcategories"@, opt_texts(dto.subcategories))
        + entry("experience_years"@, opt_int32(dto.experience_years))
        + entry("description"@, opt_text_value(dto.description))
        + entry("hourly_rate"@, opt_real(dto.hourly_rate))
        + entry("license_number"@, opt_text_value(dto.license_number))
        + entry("service_areas"@, opt_texts(dto.service_areas))
        + entry("is_verified"@, opt_bool(dto.is_verified))
        + entry("is_available"@, opt_bool(dto.is_available))
}

/// The `$set` of a worker-profile update at `now` (milliseconds).
pub fn worker_update(dto: UpdateWorkerDto, now: i64) -> (r: Fields)
    ensures
        r@ == worker_fields(dto, now),
{
    let ghost d = dto;
    let mut f = Fields::new();
    f.set("updated_at", FieldValue::Time(now));
    f.set_opt_texts("categories", dto.categories);
    f.set_opt_texts("subcategories", dto.subcategories);
    f.set_opt_int32("experience_years", dto.experience_years);
    f.set_opt_text("description", dto.description);
    f.set_opt_real("hourly_rate", dto.hourly_rate);
    f.set_opt_text("license_number", dto.license_number);
    f.set_opt_texts("service_areas", dto.service_areas);
    f.set_opt_bool("is_verified", dto.is_verified);
    f.set_opt_bool("is_available", dto.is_available);
    assert(f@ =~= worker_fields(d, now));
    f
}

/// Fields set by a user-account update.
pub open spec fn user_fields(dto: UpdateUserDto, now: i64) -> Seq<(Seq<char>, ValueView)> {
    seq![("updated_at"@, ValueView::Time(now))] + entry("name"@, opt_text_value(dto.name))
        + entry("email"@, opt_text_value(dto.email))
        + entry("city"@, opt_text_value(dto.city))
        + entry("pincode"@, opt_text_value(dto.pincode))
        + entry("is_active"@, opt_bool(dto.is_active))
}

/// The `$set` of a user-account update at `now` (milliseconds).
pub fn user_update(dto: UpdateUserDto, now: i64) -> (r: Fields)
    ensures
        r@ == user_fields(dto, now),
{
    let ghost d = dto;
    let mut f = Fields::new();
    f.set("updated_at", FieldValue::Time(now));
    f.set_opt_text("name", dto.name);
    f.set_opt_text("email", dto.email);
    f.set_opt_text("city", dto.city);
    f.set_opt_text("pincode", dto.pincode);
    f.set_opt_bool("is_active", dto.is_active);
    assert(f@ =~= user_fields(d, now));
    f
}

/// The `$set` that deactivates a user account at `now` (milliseconds); user
/// accounts are never removed.
pub fn user_deactivation(now: i64) -> (r: Fields)
    ensures
        r@ == seq![("is_active"@, ValueView::Bool(false)), ("updated_at"@, ValueView::Time(now))],
{
    let mut f = Fields::new();
    f.set("is_active", FieldValue::Bool(false));
    f.set("updated_at", FieldValue::Time(now));
    assert(f@ =~= seq![("is_active"@, ValueView::Bool(false)), ("updated_at"@, ValueView::Time(now))]);
    f
}

/// Fields set by a job-status change.
pub open spec fn job_status_fields(dto: UpdateJobStatusDto, now: i64) -> Seq<(Seq<char>, ValueView)> {
    seq![("status"@, ValueView::Text(dto.status@)), ("updated_at"@, ValueView::Time(now))]
        + entry("rejection_reason"@, opt_text_value(dto.rejection_reason))
}

/// The `$set` of a job-status change at `now` (milliseconds).
pub fn job_status_update(dto: UpdateJobStatusDto, now: i64) -> (r: Fields)
    ensures
        r@ == job_status_fields(dto, now),
{
    let ghost d = dto;
    let mut f = Fields::new();
    f.set("status", FieldValue::Text(dto.status));
    f.set("updated_at", FieldValue::Time(now));
    f.set_opt_text("rejection_reason", dto.rejection_reason);
    assert(f@ =~= job_status_fields(d, now));
    f
}

/// Fields set when a service is edited: name and category always, the
/// optional attributes where given.
pub open spec fn service_fields(
    name: Seq<char>,
    category: Seq<char>,
    description: Option<String>,
    price: Option<String>,
    rating: Option<String>,
    icon: Option<String>,
    color: Option<String>,
) -> Seq<(Seq<char>, ValueView)> {
    seq![("name"@, ValueView::Text(name)), ("serviceCategory"@, ValueView::Text(category))]
        + entry("description"@, opt_text_value(description))
        + entry("price"@, opt_text_value(price))
        + entry("rating"@, opt_text_value(rating))
        + entry("icon"@, opt_text_value(icon))
        + entry("color"@, opt_text_value(color))
}

/// The `$set` that edits a service.
pub fn service_update(dto: CreateServiceDto) -> (r: Fields)
    ensures
        r@ == service_fields(
            dto.name@,
            dto.service_category@,
            dto.description,
            dto.price,
            dto.rating,
            dto.icon,
            dto.color,
        ),
{
    let ghost d = dto;
    let mut f = Fields::new();
    f.set("name", FieldValue::Text(dto.name));
    f.set("serviceCategory", FieldValue::Text(dto.service_category));
    f.set_opt_text("description", dto.description);
    f.set_opt_text("price", dto.price);
    f.set_opt_text("rating", dto.rating);
    f.set_opt_text("icon", dto.icon);
    f.set_opt_text("color", dto.color);
    assert(f@ =~= service_fields(
        d.name@,
        d.service_category@,
        d.description,
        d.price,
        d.rating,
        d.icon,
        d.color,
    ));
    f
}

/// The `$set` that edits a service given as a subcategory.
pub fn subcategory_update(dto: CreateSubcategoryDto) -> (r: Fields)
    ensures
        r@ == service_fields(
            dto.name@,
            dto.main_category_id@,
            dto.description,
            dto.price,
            dto.rating,
            dto.icon,
            dto.color,
        ),
{
    let ghost d = dto;
    let mut f = Fields::new();
    f.set("name", FieldValue::Text(dto.name));
    f.set("serviceCategory", FieldValue::Text(dto.main_category_id));
    f.set_opt_text("description", dto.description);
    f.set_opt_text("price", dto.price);
    f.set_opt_text("rating", dto.rating);
    f.set_opt_text("icon", dto.icon);
    f.set_opt_text("color", dto.color);
    assert(f@ =~= service_fields(
        d.name@,
        d.main_category_id@,
        d.description,
        d.price,
        d.rating,
        d.icon,
        d.color,
    ));
    f
}

/// Updating a worker profile with nothing but `is_verified: true` sets that
/// flag and the update time to `now`, and leaves every other field of any
/// stored profile unchanged.
pub proof fn lemma_verification_only_update(doc: Map<Seq<char>, ValueView>, dto: UpdateWorkerDto, now: i64, k: Seq<char>)
    requires
        dto.categories is None,
        dto.subcategories is None,
        dto.experience_years is None,
        dto.description is None,
        dto.hourly_rate is None,
        dto.license_number is None,
        dto.service_areas is None,
        dto.is_verified == Some(true),
        dto.is_available is None,
    ensures
        apply_set(doc, worker_fields(dto, now))["is_verified"@] == ValueView::Bool(true),
        apply_set(doc, worker_fields(dto, now))["updated_at"@] == ValueView::Time(now),
        k != "is_verified"@ && k != "updated_at"@ ==> {
            &&& apply_set(doc, worker_fields(dto, now)).contains_key(k) == doc.contains_key(k)
            &&& doc.contains_key(k) ==> apply_set(doc, worker_fields(dto, now))[k] == doc[k]
        },
{
    let s = worker_fields(dto, now);
    assert(s =~= seq![("updated_at"@, ValueView::Time(now)), ("is_verified"@, ValueView::Bool(true))]);
    reveal_strlit("updated_at");
    reveal_strlit("is_verified");
    assert("updated_at"@ != "is_verified"@) by {
        assert("updated_at"@.len() != "is_verified"@.len());
    }
    lemma_apply_set_last_wins(doc, s, 0);
    lemma_apply_set_last_wins(doc, s, 1);
    if k != "is_verified"@ && k != "updated_at"@ {
        assert(!keys_of(s).contains(k)) by {
            if keys_of(s).contains(k) {
                let i = choose|i: int| 0 <= i < s.len() && (#[trigger] s[i]).0 == k;
            }
        }
        lemma_apply_set_keeps_others(doc, s, k);
    }
}

} // verus!
