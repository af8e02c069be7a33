//! Job postings created by admins. Salaries hold IEEE-754 binary64 bits,
//! which this library never computes with.

use vstd::prelude::*;
use crate::documents::texts_view;
use crate::ids::DocumentId;
use crate::tokens::opt_text;

verus! {

/// A stored job posting. Times are milliseconds since the Unix epoch.
#[derive(Debug)]
pub struct Job {
    pub id: Option<DocumentId>,
    pub title: String,
    pub company: Option<String>,
    pub description: Option<String>,
    pub location: Option<String>,
    pub job_type: Option<String>,
    pub category: Option<String>,
    pub salary_min: Option<u64>,
    pub salary_max: Option<u64>,
    pub requirements: Option<Vec<String>>,
    pub status: String,
    pub rejection_reason: Option<String>,
    pub applications_count: i32,
    pub posted_by: Option<DocumentId>,
    pub created_at: i64,
    pub updated_at: i64,
}

/// A job posting as an admin submits it.
#[derive(Debug)]
pub struct CreateJobDto {
    pub title: String,
    pub company: Option<String>,
    pub description: Option<String>,
    pub location: Option<String>,
    pub job_type: Option<String>,
    pub category: Option<String>,
    pub salary_min: Option<u64>,
    pub salary_max: Option<u64>,
    pub requirements: Option<Vec<String>>,
}

pub open spec fn opt_texts_view(o: Option<Vec<String>>) -> Option<Seq<Seq<char>>> {
    match o {
        Some(v) => Some(texts_view(v@)),
        None => None,
    }
}

/// A new posting from an admin's form at `now`: active, not yet stored, with
/// no applications, no poster and no rejection reason.
pub fn new_job(dto: CreateJobDto, now: i64) -> (r: Job)
    ensures
        r.id is None,
        r.title@ == dto.title@,
        opt_text(r.company) == opt_text(dto.company),
        opt_text(r.description) == opt_text(dto.description),
        opt_text(r.location) == opt_text(dto.location),
        opt_text(r.job_type) == opt_text(dto.job_type),
        opt_text(r.category) == opt_text(dto.category),
        r.salary_min == dto.salary_min,
        r.salary_max == dto.salary_max,
        opt_texts_view(r.requirements) == opt_texts_view(dto.requirements),
        r.status@ == "active"@,
        r.rejection_reason is None,
        r.applications_count == 0,
        r.posted_by is None,
        r.created_at == now,
        r.updated_at == now,
{
    Job {
        id: None,
        title: dto.title,
        company: dto.company,
        description: dto.description,
        location: dto.location,
        job_type: dto.job_type,
        category: dto.category,
        salary_min: dto.salary_min,
        salary_max: dto.salary_max,
        requirements: dto.requirements,
        status: "active".to_string(),
        rejection_reason: None,
        applications_count: 0,
        posted_by: None,
        created_at: now,
        updated_at: now,
    }
}

} // verus!
