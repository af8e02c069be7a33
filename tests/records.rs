use backend::catalog::{category_subcategories, group_categories, new_service, new_subcategory_service, Service};
use backend::documents::{FieldValue, Fields};
use backend::errors::ErrorKind;
use backend::ids::DocumentId;
use backend::jobs::{new_job, CreateJobDto};
use backend::listing::{
    invoice_search, service_list_plan, subscription_list_plan, subscription_matches, subscription_search_term,
    user_list_plan, worker_list_plan, ServiceListQuery, SubscriptionListQuery, UserListQuery, WorkerListQuery,
};
use backend::notifications::{page_window, single_outcome, sort_newest_first, NotificationResponse};
use backend::numbers::{decimal_text, parse_i64};
use backend::pagination::{page_count, Pagination};
use backend::subscriptions::{
    new_subscription, parse_subscription_type, profile_removal_update, subscription_update, CreateSubscriptionDto,
    SubscriptionStatus, SubscriptionType, UpdateSubscriptionDto,
};
use backend::updates::{user_update, verification_update, worker_update, CreateServiceDto, CreateSubcategoryDto, UpdateUserDto, UpdateWorkerDto};

fn keys(f: &Fields) -> Vec<&str> {
    f.entries.iter().map(|(k, _)| k.as_str()).collect()
}

#[test]
fn page_counts() {
    assert_eq!(page_count(45, 20), 3);
    assert_eq!(page_count(0, 20), 0);
    assert_eq!(page_count(40, 20), 2);
    assert_eq!(page_count(41, 20), 3);
    assert_eq!(page_count(1, 100), 1);
    assert_eq!(page_count(5, 0), 5);
    assert_eq!(page_count(0, 0), 0);
    assert_eq!(page_count(45, -20), 45);
    assert_eq!(page_count(u64::MAX, 1), u64::MAX);
}

#[test]
fn page_selection() {
    let p = Pagination::resolve(None, None, 20, 100);
    assert_eq!((p.page, p.limit, p.skip), (1, 20, 0));
    let p = Pagination::resolve(Some(3), Some(500), 20, 100);
    assert_eq!((p.page, p.limit, p.skip), (3, 100, 200));
    let p = Pagination::resolve(Some(-4), Some(10), 20, 100);
    assert_eq!((p.page, p.limit, p.skip), (1, 10, 0));
    let p = Pagination::resolve(Some(3), Some(0), 20, 100);
    assert_eq!((p.page, p.limit, p.skip), (3, 1, 2));
    let p = Pagination::resolve(Some(2), Some(-7), 20, 100);
    assert_eq!((p.limit, p.skip), (1, 1));
    let info = Pagination::resolve(Some(2), Some(20), 20, 100).info(45);
    assert_eq!((info.page, info.limit, info.total, info.pages), (2, 20, 45, 3));
}

fn empty_worker_dto() -> UpdateWorkerDto {
    UpdateWorkerDto {
        categories: None,
        subcategories: None,
        experience_years: None,
        description: None,
        hourly_rate: None,
        license_number: None,
        service_areas: None,
        is_verified: None,
        is_available: None,
    }
}

#[test]
fn verification_only_worker_update() {
    let mut dto = empty_worker_dto();
    dto.is_verified = Some(true);
    let f = worker_update(dto, 123_456);
    assert_eq!(keys(&f), vec!["updated_at", "is_verified"]);
    assert!(matches!(f.entries[0].1, FieldValue::Time(123_456)));
    assert!(matches!(f.entries[1].1, FieldValue::Bool(true)));
}

#[test]
fn full_worker_update_keeps_order() {
    let dto = UpdateWorkerDto {
        categories: Some(vec!["plumbing".to_string()]),
        subcategories: Some(vec![]),
        experience_years: Some(4),
        description: Some("d".to_string()),
        hourly_rate: Some(12.5f64.to_bits()),
        license_number: Some("L1".to_string()),
        service_areas: Some(vec!["north".to_string()]),
        is_verified: Some(false),
        is_available: Some(true),
    };
    let f = worker_update(dto, 1);
    assert_eq!(
        keys(&f),
        vec![
            "updated_at", "categories", "subcategories", "experience_years", "description", "hourly_rate",
            "license_number", "service_areas", "is_verified", "is_available"
        ]
    );
    assert!(matches!(f.entries[3].1, FieldValue::Int32(4)));
    match &f.entries[5].1 {
        FieldValue::Real(bits) => assert_eq!(f64::from_bits(*bits), 12.5),
        other => panic!("unexpected {:?}", other),
    }
}

#[test]
fn user_and_verification_updates() {
    let f = user_update(
        UpdateUserDto { name: Some("N".to_string()), email: None, city: None, pincode: Some("1".to_string()), is_active: None },
        9,
    );
    assert_eq!(keys(&f), vec!["updated_at", "name", "pincode"]);
    let f = verification_update(false, 3);
    assert_eq!(keys(&f), vec!["is_verified", "updated_at"]);
    assert!(matches!(f.entries[0].1, FieldValue::Bool(false)));
}

fn sub_dto(days: Option<i64>) -> CreateSubscriptionDto {
    CreateSubscriptionDto {
        user_id: "aaaaaaaaaaaaaaaaaaaaaaaa".to_string(),
        subscription_type: "worker".to_string(),
        plan_name: "gold".to_string(),
        price: 499.0f64.to_bits(),
        duration_days: days,
        payment_id: Some("pay_1".to_string()),
        auto_renew: None,
    }
}

#[test]
fn new_subscription_runs_thirty_days_with_next_invoice() {
    let now = 1_700_000_000_000;
    let user = DocumentId::from_bytes([0xaa; 12]);
    let s = new_subscription(sub_dto(Some(30)), user, SubscriptionType::Worker, now, Some(41)).unwrap();
    assert_eq!(s.starts_at, now);
    assert_eq!(s.expires_at, now + 30 * 24 * 60 * 60 * 1000);
    assert_eq!(s.invoice_number, Some(42));
    assert_eq!(s.status, SubscriptionStatus::Active);
    assert!(!s.auto_renew);
    assert_eq!(s.payment_id.as_deref(), Some("pay_1"));
    let s = new_subscription(sub_dto(None), DocumentId::from_bytes([1; 12]), SubscriptionType::JobSeeker, now, None).unwrap();
    assert_eq!(s.expires_at - s.starts_at, 2_592_000_000);
    assert_eq!(s.invoice_number, Some(1));
    let e = new_subscription(sub_dto(Some(i64::MAX)), DocumentId::from_bytes([1; 12]), SubscriptionType::Worker, now, None).unwrap_err();
    assert_eq!((e.kind, e.message.as_str()), (ErrorKind::BadRequest, "Invalid duration"));
}

#[test]
fn subscription_types() {
    assert_eq!(parse_subscription_type("Worker").unwrap(), SubscriptionType::Worker);
    assert_eq!(parse_subscription_type("JOB_SEEKER").unwrap(), SubscriptionType::JobSeeker);
    assert_eq!(parse_subscription_type("jobseeker").unwrap(), SubscriptionType::JobSeeker);
    let e = parse_subscription_type("admin").unwrap_err();
    assert_eq!(e.message, "Invalid subscription type. Use 'worker' or 'jobseeker'");
    assert_eq!(SubscriptionType::JobSeeker.as_str(), "jobseeker");
}

#[test]
fn subscription_edit_and_removal() {
    let dto = UpdateSubscriptionDto { plan_name: None, price: None, status: Some("cancelled".to_string()), auto_renew: None, duration_days: Some(10), payment_id: None };
    let f = subscription_update(dto, 1_000).unwrap();
    assert_eq!(keys(&f), vec!["updated_at", "status", "expires_at"]);
    assert!(matches!(f.entries[2].1, FieldValue::Time(864_001_000)));
    let f = profile_removal_update(SubscriptionType::JobSeeker, 5);
    match &f.entries[0].1 {
        FieldValue::Text(t) => assert_eq!(t, "free"),
        other => panic!("unexpected {:?}", other),
    }
}

#[test]
fn list_plans() {
    let plan = worker_list_plan(WorkerListQuery { status: None, is_verified: Some(true), page: Some(2), limit: None });
    assert_eq!(keys(&plan.filter), vec!["is_verified"]);
    assert_eq!(plan.sort, vec![("created_at".to_string(), -1)]);
    assert_eq!(plan.page.skip, 20);
    let plan = user_list_plan(UserListQuery { is_active: None, page: None, limit: None, search: Some("ann".to_string()) });
    let search = plan.search.unwrap();
    assert_eq!(search.fields, vec!["name", "mobile", "email"]);
    assert_eq!(search.term, "ann");
    let plan = user_list_plan(UserListQuery { is_active: None, page: None, limit: None, search: Some(String::new()) });
    assert!(plan.search.is_none());
    let plan = service_list_plan(ServiceListQuery { page: None, limit: Some(1000), search: None, category: Some("Cleaning".to_string()) });
    assert_eq!(plan.page.limit, 200);
    assert_eq!(keys(&plan.filter), vec!["serviceCategory"]);
    let plan = subscription_list_plan(SubscriptionListQuery { subscription_type: Some("worker".to_string()), status: None, page: None, limit: None, search: Some(" 17 ".to_string()) });
    assert_eq!(keys(&plan.filter), vec!["subscription_type", "invoice_number"]);
    assert!(matches!(plan.filter.entries[1].1, FieldValue::Int(17)));
}

#[test]
fn subscription_search() {
    assert_eq!(invoice_search(&Some(" 42 ".to_string())), Some(42));
    assert_eq!(invoice_search(&Some("ann".to_string())), None);
    assert_eq!(subscription_search_term(&Some("Ann".to_string())), Some("Ann".to_string()));
    assert_eq!(subscription_search_term(&Some("42".to_string())), None);
    assert_eq!(subscription_search_term(&Some(String::new())), None);
    assert!(subscription_matches("ANN", "Joanna", "", "", None));
    assert!(subscription_matches("98", "", "99876", "", None));
    assert!(subscription_matches("@MAIL", "", "", "x@mail.com", None));
    assert!(subscription_matches("2-", "", "", "", Some(12)) == false);
    assert!(subscription_matches("1", "", "", "", Some(210)));
    assert!(!subscription_matches("zed", "Ann", "123", "a@b.c", Some(5)));
}

#[test]
fn numbers_both_ways() {
    assert_eq!(decimal_text(0), "0");
    assert_eq!(decimal_text(-120), "-120");
    assert_eq!(decimal_text(i64::MIN), "-9223372036854775808");
    assert_eq!(parse_i64("+7"), Some(7));
    assert_eq!(parse_i64("-"), None);
    assert_eq!(parse_i64("9223372036854775808"), None);
    assert_eq!(parse_i64("9223372036854775807"), Some(i64::MAX));
    assert_eq!(parse_i64("-9223372036854775808"), Some(i64::MIN));
    assert_eq!(parse_i64("-9223372036854775809"), None);
    assert_eq!(parse_i64("123456789012345678901234567890"), None);
    assert_eq!(parse_i64("12a"), None);
    assert_eq!(parse_i64(""), None);
    assert_eq!(parse_i64("007"), Some(7));
}

#[test]
fn document_ids() {
    let id = DocumentId::parse_str("0123456789ABCDEFabcdef00").unwrap();
    assert_eq!(id.to_hex(), "0123456789abcdefabcdef00");
    assert_eq!(*id.bytes(), vec![0x01, 0x23, 0x45, 0x67, 0x89, 0xab, 0xcd, 0xef, 0xab, 0xcd, 0xef, 0x00]);
    assert!(DocumentId::parse_str("0123").is_none());
    assert!(DocumentId::parse_str("0123456789abcdefabcdef0g").is_none());
    assert!(DocumentId::parse_str("0123456789abcdefabcdef000").is_none());
    let e = DocumentId::parse_request_id("nope", "Invalid worker ID").unwrap_err();
    assert_eq!((e.kind, e.message.as_str(), e.status_code()), (ErrorKind::BadRequest, "Invalid worker ID", 400));
}

fn service(n: u8, name: &str, category: &str, icon: &str) -> Service {
    Service {
        id: DocumentId::from_bytes([n; 12]),
        service_id: format!("SRV-{}", n),
        name: name.to_string(),
        service_category: category.to_string(),
        price: "0".to_string(),
        rating: "0.0".to_string(),
        description: format!("about {}", name),
        icon: icon.to_string(),
        color: String::new(),
    }
}

#[test]
fn categories_grouped_and_sorted() {
    let services = vec![
        service(1, "Tap fix", "Plumbing", "tap"),
        service(2, "Deep clean", "Cleaning", "broom"),
        service(3, "Pipe fit", "Plumbing", "pipe"),
        service(4, "Wiring", "Electrical", "bolt"),
    ];
    let cats = group_categories(&services);
    let names: Vec<&str> = cats.iter().map(|c| c.name.as_str()).collect();
    assert_eq!(names, vec!["Cleaning", "Electrical", "Plumbing"]);
    let plumbing = &cats[2];
    assert_eq!(plumbing.id, "Plumbing");
    assert_eq!(plumbing.icon.as_deref(), Some("tap"));
    let subs: Vec<&str> = plumbing.subcategories.iter().map(|s| s.name.as_str()).collect();
    assert_eq!(subs, vec!["Tap fix", "Pipe fit"]);
    assert_eq!(plumbing.subcategories[0].id, "010101010101010101010101");
    assert_eq!(plumbing.subcategories[1].description.as_deref(), Some("about Pipe fit"));
    assert!(group_categories(&vec![]).is_empty());
    let e = category_subcategories(&vec![]).unwrap_err();
    assert_eq!((e.kind, e.message.as_str()), (ErrorKind::NotFound, "Category not found"));
    assert_eq!(category_subcategories(&services).unwrap().len(), 4);
}

#[test]
fn new_services_get_defaults() {
    let dto = CreateServiceDto { name: "Tap fix".to_string(), service_category: "Plumbing".to_string(), price: None, description: None, icon: None, color: None, rating: Some("4.5".to_string()) };
    let s = new_service(dto, DocumentId::from_bytes([1; 12]), &DocumentId::from_bytes([2; 12]));
    assert_eq!(s.service_id, "SRV-020202020202020202020202");
    assert_eq!((s.price.as_str(), s.rating.as_str(), s.color.as_str(), s.description.as_str()), ("0", "4.5", "#0EA5E9", ""));
    let dto = CreateSubcategoryDto { main_category_id: "Cleaning".to_string(), name: "Sofa".to_string(), description: Some("d".to_string()), order: None, is_active: None, price: Some("10".to_string()), rating: None, icon: None, color: None };
    let s = new_subcategory_service(dto, DocumentId::from_bytes([1; 12]), &DocumentId::from_bytes([3; 12]));
    assert_eq!((s.service_category.as_str(), s.price.as_str(), s.rating.as_str()), ("Cleaning", "10", "0.0"));
}

fn note(id: &str, at: i64) -> NotificationResponse {
    NotificationResponse {
        id: id.to_string(),
        user_id: String::new(),
        notification_type: "new_worker".to_string(),
        title: String::new(),
        body: String::new(),
        related_id: None,
        is_read: false,
        created_at: at,
    }
}

#[test]
fn notifications_newest_first_and_paged() {
    let sorted = sort_newest_first(vec![note("a", 1), note("b", 3), note("c", 2), note("d", 3)]);
    let ids: Vec<&str> = sorted.iter().map(|n| n.id.as_str()).collect();
    assert_eq!(ids, vec!["b", "d", "c", "a"]);
    let page = page_window(sorted, Some(2), Some(3));
    let ids: Vec<&str> = page.iter().map(|n| n.id.as_str()).collect();
    assert_eq!(ids, vec!["a"]);
    let page = page_window(vec![note("x", 0), note("y", 0)], Some(0), None);
    assert_eq!(page.len(), 2);
    assert!(page_window(vec![note("x", 0)], Some(u64::MAX), Some(u64::MAX)).is_empty());
    assert_eq!(single_outcome(0).unwrap_err().status_code(), 404);
    assert!(single_outcome(1).is_ok());
}

#[test]
fn new_jobs_start_active() {
    let dto = CreateJobDto {
        title: "Electrician".to_string(),
        company: Some("Acme".to_string()),
        description: None,
        location: None,
        job_type: None,
        category: None,
        salary_min: Some(1000.0f64.to_bits()),
        salary_max: None,
        requirements: Some(vec!["license".to_string()]),
    };
    let job = new_job(dto, 77);
    assert_eq!(job.status, "active");
    assert_eq!(job.applications_count, 0);
    assert_eq!((job.created_at, job.updated_at), (77, 77));
    assert_eq!(job.salary_min.map(f64::from_bits), Some(1000.0));
    assert!(job.id.is_none() && job.posted_by.is_none() && job.rejection_reason.is_none());
    assert_eq!(job.requirements, Some(vec!["license".to_string()]));
}
