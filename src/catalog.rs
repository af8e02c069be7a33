//! The service catalogue. Categories are not stored on their own: a
//! category is the name that services carry in their category field, and its
//! subcategories are those services.

use vstd::prelude::*;
use crate::errors::{fails_with, ApiError, ErrorKind};
use crate::ids::{hex_text, DocumentId};
use crate::text::{lemma_text_lt_total, lemma_text_lt_transitive, text_less, text_lt};
use crate::updates::{CreateServiceDto, CreateSubcategoryDto};

verus! {

/// A stored service.
#[derive(Debug)]
pub struct Service {
    pub id: DocumentId,
    pub service_id: String,
    pub name: String,
    pub service_category: String,
    pub price: String,
    pub rating: String,
    pub description: String,
    pub icon: String,
    pub color: String,
}

/// A service listed under its category.
#[derive(Debug)]
pub struct SubCategoryResponse {
    pub id: String,
    pub name: String,
    pub description: Option<String>,
}

/// A category with its services.
#[derive(Debug)]
pub struct CategoryResponse {
    pub id: String,
    pub name: String,
    pub description: Option<String>,
    pub icon: Option<String>,
    pub subcategories: Vec<SubCategoryResponse>,
}

pub open spec fn or_text(o: Option<String>, d: Seq<char>) -> Seq<char> {
    match o {
        Some(s) => s@,
        None => d,
    }
}

/// Default price, rating and colour of a new service.
pub open spec fn default_price() -> Seq<char> {
    "0"@
}

pub open spec fn default_rating() -> Seq<char> {
    "0.0"@
}

pub open spec fn default_color() -> Seq<char> {
    "#0EA5E9"@
}

/// `s` is the service that the given attributes describe, stored under `id`
/// with the catalogue code `SRV-` followed by the hex text of `code`.
pub open spec fn is_new_service(
    s: Service,
    id: Seq<u8>,
    code: Seq<u8>,
    name: Seq<char>,
    category: Seq<char>,
    price: Option<String>,
    rating: Option<String>,
    description: Option<String>,
    icon: Option<String>,
    color: Option<String>,
) -> bool {
    &&& s.id@ == id
    &&& s.service_id@ == "SRV-"@ + hex_text(code)
    &&& s.name@ == name
    &&& s.service_category@ == category
    &&& s.price@ == or_text(price, default_price())
    &&& s.rating@ == or_text(rating, default_rating())
    &&& s.description@ == or_text(description, ""@)
    &&& s.icon@ == or_text(icon, ""@)
    &&& s.color@ == or_text(color, default_color())
}

fn text_or(o: Option<String>, d: &str) -> (r: String)
    ensures
        r@ == or_text(o, d@),
{
    match o {
        Some(s) => s,
        None => d.to_string(),
    }
}

fn service_code(code: &DocumentId) -> (r: String)
    ensures
        r@ == "SRV-"@ + hex_text(code@),
{
    let mut s = "SRV-".to_string();
    let h = code.to_hex();
    s.append(h.as_str());
    s
}

/// A new service from an admin's form, stored under `id`, with its
/// catalogue code made from `code`.
pub fn new_service(dto: CreateServiceDto, id: DocumentId, code: &DocumentId) -> (r: Service)
    ensures
        is_new_service(
            r,
            id@,
            code@,
            dto.name@,
            dto.service_category@,
            dto.price,
            dto.rating,
            dto.description,
            dto.icon,
            dto.color,
        ),
{
    Service {
        id,
        service_id: service_code(code),
        name: dto.name,
        service_category: dto.service_category,
        price: text_or(dto.price, "0"),
        rating: text_or(dto.rating, "0.0"),
        description: text_or(dto.description, ""),
        icon: text_or(dto.icon, ""),
        color: text_or(dto.color, "#0EA5E9"),
    }
}

/// A new service from a subcategory form: its category is the form's main
/// category.
pub fn new_subcategory_service(dto: CreateSubcategoryDto, id: DocumentId, code: &DocumentId) -> (r: Service)
    ensures
        is_new_service(
            r,
            id@,
            code@,
            dto.name@,
            dto.main_category_id@,
            dto.price,
            dto.rating,
            dto.description,
            dto.icon,
            dto.color,
        ),
{
    Service {
        id,
        service_id: service_code(code),
        name: dto.name,
        service_category: dto.main_category_id,
        price: text_or(dto.price, "0"),
        rating: text_or(dto.rating, "0.0"),
        description: text_or(dto.description, ""),
        icon: text_or(dto.icon, ""),
        color: text_or(dto.color, "#0EA5E9"),
    }
}

/// `r` lists service `s`: hex identifier, name and description.
pub open spec fn lists_service(r: SubCategoryResponse, s: Service) -> bool {
    &&& r.id@ == hex_text(s.id@)
    &&& r.name@ == s.name@
    &&& r.description matches Some(d) && d@ == s.description@
}

/// How a service is listed under its category.
pub fn subcategory_of(s: &Service) -> (r: SubCategoryResponse)
    ensures
        lists_service(r, *s),
{
    SubCategoryResponse { id: s.id.to_hex(), name: s.name.clone(), description: Some(s.description.clone()) }
}

/// The services of one category, listed in the order given; a category with
/// no services is not found.
pub fn category_subcategories(services: &Vec<Service>) -> (r: Result<Vec<SubCategoryResponse>, ApiError>)
    ensures
        services@.len() == 0 ==> fails_with(r, ErrorKind::NotFound, "Category not found"@),
        services@.len() > 0 ==> (r matches Ok(v) && v@.len() == services@.len()
            && forall|i: int| 0 <= i < v@.len() ==> lists_service(#[trigger] v@[i], services@[i])),
{
    if services.len() == 0 {
        return Err(ApiError::not_found("Category not found"));
    }
    let mut out: Vec<SubCategoryResponse> = Vec::new();
    let mut i: usize = 0;
    while i < services.len()
        invariant
            i <= services@.len(),
            out@.len() == i,
            forall|k: int| 0 <= k < i ==> lists_service(#[trigger] out@[k], services@[k]),
        decreases services@.len() - i,
    {
        out.push(subcategory_of(&services[i]));
        i = i + 1;
    }
    Ok(out)
}

/// Texts in strictly rising code-point order.
pub open spec fn strictly_rising(s: Seq<Seq<char>>) -> bool {
    forall|i: int, j: int| 0 <= i < j < s.len() ==> text_lt(#[trigger] s[i], #[trigger] s[j])
}

pub open spec fn texts_of(v: Seq<String>) -> Seq<Seq<char>> {
    v.map_values(|s: String| s@)
}

/// Some service among the first `n` carries the category `c`.
pub open spec fn has_category(services: Seq<Service>, n: int, c: Seq<char>) -> bool {
    exists|j: int| 0 <= j < n && (#[trigger] services[j]).service_category@ == c
}

/// The services of category `c`, in the order given.
pub open spec fn services_in(services: Seq<Service>, c: Seq<char>) -> Seq<Service> {
    services.filter(|s: Service| s.service_category@ == c)
}

fn insert_name(names: &mut Vec<String>, c: &String)
    requires
        strictly_rising(texts_of(old(names)@)),
    ensures
        strictly_rising(texts_of(final(names)@)),
        forall|x: Seq<char>|
            texts_of(final(names)@).contains(x) <==> (texts_of(old(names)@).contains(x) || x == c@),
{
    let ghost old_names = texts_of(names@);
    let mut p: usize = 0;
    while p < names.len() && text_less(names[p].as_str(), c.as_str())
        invariant
            p <= names@.len(),
            texts_of(names@) == old_names,
            strictly_rising(old_names),
            forall|k: int| 0 <= k < p ==> text_lt(#[trigger] old_names[k], c@),
        decreases names@.len() - p,
    {
        p = p + 1;
    }
    if p < names.len() && names[p] == *c {
        assert(old_names[p as int] == c@);
        assert forall|x: Seq<char>| old_names.contains(x) <==> (old_names.contains(x) || x == c@) by {
            if x == c@ {
                assert(old_names[p as int] == x);
            }
        }
        return;
    }
    proof {
        if p < old_names.len() {
            assert(old_names[p as int] != c@);
            lemma_text_lt_total(old_names[p as int], c@);
            assert forall|k: int| p < k < old_names.len() implies text_lt(c@, #[trigger] old_names[k]) by {
                lemma_text_lt_transitive(c@, old_names[p as int], old_names[k]);
            }
        }
    }
    names.insert(p, c.clone());
    let ghost new_names = texts_of(names@);
    assert(new_names =~= old_names.insert(p as int, c@));
    assert forall|i: int, j: int| 0 <= i < j < new_names.len() implies text_lt(
        #[trigger] new_names[i],
        #[trigger] new_names[j],
    ) by {
        if j < p {
        } else if j == p {
        } else if i < p {
            assert(new_names[j] == old_names[j - 1]);
            lemma_text_lt_transitive(old_names[i], c@, old_names[j - 1]);
        } else if i == p {
        } else {
            assert(new_names[i] == old_names[i - 1]);
            assert(new_names[j] == old_names[j - 1]);
        }
    }
    assert forall|x: Seq<char>| new_names.contains(x) <==> (old_names.contains(x) || x == c@) by {
        if new_names.contains(x) {
            let i = choose|i: int| 0 <= i < new_names.len() && new_names[i] == x;
            if i < p {
                assert(old_names[i] == x);
            } else if i > p {
                assert(old_names[i - 1] == x);
            }
        }
        if old_names.contains(x) {
            let i = choose|i: int| 0 <= i < old_names.len() && old_names[i] == x;
            if i < p {
                assert(new_names[i] == x);
            } else {
                assert(new_names[i + 1] == x);
            }
        }
        if x == c@ {
            assert(new_names[p as int] == x);
        }
    }
}

/// The category names of `services`, once each, in rising order.
pub fn category_names(services: &Vec<Service>) -> (r: Vec<String>)
    ensures
        strictly_rising(texts_of(r@)),
        forall|x: Seq<char>| texts_of(r@).contains(x) <==> has_category(services@, services@.len() as int, x),
{
    let mut names: Vec<String> = Vec::new();
    assert(texts_of(names@) =~= Seq::<Seq<char>>::empty());
    let mut i: usize = 0;
    while i < services.len()
        invariant
            i <= services@.len(),
            strictly_rising(texts_of(names@)),
            forall|x: Seq<char>| texts_of(names@).contains(x) <==> has_category(services@, i as int, x),
        decreases services@.len() - i,
    {
        insert_name(&mut names, &services[i].service_category);
        assert forall|x: Seq<char>| texts_of(names@).contains(x) <==> has_category(services@, i + 1, x) by {
            if x == services@[i as int].service_category@ {
                assert(has_category(services@, i + 1, x));
            }
            if has_category(services@, i + 1, x) {
                let j = choose|j: int| 0 <= j < i + 1 && (#[trigger] services@[j]).service_category@ == x;
                if j < i {
                    assert(has_category(services@, i as int, x));
                }
            }
            if has_category(services@, i as int, x) {
                let j = choose|j: int| 0 <= j < i && (#[trigger] services@[j]).service_category@ == x;
                assert(has_category(services@, i + 1, x));
            }
        }
        i = i + 1;
    }
    names
}

/// The listing of category `c`: its services in the order given, and the
/// icon of the first of them.
pub open spec fn lists_category(r: CategoryResponse, services: Seq<Service>, c: Seq<char>) -> bool {
    let f = services_in(services, c);
    &&& r.id@ == c
    &&& r.name@ == c
    &&& r.description is None
    &&& f.len() > 0
    &&& r.icon matches Some(ic) && ic@ == f[0].icon@
    &&& r.subcategories@.len() == f.len()
    &&& forall|k: int| 0 <= k < f.len() ==> lists_service(#[trigger] r.subcategories@[k], f[k])
}

fn category_of(services: &Vec<Service>, c: &String) -> (r: CategoryResponse)
    requires
        has_category(services@, services@.len() as int, c@),
    ensures
        lists_category(r, services@, c@),
{
    let ghost pred = |s: Service| s.service_category@ == c@;
    let mut subs: Vec<SubCategoryResponse> = Vec::new();
    let mut icon: Option<String> = None;
    let mut i: usize = 0;
    while i < services.len()
        invariant
            i <= services@.len(),
            pred == (|s: Service| s.service_category@ == c@),
            subs@.len() == services@.subrange(0, i as int).filter(pred).len(),
            forall|k: int|
                0 <= k < subs@.len() ==> lists_service(
                    #[trigger] subs@[k],
                    services@.subrange(0, i as int).filter(pred)[k],
                ),
            subs@.len() == 0 <==> icon is None,
            icon matches Some(ic) ==> ic@ == services@.subrange(0, i as int).filter(pred)[0].icon@,
        decreases services@.len() - i,
    {
        let ghost before = services@.subrange(0, i as int);
        let ghost after = services@.subrange(0, i + 1);
        assert(after =~= before.push(services@[i as int]));
        proof {
            before.lemma_filter_push(services@[i as int], pred);
        }
        if services[i].service_category == *c {
            assert(after.filter(pred) == before.filter(pred).push(services@[i as int]));
            if icon.is_none() {
                icon = Some(services[i].icon.clone());
            }
            subs.push(subcategory_of(&services[i]));
        } else {
            assert(after.filter(pred) == before.filter(pred));
        }
        i = i + 1;
    }
    assert(services@.subrange(0, services@.len() as int) =~= services@);
    proof {
        let j = choose|j: int| 0 <= j < services@.len() && (#[trigger] services@[j]).service_category@ == c@;
        services@.lemma_filter_contains_rev(pred, services@[j]);
    }
    CategoryResponse { id: c.clone(), name: c.clone(), description: None, icon, subcategories: subs }
}

/// All categories of `services`, each once, in rising order of name, each
/// with its services in the order given.
pub fn group_categories(services: &Vec<Service>) -> (r: Vec<CategoryResponse>)
    ensures
        strictly_rising(r@.map_values(|c: CategoryResponse| c.name@)),
        forall|x: Seq<char>|
            r@.map_values(|c: CategoryResponse| c.name@).contains(x) <==> has_category(
                services@,
                services@.len() as int,
                x,
            ),
        forall|i: int| 0 <= i < r@.len() ==> lists_category(#[trigger] r@[i], services@, r@[i].name@),
{
    let names = category_names(services);
    let mut out: Vec<CategoryResponse> = Vec::new();
    let mut k: usize = 0;
    while k < names.len()
        invariant
            k <= names@.len(),
            strictly_rising(texts_of(names@)),
            forall|x: Seq<char>| texts_of(names@).contains(x) <==> has_category(services@, services@.len() as int, x),
            out@.len() == k,
            forall|i: int| 0 <= i < k ==> (#[trigger] out@[i]).name@ == names@[i]@,
            forall|i: int| 0 <= i < k ==> lists_category(#[trigger] out@[i], services@, out@[i].name@),
        decreases names@.len() - k,
    {
        assert(texts_of(names@)[k as int] == names@[k as int]@);
        assert(texts_of(names@).contains(names@[k as int]@));
        out.push(category_of(services, &names[k]));
        k = k + 1;
    }
    assert(out@.map_values(|c: CategoryResponse| c.name@) =~= texts_of(names@));
    out
}

} // verus!
