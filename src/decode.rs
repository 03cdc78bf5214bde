use vstd::prelude::*;
use crate::json::{json_of, member_view, parse_json, Json, JsonView};
use crate::models::{product_views, report_views, FetchError, Product, ProductView, Report, ReportView};

verus! {

/// The text of the member of `j` named `key`, when that member is a string.
pub open spec fn text_of(j: JsonView, key: Seq<char>) -> Option<Seq<char>> {
    match member_view(j, key) {
        Some(JsonView::Str(s)) => Some(s),
        _ => None,
    }
}

/// The text under `outer`, then `inner`, when it is a string.
pub open spec fn nested_text_of(j: JsonView, outer: Seq<char>, inner: Seq<char>) -> Option<Seq<char>> {
    match member_view(j, outer) {
        Some(o) => text_of(o, inner),
        None => None,
    }
}

/// The report that a record describes: its `title`, `url`, `reportedOn` and
/// `user.login_name` strings; `None` when one of them is missing or no string.
pub open spec fn report_record(j: JsonView) -> Option<ReportView> {
    let title = text_of(j, "title"@);
    let url = text_of(j, "url"@);
    let reported_on = text_of(j, "reportedOn"@);
    let login_name = nested_text_of(j, "user"@, "login_name"@);
    if title is Some && url is Some && reported_on is Some && login_name is Some {
        Some(
            ReportView {
                title: title->Some_0,
                url: url->Some_0,
                reported_on: reported_on->Some_0,
                login_name: login_name->Some_0,
            },
        )
    } else {
        None
    }
}

/// Whether a product record names someone in charge: `checker_name` is
/// present and not null.
pub open spec fn checker_present(j: JsonView) -> bool {
    match member_view(j, "checker_name"@) {
        Some(JsonView::Null) => false,
        Some(_) => true,
        None => false,
    }
}

/// The product that a record describes: its `practice.title`, `url`,
/// `updated_at` and `user.login_name` strings, assigned when a checker is
/// named; `None` when one of the strings is missing or no string.
pub open spec fn product_record(j: JsonView) -> Option<ProductView> {
    let title = nested_text_of(j, "practice"@, "title"@);
    let url = text_of(j, "url"@);
    let updated_on = text_of(j, "updated_at"@);
    let login_name = nested_text_of(j, "user"@, "login_name"@);
    if title is Some && url is Some && updated_on is Some && login_name is Some {
        Some(
            ProductView {
                title: title->Some_0,
                url: url->Some_0,
                updated_on: updated_on->Some_0,
                login_name: login_name->Some_0,
                assigned: checker_present(j),
            },
        )
    } else {
        None
    }
}

/// The reports of a list of records, in order; `None` when any record is
/// malformed.
pub open spec fn report_records(rs: Seq<JsonView>) -> Option<Seq<ReportView>>
    decreases rs.len(),
{
    if rs.len() == 0 {
        Some(Seq::empty())
    } else {
        match (report_records(rs.drop_last()), report_record(rs.last())) {
            (Some(a), Some(r)) => Some(a.push(r)),
            _ => None,
        }
    }
}

/// The products of a list of records, in order; `None` when any record is
/// malformed.
pub open spec fn product_records(rs: Seq<JsonView>) -> Option<Seq<ProductView>>
    decreases rs.len(),
{
    if rs.len() == 0 {
        Some(Seq::empty())
    } else {
        match (product_records(rs.drop_last()), product_record(rs.last())) {
            (Some(a), Some(p)) => Some(a.push(p)),
            _ => None,
        }
    }
}

/// The records of the array named `key` in a document; `None` when there is
/// no document, it is no object, or the member is no array.
pub open spec fn page_records(doc: Option<JsonView>, key: Seq<char>) -> Option<Seq<JsonView>> {
    match doc {
        Some(d) => match member_view(d, key) {
            Some(JsonView::Array(rs)) => Some(rs),
            _ => None,
        },
        None => None,
    }
}

/// The reports of a page document: its `reports` array, record by record.
pub open spec fn report_page(doc: Option<JsonView>) -> Option<Seq<ReportView>> {
    match page_records(doc, "reports"@) {
        Some(rs) => report_records(rs),
        None => None,
    }
}

/// The products of a page document: its `products` array, record by record.
pub open spec fn product_page(doc: Option<JsonView>) -> Option<Seq<ProductView>> {
    match page_records(doc, "products"@) {
        Some(rs) => product_records(rs),
        None => None,
    }
}

proof fn lemma_report_records_fail_onward(rs: Seq<JsonView>, i: int)
    requires
        0 <= i <= rs.len(),
        report_records(rs.take(i)) is None,
    ensures
        report_records(rs) is None,
    decreases rs.len() - i,
{
    if i < rs.len() {
        assert(rs.take(i + 1).drop_last() =~= rs.take(i));
        lemma_report_records_fail_onward(rs, i + 1);
    } else {
        assert(rs.take(i) =~= rs);
    }
}

proof fn lemma_product_records_fail_onward(rs: Seq<JsonView>, i: int)
    requires
        0 <= i <= rs.len(),
        product_records(rs.take(i)) is None,
    ensures
        product_records(rs) is None,
    decreases rs.len() - i,
{
    if i < rs.len() {
        assert(rs.take(i + 1).drop_last() =~= rs.take(i));
        lemma_product_records_fail_onward(rs, i + 1);
    } else {
        assert(rs.take(i) =~= rs);
    }
}

/// The text of the member of `v` named `key`, when that member is a string.
fn text_member(v: &Json, key: &str) -> (r: Option<String>)
    ensures
        match r {
            Some(s) => text_of(v@, key@) == Some(s@),
            None => text_of(v@, key@) is None,
        },
{
    match v.member(key) {
        Some(Json::Str(s)) => Some(s.clone()),
        _ => None,
    }
}

/// The text under `outer`, then `inner`, when it is a string.
fn nested_text_member(v: &Json, outer: &str, inner: &str) -> (r: Option<String>)
    ensures
        match r {
            Some(s) => nested_text_of(v@, outer@, inner@) == Some(s@),
            None => nested_text_of(v@, outer@, inner@) is None,
        },
{
    match v.member(outer) {
        Some(m) => text_member(m, inner),
        None => None,
    }
}

/// The records of the array named `key` in `doc`.
fn record_array<'a>(doc: &'a Json, key: &str) -> (r: Option<&'a Vec<Json>>)
    ensures
        match r {
            Some(a) => page_records(Some(doc@), key@) == Some(a@.map_values(|j: Json| j@)),
            None => page_records(Some(doc@), key@) is None,
        },
{
    let m = doc.member(key);
    match m {
        Some(Json::Array(a)) => {
            assert(a@.map_values(|j: Json| j@) =~= match (m->Some_0)@ {
                JsonView::Array(rs) => rs,
                _ => Seq::empty(),
            });
            Some(a)
        },
        _ => None,
    }
}

/// A report from one record.
pub fn decode_report(record: &Json) -> (r: Result<Report, FetchError>)
    ensures
        r is Ok <==> report_record(record@) is Some,
        r is Ok ==> r->Ok_0@ == report_record(record@)->Some_0,
        r is Err ==> r->Err_0 == FetchError::Decode,
{
    let title = text_member(record, "title");
    let url = text_member(record, "url");
    let reported_on = text_member(record, "reportedOn");
    let login_name = nested_text_member(record, "user", "login_name");
    Report::from_fields(title, url, reported_on, login_name)
}

/// A product from one record.
pub fn decode_product(record: &Json) -> (r: Result<Product, FetchError>)
    ensures
        r is Ok <==> product_record(record@) is Some,
        r is Ok ==> r->Ok_0@ == product_record(record@)->Some_0,
        r is Err ==> r->Err_0 == FetchError::Decode,
{
    let title = nested_text_member(record, "practice", "title");
    let url = text_member(record, "url");
    let updated_on = text_member(record, "updated_at");
    let login_name = nested_text_member(record, "user", "login_name");
    let assigned = match record.member("checker_name") {
        Some(Json::Null) => false,
        Some(_) => true,
        None => false,
    };
    Product::from_fields(title, url, updated_on, login_name, assigned)
}

/// The reports of one page body, in order. A body that is not JSON, lacks the
/// `reports` array, or holds a malformed record fails as a whole.
pub fn decode_report_page(body: &str) -> (r: Result<Vec<Report>, FetchError>)
    ensures
        r is Ok <==> report_page(json_of(body@)) is Some,
        r is Ok ==> report_views(r->Ok_0@) == report_page(json_of(body@))->Some_0,
        r is Err ==> r->Err_0 == FetchError::Decode,
{
    let doc = match parse_json(body) {
        Ok(doc) => doc,
        Err(_) => return Err(FetchError::Decode),
    };
    let records = match record_array(&doc, "reports") {
        Some(a) => a,
        None => return Err(FetchError::Decode),
    };
    let ghost rs = records@.map_values(|j: Json| j@);
    let mut reports: Vec<Report> = Vec::new();
    let mut i: usize = 0;
    while i < records.len()
        invariant
            i <= records@.len(),
            rs == records@.map_values(|j: Json| j@),
            page_records(json_of(body@), "reports"@) == Some(rs),
            report_records(rs.take(i as int)) == Some(report_views(reports@)),
        decreases records@.len() - i,
    {
        proof {
            assert(rs.take(i + 1).drop_last() =~= rs.take(i as int));
            assert(rs.take(i + 1).last() == records@[i as int]@);
        }
        let ghost before = reports@;
        match decode_report(&records[i]) {
            Ok(r) => {
                reports.push(r);
                assert(report_views(reports@) =~= report_views(before).push(reports@.last()@));
            },
            Err(e) => {
                proof {
                    assert(report_record(rs.take(i + 1).last()) is None);
                    assert(report_records(rs.take(i + 1)) is None);
                    lemma_report_records_fail_onward(rs, i + 1);
                }
                return Err(e);
            },
        }
        i = i + 1;
    }
    proof {
        assert(rs.take(i as int) =~= rs);
    }
    Ok(reports)
}

/// The products of one page body, in order. A body that is not JSON, lacks the
/// `products` array, or holds a malformed record fails as a whole.
pub fn decode_product_page(body: &str) -> (r: Result<Vec<Product>, FetchError>)
    ensures
        r is Ok <==> product_page(json_of(body@)) is Some,
        r is Ok ==> product_views(r->Ok_0@) == product_page(json_of(body@))->Some_0,
        r is Err ==> r->Err_0 == FetchError::Decode,
{
    let doc = match parse_json(body) {
        Ok(doc) => doc,
        Err(_) => return Err(FetchError::Decode),
    };
    let records = match record_array(&doc, "products") {
        Some(a) => a,
        None => return Err(FetchError::Decode),
    };
    let ghost rs = records@.map_values(|j: Json| j@);
    let mut products: Vec<Product> = Vec::new();
    let mut i: usize = 0;
    while i < records.len()
        invariant
            i <= records@.len(),
            rs == records@.map_values(|j: Json| j@),
            page_records(json_of(body@), "products"@) == Some(rs),
            product_records(rs.take(i as int)) == Some(product_views(products@)),
        decreases records@.len() - i,
    {
        proof {
            assert(rs.take(i + 1).drop_last() =~= rs.take(i as int));
            assert(rs.take(i + 1).last() == records@[i as int]@);
        }
        let ghost before = products@;
        match decode_product(&records[i]) {
            Ok(p) => {
                products.push(p);
                assert(product_views(products@) =~= product_views(before).push(products@.last()@));
            },
            Err(e) => {
                proof {
                    assert(product_record(rs.take(i + 1).last()) is None);
                    assert(product_records(rs.take(i + 1)) is None);
                    lemma_product_records_fail_onward(rs, i + 1);
                }
                return Err(e);
            },
        }
        i = i + 1;
    }
    proof {
        assert(rs.take(i as int) =~= rs);
    }
    Ok(products)
}

} // verus!
