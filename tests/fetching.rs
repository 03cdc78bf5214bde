use fjord_review::{
    decode_product, decode_product_page, decode_report, decode_report_page, product_table_rows,
    report_table_rows, unassigned_products, FetchError, Json, Pager, Product, Report,
};

#[test]
fn pager_gathers_pages_until_empty_one() {
    let mut pager: Pager<char> = Pager::new();
    let pages = vec![vec!['a'], vec!['b'], vec![]];
    let mut requests = Vec::new();
    while let Some(n) = pager.next_request() {
        requests.push(n);
        pager.receive(pages[(n - 1) as usize].clone());
    }
    assert_eq!(requests, vec![1, 2, 3]);
    assert_eq!(pager.into_items(), Some(vec!['a', 'b']));
}

#[test]
fn pager_pauses_only_between_requests() {
    let mut pager: Pager<u32> = Pager::new();
    assert!(!pager.pause_before_request());
    pager.receive(vec![1, 2]);
    assert!(pager.pause_before_request());
    pager.receive(vec![]);
    assert!(!pager.pause_before_request());
    assert_eq!(pager.next_request(), None);
}

#[test]
fn pager_hands_out_nothing_before_the_end() {
    let mut pager: Pager<u32> = Pager::new();
    pager.receive(vec![7]);
    assert_eq!(pager.into_items(), None);
    let empty: Pager<u32> = Pager::new();
    let mut empty = empty;
    empty.receive(vec![]);
    assert_eq!(empty.into_items(), Some(vec![]));
}

const REPORT_PAGE: &str = r#"{"reports":[
  {"title":"Day 1","url":"https://example.org/reports/1","reportedOn":"2021-02-01","user":{"login_name":"alice"}},
  {"title":"Day 2","url":"https://example.org/reports/2","reportedOn":"2021-02-02","user":{"login_name":"bob"}}
]}"#;

const PRODUCT_PAGE: &str = r#"{"products":[
  {"practice":{"title":"Task A"},"url":"https://example.org/products/1","updated_at":"2021-03-01","user":{"login_name":"carol"},"checker_name":null},
  {"practice":{"title":"Task B"},"url":"https://example.org/products/2","updated_at":"2021-03-02","user":{"login_name":"dave"},"checker_name":"erin"},
  {"practice":{"title":"Task C"},"url":"https://example.org/products/3","updated_at":"2021-03-03","user":{"login_name":"frank"}}
]}"#;

#[test]
fn report_page_decodes_in_order() {
    let reports = decode_report_page(REPORT_PAGE).unwrap();
    assert_eq!(reports.len(), 2);
    assert_eq!(reports[0].title(), "Day 1");
    assert_eq!(reports[0].url(), "https://example.org/reports/1");
    assert_eq!(reports[0].reported_on(), "2021-02-01");
    assert_eq!(reports[0].login_name(), "alice");
    assert_eq!(reports[1].login_name(), "bob");
}

#[test]
fn empty_report_page_decodes_to_nothing() {
    assert_eq!(decode_report_page(r#"{"reports":[]}"#).unwrap().len(), 0);
}

#[test]
fn product_page_decodes_assignment() {
    let products = decode_product_page(PRODUCT_PAGE).unwrap();
    assert_eq!(products.len(), 3);
    assert_eq!(products[0].title(), "Task A");
    assert_eq!(products[0].updated_on(), "2021-03-01");
    assert_eq!(products[0].login_name(), "carol");
    assert_eq!(products[0].url(), "https://example.org/products/1");
    assert!(!products[0].assigned());
    assert!(products[1].assigned());
    assert!(!products[2].assigned());
}

#[test]
fn malformed_pages_fail_to_decode() {
    assert_eq!(decode_report_page("not json").unwrap_err(), FetchError::Decode);
    assert_eq!(decode_report_page(r#"{"products":[]}"#).unwrap_err(), FetchError::Decode);
    assert_eq!(decode_report_page(r#"{"reports":{}}"#).unwrap_err(), FetchError::Decode);
    assert_eq!(
        decode_report_page(r#"{"reports":[{"title":"x","url":"u","reportedOn":"d"}]}"#).unwrap_err(),
        FetchError::Decode
    );
    assert_eq!(
        decode_product_page(r#"{"products":[{"practice":{"title":1},"url":"u","updated_at":"d","user":{"login_name":"n"}}]}"#)
            .unwrap_err(),
        FetchError::Decode
    );
}

fn text(t: &str) -> Json {
    Json::Str(t.to_string())
}

fn object(members: Vec<(&str, Json)>) -> Json {
    Json::Object(members.into_iter().map(|(k, v)| (k.to_string(), v)).collect())
}

#[test]
fn single_records_decode() {
    let v = object(vec![
        ("title", text("t")),
        ("url", text("u")),
        ("reportedOn", text("d")),
        ("user", object(vec![("login_name", text("n"))])),
    ]);
    let r = decode_report(&v).unwrap();
    assert_eq!((r.title(), r.url(), r.reported_on(), r.login_name()), ("t", "u", "d", "n"));
    let w = object(vec![("title", text("t"))]);
    assert_eq!(decode_report(&w).unwrap_err(), FetchError::Decode);
    let p = object(vec![
        ("practice", object(vec![("title", text("t"))])),
        ("url", text("u")),
        ("updated_at", text("d")),
        ("user", object(vec![("login_name", text("n"))])),
        ("checker_name", text("c")),
    ]);
    let product = decode_product(&p).unwrap();
    assert!(product.assigned());
    assert_eq!(product.title(), "t");
    let q = object(vec![
        ("practice", object(vec![("title", text("t"))])),
        ("url", text("u")),
        ("updated_at", text("d")),
        ("user", object(vec![("login_name", text("n"))])),
        ("checker_name", Json::Null),
    ]);
    assert!(!decode_product(&q).unwrap().assigned());
    assert_eq!(decode_product(&Json::Number).unwrap_err(), FetchError::Decode);
}

#[test]
fn first_member_of_a_name_is_read() {
    let v = object(vec![("a", text("first")), ("a", text("second")), ("b", Json::Bool(true))]);
    match v.member("a") {
        Some(Json::Str(s)) => assert_eq!(s, "first"),
        other => panic!("unexpected member {:?}", other),
    }
    assert!(v.member("c").is_none());
    assert!(Json::Array(vec![]).member("a").is_none());
}

#[test]
fn rows_project_title_date_and_author() {
    let reports = vec![Report::new("T".to_string(), "U".to_string(), "D".to_string(), "L".to_string())];
    assert_eq!(report_table_rows(&reports), vec![vec!["T".to_string(), "D".to_string(), "L".to_string()]]);
    let products = vec![Product::new("P".to_string(), "U".to_string(), "E".to_string(), "M".to_string(), true)];
    assert_eq!(products[0].row(), vec!["P".to_string(), "E".to_string(), "M".to_string()]);
    assert_eq!(product_table_rows(&products)[0][1], "E");
}

#[test]
fn unassigned_products_keep_order() {
    let mk = |t: &str, a: bool| Product::new(t.to_string(), String::new(), String::new(), String::new(), a);
    let products = vec![mk("a", false), mk("b", true), mk("c", false), mk("d", true)];
    let free = unassigned_products(&products);
    let titles: Vec<&str> = free.iter().map(|p| p.title()).collect();
    assert_eq!(titles, vec!["a", "c"]);
    assert_eq!(unassigned_products(&Vec::new()).len(), 0);
}

#[test]
fn records_need_every_text_field() {
    let s = |t: &str| Some(t.to_string());
    let r = Report::from_fields(s("t"), s("u"), s("d"), s("n")).unwrap();
    assert_eq!((r.title(), r.url(), r.reported_on(), r.login_name()), ("t", "u", "d", "n"));
    assert_eq!(Report::from_fields(s("t"), None, s("d"), s("n")).unwrap_err(), FetchError::Decode);
    let p = Product::from_fields(s("t"), s("u"), s("d"), s("n"), true).unwrap();
    assert_eq!((p.title(), p.url(), p.updated_on(), p.login_name(), p.assigned()), ("t", "u", "d", "n", true));
    assert_eq!(Product::from_fields(s("t"), s("u"), s("d"), None, false).unwrap_err(), FetchError::Decode);
}
