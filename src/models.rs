use vstd::prelude::*;
use crate::stateful_table::{row_view, rows_view};

verus! {

/// Why a fetch of a resource gave no item list.
#[derive(Clone, Copy, Debug, PartialEq, Eq, Structural)]
pub enum FetchError {
    /// No credential to authenticate with.
    AuthMissing,
    /// The remote source could not be reached or answered with a failure.
    Transport,
    /// A page was not shaped as expected.
    Decode,
}

/// The text fields of a daily report.
pub struct ReportView {
    pub title: Seq<char>,
    pub url: Seq<char>,
    pub reported_on: Seq<char>,
    pub login_name: Seq<char>,
}

/// The fields of a submitted product.
pub struct ProductView {
    pub title: Seq<char>,
    pub url: Seq<char>,
    pub updated_on: Seq<char>,
    pub login_name: Seq<char>,
    pub assigned: bool,
}

/// A daily report awaiting review.
#[derive(Clone, Debug)]
pub struct Report {
    title: String,
    url: String,
    reported_on: String,
    login_name: String,
}

/// A submitted product awaiting review.
#[derive(Clone, Debug)]
pub struct Product {
    title: String,
    url: String,
    updated_on: String,
    login_name: String,
    assigned: bool,
}

impl View for Report {
    type V = ReportView;

    closed spec fn view(&self) -> ReportView {
        ReportView {
            title: self.title@,
            url: self.url@,
            reported_on: self.reported_on@,
            login_name: self.login_name@,
        }
    }
}

impl View for Product {
    type V = ProductView;

    closed spec fn view(&self) -> ProductView {
        ProductView {
            title: self.title@,
            url: self.url@,
            updated_on: self.updated_on@,
            login_name: self.login_name@,
            assigned: self.assigned,
        }
    }
}

/// The columns shown for a report: title, date, author.
pub open spec fn report_columns(r: ReportView) -> Seq<Seq<char>> {
    seq![r.title, r.reported_on, r.login_name]
}

/// The columns shown for a product: title, date, author.
pub open spec fn product_columns(p: ProductView) -> Seq<Seq<char>> {
    seq![p.title, p.updated_on, p.login_name]
}

/// The fields of each report, in order.
pub open spec fn report_views(rs: Seq<Report>) -> Seq<ReportView> {
    rs.map_values(|r: Report| r@)
}

/// The fields of each product, in order.
pub open spec fn product_views(ps: Seq<Product>) -> Seq<ProductView> {
    ps.map_values(|p: Product| p@)
}

/// The rows shown for a list of reports, one per report, in order.
pub open spec fn report_rows(rs: Seq<ReportView>) -> Seq<Seq<Seq<char>>> {
    rs.map_values(|r: ReportView| report_columns(r))
}

/// The rows shown for a list of products, one per product, in order.
pub open spec fn product_rows(ps: Seq<ProductView>) -> Seq<Seq<Seq<char>>> {
    ps.map_values(|p: ProductView| product_columns(p))
}

/// The products that nobody has taken on yet, in their order.
pub open spec fn unassigned_of(ps: Seq<ProductView>) -> Seq<ProductView> {
    ps.filter(|p: ProductView| !p.assigned)
}

/// The display rows of `reports`, one per report, in order.
pub fn report_table_rows(reports: &Vec<Report>) -> (r: Vec<Vec<String>>)
    ensures
        rows_view(r@) == report_rows(report_views(reports@)),
{
    let mut rows: Vec<Vec<String>> = Vec::new();
    let mut i: usize = 0;
    while i < reports.len()
        invariant
            i <= reports@.len(),
            rows@.len() == i,
            forall|j: int| 0 <= j < i ==> #[trigger] row_view(rows@[j]) == report_columns(reports@[j]@),
        decreases reports@.len() - i,
    {
        rows.push(reports[i].row());
        i = i + 1;
    }
    assert(rows_view(rows@) =~= report_rows(report_views(reports@)));
    rows
}

/// The display rows of `products`, one per product, in order.
pub fn product_table_rows(products: &Vec<Product>) -> (r: Vec<Vec<String>>)
    ensures
        rows_view(r@) == product_rows(product_views(products@)),
{
    let mut rows: Vec<Vec<String>> = Vec::new();
    let mut i: usize = 0;
    while i < products.len()
        invariant
            i <= products@.len(),
            rows@.len() == i,
            forall|j: int| 0 <= j < i ==> #[trigger] row_view(rows@[j]) == product_columns(products@[j]@),
        decreases products@.len() - i,
    {
        rows.push(products[i].row());
        i = i + 1;
    }
    assert(rows_view(rows@) =~= product_rows(product_views(products@)));
    rows
}

/// The products of `products` that nobody has taken on yet, in their order.
pub fn unassigned_products(products: &Vec<Product>) -> (r: Vec<Product>)
    ensures
        product_views(r@) == unassigned_of(product_views(products@)),
{
    let mut out: Vec<Product> = Vec::new();
    let mut i: usize = 0;
    while i < products.len()
        invariant
            i <= products@.len(),
            product_views(out@) == unassigned_of(product_views(products@.take(i as int))),
        decreases products@.len() - i,
    {
        let p = &products[i];
        proof {
            assert(product_views(products@.take(i + 1)) =~= product_views(products@.take(i as int)).push(p@));
            product_views(products@.take(i as int)).lemma_filter_push(p@, |q: ProductView| !q.assigned);
        }
        if !p.assigned() {
            let c = p.copy();
            out.push(c);
            assert(product_views(out@) =~= product_views(products@.take(i + 1)).filter(|q: ProductView| !q.assigned));
        } else {
            assert(product_views(out@) =~= product_views(products@.take(i + 1)).filter(|q: ProductView| !q.assigned));
        }
        i = i + 1;
    }
    assert(products@.take(products@.len() as int) =~= products@);
    out
}

impl Report {
    pub fn new(title: String, url: String, reported_on: String, login_name: String) -> (r: Report)
        ensures
            r@ == (ReportView {
                title: title@,
                url: url@,
                reported_on: reported_on@,
                login_name: login_name@,
            }),
    {
        Report { title, url, reported_on, login_name }
    }

    /// A report from the fields read off a record; any field that could not
    /// be read makes the record malformed.
    pub fn from_fields(
        title: Option<String>,
        url: Option<String>,
        reported_on: Option<String>,
        login_name: Option<String>,
    ) -> (r: Result<Report, FetchError>)
        ensures
            r is Ok <==> (title is Some && url is Some && reported_on is Some && login_name is Some),
            r is Ok ==> r->Ok_0@ == (ReportView {
                title: title->Some_0@,
                url: url->Some_0@,
                reported_on: reported_on->Some_0@,
                login_name: login_name->Some_0@,
            }),
            r is Err ==> r->Err_0 == FetchError::Decode,
    {
        match (title, url, reported_on, login_name) {
            (Some(title), Some(url), Some(reported_on), Some(login_name)) => Ok(
                Report::new(title, url, reported_on, login_name),
            ),
            _ => Err(FetchError::Decode),
        }
    }

    pub fn title(&self) -> (r: &str)
        ensures
            r@ == self@.title,
    {
        self.title.as_str()
    }

    pub fn url(&self) -> (r: &str)
        ensures
            r@ == self@.url,
    {
        self.url.as_str()
    }

    pub fn reported_on(&self) -> (r: &str)
        ensures
            r@ == self@.reported_on,
    {
        self.reported_on.as_str()
    }

    pub fn login_name(&self) -> (r: &str)
        ensures
            r@ == self@.login_name,
    {
        self.login_name.as_str()
    }

    /// The display row: title, date, author.
    pub fn row(&self) -> (r: Vec<String>)
        ensures
            row_view(r) == report_columns(self@),
    {
        let mut r: Vec<String> = Vec::new();
        r.push(self.title.clone());
        r.push(self.reported_on.clone());
        r.push(self.login_name.clone());
        assert(row_view(r) =~= report_columns(self@));
        r
    }
}

impl Product {
    pub fn new(title: String, url: String, updated_on: String, login_name: String, assigned: bool) -> (p: Product)
        ensures
            p@ == (ProductView {
                title: title@,
                url: url@,
                updated_on: updated_on@,
                login_name: login_name@,
                assigned,
            }),
    {
        Product { title, url, updated_on, login_name, assigned }
    }

    pub fn title(&self) -> (r: &str)
        ensures
            r@ == self@.title,
    {
        self.title.as_str()
    }

    pub fn url(&self) -> (r: &str)
        ensures
            r@ == self@.url,
    {
        self.url.as_str()
    }

    /// A product from the fields read off a record; any text field that could
    /// not be read makes the record malformed.
    pub fn from_fields(
        title: Option<String>,
        url: Option<String>,
        updated_on: Option<String>,
        login_name: Option<String>,
        assigned: bool,
    ) -> (r: Result<Product, FetchError>)
        ensures
            r is Ok <==> (title is Some && url is Some && updated_on is Some && login_name is Some),
            r is Ok ==> r->Ok_0@ == (ProductView {
                title: title->Some_0@,
                url: url->Some_0@,
                updated_on: updated_on->Some_0@,
                login_name: login_name->Some_0@,
                assigned,
            }),
            r is Err ==> r->Err_0 == FetchError::Decode,
    {
        match (title, url, updated_on, login_name) {
            (Some(title), Some(url), Some(updated_on), Some(login_name)) => Ok(
                Product::new(title, url, updated_on, login_name, assigned),
            ),
            _ => Err(FetchError::Decode),
        }
    }

    pub fn updated_on(&self) -> (r: &str)
        ensures
            r@ == self@.updated_on,
    {
        self.updated_on.as_str()
    }

    pub fn login_name(&self) -> (r: &str)
        ensures
            r@ == self@.login_name,
    {
        self.login_name.as_str()
    }

    /// A product with the same fields.
    fn copy(&self) -> (r: Product)
        ensures
            r@ == self@,
    {
        Product {
            title: self.title.clone(),
            url: self.url.clone(),
            updated_on: self.updated_on.clone(),
            login_name: self.login_name.clone(),
            assigned: self.assigned,
        }
    }

    /// Whether someone is already in charge of the product.
    pub fn assigned(&self) -> (r: bool)
        ensures
            r == self@.assigned,
    {
        self.assigned
    }

    /// The display row: title, date, author.
    pub fn row(&self) -> (r: Vec<String>)
        ensures
            row_view(r) == product_columns(self@),
    {
        let mut r: Vec<String> = Vec::new();
        r.push(self.title.clone());
        r.push(self.updated_on.clone());
        r.push(self.login_name.clone());
        assert(row_view(r) =~= product_columns(self@));
        r
    }
}

} // verus!
