use vstd::prelude::*;
use crate::models::{
    product_rows, product_table_rows, product_views, report_rows, report_table_rows, report_views,
    unassigned_of, unassigned_products, Product, ProductView, Report, ReportView,
};
use crate::stateful_table::{next_selection, previous_selection, StatefulTable, TableView};
use crate::tabs::{next_index, previous_index, TabPage, TabsState};

verus! {

/// A key as the dispatcher sees it.
#[derive(Clone, Copy, Debug, PartialEq, Eq, Structural)]
pub enum Key {
    Char(char),
    Up,
    Down,
    Left,
    Right,
    /// The interrupt key (Ctrl-C).
    Interrupt,
    /// Any other key.
    Other,
}

/// One event of the merged input stream.
#[derive(Clone, Copy, Debug, PartialEq, Eq, Structural)]
pub enum Event {
    Input(Key),
    Tick,
}

/// A remote resource that a tab lists.
#[derive(Clone, Copy, Debug, PartialEq, Eq, Structural)]
pub enum Resource {
    Reports,
    Products,
}

/// What a key asks for.
#[derive(Clone, Copy, Debug, PartialEq, Eq, Structural)]
pub enum Command {
    CursorDown,
    CursorUp,
    NextTab,
    PreviousTab,
    Open,
    Quit,
    Ignore,
}

/// What the caller is to do after an event.
#[derive(Clone, Debug, PartialEq, Eq)]
pub enum Action {
    /// Nothing beyond drawing the screen again.
    Nothing,
    /// Leave the loop.
    Quit,
    /// Hand this address to the external launcher.
    Open(String),
    /// Fetch this resource and install the result.
    Fetch(Resource),
}

/// An `Action` with its address as text.
pub enum ActionView {
    Nothing,
    Quit,
    Open(Seq<char>),
    Fetch(Resource),
}

impl View for Action {
    type V = ActionView;

    open spec fn view(&self) -> ActionView {
        match self {
            Action::Nothing => ActionView::Nothing,
            Action::Quit => ActionView::Quit,
            Action::Open(u) => ActionView::Open(u@),
            Action::Fetch(r) => ActionView::Fetch(*r),
        }
    }
}

/// The dispatch table from keys to commands.
pub open spec fn command_of(key: Key) -> Command {
    if key == Key::Char('j') || key == Key::Down {
        Command::CursorDown
    } else if key == Key::Char('k') || key == Key::Up {
        Command::CursorUp
    } else if key == Key::Char('l') || key == Key::Right {
        Command::NextTab
    } else if key == Key::Char('h') || key == Key::Left {
        Command::PreviousTab
    } else if key == Key::Char('o') {
        Command::Open
    } else if key == Key::Char('q') || key == Key::Interrupt {
        Command::Quit
    } else {
        Command::Ignore
    }
}

/// The command that `key` asks for.
pub fn command(key: Key) -> (c: Command)
    ensures
        c == command_of(key),
{
    match key {
        Key::Char('j') | Key::Down => Command::CursorDown,
        Key::Char('k') | Key::Up => Command::CursorUp,
        Key::Char('l') | Key::Right => Command::NextTab,
        Key::Char('h') | Key::Left => Command::PreviousTab,
        Key::Char('o') => Command::Open,
        Key::Char('q') | Key::Interrupt => Command::Quit,
        _ => Command::Ignore,
    }
}

/// Everything the dispatcher holds: the tabs, the items of each list, and one
/// table per tab page (reports, unchecked products, unassigned products).
pub struct DashboardView<'a> {
    pub titles: Seq<&'a str>,
    pub index: int,
    pub reports: Seq<ReportView>,
    pub products: Seq<ProductView>,
    pub unassigned: Seq<ProductView>,
    pub tables: Seq<TableView>,
}

/// A table over `rows` with nothing selected.
pub open spec fn fresh_table(rows: Seq<Seq<Seq<char>>>) -> TableView {
    TableView { rows, selected: None }
}

impl<'a> DashboardView<'a> {
    pub open spec fn wf(self) -> bool {
        &&& 1 <= self.titles.len() <= 3
        &&& 0 <= self.index < self.titles.len()
        &&& self.tables.len() == 3
        &&& forall|k: int| 0 <= k < 3 ==> (#[trigger] self.tables[k]).wf()
        &&& self.tables[0].rows == report_rows(self.reports)
        &&& self.tables[1].rows == product_rows(self.products)
        &&& self.tables[2].rows == product_rows(self.unassigned)
    }

    /// The table of the active tab.
    pub open spec fn current(self) -> TableView {
        self.tables[self.index]
    }

    /// Whether the active tab's list is loaded, that is, non-empty.
    pub open spec fn current_loaded(self) -> bool {
        self.current().rows.len() > 0
    }

    /// The address of the selected item of the active tab, if one is selected.
    pub open spec fn open_target(self) -> Option<Seq<char>> {
        match self.current().selected {
            Some(i) => if self.index == 0 {
                Some(self.reports[i].url)
            } else if self.index == 1 {
                Some(self.products[i].url)
            } else {
                Some(self.unassigned[i].url)
            },
            None => None,
        }
    }

    /// The same state with the active tab's cursor at `selected`.
    pub open spec fn with_current_selection(self, selected: Option<int>) -> DashboardView<'a> {
        DashboardView {
            tables: self.tables.update(
                self.index,
                TableView { rows: self.current().rows, selected },
            ),
            ..self
        }
    }

    /// The state with the unassigned list derived afresh from the products.
    pub open spec fn with_unassigned_derived(self) -> DashboardView<'a> {
        DashboardView {
            unassigned: unassigned_of(self.products),
            tables: self.tables.update(2, fresh_table(product_rows(unassigned_of(self.products)))),
            ..self
        }
    }
}

/// The state and the action after a timer tick: the active tab's resource is
/// fetched while its list is empty; the unassigned list is derived from the
/// products once they are there.
pub open spec fn tick_outcome<'a>(v: DashboardView<'a>) -> (DashboardView<'a>, ActionView) {
    if v.index == 0 {
        if v.tables[0].rows.len() == 0 {
            (v, ActionView::Fetch(Resource::Reports))
        } else {
            (v, ActionView::Nothing)
        }
    } else if v.index == 1 {
        if v.tables[1].rows.len() == 0 {
            (v, ActionView::Fetch(Resource::Products))
        } else {
            (v, ActionView::Nothing)
        }
    } else if v.tables[2].rows.len() > 0 {
        (v, ActionView::Nothing)
    } else if v.tables[1].rows.len() == 0 {
        (v, ActionView::Fetch(Resource::Products))
    } else {
        (v.with_unassigned_derived(), ActionView::Nothing)
    }
}

/// The state after `k` ticks, and how many of them asked for a fetch.
pub open spec fn after_ticks<'a>(v: DashboardView<'a>, k: nat) -> (DashboardView<'a>, nat)
    decreases k,
{
    if k == 0 {
        (v, 0)
    } else {
        let (w, a) = tick_outcome(v);
        let (u, n) = after_ticks(w, (k - 1) as nat);
        (u, n + if a is Fetch { 1nat } else { 0nat })
    }
}

/// Once the active tab's list is loaded, ticks leave everything as it is and
/// never ask for its resource again, however many of them come.
pub proof fn lemma_loaded_tab_is_not_refetched<'a>(v: DashboardView<'a>, k: nat)
    requires
        v.wf(),
        v.current_loaded(),
    ensures
        after_ticks(v, k) == (v, 0nat),
    decreases k,
{
    if k > 0 {
        assert(tick_outcome(v) == (v, ActionView::Nothing));
        lemma_loaded_tab_is_not_refetched(v, (k - 1) as nat);
    }
}

/// The state and the action after a key asking for `c`.
pub open spec fn command_outcome<'a>(v: DashboardView<'a>, c: Command) -> (DashboardView<'a>, ActionView) {
    match c {
        Command::CursorDown => (
            v.with_current_selection(next_selection(v.current().selected, v.current().rows.len() as int)),
            ActionView::Nothing,
        ),
        Command::CursorUp => (
            v.with_current_selection(previous_selection(v.current().selected, v.current().rows.len() as int)),
            ActionView::Nothing,
        ),
        Command::NextTab => (
            DashboardView { index: next_index(v.index, v.titles.len() as int), ..v },
            ActionView::Nothing,
        ),
        Command::PreviousTab => (
            DashboardView { index: previous_index(v.index, v.titles.len() as int), ..v },
            ActionView::Nothing,
        ),
        Command::Open => (
            v,
            match v.open_target() {
                Some(u) => ActionView::Open(u),
                None => ActionView::Nothing,
            },
        ),
        Command::Quit => (v, ActionView::Quit),
        Command::Ignore => (v, ActionView::Nothing),
    }
}

/// The state and the action after `e`.
pub open spec fn outcome<'a>(v: DashboardView<'a>, e: Event) -> (DashboardView<'a>, ActionView) {
    match e {
        Event::Tick => tick_outcome(v),
        Event::Input(key) => command_outcome(v, command_of(key)),
    }
}

/// The state after the fetched reports were installed.
pub open spec fn reports_installed<'a>(v: DashboardView<'a>, rs: Seq<ReportView>) -> DashboardView<'a> {
    DashboardView { reports: rs, tables: v.tables.update(0, fresh_table(report_rows(rs))), ..v }
}

/// The state after the fetched products were installed into the active tab:
/// on the unassigned tab its list becomes the unassigned ones among them, on
/// any other tab the unchecked-products list becomes all of them. No other
/// tab changes.
pub open spec fn products_installed<'a>(v: DashboardView<'a>, ps: Seq<ProductView>) -> DashboardView<'a> {
    if v.index == 2 {
        DashboardView {
            unassigned: unassigned_of(ps),
            tables: v.tables.update(2, fresh_table(product_rows(unassigned_of(ps)))),
            ..v
        }
    } else {
        DashboardView {
            products: ps,
            tables: v.tables.update(1, fresh_table(product_rows(ps))),
            ..v
        }
    }
}

/// A tick that asks for a fetch changes nothing by itself, and installing
/// what was fetched fills the active tab's table with nothing selected while
/// every other tab, and the active index, stay as they were.
pub proof fn lemma_fetch_fills_only_active_tab<'a>(
    v: DashboardView<'a>,
    rs: Seq<ReportView>,
    ps: Seq<ProductView>,
)
    requires
        v.wf(),
    ensures
        tick_outcome(v).1 is Fetch ==> tick_outcome(v).0 == v,
        tick_outcome(v).1 == ActionView::Fetch(Resource::Reports) ==> {
            let w = reports_installed(v, rs);
            &&& w.index == v.index
            &&& w.current() == fresh_table(report_rows(rs))
            &&& forall|k: int| 0 <= k < 3 && k != v.index ==> #[trigger] w.tables[k] == v.tables[k]
        },
        tick_outcome(v).1 == ActionView::Fetch(Resource::Products) ==> {
            let w = products_installed(v, ps);
            &&& w.index == v.index
            &&& w.current() == fresh_table(
                product_rows(if v.index == 2 { unassigned_of(ps) } else { ps }),
            )
            &&& forall|k: int| 0 <= k < 3 && k != v.index ==> #[trigger] w.tables[k] == v.tables[k]
        },
{
}

/// The tabs, the lists behind them and a cursor per list; the decisions of
/// the review loop are made here, the caller performs them.
pub struct Dashboard<'a> {
    tabs: TabsState<'a>,
    reports: Vec<Report>,
    report_table: StatefulTable,
    products: Vec<Product>,
    product_table: StatefulTable,
    unassigned: Vec<Product>,
    unassigned_table: StatefulTable,
}

impl<'a> View for Dashboard<'a> {
    type V = DashboardView<'a>;

    closed spec fn view(&self) -> DashboardView<'a> {
        DashboardView {
            titles: self.tabs.spec_titles(),
            index: self.tabs.spec_index(),
            reports: report_views(self.reports@),
            products: product_views(self.products@),
            unassigned: product_views(self.unassigned@),
            tables: seq![self.report_table@, self.product_table@, self.unassigned_table@],
        }
    }
}

impl<'a> Dashboard<'a> {
    pub open spec fn wf(&self) -> bool {
        self@.wf()
    }

    /// A dashboard over the tabs `titles`, the first one active and every list
    /// empty. The tabs show, in order, unchecked reports, unchecked products
    /// and unassigned products.
    pub fn new(titles: Vec<&'a str>) -> (d: Dashboard<'a>)
        requires
            1 <= titles@.len() <= 3,
        ensures
            d.wf(),
            d@.titles == titles@,
            d@.index == 0,
            d@.reports.len() == 0,
            d@.products.len() == 0,
            d@.unassigned.len() == 0,
            forall|k: int| 0 <= k < 3 ==> #[trigger] d@.tables[k] == fresh_table(Seq::empty()),
    {
        let d = Dashboard {
            tabs: TabsState::new(titles),
            reports: Vec::new(),
            report_table: StatefulTable::new(Vec::new()),
            products: Vec::new(),
            product_table: StatefulTable::new(Vec::new()),
            unassigned: Vec::new(),
            unassigned_table: StatefulTable::new(Vec::new()),
        };
        proof {
            assert(d@.reports =~= Seq::<ReportView>::empty());
            assert(d@.products =~= Seq::<ProductView>::empty());
            assert(d@.unassigned =~= Seq::<ProductView>::empty());
            assert(report_rows(d@.reports) =~= Seq::empty());
            assert(product_rows(d@.products) =~= Seq::empty());
            assert(d@.tables[0].rows =~= Seq::empty());
            assert(d@.tables[1].rows =~= Seq::empty());
            assert(d@.tables[2].rows =~= Seq::empty());
        }
        d
    }

    /// The tab registry.
    pub fn tabs(&self) -> (r: &TabsState<'a>)
        ensures
            r.spec_titles() == self@.titles,
            r.spec_index() == self@.index,
    {
        &self.tabs
    }

    /// The page of the active tab.
    pub fn page(&self) -> (p: TabPage)
        requires
            self.wf(),
        ensures
            p == crate::tabs::page_at(self@.index),
    {
        self.tabs.page()
    }

    /// The table of the active tab.
    pub fn current_table(&self) -> (r: &StatefulTable)
        requires
            self.wf(),
        ensures
            r@ == self@.current(),
    {
        match self.tabs.page() {
            TabPage::UncheckedReports => &self.report_table,
            TabPage::UncheckedProducts => &self.product_table,
            TabPage::UnassignedProducts => &self.unassigned_table,
        }
    }

    /// The unchecked reports, in server order.
    pub fn reports(&self) -> (r: &Vec<Report>)
        ensures
            report_views(r@) == self@.reports,
    {
        &self.reports
    }

    /// The unchecked products, in server order.
    pub fn products(&self) -> (r: &Vec<Product>)
        ensures
            product_views(r@) == self@.products,
    {
        &self.products
    }

    /// The unchecked products that nobody has taken on.
    pub fn unassigned(&self) -> (r: &Vec<Product>)
        ensures
            product_views(r@) == self@.unassigned,
    {
        &self.unassigned
    }

    fn derive_unassigned(&mut self)
        requires
            old(self).wf(),
        ensures
            final(self).wf(),
            final(self)@ == old(self)@.with_unassigned_derived(),
    {
        let unassigned = unassigned_products(&self.products);
        let rows = product_table_rows(&unassigned);
        self.unassigned = unassigned;
        self.unassigned_table.set_items(rows);
        assert(self@.tables =~= old(self)@.with_unassigned_derived().tables);
    }

    /// Takes in the fetched reports: the reports list and its table are
    /// replaced, with nothing selected.
    pub fn install_reports(&mut self, reports: Vec<Report>)
        requires
            old(self).wf(),
        ensures
            final(self).wf(),
            final(self)@ == reports_installed(old(self)@, report_views(reports@)),
    {
        let rows = report_table_rows(&reports);
        self.reports = reports;
        self.report_table.set_items(rows);
        assert(self@.tables =~= reports_installed(old(self)@, report_views(self.reports@)).tables);
    }

    /// Takes in the fetched products for the active tab: the unassigned tab
    /// keeps those nobody is in charge of, any other tab's products list takes
    /// them all. The filled table has nothing selected; no other tab changes.
    pub fn install_products(&mut self, products: Vec<Product>)
        requires
            old(self).wf(),
        ensures
            final(self).wf(),
            final(self)@ == products_installed(old(self)@, product_views(products@)),
    {
        match self.tabs.page() {
            TabPage::UnassignedProducts => {
                let unassigned = unassigned_products(&products);
                let rows = product_table_rows(&unassigned);
                self.unassigned = unassigned;
                self.unassigned_table.set_items(rows);
                assert(self@.tables =~= products_installed(old(self)@, product_views(products@)).tables);
            },
            _ => {
                let rows = product_table_rows(&products);
                self.products = products;
                self.product_table.set_items(rows);
                assert(self@.tables =~= products_installed(old(self)@, product_views(self.products@)).tables);
            },
        }
    }

    fn move_cursor(&mut self, forward: bool)
        requires
            old(self).wf(),
        ensures
            final(self).wf(),
            final(self)@ == old(self)@.with_current_selection(
                if forward {
                    next_selection(old(self)@.current().selected, old(self)@.current().rows.len() as int)
                } else {
                    previous_selection(old(self)@.current().selected, old(self)@.current().rows.len() as int)
                },
            ),
    {
        match self.tabs.page() {
            TabPage::UncheckedReports => if forward {
                self.report_table.next()
            } else {
                self.report_table.previous()
            },
            TabPage::UncheckedProducts => if forward {
                self.product_table.next()
            } else {
                self.product_table.previous()
            },
            TabPage::UnassignedProducts => if forward {
                self.unassigned_table.next()
            } else {
                self.unassigned_table.previous()
            },
        }
        assert(self@.tables =~= old(self)@.with_current_selection(self@.current().selected).tables);
    }

    fn open_action(&self) -> (r: Action)
        requires
            self.wf(),
        ensures
            r@ == (match self@.open_target() {
                Some(u) => ActionView::Open(u),
                None => ActionView::Nothing,
            }),
    {
        match self.tabs.page() {
            TabPage::UncheckedReports => match self.report_table.selected() {
                Some(i) => Action::Open(self.reports[i].url().to_owned()),
                None => Action::Nothing,
            },
            TabPage::UncheckedProducts => match self.product_table.selected() {
                Some(i) => Action::Open(self.products[i].url().to_owned()),
                None => Action::Nothing,
            },
            TabPage::UnassignedProducts => match self.unassigned_table.selected() {
                Some(i) => Action::Open(self.unassigned[i].url().to_owned()),
                None => Action::Nothing,
            },
        }
    }

    fn tick(&mut self) -> (r: Action)
        requires
            old(self).wf(),
        ensures
            final(self).wf(),
            (final(self)@, r@) == tick_outcome(old(self)@),
    {
        match self.tabs.page() {
            TabPage::UncheckedReports => if self.report_table.is_loaded() {
                Action::Nothing
            } else {
                Action::Fetch(Resource::Reports)
            },
            TabPage::UncheckedProducts => if self.product_table.is_loaded() {
                Action::Nothing
            } else {
                Action::Fetch(Resource::Products)
            },
            TabPage::UnassignedProducts => if self.unassigned_table.is_loaded() {
                Action::Nothing
            } else if !self.product_table.is_loaded() {
                Action::Fetch(Resource::Products)
            } else {
                self.derive_unassigned();
                Action::Nothing
            },
        }
    }

    /// Applies one event: a key is dispatched through the key table, a tick
    /// asks for the active tab's resource while its list is empty. The
    /// returned action is for the caller to perform.
    pub fn handle(&mut self, event: Event) -> (r: Action)
        requires
            old(self).wf(),
        ensures
            final(self).wf(),
            (final(self)@, r@) == outcome(old(self)@, event),
    {
        match event {
            Event::Tick => self.tick(),
            Event::Input(key) => match command(key) {
                Command::CursorDown => {
                    self.move_cursor(true);
                    Action::Nothing
                },
                Command::CursorUp => {
                    self.move_cursor(false);
                    Action::Nothing
                },
                Command::NextTab => {
                    self.tabs.next();
                    Action::Nothing
                },
                Command::PreviousTab => {
                    self.tabs.previous();
                    Action::Nothing
                },
                Command::Open => self.open_action(),
                Command::Quit => Action::Quit,
                Command::Ignore => Action::Nothing,
            },
        }
    }
}

} // verus!
