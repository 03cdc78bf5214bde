use fjord_review::{command, Action, Command, Dashboard, Event, Key, Product, Report, Resource, TabPage};

fn report(title: &str, url: &str) -> Report {
    Report::new(title.to_string(), url.to_string(), "2021-04-01".to_string(), "alice".to_string())
}

fn product(title: &str, url: &str, assigned: bool) -> Product {
    Product::new(title.to_string(), url.to_string(), "2021-04-02".to_string(), "bob".to_string(), assigned)
}

/// A stand-in for the remote source that counts its fetches.
struct MockSource {
    reports: Vec<Report>,
    products: Vec<Product>,
    fetches: usize,
}

impl MockSource {
    fn serve(&mut self, d: &mut Dashboard, action: &Action) {
        match action {
            Action::Fetch(Resource::Reports) => {
                self.fetches += 1;
                d.install_reports(self.reports.clone());
            }
            Action::Fetch(Resource::Products) => {
                self.fetches += 1;
                d.install_products(self.products.clone());
            }
            _ => {}
        }
    }
}

#[test]
fn key_table() {
    assert_eq!(command(Key::Char('j')), Command::CursorDown);
    assert_eq!(command(Key::Down), Command::CursorDown);
    assert_eq!(command(Key::Char('k')), Command::CursorUp);
    assert_eq!(command(Key::Up), Command::CursorUp);
    assert_eq!(command(Key::Char('l')), Command::NextTab);
    assert_eq!(command(Key::Right), Command::NextTab);
    assert_eq!(command(Key::Char('h')), Command::PreviousTab);
    assert_eq!(command(Key::Left), Command::PreviousTab);
    assert_eq!(command(Key::Char('o')), Command::Open);
    assert_eq!(command(Key::Char('q')), Command::Quit);
    assert_eq!(command(Key::Interrupt), Command::Quit);
    assert_eq!(command(Key::Char('x')), Command::Ignore);
    assert_eq!(command(Key::Other), Command::Ignore);
}

#[test]
fn quit_keys_stop_the_loop() {
    let mut d = Dashboard::new(vec!["A"]);
    assert_eq!(d.handle(Event::Input(Key::Char('q'))), Action::Quit);
    assert_eq!(d.handle(Event::Input(Key::Interrupt)), Action::Quit);
}

#[test]
fn loaded_tab_is_fetched_once() {
    let mut source = MockSource { reports: vec![report("r1", "u1")], products: vec![], fetches: 0 };
    let mut d = Dashboard::new(vec!["Reports"]);
    for _ in 0..10 {
        let a = d.handle(Event::Tick);
        source.serve(&mut d, &a);
    }
    assert_eq!(source.fetches, 1);
    assert_eq!(d.reports().len(), 1);
}

#[test]
fn empty_resource_is_fetched_on_every_tick() {
    let mut source = MockSource { reports: vec![], products: vec![], fetches: 0 };
    let mut d = Dashboard::new(vec!["Reports"]);
    for _ in 0..3 {
        let a = d.handle(Event::Tick);
        source.serve(&mut d, &a);
    }
    assert_eq!(source.fetches, 3);
}

#[test]
fn two_tab_scenario_opens_second_item() {
    let mut source = MockSource {
        reports: vec![report("x0", "https://example.org/x/0")],
        products: vec![product("y0", "https://example.org/y/0", false), product("y1", "https://example.org/y/1", false)],
        fetches: 0,
    };
    let mut d = Dashboard::new(vec!["A", "B"]);
    let mut opened = Vec::new();
    let events = vec![
        Event::Tick,
        Event::Input(Key::Char('l')),
        Event::Tick,
        Event::Input(Key::Char('j')),
        Event::Input(Key::Char('j')),
    ];
    for e in events {
        let a = d.handle(e);
        source.serve(&mut d, &a);
    }
    assert_eq!(d.tabs().index(), 1);
    assert_eq!(d.page(), TabPage::UncheckedProducts);
    assert_eq!(d.current_table().selected(), Some(1));
    match d.handle(Event::Input(Key::Char('o'))) {
        Action::Open(url) => opened.push(url),
        other => panic!("unexpected action {:?}", other),
    }
    assert_eq!(opened, vec!["https://example.org/y/1".to_string()]);
}

#[test]
fn open_without_selection_does_nothing() {
    let mut d = Dashboard::new(vec!["A", "B"]);
    d.install_reports(vec![report("x0", "u0")]);
    assert_eq!(d.handle(Event::Input(Key::Char('o'))), Action::Nothing);
    d.handle(Event::Input(Key::Char('k')));
    assert_eq!(d.handle(Event::Input(Key::Char('o'))), Action::Open("u0".to_string()));
}

#[test]
fn every_event_is_followed_by_one_render() {
    let mut source = MockSource { reports: vec![report("x0", "u0"), report("x1", "u1")], products: vec![], fetches: 0 };
    let mut d = Dashboard::new(vec!["A", "B"]);
    let mut frames: Vec<(usize, Option<usize>, usize)> = Vec::new();
    let events = vec![
        Event::Tick,
        Event::Input(Key::Char('z')),
        Event::Input(Key::Down),
        Event::Tick,
        Event::Input(Key::Up),
        Event::Input(Key::Other),
    ];
    let n = events.len();
    for e in events {
        let a = d.handle(e);
        source.serve(&mut d, &a);
        let t = d.current_table();
        frames.push((d.tabs().index(), t.selected(), t.items().len()));
    }
    assert_eq!(frames.len(), n);
    assert_eq!(
        frames,
        vec![(0, None, 2), (0, None, 2), (0, Some(0), 2), (0, Some(0), 2), (0, Some(1), 2), (0, Some(1), 2)]
    );
}

#[test]
fn products_fetched_on_unassigned_tab_fill_only_that_tab() {
    let mut source = MockSource {
        reports: vec![],
        products: vec![product("p0", "u0", true), product("p1", "u1", false), product("p2", "u2", false)],
        fetches: 0,
    };
    let mut d = Dashboard::new(vec!["Unchecked Reports", "Unchecked Products", "Unassigned Product"]);
    d.handle(Event::Input(Key::Left));
    assert_eq!(d.page(), TabPage::UnassignedProducts);
    for _ in 0..4 {
        let a = d.handle(Event::Tick);
        source.serve(&mut d, &a);
    }
    assert_eq!(source.fetches, 1);
    assert_eq!(d.unassigned().len(), 2);
    assert_eq!(d.products().len(), 0);
    assert_eq!(d.current_table().items()[0][0], "p1");
    d.handle(Event::Input(Key::Char('j')));
    d.handle(Event::Input(Key::Char('j')));
    assert_eq!(d.handle(Event::Input(Key::Char('o'))), Action::Open("u2".to_string()));
    d.handle(Event::Input(Key::Char('h')));
    assert_eq!(d.page(), TabPage::UncheckedProducts);
    assert_eq!(d.current_table().items().len(), 0);
    assert_eq!(d.handle(Event::Tick), Action::Fetch(Resource::Products));
}

#[test]
fn products_fetched_on_products_tab_leave_unassigned_tab_empty() {
    let mut source = MockSource {
        reports: vec![],
        products: vec![product("p0", "u0", true), product("p1", "u1", false)],
        fetches: 0,
    };
    let mut d = Dashboard::new(vec!["Unchecked Reports", "Unchecked Products", "Unassigned Product"]);
    d.handle(Event::Input(Key::Right));
    let a = d.handle(Event::Tick);
    source.serve(&mut d, &a);
    assert_eq!(d.products().len(), 2);
    assert_eq!(d.unassigned().len(), 0);
    assert_eq!(d.reports().len(), 0);
    d.handle(Event::Input(Key::Right));
    assert_eq!(d.current_table().items().len(), 0);
    let a = d.handle(Event::Tick);
    assert_eq!(a, Action::Nothing);
    source.serve(&mut d, &a);
    assert_eq!(source.fetches, 1);
    assert_eq!(d.unassigned().len(), 1);
    assert_eq!(d.current_table().items()[0][0], "p1");
}
