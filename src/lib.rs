//! Navigation and data-synchronisation engine of a terminal review dashboard:
//! per-tab selection state, the cyclic tab registry, the paginated fetch
//! policy and the event dispatcher that drives them.

mod dashboard;
mod decode;
mod json;
mod models;
mod pager;
mod stateful_table;
mod tabs;

pub use dashboard::{
    after_ticks, command, command_of, command_outcome, fresh_table,
    lemma_fetch_fills_only_active_tab, lemma_loaded_tab_is_not_refetched, outcome, products_installed, reports_installed,
    tick_outcome, Action, ActionView, Command, Dashboard, DashboardView, Event, Key, Resource,
};
pub use decode::{
    checker_present, decode_product, decode_product_page, decode_report, decode_report_page,
    nested_text_of, page_records, product_page, product_record, product_records, report_page,
    report_record, report_records, text_of,
};
pub use json::{entry_value, json_of, json_view, member_view, Json, JsonView};
pub use models::{
    product_columns, product_rows, product_table_rows, product_views, report_columns, report_rows,
    report_table_rows, report_views, unassigned_of, unassigned_products, FetchError, Product,
    ProductView, Report, ReportView,
};
pub use pager::{
    initial_pager, lemma_fetch_stops_at_empty_page, receive_page, receive_pages, requests_made,
    Pager, PagerView,
};
pub use stateful_table::{
    next_selection, previous_selection, row_view, rows_view, StatefulTable, TableView,
};
pub use tabs::{
    lemma_full_cycle, next_index, next_times, page_at, previous_index, previous_times, TabPage,
    TabsState,
};
