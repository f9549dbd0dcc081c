use vstd::prelude::*;

verus! {

/// One row of the stock report: a product and its stock before and after.
#[derive(Clone, Debug)]
pub struct ItemProductBeforeAfter {
    pub product_name: String,
    pub product_stock_before: i64,
    pub product_stock_after: i64,
}

/// The day a report is asked for.
#[derive(Clone, Debug)]
pub struct GetDailyReportRequest {
    pub date: String,
}

/// The daily report.
#[derive(Clone, Debug)]
pub struct DailyReportResponse {
}

} // verus!
