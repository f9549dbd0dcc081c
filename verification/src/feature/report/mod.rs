pub mod report_model;

use vstd::prelude::*;

use crate::text::concat_str;

verus! {

/// The top of the daily report page: the document head and the page title.
pub const DAILY_REPORT_HEAD: &'static str = "\n        <!doctype html>\n        <html>\n        <head>\n            <meta charset=\"UTF-8\" />\n            <meta name=\"viewport\" content=\"width=device-width, initial-scale=1.0\" />\n            <script src=\"https://unpkg.com/@tailwindcss/browser@4\"></script>\n              <style type=\"text/tailwindcss\">\n      @theme {\n        --color-clifford: #da373d;\n      }\n    </style>\n        </head>\n        <body>\n        <h1 class=\"text-3xl font-bold underline text-clifford\">Hello world!</h1>\n        ";

/// What closes the page when the products cannot be read.
pub const DAILY_REPORT_END: &'static str = "<div>M</div></body></html>";

/// The cash table of the daily report.
pub const DAILY_REPORT_CASH: &'static str = "\n  <div>\n    <p>Cash</p>\n    <table>\n        <thead>\n            <tr>\n                <td>No</td>\n                <td>Name</td>\n                <td>Before</td>\n                <td>After</td>\n            </tr>\n        </thead>\n    <tbody>\n    </tbody></table></div>";

/// The transfer table of the daily report.
pub const DAILY_REPORT_TRANSFER: &'static str = "\n    <div>\n      <p>Transfer</p>\n      <table>\n          <thead>\n              <tr>\n                  <td>No</td>\n                  <td>Name</td>\n                  <td>Before</td>\n                  <td>After</td>\n              </tr>\n          </thead>\n      <tbody>\n      </tbody></table></div></div>";

/// The stock-taking table of the daily report.
pub const DAILY_REPORT_STOCK: &'static str = "\n    <div>\n    <p>Stock Opname Produk</p>\n    <table>\n        <thead>\n            <tr>\n                <td>No</td>\n                <td>Name</td>\n                <td>Before</td>\n                <td>After</td>\n            </tr>\n        </thead>\n    <tbody>\n    \n    </tbody>\n    </div>\n    </table>\n    ";

/// The daily report page: when the products could not be read, the page top closed at once;
/// otherwise the page top followed by the cash, transfer and stock-taking tables. The tables
/// carry their headings only: no row is written into them.
pub open spec fn daily_report_page(products_loaded: bool) -> Seq<char> {
    if products_loaded {
        DAILY_REPORT_HEAD@ + DAILY_REPORT_CASH@ + DAILY_REPORT_TRANSFER@ + DAILY_REPORT_STOCK@
    } else {
        DAILY_REPORT_HEAD@ + DAILY_REPORT_END@
    }
}

/// Builds the daily report page, given whether the branch's products could be read.
pub fn daily_report_html(products_loaded: bool) -> (r: String)
    ensures
        r@ == daily_report_page(products_loaded),
{
    if products_loaded {
        let a = concat_str(DAILY_REPORT_HEAD, DAILY_REPORT_CASH);
        let b = concat_str(a.as_str(), DAILY_REPORT_TRANSFER);
        concat_str(b.as_str(), DAILY_REPORT_STOCK)
    } else {
        concat_str(DAILY_REPORT_HEAD, DAILY_REPORT_END)
    }
}

} // verus!
