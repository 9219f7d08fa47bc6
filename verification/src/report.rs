//! Sales reports: which report kinds exist, who may read them, and the
//! query that reads one from the sales summary.

use vstd::prelude::*;
use crate::auth::{Claims, check_role, claims_view, role_access, guard, guard_outcome, result_view};
use crate::reply::{Reply, ReplyView, Status, BodyKind, reply_of, make_reply};
use crate::text::{str_equal, join3};

verus! {

/// The report kind named in the request path.
#[derive(Clone, Debug)]
pub struct ReportPath {
    pub report_type: String,
}

/// The report kinds the summary holds.
pub open spec fn is_report_type(s: Seq<char>) -> bool {
    s == "daily"@ || s == "weekly"@ || s == "monthly"@ || s == "yearly"@
}

/// Query text before the report kind.
pub open spec fn query_head() -> Seq<char> {
    "SELECT \n    toString(period) AS period,\n    product_name,\n    sumMerge(total_units_sold) AS total_units_sold,\n    sumMerge(total_sales_amount) AS total_sales_amount\nFROM product_sales_summary\nWHERE report_type = '"@
}

/// Query text after the report kind.
pub open spec fn query_tail() -> Seq<char> {
    "' \nGROUP BY period, product_name\nORDER BY period DESC "@
}

/// Reports are for admins: 403 for other roles, 401 without a session.
pub fn report_access(claims: Option<&Claims>) -> (r: Result<(), Reply>)
    ensures
        result_view(r) == guard_outcome(
            role_access(claims_view(claims), "admin"@),
            BodyKind::Text,
            "Only admin can view reports"@,
            "Unauthorized access"@,
        ),
{
    let access = check_role(claims, "admin");
    guard(access, BodyKind::Text, "Only admin can view reports", "Unauthorized access")
}

/// Whether a name is one of the report kinds.
pub fn valid_report_type(s: &str) -> (r: bool)
    ensures
        r == is_report_type(s@),
{
    str_equal(s, "daily") || str_equal(s, "weekly") || str_equal(s, "monthly") || str_equal(s, "yearly")
}

/// The query for a report: for one of the four kinds, the summary query
/// with the kind in its filter; for any other name, 400 "Invalid report
/// type". Only the four fixed kind names ever reach the query text.
pub fn report_query(path: &ReportPath) -> (r: Result<String, Reply>)
    ensures
        is_report_type(path.report_type@) ==> (r matches Ok(q)
            && q@ == query_head() + path.report_type@ + query_tail()),
        !is_report_type(path.report_type@) ==> (r matches Err(e)
            && e@ == reply_of(Status::BadRequest, BodyKind::Text, "Invalid report type"@)),
{
    if !valid_report_type(path.report_type.as_str()) {
        return Err(make_reply(Status::BadRequest, BodyKind::Text, "Invalid report type"));
    }
    let q = join3(
        "SELECT \n    toString(period) AS period,\n    product_name,\n    sumMerge(total_units_sold) AS total_units_sold,\n    sumMerge(total_sales_amount) AS total_sales_amount\nFROM product_sales_summary\nWHERE report_type = '",
        path.report_type.as_str(),
        "' \nGROUP BY period, product_name\nORDER BY period DESC ",
    );
    Ok(q)
}

/// The answer when the report query fails.
pub fn report_failed_reply() -> (r: Reply)
    ensures
        r@ == reply_of(Status::InternalServerError, BodyKind::Text, "Failed to fetch report"@),
{
    make_reply(Status::InternalServerError, BodyKind::Text, "Failed to fetch report")
}

} // verus!
