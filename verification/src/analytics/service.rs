//! Revenue figures: the overview, the forecast and the payment report.
use vstd::prelude::*;
use crate::error::{overflow, BillingError};
use crate::money::{
    all_wf, checked_div, exact_mul, dec_hundred, dec_text, decimal_quotient, hundred, int_dec, spec_mul,
    spec_round_dp, spec_sub, spec_sum, sum_decs, Dec,
};

verus! {

#[derive(Clone, Debug)]
pub struct MonthlyRevenue {
    pub month: String,
    pub revenue: Dec,
}

#[derive(Clone, Debug)]
pub struct TopCustomer {
    pub id: String,
    pub name: String,
    pub total_revenue: Dec,
}

#[derive(Clone, Debug)]
pub struct RevenueByProduct {
    pub product_id: String,
    pub product_name: String,
    pub revenue: Dec,
}

#[derive(Clone, Debug)]
pub struct OverviewAnalytics {
    pub mrr: Dec,
    pub arr: Dec,
    pub active_subscriptions: i64,
    pub new_subscriptions_this_month: i64,
    pub total_customers: i64,
    pub total_revenue: Dec,
    pub outstanding_invoices: i64,
    pub overdue_invoices: i64,
    pub monthly_revenue: Vec<MonthlyRevenue>,
    pub top_customers: Vec<TopCustomer>,
    pub revenue_by_product: Vec<RevenueByProduct>,
}

#[derive(Clone, Copy, Debug)]
pub struct ForecastAnalytics {
    pub forecast_3mo: Dec,
    pub forecast_6mo: Dec,
    pub forecast_12mo: Dec,
    pub growth_rate: Dec,
}

/// The payment report, amounts as decimal text.
#[derive(Clone, Debug)]
pub struct ReportSummary {
    pub paid_invoices: i64,
    pub total_paid: String,
    pub total_refunded: String,
    pub net_revenue: String,
}

/// The figures analytics reads from storage.
pub trait AnalyticsRepository {
    /// Holds of each answer the store gives when asked for the monthly recurring revenue; a
    /// store that does not describe its answers admits every answer (so for each relation
    /// below).
    closed spec fn overview_mrr_answer(&self, answer: Result<Option<Dec>, BillingError>) -> bool {
        true
    }

    /// Holds of each answer when asked for the number of active subscriptions.
    closed spec fn overview_active_subscriptions_answer(&self, answer: Result<Option<i64>, BillingError>) -> bool {
        true
    }

    /// Holds of each answer when asked for the number of subscriptions started this month.
    closed spec fn overview_new_subscriptions_answer(&self, answer: Result<Option<i64>, BillingError>) -> bool {
        true
    }

    /// Holds of each answer when asked for the number of customers.
    closed spec fn overview_total_customers_answer(&self, answer: Result<Option<i64>, BillingError>) -> bool {
        true
    }

    /// Holds of each answer when asked for the revenue collected.
    closed spec fn overview_total_revenue_answer(&self, answer: Result<Option<Dec>, BillingError>) -> bool {
        true
    }

    /// Holds of each answer when asked for the number of outstanding invoices.
    closed spec fn overview_outstanding_invoices_answer(&self, answer: Result<Option<i64>, BillingError>) -> bool {
        true
    }

    /// Holds of each answer when asked for the number of overdue invoices.
    closed spec fn overview_overdue_invoices_answer(&self, answer: Result<Option<i64>, BillingError>) -> bool {
        true
    }

    /// Holds of each answer when asked for the revenue by month.
    closed spec fn overview_monthly_revenue_rows_answer(&self, answer: Result<Vec<MonthlyRevenue>, BillingError>) -> bool {
        true
    }

    /// Holds of each answer when asked for the top customers.
    closed spec fn overview_top_customer_rows_answer(&self, answer: Result<Vec<TopCustomer>, BillingError>) -> bool {
        true
    }

    /// Holds of each answer when asked for the revenue by product.
    closed spec fn overview_revenue_by_product_rows_answer(&self, answer: Result<Vec<RevenueByProduct>, BillingError>) -> bool {
        true
    }

    /// Holds of each answer when asked for the recent monthly revenue.
    closed spec fn forecasting_recent_revenue_answer(&self, answer: Result<Vec<Dec>, BillingError>) -> bool {
        true
    }

    /// Holds of each answer when asked for the number of paid invoices.
    closed spec fn reports_paid_count_answer(&self, answer: Result<Option<i64>, BillingError>) -> bool {
        true
    }

    /// Holds of each answer when asked for the amount paid.
    closed spec fn reports_total_paid_answer(&self, answer: Result<Option<Dec>, BillingError>) -> bool {
        true
    }

    /// Holds of each answer when asked for the amount refunded.
    closed spec fn reports_total_refunded_answer(&self, answer: Result<Option<Dec>, BillingError>) -> bool {
        true
    }

    fn overview_mrr(&self) -> (r: Result<Option<Dec>, BillingError>)
        ensures
            self.overview_mrr_answer(r),
    ;

    fn overview_active_subscriptions(&self) -> (r: Result<Option<i64>, BillingError>)
        ensures
            self.overview_active_subscriptions_answer(r),
    ;

    fn overview_new_subscriptions(&self) -> (r: Result<Option<i64>, BillingError>)
        ensures
            self.overview_new_subscriptions_answer(r),
    ;

    fn overview_total_customers(&self) -> (r: Result<Option<i64>, BillingError>)
        ensures
            self.overview_total_customers_answer(r),
    ;

    fn overview_total_revenue(&self) -> (r: Result<Option<Dec>, BillingError>)
        ensures
            self.overview_total_revenue_answer(r),
    ;

    fn overview_outstanding_invoices(&self) -> (r: Result<Option<i64>, BillingError>)
        ensures
            self.overview_outstanding_invoices_answer(r),
    ;

    fn overview_overdue_invoices(&self) -> (r: Result<Option<i64>, BillingError>)
        ensures
            self.overview_overdue_invoices_answer(r),
    ;

    fn overview_monthly_revenue_rows(&self) -> (r: Result<Vec<MonthlyRevenue>, BillingError>)
        ensures
            self.overview_monthly_revenue_rows_answer(r),
    ;

    fn overview_top_customer_rows(&self) -> (r: Result<Vec<TopCustomer>, BillingError>)
        ensures
            self.overview_top_customer_rows_answer(r),
    ;

    fn overview_revenue_by_product_rows(&self) -> (r: Result<Vec<RevenueByProduct>, BillingError>)
        ensures
            self.overview_revenue_by_product_rows_answer(r),
    ;

    fn forecasting_recent_revenue(&self) -> (r: Result<Vec<Dec>, BillingError>)
        ensures
            self.forecasting_recent_revenue_answer(r),
    ;

    fn reports_paid_count(&self) -> (r: Result<Option<i64>, BillingError>)
        ensures
            self.reports_paid_count_answer(r),
    ;

    fn reports_total_paid(&self) -> (r: Result<Option<Dec>, BillingError>)
        ensures
            self.reports_total_paid_answer(r),
    ;

    fn reports_total_refunded(&self) -> (r: Result<Option<Dec>, BillingError>)
        ensures
            self.reports_total_refunded_answer(r),
    ;
}

/// A count that storage may not have, zero when absent.
pub open spec fn count_or_zero(n: Option<i64>) -> i64 {
    match n {
        Some(x) => x,
        None => 0,
    }
}

/// A figure that storage may not have, zero when absent.
pub open spec fn dec_or_zero(d: Option<Dec>) -> Dec {
    match d {
        Some(x) => x,
        None => int_dec(0),
    }
}

fn or_zero(d: Option<Dec>) -> (r: Dec)
    ensures
        r == dec_or_zero(d),
{
    match d {
        Some(x) => x,
        None => Dec::zero(),
    }
}

/// The annual run rate: twelve times the monthly recurring revenue.
pub fn annual_run_rate(mrr: &Dec) -> (r: Option<Dec>)
    requires
        mrr.wf(),
    ensures
        r == spec_mul(*mrr, int_dec(12)),
        r matches Some(a) ==> a.wf(),
        exact_mul(*mrr, int_dec(12)) is Some ==> (r matches Some(a) && a.val() == 12 * mrr.val()),
{
    let twelve = Dec::from_int(12);
    let r = mrr.checked_mul(&twelve);
    proof {
        if exact_mul(*mrr, int_dec(12)) is Some {
            let c = r.unwrap();
            let p = crate::money::pow10(28) as int;
            crate::money::lemma_pow10_pos(28);
            assert(twelve.val() == 12 * p);
            let a = mrr.val();
            assert(a * (12 * p) == (12 * a) * p) by (nonlinear_arith);
            crate::money::lemma_mul_order(c.val(), 12 * a, p);
        }
    }
    r
}

/// The average of recent monthly revenue: zero without data, else their sum divided
/// by their count.
pub open spec fn spec_average(recent: Seq<Dec>) -> Option<Dec> {
    if recent.len() == 0 {
        Some(int_dec(0))
    } else {
        match spec_sum(recent) {
            Some(s) => decimal_quotient(s, int_dec(recent.len() as int)),
            None => None,
        }
    }
}

/// Growth from the first to the last recent month, in percent rounded to cents; zero
/// with fewer than two months or a first month without revenue.
pub open spec fn spec_growth(recent: Seq<Dec>) -> Option<Dec> {
    if recent.len() >= 2 && recent[0].val() > 0 {
        match spec_sub(recent.last(), recent[0]) {
            Some(d) => match decimal_quotient(d, recent[0]) {
                Some(q) => match spec_mul(q, hundred()) {
                    Some(p) => Some(spec_round_dp(p, 2)),
                    None => None,
                },
                None => None,
            },
            None => None,
        }
    } else {
        Some(int_dec(0))
    }
}

/// The growth, in percent rounded to cents, from a month with revenue `first` to a
/// month with revenue `last`: `(last - first) / first * 100`.
pub open spec fn growth_between(first: Dec, last: Dec) -> Option<Dec> {
    match spec_sub(last, first) {
        Some(change) => match decimal_quotient(change, first) {
            Some(ratio) => match spec_mul(ratio, hundred()) {
                Some(percent) => Some(spec_round_dp(percent, 2)),
                None => None,
            },
            None => None,
        },
        None => None,
    }
}

/// The growth rate of a forecast is measured from the first recent month to the last
/// one (the month at index `len - 1`): with at least two months and revenue in the
/// first, it is the growth between those two months; otherwise it is zero.
pub proof fn lemma_growth_from_first_to_last_month(recent: Seq<Dec>)
    ensures
        recent.len() >= 2 && recent[0].val() > 0 ==> spec_growth(recent) == growth_between(
            recent[0],
            recent[recent.len() - 1],
        ),
        !(recent.len() >= 2 && recent[0].val() > 0) ==> spec_growth(recent) == Some(int_dec(0)),
{
}

/// Only the first and the last recent month decide the growth rate: two histories that
/// agree on them have the same growth, whatever the months in between.
pub proof fn lemma_growth_ignores_middle_months(a: Seq<Dec>, b: Seq<Dec>)
    requires
        a.len() >= 2,
        b.len() >= 2,
        a[0] == b[0],
        a[a.len() - 1] == b[b.len() - 1],
    ensures
        spec_growth(a) == spec_growth(b),
{
    lemma_growth_from_first_to_last_month(a);
    lemma_growth_from_first_to_last_month(b);
}

/// `months` times the average, rounded to cents.
pub open spec fn spec_projection(avg: Dec, months: int) -> Option<Dec> {
    match spec_mul(avg, int_dec(months)) {
        Some(p) => Some(spec_round_dp(p, 2)),
        None => None,
    }
}

fn projection(avg: &Dec, months: i64) -> (r: Option<Dec>)
    requires
        avg.wf(),
    ensures
        r == spec_projection(*avg, months as int),
        r matches Some(x) ==> x.wf(),
{
    let m = Dec::from_int(months);
    match avg.checked_mul(&m) {
        Some(p) => Some(p.round_dp(2)),
        None => None,
    }
}

/// The forecast from recent monthly revenue: 3, 6 and 12 months at the average, and
/// the growth rate. `Err(Internal)` exactly where one of these leaves the decimal domain.
/// Whether a forecast exists: the average, its three projections and the growth all
/// stay in the decimal domain (and the number of months is a count the decimals hold).
pub open spec fn forecast_exists(recent: Seq<Dec>) -> bool {
    &&& recent.len() <= i64::MAX
    &&& spec_average(recent) matches Some(avg) && spec_projection(avg, 3) is Some && spec_projection(
        avg,
        6,
    ) is Some && spec_projection(avg, 12) is Some
    &&& spec_growth(recent) is Some
}

pub fn forecast(recent: &Vec<Dec>) -> (r: Result<ForecastAnalytics, BillingError>)
    requires
        all_wf(recent@),
    ensures
        r is Ok <==> forecast_exists(recent@),
        r matches Ok(f) ==> (recent@.len() >= 2 && recent@[0].val() > 0 ==> Some(f.growth_rate)
            == growth_between(recent@[0], recent@[recent@.len() - 1])),
        r matches Ok(f) ==> (!(recent@.len() >= 2 && recent@[0].val() > 0) ==> f.growth_rate
            == int_dec(0)),
        r matches Ok(f) ==> spec_average(recent@) matches Some(avg) && spec_projection(avg, 3)
            == Some(f.forecast_3mo) && spec_projection(avg, 6) == Some(f.forecast_6mo)
            && spec_projection(avg, 12) == Some(f.forecast_12mo) && spec_growth(recent@) == Some(
            f.growth_rate,
        ),
        r is Err ==> r matches Err(BillingError::Internal(_)),
{
    let avg = if recent.len() == 0 {
        Dec::zero()
    } else {
        let total = match sum_decs(recent) {
            Some(t) => t,
            None => {
                return Err(overflow());
            },
        };
        if recent.len() as u128 > i64::MAX as u128 {
            return Err(overflow());
        }
        let n = Dec::from_int(recent.len() as i64);
        match checked_div(&total, &n) {
            Some(a) => a,
            None => {
                return Err(overflow());
            },
        }
    };
    let growth = if recent.len() >= 2 && recent[0].is_positive() {
        let first = recent[0];
        let last = recent[recent.len() - 1];
        proof {
            assert(recent@[0].wf() && recent@.last().wf());
        }
        match last.checked_sub(&first) {
            Some(d) => match checked_div(&d, &first) {
                Some(q) => {
                    let h = dec_hundred();
                    match q.checked_mul(&h) {
                        Some(p) => p.round_dp(2),
                        None => {
                            return Err(overflow());
                        },
                    }
                },
                None => {
                    return Err(overflow());
                },
            },
            None => {
                return Err(overflow());
            },
        }
    } else {
        Dec::zero()
    };
    let f3 = match projection(&avg, 3) {
        Some(x) => x,
        None => {
            return Err(overflow());
        },
    };
    let f6 = match projection(&avg, 6) {
        Some(x) => x,
        None => {
            return Err(overflow());
        },
    };
    let f12 = match projection(&avg, 12) {
        Some(x) => x,
        None => {
            return Err(overflow());
        },
    };
    Ok(ForecastAnalytics { forecast_3mo: f3, forecast_6mo: f6, forecast_12mo: f12, growth_rate: growth })
}

/// The payment report: the paid count (zero when absent), the paid and refunded totals
/// (zero when absent) and their difference, as decimal text.
pub fn report_summary(paid_count: Option<i64>, total_paid: Option<Dec>, total_refunded: Option<Dec>) -> (r:
    Result<ReportSummary, BillingError>)
    requires
        dec_or_zero(total_paid).wf(),
        dec_or_zero(total_refunded).wf(),
    ensures
        r matches Ok(s) ==> {
            &&& s.paid_invoices == (match paid_count {
                Some(n) => n,
                None => 0,
            })
            &&& s.total_paid@ == dec_text(dec_or_zero(total_paid))
            &&& s.total_refunded@ == dec_text(dec_or_zero(total_refunded))
            &&& spec_sub(dec_or_zero(total_paid), dec_or_zero(total_refunded)) matches Some(n)
                && s.net_revenue@ == dec_text(n)
        },
        r is Err <==> spec_sub(dec_or_zero(total_paid), dec_or_zero(total_refunded)) is None,
        r is Err ==> r matches Err(BillingError::Internal(_)),
{
    let count = match paid_count {
        Some(n) => n,
        None => 0,
    };
    let paid = or_zero(total_paid);
    let refunded = or_zero(total_refunded);
    let net = match paid.checked_sub(&refunded) {
        Some(n) => n,
        None => {
            return Err(overflow());
        },
    };
    Ok(
        ReportSummary {
            paid_invoices: count,
            total_paid: paid.to_text(),
            total_refunded: refunded.to_text(),
            net_revenue: net.to_text(),
        },
    )
}

/// The overview from its stored figures; absent counts and amounts are zero and the
/// annual run rate is twelve times the MRR.
pub fn get_overview<R: AnalyticsRepository>(repo: &R) -> (r: Result<OverviewAnalytics, BillingError>)
    ensures
        r matches Ok(o) ==> o.arr == spec_mul(o.mrr, int_dec(12)).unwrap() && (exact_mul(
            o.mrr,
            int_dec(12),
        ) is Some ==> o.arr.val() == 12 * o.mrr.val()),
        r matches Ok(o) ==> {
            &&& exists|x: Option<Dec>|
                #[trigger] repo.overview_mrr_answer(Ok(x)) && o.mrr == dec_or_zero(x)
            &&& exists|x: Option<i64>|
                #[trigger] repo.overview_active_subscriptions_answer(Ok(x))
                    && o.active_subscriptions == count_or_zero(x)
            &&& exists|x: Option<i64>|
                #[trigger] repo.overview_new_subscriptions_answer(Ok(x))
                    && o.new_subscriptions_this_month == count_or_zero(x)
            &&& exists|x: Option<i64>|
                #[trigger] repo.overview_total_customers_answer(Ok(x))
                    && o.total_customers == count_or_zero(x)
            &&& exists|x: Option<Dec>|
                #[trigger] repo.overview_total_revenue_answer(Ok(x))
                    && o.total_revenue == dec_or_zero(x)
            &&& exists|x: Option<i64>|
                #[trigger] repo.overview_outstanding_invoices_answer(Ok(x))
                    && o.outstanding_invoices == count_or_zero(x)
            &&& exists|x: Option<i64>|
                #[trigger] repo.overview_overdue_invoices_answer(Ok(x))
                    && o.overdue_invoices == count_or_zero(x)
            &&& repo.overview_monthly_revenue_rows_answer(Ok(o.monthly_revenue))
            &&& repo.overview_top_customer_rows_answer(Ok(o.top_customers))
            &&& repo.overview_revenue_by_product_rows_answer(Ok(o.revenue_by_product))
        },
        r matches Err(e) ==> {
            ||| repo.overview_mrr_answer(Err(e))
            ||| repo.overview_active_subscriptions_answer(Err(e))
            ||| repo.overview_new_subscriptions_answer(Err(e))
            ||| repo.overview_total_customers_answer(Err(e))
            ||| repo.overview_total_revenue_answer(Err(e))
            ||| repo.overview_outstanding_invoices_answer(Err(e))
            ||| repo.overview_overdue_invoices_answer(Err(e))
            ||| repo.overview_monthly_revenue_rows_answer(Err(e))
            ||| repo.overview_top_customer_rows_answer(Err(e))
            ||| repo.overview_revenue_by_product_rows_answer(Err(e))
            ||| e is Internal && exists|x: Option<Dec>|
                #[trigger] repo.overview_mrr_answer(Ok(x)) && (!dec_or_zero(x).wf()
                    || spec_mul(dec_or_zero(x), int_dec(12)) is None)
        },
{
    let mrr = or_zero(repo.overview_mrr()?);
    if !mrr.is_valid() {
        return Err(overflow());
    }
    let arr = match annual_run_rate(&mrr) {
        Some(a) => a,
        None => {
            return Err(overflow());
        },
    };
    let active_subscriptions = match repo.overview_active_subscriptions()? {
        Some(n) => n,
        None => 0,
    };
    let new_subscriptions_this_month = match repo.overview_new_subscriptions()? {
        Some(n) => n,
        None => 0,
    };
    let total_customers = match repo.overview_total_customers()? {
        Some(n) => n,
        None => 0,
    };
    let total_revenue = or_zero(repo.overview_total_revenue()?);
    let outstanding_invoices = match repo.overview_outstanding_invoices()? {
        Some(n) => n,
        None => 0,
    };
    let overdue_invoices = match repo.overview_overdue_invoices()? {
        Some(n) => n,
        None => 0,
    };
    let monthly_revenue = repo.overview_monthly_revenue_rows()?;
    let top_customers = repo.overview_top_customer_rows()?;
    let revenue_by_product = repo.overview_revenue_by_product_rows()?;
    Ok(
        OverviewAnalytics {
            mrr,
            arr,
            active_subscriptions,
            new_subscriptions_this_month,
            total_customers,
            total_revenue,
            outstanding_invoices,
            overdue_invoices,
            monthly_revenue,
            top_customers,
            revenue_by_product,
        },
    )
}

/// The forecast from the recent monthly revenue in storage (see `forecast`).
pub fn get_forecasting<R: AnalyticsRepository>(repo: &R) -> (r: Result<ForecastAnalytics, BillingError>)
    ensures
        exists|a: Result<Vec<Dec>, BillingError>|
            #[trigger] repo.forecasting_recent_revenue_answer(a) && match a {
                Err(e) => r == Err::<ForecastAnalytics, BillingError>(e),
                Ok(recent) => if !all_wf(recent@) {
                    r matches Err(BillingError::Internal(_))
                } else {
                    &&& r matches Ok(f) ==> spec_average(recent@) matches Some(avg) && spec_projection(
                        avg,
                        3,
                    ) == Some(f.forecast_3mo) && spec_projection(avg, 6) == Some(f.forecast_6mo)
                        && spec_projection(avg, 12) == Some(f.forecast_12mo) && spec_growth(recent@)
                        == Some(f.growth_rate)
                    &&& (r is Ok <==> forecast_exists(recent@))
                    &&& r is Err ==> r matches Err(BillingError::Internal(_))
                },
            },
{
    let recent = repo.forecasting_recent_revenue()?;
    let mut i: usize = 0;
    while i < recent.len()
        invariant
            i <= recent.len(),
            repo.forecasting_recent_revenue_answer(Ok(recent)),
            forall|j: int| 0 <= j < i ==> (#[trigger] recent@[j]).wf(),
        decreases recent.len() - i,
    {
        if !recent[i].is_valid() {
            proof {
                assert(!recent@[i as int].wf());
            }
            return Err(overflow());
        }
        i = i + 1;
    }
    forecast(&recent)
}

/// The payment report from storage (see `report_summary`).
pub fn get_reports<R: AnalyticsRepository>(repo: &R) -> (r: Result<ReportSummary, BillingError>)
    ensures
        r matches Ok(s) ==> exists|c: Option<i64>, p: Option<Dec>, q: Option<Dec>| {
            &&& #[trigger] repo.reports_paid_count_answer(Ok(c))
            &&& #[trigger] repo.reports_total_paid_answer(Ok(p))
            &&& #[trigger] repo.reports_total_refunded_answer(Ok(q))
            &&& s.paid_invoices == count_or_zero(c)
            &&& s.total_paid@ == dec_text(dec_or_zero(p))
            &&& s.total_refunded@ == dec_text(dec_or_zero(q))
            &&& spec_sub(dec_or_zero(p), dec_or_zero(q)) matches Some(n) && s.net_revenue@ == dec_text(n)
        },
        r matches Err(e) ==> {
            ||| repo.reports_paid_count_answer(Err(e))
            ||| repo.reports_total_paid_answer(Err(e))
            ||| repo.reports_total_refunded_answer(Err(e))
            ||| e is Internal && exists|p: Option<Dec>, q: Option<Dec>|
                #[trigger] repo.reports_total_paid_answer(Ok(p)) && #[trigger] repo.reports_total_refunded_answer(Ok(q))
                    && (!dec_or_zero(p).wf() || !dec_or_zero(q).wf() || spec_sub(dec_or_zero(p), dec_or_zero(q)) is None)
        },
{
    let paid_count = repo.reports_paid_count()?;
    let total_paid = repo.reports_total_paid()?;
    let total_refunded = repo.reports_total_refunded()?;
    let p = or_zero(total_paid);
    let q = or_zero(total_refunded);
    if !(p.is_valid() && q.is_valid()) {
        proof {
            assert(repo.reports_total_paid_answer(Ok(total_paid)));
            assert(repo.reports_total_refunded_answer(Ok(total_refunded)));
        }
        return Err(overflow());
    }
    let r = report_summary(paid_count, total_paid, total_refunded);
    proof {
        assert(repo.reports_total_paid_answer(Ok(total_paid)));
        assert(repo.reports_total_refunded_answer(Ok(total_refunded)));
        assert(repo.reports_paid_count_answer(Ok(paid_count)));
    }
    r
}

} // verus!
