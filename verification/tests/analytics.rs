use rustbill_core::analytics::sales_ledger::SalesClassification;
use rustbill_core::analytics::service::{
    annual_run_rate, forecast, get_forecasting, get_overview, get_reports, report_summary,
    AnalyticsRepository, MonthlyRevenue, RevenueByProduct, TopCustomer,
};
use rustbill_core::error::BillingError;
use rustbill_core::money::Dec;

#[derive(Default)]
struct StubRepo {
    mrr: Option<Dec>,
    active: Option<i64>,
    new_subs: Option<i64>,
    customers: Option<i64>,
    revenue: Option<Dec>,
    outstanding: Option<i64>,
    overdue: Option<i64>,
    monthly: Vec<MonthlyRevenue>,
    top: Vec<TopCustomer>,
    by_product: Vec<RevenueByProduct>,
    recent: Vec<Dec>,
    paid_count: Option<i64>,
    total_paid: Option<Dec>,
    total_refunded: Option<Dec>,
}

impl AnalyticsRepository for StubRepo {
    fn overview_mrr(&self) -> Result<Option<Dec>, BillingError> { Ok(self.mrr) }
    fn overview_active_subscriptions(&self) -> Result<Option<i64>, BillingError> { Ok(self.active) }
    fn overview_new_subscriptions(&self) -> Result<Option<i64>, BillingError> { Ok(self.new_subs) }
    fn overview_total_customers(&self) -> Result<Option<i64>, BillingError> { Ok(self.customers) }
    fn overview_total_revenue(&self) -> Result<Option<Dec>, BillingError> { Ok(self.revenue) }
    fn overview_outstanding_invoices(&self) -> Result<Option<i64>, BillingError> { Ok(self.outstanding) }
    fn overview_overdue_invoices(&self) -> Result<Option<i64>, BillingError> { Ok(self.overdue) }
    fn overview_monthly_revenue_rows(&self) -> Result<Vec<MonthlyRevenue>, BillingError> { Ok(self.monthly.clone()) }
    fn overview_top_customer_rows(&self) -> Result<Vec<TopCustomer>, BillingError> { Ok(self.top.clone()) }
    fn overview_revenue_by_product_rows(&self) -> Result<Vec<RevenueByProduct>, BillingError> { Ok(self.by_product.clone()) }
    fn forecasting_recent_revenue(&self) -> Result<Vec<Dec>, BillingError> { Ok(self.recent.clone()) }
    fn reports_paid_count(&self) -> Result<Option<i64>, BillingError> { Ok(self.paid_count) }
    fn reports_total_paid(&self) -> Result<Option<Dec>, BillingError> { Ok(self.total_paid) }
    fn reports_total_refunded(&self) -> Result<Option<Dec>, BillingError> { Ok(self.total_refunded) }
}

#[test]
fn overview_builds_summary() {
    let repo = StubRepo {
        mrr: Some(Dec::from_int(100)),
        active: Some(10),
        new_subs: Some(2),
        customers: Some(200),
        revenue: Some(Dec::from_int(1200)),
        outstanding: Some(50),
        overdue: Some(25),
        monthly: vec![MonthlyRevenue { month: "2026-03".to_string(), revenue: Dec::from_int(75) }],
        top: vec![TopCustomer { id: "c1".to_string(), name: "Acme".to_string(), total_revenue: Dec::from_int(100) }],
        by_product: vec![RevenueByProduct { product_id: "p1".to_string(), product_name: "Widget".to_string(), revenue: Dec::from_int(10) }],
        ..StubRepo::default()
    };
    let overview = get_overview(&repo).expect("overview");
    assert!(overview.arr.eq_value(&Dec::from_int(1200)));
    assert_eq!(overview.active_subscriptions, 10);
    assert_eq!(overview.monthly_revenue.len(), 1);
    assert_eq!(overview.top_customers[0].name, "Acme");
    assert_eq!(overview.revenue_by_product[0].product_name, "Widget");
}

#[test]
fn forecasting_uses_average_monthly() {
    let repo = StubRepo { recent: vec![Dec::from_int(10), Dec::from_int(20)], ..StubRepo::default() };
    let f = get_forecasting(&repo).expect("forecast");
    assert!(f.forecast_3mo.eq_value(&Dec::from_int(45)));
    assert!(f.growth_rate.eq_value(&Dec::from_int(100)));
}

#[test]
fn reports_formats_json() {
    let repo = StubRepo { paid_count: Some(3), total_paid: Some(Dec::from_int(200)), total_refunded: Some(Dec::from_int(50)), ..StubRepo::default() };
    let report = get_reports(&repo).expect("report");
    assert_eq!(report.paid_invoices, 3);
    assert_eq!(report.net_revenue, "150");
}

#[test]
fn empty_data_gives_zeros() {
    let f = forecast(&Vec::new()).expect("forecast");
    assert!(f.forecast_12mo.is_zero());
    assert!(f.growth_rate.is_zero());
    let r = report_summary(None, None, None).expect("report");
    assert_eq!((r.paid_invoices, r.total_paid.as_str(), r.net_revenue.as_str()), (0, "0", "0"));
    let o = get_overview(&StubRepo::default()).expect("overview");
    assert!(o.mrr.is_zero() && o.arr.is_zero());
}

#[test]
fn forecast_rounds_and_growth_from_zero_start() {
    let f = forecast(&vec![Dec::zero(), Dec::from_int(10), Dec::from_int(20)]).expect("f");
    assert!(f.growth_rate.is_zero());
    assert!(f.forecast_6mo.eq_value(&Dec::from_int(60)));
    let f = forecast(&vec![Dec::from_int(3), Dec::from_int(4)]).expect("f");
    assert_eq!(f.growth_rate.to_text(), "33.33");
    assert_eq!(annual_run_rate(&Dec::new(1050, 2)).expect("arr").to_text(), "126.00");
}

#[test]
fn classification_names() {
    assert_eq!(SalesClassification::Recurring.as_str(), "recurring");
    assert_eq!(SalesClassification::Bookings.as_str(), "bookings");
    assert_eq!(SalesClassification::Adjustments.as_str(), "adjustments");
}
