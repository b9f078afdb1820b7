use analytics_query::datetime::DateTime;
use analytics_query::granularity::{Granularity, PostProcessingError};
use analytics_query::metrics::{
    bucket_identifier, bucket_rows, bucket_time_range, AvgTicketSize, PaymentCount,
    PaymentDimensions, PaymentFilters, PaymentMetric, PaymentMetricRow, PaymentMetrics,
    PaymentProcessedAmount, PaymentSuccessCount, PaymentSuccessRate,
};
use analytics_query::query::{AnalyticsCollection, QueryBuilder, QueryBuildingError, QueryFilter, TimeRange};

fn at(y: i32, mo: u8, d: u8, h: u8, mi: u8, s: u8) -> DateTime {
    DateTime::new(y, mo, d, h, mi, s, 0).unwrap()
}

fn no_filters() -> PaymentFilters {
    PaymentFilters {
        currency: vec![],
        status: vec![],
        connector: vec![],
        auth_type: vec![],
        payment_method: vec![],
    }
}

fn range() -> TimeRange {
    TimeRange { start_time: at(2023, 1, 1, 0, 0, 0), end_time: None }
}

fn row(start: Option<DateTime>) -> PaymentMetricRow {
    PaymentMetricRow {
        currency: Some(String::from("USD")),
        status: None,
        connector: Some(String::from("stripe")),
        authentication_type: None,
        payment_method: Some(String::from("card")),
        total: Some(bigdecimal::BigDecimal::from(1250)),
        count: Some(3),
        start_bucket: start,
        end_bucket: start,
    }
}

#[test]
fn payment_count_query() {
    let q = PaymentCount
        .build_metric_query(
            &[PaymentDimensions::Connector],
            "m1",
            &no_filters(),
            &Some(Granularity::OneHour),
            &range(),
        )
        .unwrap();
    assert_eq!(
        q,
        "SELECT connector, count(*) as count, min(created_at) as start_bucket, \
         max(created_at) as end_bucket FROM payment_attempt WHERE merchant_id = 'm1' \
         AND created_at >= '2023-01-01 0:00:00.0' GROUP BY connector, \
         DATE_TRUNC('hour', modified_at)"
    );
}

#[test]
fn processed_amount_query_counts_charged_only() {
    let filters = PaymentFilters {
        currency: vec![String::from("USD")],
        status: vec![],
        connector: vec![String::from("adyen global"), String::from("stripe")],
        auth_type: vec![],
        payment_method: vec![],
    };
    let q = PaymentProcessedAmount
        .build_metric_query(&[], "m 2", &filters, &None, &range())
        .unwrap();
    assert_eq!(
        q,
        "SELECT sum(amount) as total, min(created_at) as start_bucket, \
         max(created_at) as end_bucket FROM payment_attempt WHERE currency IN ('USD') \
         AND connector IN ('adyenglobal', 'stripe') AND merchant_id = 'm 2' \
         AND created_at >= '2023-01-01 0:00:00.0' AND status = 'charged'"
    );
}

#[test]
fn success_rate_groups_by_status() {
    let q = PaymentSuccessRate
        .build_metric_query(
            &[PaymentDimensions::Currency, PaymentDimensions::AuthType],
            "m1",
            &no_filters(),
            &Some(Granularity::FifteenMin),
            &range(),
        )
        .unwrap();
    assert!(q.starts_with("SELECT currency, authentication_type, count(*) as count"));
    assert!(q.ends_with(
        "GROUP BY currency, authentication_type, status, DATE_TRUNC('hour', modified_at), \
         FLOOR(DATE_PART('minute', modified_at)/15)"
    ));
}

#[test]
fn dispatch_reaches_one_handler_per_kind() {
    let dims = [PaymentDimensions::PaymentMethod, PaymentDimensions::PaymentStatus];
    let filters = no_filters();
    let g = Some(Granularity::FiveMin);
    let tr = range();
    let handlers: [(PaymentMetrics, String); 5] = [
        (
            PaymentMetrics::PaymentSuccessRate,
            PaymentSuccessRate.build_metric_query(&dims, "m", &filters, &g, &tr).unwrap(),
        ),
        (
            PaymentMetrics::PaymentCount,
            PaymentCount.build_metric_query(&dims, "m", &filters, &g, &tr).unwrap(),
        ),
        (
            PaymentMetrics::PaymentSuccessCount,
            PaymentSuccessCount.build_metric_query(&dims, "m", &filters, &g, &tr).unwrap(),
        ),
        (
            PaymentMetrics::PaymentProcessedAmount,
            PaymentProcessedAmount.build_metric_query(&dims, "m", &filters, &g, &tr).unwrap(),
        ),
        (
            PaymentMetrics::AvgTicketSize,
            AvgTicketSize.build_metric_query(&dims, "m", &filters, &g, &tr).unwrap(),
        ),
    ];
    for (kind, expected) in handlers.iter() {
        let q = kind.build_metric_query(&dims, "m", &filters, &g, &tr).unwrap();
        let matching = handlers.iter().filter(|(_, h)| *h == q).count();
        assert_eq!(&q, expected);
        assert_eq!(matching, 1);
    }
}

#[test]
fn invalid_time_range_fails_the_metric() {
    let bad = TimeRange {
        start_time: DateTime { year: 2023, month: 2, day: 30, hour: 0, minute: 0, second: 0, nanosecond: 0 },
        end_time: None,
    };
    assert!(matches!(
        PaymentMetrics::PaymentCount.build_metric_query(&[], "m", &no_filters(), &None, &bad),
        Err(QueryBuildingError::SqlSerializeError)
    ));
}

#[test]
fn payment_filters_add_in_clauses() {
    let mut b = QueryBuilder::new(AnalyticsCollection::Payment);
    b.add_select_column("x").unwrap();
    let filters = PaymentFilters {
        currency: vec![],
        status: vec![String::from("charged"), String::from("failure")],
        connector: vec![],
        auth_type: vec![String::from("three_ds")],
        payment_method: vec![String::from("card")],
    };
    filters.set_filter_clause(&mut b).unwrap();
    assert_eq!(
        b.build_query().unwrap(),
        "SELECT x FROM payment_attempt WHERE status IN ('charged', 'failure') \
         AND authentication_type IN ('three_ds') AND payment_method IN ('card')"
    );
}

#[test]
fn rows_are_keyed_by_their_bucket() {
    let rows = vec![row(Some(at(2023, 1, 1, 10, 7, 0))), row(None)];
    let out = bucket_rows(rows, &Some(Granularity::FiveMin), &range()).unwrap();
    assert_eq!(out.len(), 2);
    let (id, r) = &out[0];
    assert_eq!(id.currency.as_deref(), Some("USD"));
    assert_eq!(id.connector.as_deref(), Some("stripe"));
    assert_eq!(id.payment_method.as_deref(), Some("card"));
    assert_eq!(id.auth_type, None);
    assert_eq!(id.time_bucket.start_time, at(2023, 1, 1, 10, 5, 0));
    assert_eq!(
        id.time_bucket.end_time,
        Some(DateTime::new(2023, 1, 1, 10, 9, 59, 999_999_999).unwrap())
    );
    assert_eq!(id.start_time, at(2023, 1, 1, 10, 5, 0));
    assert_eq!(r, &row(Some(at(2023, 1, 1, 10, 7, 0))));
    let (id2, _) = &out[1];
    assert_eq!(id2.time_bucket, TimeRange { start_time: range().start_time, end_time: None });
}

#[test]
fn rows_without_granularity_use_requested_start() {
    let out = bucket_rows(vec![row(Some(at(2023, 3, 3, 3, 3, 3)))], &None, &range()).unwrap();
    assert_eq!(out[0].0.time_bucket, range());
    let id = bucket_identifier(&row(None), &Some(Granularity::OneDay), &range()).unwrap();
    assert_eq!(id.time_bucket, range());
}

#[test]
fn unclippable_row_fails_bucketing() {
    let bad = DateTime { year: 2023, month: 1, day: 1, hour: 99, minute: 0, second: 0, nanosecond: 0 };
    assert_eq!(
        bucket_time_range(Some(bad), &Some(Granularity::OneDay), &range()),
        Err(PostProcessingError::BucketClipping)
    );
    assert_eq!(
        bucket_rows(vec![row(None), row(Some(bad))], &Some(Granularity::OneHour), &range()).unwrap_err(),
        PostProcessingError::BucketClipping
    );
}

#[test]
fn duplicate_keys_are_rejected() {
    assert_eq!(
        bucket_rows(vec![row(None), row(None)], &None, &range()).unwrap_err(),
        PostProcessingError::DuplicateBucket
    );
    let same_bucket = vec![
        row(Some(at(2023, 1, 1, 10, 6, 0))),
        row(Some(at(2023, 1, 1, 10, 8, 0))),
    ];
    assert_eq!(
        bucket_rows(same_bucket, &Some(Granularity::FiveMin), &range()).unwrap_err(),
        PostProcessingError::DuplicateBucket
    );
    let apart = vec![
        row(Some(at(2023, 1, 1, 10, 6, 0))),
        row(Some(at(2023, 1, 1, 10, 11, 0))),
    ];
    let out = bucket_rows(apart, &Some(Granularity::FiveMin), &range()).unwrap();
    assert_ne!(out[0].0, out[1].0);
}
