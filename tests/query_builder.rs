use analytics_query::datetime::DateTime;
use analytics_query::granularity::Granularity;
use analytics_query::query::{
    Aggregate, AnalyticsCollection, FilterTypes, GroupByClause, QueryBuilder,
    QueryBuildingError, QueryFilter, TimeRange, ToSql,
};

fn at(y: i32, mo: u8, d: u8, h: u8, mi: u8, s: u8) -> DateTime {
    DateTime::new(y, mo, d, h, mi, s, 0).unwrap()
}

#[test]
fn build_without_select_columns_is_invalid() {
    let mut b = QueryBuilder::new(AnalyticsCollection::Payment);
    assert!(matches!(
        b.build_query(),
        Err(QueryBuildingError::InvalidQuery("No select fields provided"))
    ));
    b.add_select_column("status").unwrap();
    assert_eq!(b.build_query().unwrap(), "SELECT status FROM payment_attempt");
}

#[test]
fn renders_count_with_one_filter() {
    let mut b = QueryBuilder::new(AnalyticsCollection::Payment);
    b.add_select_column("COUNT(*) as count").unwrap();
    b.add_custom_filter_clause("created_at", "2023-01-01T00:00:00", FilterTypes::Gte)
        .unwrap();
    assert_eq!(
        b.build_query().unwrap(),
        "SELECT COUNT(*) as count FROM payment_attempt WHERE created_at >= '2023-01-01T00:00:00'"
    );
}

#[test]
fn in_range_filter_strips_spaces() {
    let mut b = QueryBuilder::new(AnalyticsCollection::Payment);
    b.add_select_column("connector").unwrap();
    b.add_filter_in_range_clause("connector", &["stripe", "adyen global"])
        .unwrap();
    assert_eq!(
        b.build_query().unwrap(),
        "SELECT connector FROM payment_attempt WHERE connector IN ('stripe', 'adyenglobal')"
    );
}

#[test]
fn in_range_filter_with_strings() {
    let mut b = QueryBuilder::new(AnalyticsCollection::Refund);
    b.add_select_column("currency").unwrap();
    let values = vec![String::from("U S D"), String::from("EUR")];
    b.add_filter_in_range_clause("currency", &values).unwrap();
    assert_eq!(
        b.build_query().unwrap(),
        "SELECT currency FROM refund WHERE currency IN ('USD', 'EUR')"
    );
}

#[test]
fn where_clause_quoting_per_comparator() {
    let mut b = QueryBuilder::new(AnalyticsCollection::Payment);
    b.add_select_column("a").unwrap();
    b.add_filter_clause("merchant_id", "m1").unwrap();
    b.add_bool_filter_clause("is_test", true).unwrap();
    b.add_custom_filter_clause("amount", 100u64, FilterTypes::Gt).unwrap();
    b.add_custom_filter_clause("created_at", "2023-02-01", FilterTypes::Lte)
        .unwrap();
    assert_eq!(
        b.build_query().unwrap(),
        "SELECT a FROM payment_attempt WHERE merchant_id = 'm1' AND is_test = true \
         AND amount > 100 AND created_at <= '2023-02-01'"
    );
}

#[test]
fn distinct_group_by_and_having() {
    let mut b = QueryBuilder::new(AnalyticsCollection::Payment);
    b.set_distinct();
    b.set_distinct();
    b.add_select_column("connector").unwrap();
    b.add_select_column(Aggregate::Count::<&str> { field: None, alias: Some("count") })
        .unwrap();
    b.add_group_by_clause("connector").unwrap();
    b.add_group_by_clause("currency").unwrap();
    assert_eq!(b.get_filter_type_clause(), None);
    b.add_having_clause(Aggregate::Count::<&str> { field: None, alias: None }, FilterTypes::Gte, 5u64)
        .unwrap();
    b.add_having_clause(
        Aggregate::Sum { field: "amount", alias: None },
        FilterTypes::Lte,
        1000u64,
    )
    .unwrap();
    assert_eq!(
        b.get_filter_type_clause().unwrap(),
        "count(*) >= 5 AND sum(amount) < 1000"
    );
    let q = b.build_query().unwrap();
    assert_eq!(
        q,
        "SELECT DISTINCT connector, count(*) as count FROM payment_attempt \
         GROUP BY connector, currency HAVING count(*) >= 5 AND sum(amount) < 1000"
    );
    assert_eq!(b.build_query().unwrap(), q);
}

#[test]
fn having_equal_is_unquoted() {
    let mut b = QueryBuilder::new(AnalyticsCollection::Payment);
    b.add_select_column("x").unwrap();
    b.add_having_clause(Aggregate::Max { field: "amount", alias: None }, FilterTypes::Equal, "7")
        .unwrap();
    assert_eq!(
        b.build_query().unwrap(),
        "SELECT x FROM payment_attempt HAVING max(amount) = 7"
    );
}

#[test]
fn aggregate_texts() {
    let c: Aggregate<&str> = Aggregate::Count { field: Some("id"), alias: Some("count") };
    assert_eq!(c.to_sql().unwrap(), "count(*) as count");
    let s: Aggregate<&str> = Aggregate::Sum { field: "amount", alias: Some("total") };
    assert_eq!(s.to_sql().unwrap(), "sum(amount) as total");
    let mn: Aggregate<&str> = Aggregate::Min { field: "created_at", alias: None };
    assert_eq!(mn.to_sql().unwrap(), "min(created_at)");
    let mx: Aggregate<&str> = Aggregate::Max { field: "created_at", alias: Some("end_bucket") };
    assert_eq!(mx.to_sql().unwrap(), "max(created_at) as end_bucket");
}

#[test]
fn primitive_texts() {
    assert_eq!(false.to_sql().unwrap(), "false");
    assert_eq!(1234567u64.to_sql().unwrap(), "1234567");
    assert_eq!(0u64.to_sql().unwrap(), "0");
    assert_eq!(AnalyticsCollection::Refund.to_sql().unwrap(), "refund");
}

#[test]
fn five_minute_group_by() {
    let mut b = QueryBuilder::new(AnalyticsCollection::Payment);
    b.add_select_column("count(*)").unwrap();
    Granularity::FiveMin.set_group_by_clause(&mut b).unwrap();
    assert_eq!(
        b.build_query().unwrap(),
        "SELECT count(*) FROM payment_attempt GROUP BY DATE_TRUNC('hour', modified_at), \
         FLOOR(DATE_PART('minute', modified_at)/5)"
    );
}

#[test]
fn single_group_by_for_whole_units() {
    for (g, level) in [
        (Granularity::OneMin, "minute"),
        (Granularity::OneHour, "hour"),
        (Granularity::OneDay, "day"),
    ] {
        let mut b = QueryBuilder::new(AnalyticsCollection::Payment);
        b.add_select_column("x").unwrap();
        g.set_group_by_clause(&mut b).unwrap();
        assert_eq!(
            b.build_query().unwrap(),
            format!("SELECT x FROM payment_attempt GROUP BY DATE_TRUNC('{level}', modified_at)")
        );
    }
    let mut b = QueryBuilder::new(AnalyticsCollection::Payment);
    b.add_select_column("x").unwrap();
    Granularity::ThirtyMin.set_group_by_clause(&mut b).unwrap();
    assert!(b.build_query().unwrap().ends_with("FLOOR(DATE_PART('minute', modified_at)/30)"));
}

#[test]
fn granularity_in_minutes_column() {
    let mut b = QueryBuilder::new(AnalyticsCollection::Payment);
    b.add_granularity_in_mins(&Granularity::OneDay).unwrap();
    b.add_granularity_in_mins(&Granularity::FifteenMin).unwrap();
    assert_eq!(
        b.build_query().unwrap(),
        "SELECT toStartOfInterval(created_at, INTERVAL 1440 MINUTE) as time_bucket, \
         toStartOfInterval(created_at, INTERVAL 15 MINUTE) as time_bucket FROM payment_attempt"
    );
}

#[test]
fn time_range_filters() {
    let mut b = QueryBuilder::new(AnalyticsCollection::Payment);
    b.add_select_column("x").unwrap();
    let range = TimeRange { start_time: at(2023, 1, 1, 10, 30, 0), end_time: None };
    range.set_filter_clause(&mut b).unwrap();
    assert_eq!(
        b.build_query().unwrap(),
        "SELECT x FROM payment_attempt WHERE created_at >= '2023-01-01 10:30:00.0'"
    );
    let mut b = QueryBuilder::new(AnalyticsCollection::Payment);
    b.add_select_column("x").unwrap();
    let range = TimeRange {
        start_time: at(2023, 1, 1, 0, 0, 0),
        end_time: Some(at(2023, 1, 2, 23, 5, 9)),
    };
    range.set_filter_clause(&mut b).unwrap();
    assert_eq!(
        b.build_query().unwrap(),
        "SELECT x FROM payment_attempt WHERE created_at >= '2023-01-01 0:00:00.0' \
         AND created_at <= '2023-01-02 23:05:09.0'"
    );
}

#[test]
fn invalid_timestamp_fails_to_serialize() {
    let mut b = QueryBuilder::new(AnalyticsCollection::Payment);
    b.add_select_column("x").unwrap();
    let bad = DateTime { year: 2023, month: 13, day: 1, hour: 0, minute: 0, second: 0, nanosecond: 0 };
    assert!(matches!(
        b.add_custom_filter_clause("created_at", bad, FilterTypes::Gte),
        Err(QueryBuildingError::SqlSerializeError)
    ));
    assert_eq!(b.build_query().unwrap(), "SELECT x FROM payment_attempt");
}

#[test]
fn in_range_filter_strips_all_whitespace() {
    let mut b = QueryBuilder::new(AnalyticsCollection::Payment);
    b.add_select_column("x").unwrap();
    b.add_filter_in_range_clause("status", &["a\tb", "c\nd\r", "e\u{a0}f\u{3000}g"])
        .unwrap();
    assert_eq!(
        b.build_query().unwrap(),
        "SELECT x FROM payment_attempt WHERE status IN ('ab', 'cd', 'efg')"
    );
}

#[test]
fn failed_end_bound_keeps_start_filter() {
    let mut b = QueryBuilder::new(AnalyticsCollection::Payment);
    b.add_select_column("x").unwrap();
    let bad = DateTime { year: 2023, month: 2, day: 30, hour: 0, minute: 0, second: 0, nanosecond: 0 };
    let range = TimeRange { start_time: at(2023, 1, 1, 0, 0, 0), end_time: Some(bad) };
    assert!(matches!(range.set_filter_clause(&mut b), Err(QueryBuildingError::SqlSerializeError)));
    assert_eq!(
        b.build_query().unwrap(),
        "SELECT x FROM payment_attempt WHERE created_at >= '2023-01-01 0:00:00.0'"
    );
    let range = TimeRange { start_time: bad, end_time: Some(at(2023, 1, 1, 0, 0, 0)) };
    let mut c = QueryBuilder::new(AnalyticsCollection::Payment);
    c.add_select_column("x").unwrap();
    assert!(matches!(range.set_filter_clause(&mut c), Err(QueryBuildingError::SqlSerializeError)));
    assert_eq!(c.build_query().unwrap(), "SELECT x FROM payment_attempt");
}
