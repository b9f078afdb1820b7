use vstd::prelude::*;

use crate::datetime::DateTime;
use crate::granularity::{
    clip_to_end_of, clip_to_start_of, lemma_clip_to_end_bounds, lemma_clip_to_start_bounds,
    lemma_clip_to_start_idempotent,
    Granularity, PostProcessingError, SeriesBucket,
};
use crate::query::{
    aggregate_text, granularity_group_by, in_list, query_text, time_range_filters, Aggregate,
    AnalyticsCollection, FilterText, FilterTypes, GroupByClause, QueryBuilder, QueryBuildingError,
    QueryFilter, QueryView, TimeRange, ToSql,
};

verus! {

/// An attribute of a payment that results can be grouped and filtered by.
#[derive(Clone, Copy, Debug, PartialEq, Eq, Structural)]
pub enum PaymentDimensions {
    Connector,
    PaymentMethod,
    Currency,
    AuthType,
    PaymentStatus,
}

/// The column that holds a dimension.
pub open spec fn dimension_name(d: PaymentDimensions) -> Seq<char> {
    match d {
        PaymentDimensions::Connector => "connector"@,
        PaymentDimensions::PaymentMethod => "payment_method"@,
        PaymentDimensions::Currency => "currency"@,
        PaymentDimensions::AuthType => "authentication_type"@,
        PaymentDimensions::PaymentStatus => "status"@,
    }
}

impl ToSql for PaymentDimensions {
    open spec fn sql(&self) -> Option<Seq<char>> {
        Some(dimension_name(*self))
    }

    fn to_sql(&self) -> (r: Result<String, crate::query::ParsingError>) {
        match self {
            PaymentDimensions::Connector => Ok(String::from_str("connector")),
            PaymentDimensions::PaymentMethod => Ok(String::from_str("payment_method")),
            PaymentDimensions::Currency => Ok(String::from_str("currency")),
            PaymentDimensions::AuthType => Ok(String::from_str("authentication_type")),
            PaymentDimensions::PaymentStatus => Ok(String::from_str("status")),
        }
    }
}

/// The values that payments are restricted to, per dimension; an empty list
/// restricts nothing.
#[derive(Debug)]
pub struct PaymentFilters {
    pub currency: Vec<String>,
    pub status: Vec<String>,
    pub connector: Vec<String>,
    pub auth_type: Vec<String>,
    pub payment_method: Vec<String>,
}

/// The IN filter of one dimension, or nothing where its list is empty.
pub open spec fn in_filter(d: PaymentDimensions, values: Seq<String>) -> Seq<FilterText> {
    if values.len() == 0 {
        Seq::empty()
    } else {
        seq![(dimension_name(d), FilterTypes::In, in_list(values))]
    }
}

pub open spec fn payment_filter_texts(f: PaymentFilters) -> Seq<FilterText> {
    in_filter(PaymentDimensions::Currency, f.currency@) + in_filter(
        PaymentDimensions::PaymentStatus,
        f.status@,
    ) + in_filter(PaymentDimensions::Connector, f.connector@) + in_filter(
        PaymentDimensions::AuthType,
        f.auth_type@,
    ) + in_filter(PaymentDimensions::PaymentMethod, f.payment_method@)
}

/// Adds the IN filter of one dimension where its list is not empty.
fn add_in_filter(builder: &mut QueryBuilder, d: PaymentDimensions, values: &Vec<String>)
    ensures
        final(builder)@ == (QueryView {
            filters: old(builder)@.filters + in_filter(d, values@),
            ..old(builder)@
        }),
{
    if values.len() > 0 {
        let _ = builder.add_filter_in_range_clause(d, values.as_slice());
        proof {
            assert(final(builder)@.filters =~= old(builder)@.filters + in_filter(d, values@));
        }
    } else {
        proof {
            assert(old(builder)@.filters + in_filter(d, values@) =~= old(builder)@.filters);
        }
    }
}

impl QueryFilter for PaymentFilters {
    open spec fn filter_texts(&self) -> Option<Seq<FilterText>> {
        Some(payment_filter_texts(*self))
    }

    open spec fn added_filters(&self) -> Seq<FilterText> {
        payment_filter_texts(*self)
    }

    fn set_filter_clause(&self, builder: &mut QueryBuilder) -> (r: Result<(), QueryBuildingError>) {
        let ghost before = builder@;
        add_in_filter(builder, PaymentDimensions::Currency, &self.currency);
        add_in_filter(builder, PaymentDimensions::PaymentStatus, &self.status);
        add_in_filter(builder, PaymentDimensions::Connector, &self.connector);
        add_in_filter(builder, PaymentDimensions::AuthType, &self.auth_type);
        add_in_filter(builder, PaymentDimensions::PaymentMethod, &self.payment_method);
        proof {
            assert(builder@.filters =~= before.filters + payment_filter_texts(*self));
        }
        Ok(())
    }
}

/// The payment metrics that can be computed.
#[derive(Clone, Copy, Debug, PartialEq, Eq, Structural)]
pub enum PaymentMetrics {
    PaymentSuccessRate,
    PaymentCount,
    PaymentSuccessCount,
    PaymentProcessedAmount,
    AvgTicketSize,
}

pub open spec fn count_column() -> Seq<char> {
    aggregate_text(&Aggregate::<&'static str>::Count { field: None, alias: Some("count") })->Some_0
}

pub open spec fn total_column() -> Seq<char> {
    aggregate_text(&Aggregate::<&'static str>::Sum { field: "amount", alias: Some("total") })->Some_0
}

pub open spec fn bucket_columns() -> Seq<Seq<char>> {
    seq![
        aggregate_text(&Aggregate::<&'static str>::Min { field: "created_at", alias: Some("start_bucket") })->Some_0,
        aggregate_text(&Aggregate::<&'static str>::Max { field: "created_at", alias: Some("end_bucket") })->Some_0,
    ]
}

/// The aggregate columns that a metric selects after the dimensions. What each
/// metric selects, filters on and groups by is this library's own choice of
/// query for it.
pub open spec fn metric_columns(m: PaymentMetrics) -> Seq<Seq<char>> {
    match m {
        PaymentMetrics::PaymentProcessedAmount => seq![total_column()] + bucket_columns(),
        PaymentMetrics::AvgTicketSize => seq![total_column(), count_column()] + bucket_columns(),
        _ => seq![count_column()] + bucket_columns(),
    }
}

/// The metric counts only payments whose status is `charged`.
pub open spec fn charged_only(m: PaymentMetrics) -> bool {
    m is PaymentSuccessCount || m is PaymentProcessedAmount || m is AvgTicketSize
}

/// The metric groups by status besides the requested dimensions.
pub open spec fn groups_by_status(m: PaymentMetrics) -> bool {
    m is PaymentSuccessRate
}

pub open spec fn dimension_texts(dims: Seq<PaymentDimensions>) -> Seq<Seq<char>> {
    dims.map_values(|d: PaymentDimensions| dimension_name(d))
}

/// The query that selects `columns` and then restricts and groups payments as
/// every metric does, given the filters of the time range.
pub open spec fn assembled_view(
    columns: Seq<Seq<char>>,
    charged: bool,
    by_status: bool,
    dims: Seq<PaymentDimensions>,
    merchant_id: Seq<char>,
    filters: PaymentFilters,
    granularity: Option<Granularity>,
    range_filters: Seq<FilterText>,
) -> QueryView {
    QueryView {
        columns,
        filters: payment_filter_texts(filters) + seq![
            ("merchant_id"@, FilterTypes::Equal, merchant_id),
        ] + range_filters + (if charged {
            seq![(dimension_name(PaymentDimensions::PaymentStatus), FilterTypes::Equal, "charged"@)]
        } else {
            Seq::empty()
        }),
        group_by: dimension_texts(dims) + (if by_status {
            seq![dimension_name(PaymentDimensions::PaymentStatus)]
        } else {
            Seq::empty()
        }) + match granularity {
            Some(g) => granularity_group_by(g),
            None => Seq::empty(),
        },
        having: None,
        table: AnalyticsCollection::Payment,
        distinct: false,
    }
}

/// The query that a metric sends, given the filters of its time range.
pub open spec fn metric_view(
    m: PaymentMetrics,
    dims: Seq<PaymentDimensions>,
    merchant_id: Seq<char>,
    filters: PaymentFilters,
    granularity: Option<Granularity>,
    range_filters: Seq<FilterText>,
) -> QueryView {
    assembled_view(
        dimension_texts(dims) + metric_columns(m),
        charged_only(m),
        groups_by_status(m),
        dims,
        merchant_id,
        filters,
        granularity,
        range_filters,
    )
}

/// The text of a metric's query; `None` where the time range cannot be rendered.
pub open spec fn metric_query(
    m: PaymentMetrics,
    dims: Seq<PaymentDimensions>,
    merchant_id: Seq<char>,
    filters: PaymentFilters,
    granularity: Option<Granularity>,
    time_range: TimeRange,
) -> Option<Seq<char>> {
    match time_range_filters(time_range) {
        Some(rf) => Some(query_text(metric_view(m, dims, merchant_id, filters, granularity, rf))),
        None => None,
    }
}

/// `r` is the outcome that `metric_query` gives for these arguments.
pub open spec fn is_metric_query(
    r: Result<String, QueryBuildingError>,
    m: PaymentMetrics,
    dims: Seq<PaymentDimensions>,
    merchant_id: Seq<char>,
    filters: PaymentFilters,
    granularity: Option<Granularity>,
    time_range: TimeRange,
) -> bool {
    match metric_query(m, dims, merchant_id, filters, granularity, time_range) {
        Some(q) => r is Ok && r->Ok_0@ == q,
        None => r is Err && r->Err_0 is SqlSerializeError,
    }
}

/// A query over payments that selects the dimensions.
fn select_dimensions(dims: &[PaymentDimensions]) -> (r: QueryBuilder)
    ensures
        r@ == (QueryView {
            columns: dimension_texts(dims@),
            filters: Seq::empty(),
            group_by: Seq::empty(),
            having: None,
            table: AnalyticsCollection::Payment,
            distinct: false,
        }),
{
    let mut b = QueryBuilder::new(AnalyticsCollection::Payment);
    let n = dims.len();
    let mut i: usize = 0;
    proof {
        assert(dimension_texts(dims@.take(0)) =~= Seq::<Seq<char>>::empty());
    }
    while i < n
        invariant
            0 <= i <= n,
            n == dims@.len(),
            b@ == (QueryView {
                columns: dimension_texts(dims@.take(i as int)),
                filters: Seq::empty(),
                group_by: Seq::empty(),
                having: None,
                table: AnalyticsCollection::Payment,
                distinct: false,
            }),
        decreases n - i,
    {
        let _ = b.add_select_column(dims[i]);
        proof {
            assert(dimension_texts(dims@.take(i + 1)) =~= dimension_texts(dims@.take(i as int)).push(
                dimension_name(dims@[i as int]),
            ));
        }
        i += 1;
    }
    proof {
        assert(dims@.take(n as int) =~= dims@);
    }
    b
}

/// Selects the first and last creation time of each group.
fn add_bucket_columns(b: &mut QueryBuilder)
    ensures
        final(b)@ == (QueryView { columns: old(b)@.columns + bucket_columns(), ..old(b)@ }),
{
    let _ = b.add_select_column(Aggregate::Min { field: "created_at", alias: Some("start_bucket") });
    let _ = b.add_select_column(Aggregate::Max { field: "created_at", alias: Some("end_bucket") });
    proof {
        assert(final(b)@.columns =~= old(b)@.columns + bucket_columns());
    }
}

/// Restricts a query to the merchant, the filters and the time range (and to
/// charged payments where `charged`), groups it by the dimensions (and by status
/// where `by_status`) and by the granularity, and renders it.
fn finish_metric_query(
    b: QueryBuilder,
    charged: bool,
    by_status: bool,
    dims: &[PaymentDimensions],
    merchant_id: &str,
    filters: &PaymentFilters,
    granularity: &Option<Granularity>,
    time_range: &TimeRange,
) -> (r: Result<String, QueryBuildingError>)
    requires
        b@.columns.len() > 0,
        b@.filters.len() == 0,
        b@.group_by.len() == 0,
        b@.having is None,
        b@.table == AnalyticsCollection::Payment,
        !b@.distinct,
    ensures
        match time_range_filters(*time_range) {
            Some(rf) => r is Ok && r->Ok_0@ == query_text(
                assembled_view(
                    b@.columns,
                    charged,
                    by_status,
                    dims@,
                    merchant_id@,
                    *filters,
                    *granularity,
                    rf,
                ),
            ),
            None => r is Err && r->Err_0 is SqlSerializeError,
        },
{
    let mut b = b;
    let ghost start = b@;
    let _ = filters.set_filter_clause(&mut b);
    let _ = b.add_filter_clause("merchant_id", merchant_id);
    let ghost mid = b@;
    match time_range.set_filter_clause(&mut b) {
        Ok(()) => {},
        Err(e) => return Err(e),
    }
    let ghost rf = time_range_filters(*time_range)->Some_0;
    if charged {
        let _ = b.add_filter_clause(PaymentDimensions::PaymentStatus, "charged");
    }
    let ghost filtered = b@;
    let n = dims.len();
    let mut i: usize = 0;
    proof {
        assert(dimension_texts(dims@.take(0)) =~= Seq::<Seq<char>>::empty());
        assert(filtered.group_by =~= Seq::<Seq<char>>::empty());
    }
    while i < n
        invariant
            0 <= i <= n,
            n == dims@.len(),
            b@ == (QueryView { group_by: dimension_texts(dims@.take(i as int)), ..filtered }),
        decreases n - i,
    {
        let _ = b.add_group_by_clause(dims[i]);
        proof {
            assert(dimension_texts(dims@.take(i + 1)) =~= dimension_texts(dims@.take(i as int)).push(
                dimension_name(dims@[i as int]),
            ));
        }
        i += 1;
    }
    proof {
        assert(dims@.take(n as int) =~= dims@);
    }
    if by_status {
        let _ = b.add_group_by_clause(PaymentDimensions::PaymentStatus);
    }
    match granularity {
        Some(g) => {
            let _ = g.set_group_by_clause(&mut b);
        },
        None => {},
    }
    let ghost done = b@;
    proof {
        let v = assembled_view(
            start.columns,
            charged,
            by_status,
            dims@,
            merchant_id@,
            *filters,
            *granularity,
            rf,
        );
        assert(done.filters =~= v.filters);
        assert(done.group_by =~= v.group_by);
        assert(done == v);
    }
    b.build_query()
}

/// A computation of one payment metric. The five computations below share one
/// query shape and differ in the aggregates they select, whether they count
/// charged payments only, and whether they group by status; those choices are
/// this library's own.
pub trait PaymentMetric {
    /// The metric that this computes.
    spec fn kind(&self) -> PaymentMetrics;

    /// The query of the metric for the dimensions, the merchant, the filters, the
    /// granularity and the time range.
    fn build_metric_query(
        &self,
        dimensions: &[PaymentDimensions],
        merchant_id: &str,
        filters: &PaymentFilters,
        granularity: &Option<Granularity>,
        time_range: &TimeRange,
    ) -> (r: Result<String, QueryBuildingError>)
        ensures
            is_metric_query(
                r,
                self.kind(),
                dimensions@,
                merchant_id@,
                *filters,
                *granularity,
                *time_range,
            ),
    ;
}

fn add_count_column(b: &mut QueryBuilder)
    ensures
        final(b)@ == (QueryView { columns: old(b)@.columns.push(count_column()), ..old(b)@ }),
{
    let _ = b.add_select_column(Aggregate::<&'static str>::Count { field: None, alias: Some("count") });
}

fn add_total_column(b: &mut QueryBuilder)
    ensures
        final(b)@ == (QueryView { columns: old(b)@.columns.push(total_column()), ..old(b)@ }),
{
    let _ = b.add_select_column(Aggregate::Sum { field: "amount", alias: Some("total") });
}

/// The share of payments that succeeded, from counts per status.
#[derive(Clone, Copy, Debug)]
pub struct PaymentSuccessRate;

impl PaymentMetric for PaymentSuccessRate {
    open spec fn kind(&self) -> PaymentMetrics {
        PaymentMetrics::PaymentSuccessRate
    }

    fn build_metric_query(
        &self,
        dimensions: &[PaymentDimensions],
        merchant_id: &str,
        filters: &PaymentFilters,
        granularity: &Option<Granularity>,
        time_range: &TimeRange,
    ) -> (r: Result<String, QueryBuildingError>) {
        let mut b = select_dimensions(dimensions);
        add_count_column(&mut b);
        add_bucket_columns(&mut b);
        proof {
            assert(b@.columns =~= dimension_texts(dimensions@) + metric_columns(self.kind()));
        }
        finish_metric_query(
            b,
            false,
            true,
            dimensions,
            merchant_id,
            filters,
            granularity,
            time_range,
        )
    }
}

/// The number of payments.
#[derive(Clone, Copy, Debug)]
pub struct PaymentCount;

impl PaymentMetric for PaymentCount {
    open spec fn kind(&self) -> PaymentMetrics {
        PaymentMetrics::PaymentCount
    }

    fn build_metric_query(
        &self,
        dimensions: &[PaymentDimensions],
        merchant_id: &str,
        filters: &PaymentFilters,
        granularity: &Option<Granularity>,
        time_range: &TimeRange,
    ) -> (r: Result<String, QueryBuildingError>) {
        let mut b = select_dimensions(dimensions);
        add_count_column(&mut b);
        add_bucket_columns(&mut b);
        proof {
            assert(b@.columns =~= dimension_texts(dimensions@) + metric_columns(self.kind()));
        }
        finish_metric_query(
            b,
            false,
            false,
            dimensions,
            merchant_id,
            filters,
            granularity,
            time_range,
        )
    }
}

/// The number of charged payments.
#[derive(Clone, Copy, Debug)]
pub struct PaymentSuccessCount;

impl PaymentMetric for PaymentSuccessCount {
    open spec fn kind(&self) -> PaymentMetrics {
        PaymentMetrics::PaymentSuccessCount
    }

    fn build_metric_query(
        &self,
        dimensions: &[PaymentDimensions],
        merchant_id: &str,
        filters: &PaymentFilters,
        granularity: &Option<Granularity>,
        time_range: &TimeRange,
    ) -> (r: Result<String, QueryBuildingError>) {
        let mut b = select_dimensions(dimensions);
        add_count_column(&mut b);
        add_bucket_columns(&mut b);
        proof {
            assert(b@.columns =~= dimension_texts(dimensions@) + metric_columns(self.kind()));
        }
        finish_metric_query(
            b,
            true,
            false,
            dimensions,
            merchant_id,
            filters,
            granularity,
            time_range,
        )
    }
}

/// The amount of charged payments.
#[derive(Clone, Copy, Debug)]
pub struct PaymentProcessedAmount;

impl PaymentMetric for PaymentProcessedAmount {
    open spec fn kind(&self) -> PaymentMetrics {
        PaymentMetrics::PaymentProcessedAmount
    }

    fn build_metric_query(
        &self,
        dimensions: &[PaymentDimensions],
        merchant_id: &str,
        filters: &PaymentFilters,
        granularity: &Option<Granularity>,
        time_range: &TimeRange,
    ) -> (r: Result<String, QueryBuildingError>) {
        let mut b = select_dimensions(dimensions);
        add_total_column(&mut b);
        add_bucket_columns(&mut b);
        proof {
            assert(b@.columns =~= dimension_texts(dimensions@) + metric_columns(self.kind()));
        }
        finish_metric_query(
            b,
            true,
            false,
            dimensions,
            merchant_id,
            filters,
            granularity,
            time_range,
        )
    }
}

/// The amount and the number of charged payments, for their average.
#[derive(Clone, Copy, Debug)]
pub struct AvgTicketSize;

impl PaymentMetric for AvgTicketSize {
    open spec fn kind(&self) -> PaymentMetrics {
        PaymentMetrics::AvgTicketSize
    }

    fn build_metric_query(
        &self,
        dimensions: &[PaymentDimensions],
        merchant_id: &str,
        filters: &PaymentFilters,
        granularity: &Option<Granularity>,
        time_range: &TimeRange,
    ) -> (r: Result<String, QueryBuildingError>) {
        let mut b = select_dimensions(dimensions);
        add_total_column(&mut b);
        add_count_column(&mut b);
        add_bucket_columns(&mut b);
        proof {
            assert(b@.columns =~= dimension_texts(dimensions@) + metric_columns(self.kind()));
        }
        finish_metric_query(
            b,
            true,
            false,
            dimensions,
            merchant_id,
            filters,
            granularity,
            time_range,
        )
    }
}

impl PaymentMetric for PaymentMetrics {
    open spec fn kind(&self) -> PaymentMetrics {
        *self
    }

    /// Hands the request to the computation of this metric.
    fn build_metric_query(
        &self,
        dimensions: &[PaymentDimensions],
        merchant_id: &str,
        filters: &PaymentFilters,
        granularity: &Option<Granularity>,
        time_range: &TimeRange,
    ) -> (r: Result<String, QueryBuildingError>) {
        match self {
            PaymentMetrics::PaymentSuccessRate => PaymentSuccessRate.build_metric_query(
                dimensions,
                merchant_id,
                filters,
                granularity,
                time_range,
            ),
            PaymentMetrics::PaymentCount => PaymentCount.build_metric_query(
                dimensions,
                merchant_id,
                filters,
                granularity,
                time_range,
            ),
            PaymentMetrics::PaymentSuccessCount => PaymentSuccessCount.build_metric_query(
                dimensions,
                merchant_id,
                filters,
                granularity,
                time_range,
            ),
            PaymentMetrics::PaymentProcessedAmount => PaymentProcessedAmount.build_metric_query(
                dimensions,
                merchant_id,
                filters,
                granularity,
                time_range,
            ),
            PaymentMetrics::AvgTicketSize => AvgTicketSize.build_metric_query(
                dimensions,
                merchant_id,
                filters,
                granularity,
                time_range,
            ),
        }
    }
}

#[verifier::external_type_specification]
#[verifier::external_body]
pub struct ExBigDecimal(bigdecimal::BigDecimal);

/// One row of a metric's result: the values of the grouped dimensions, the
/// aggregates, and the first and last creation time in the group.
#[derive(Debug, PartialEq, Eq)]
pub struct PaymentMetricRow {
    pub currency: Option<String>,
    pub status: Option<String>,
    pub connector: Option<String>,
    pub authentication_type: Option<String>,
    pub payment_method: Option<String>,
    pub total: Option<bigdecimal::BigDecimal>,
    pub count: Option<i64>,
    pub start_bucket: Option<DateTime>,
    pub end_bucket: Option<DateTime>,
}

/// The key of one result: the dimension values and the bounds of the time bucket.
#[derive(Clone, Debug, PartialEq, Eq, Hash)]
pub struct PaymentMetricsBucketIdentifier {
    pub currency: Option<String>,
    pub status: Option<String>,
    pub connector: Option<String>,
    pub auth_type: Option<String>,
    pub payment_method: Option<String>,
    pub time_bucket: TimeRange,
    pub start_time: DateTime,
}

pub open spec fn opt_text(o: Option<String>) -> Option<Seq<char>> {
    match o {
        Some(s) => Some(s@),
        None => None,
    }
}

/// The time bucket of a row that starts at `start_bucket`: with a granularity,
/// the bounds of the bucket that holds that instant; without one, the requested
/// range's start and no end. `None` where a bound cannot be computed.
pub open spec fn bucket_range(
    start_bucket: Option<DateTime>,
    granularity: Option<Granularity>,
    time_range: TimeRange,
) -> Option<TimeRange> {
    match (granularity, start_bucket) {
        (Some(g), Some(st)) => match (clip_to_start_of(g, st), clip_to_end_of(g, st)) {
            (Some(s), Some(e)) => Some(TimeRange { start_time: s, end_time: Some(e) }),
            _ => None,
        },
        (Some(g), None) => Some(TimeRange { start_time: time_range.start_time, end_time: None }),
        (None, _) => Some(TimeRange { start_time: time_range.start_time, end_time: None }),
    }
}

/// `id` is the key of `row` for the granularity and the requested range.
pub open spec fn identifies(
    id: PaymentMetricsBucketIdentifier,
    row: PaymentMetricRow,
    granularity: Option<Granularity>,
    time_range: TimeRange,
) -> bool {
    &&& opt_text(id.currency) == opt_text(row.currency)
    &&& opt_text(id.status) == opt_text(row.status)
    &&& opt_text(id.connector) == opt_text(row.connector)
    &&& opt_text(id.auth_type) == opt_text(row.authentication_type)
    &&& opt_text(id.payment_method) == opt_text(row.payment_method)
    &&& bucket_range(row.start_bucket, granularity, time_range) == Some(id.time_bucket)
    &&& id.start_time == id.time_bucket.start_time
}

fn clone_text(o: &Option<String>) -> (r: Option<String>)
    ensures
        opt_text(r) == opt_text(*o),
{
    match o {
        Some(s) => Some(s.clone()),
        None => None,
    }
}

/// The time bucket of a row that starts at `start_bucket`.
pub fn bucket_time_range(
    start_bucket: Option<DateTime>,
    granularity: &Option<Granularity>,
    time_range: &TimeRange,
) -> (r: Result<TimeRange, PostProcessingError>)
    ensures
        match bucket_range(start_bucket, *granularity, *time_range) {
            Some(t) => r == Ok::<TimeRange, PostProcessingError>(t),
            None => r == Err::<TimeRange, PostProcessingError>(PostProcessingError::BucketClipping),
        },
{
    match (granularity, start_bucket) {
        (Some(g), Some(st)) => {
            let start_time = g.clip_to_start(st)?;
            let end_time = g.clip_to_end(st)?;
            Ok(TimeRange { start_time, end_time: Some(end_time) })
        },
        _ => Ok(TimeRange { start_time: time_range.start_time, end_time: None }),
    }
}

/// The key of a row for the granularity and the requested range.
pub fn bucket_identifier(
    row: &PaymentMetricRow,
    granularity: &Option<Granularity>,
    time_range: &TimeRange,
) -> (r: Result<PaymentMetricsBucketIdentifier, PostProcessingError>)
    ensures
        r is Ok <==> bucket_range(row.start_bucket, *granularity, *time_range) is Some,
        r is Ok ==> identifies(r->Ok_0, *row, *granularity, *time_range),
        r is Err ==> r->Err_0 == PostProcessingError::BucketClipping,
{
    let time_bucket = bucket_time_range(row.start_bucket, granularity, time_range)?;
    Ok(
        PaymentMetricsBucketIdentifier {
            currency: clone_text(&row.currency),
            status: clone_text(&row.status),
            connector: clone_text(&row.connector),
            auth_type: clone_text(&row.authentication_type),
            payment_method: clone_text(&row.payment_method),
            time_bucket,
            start_time: time_bucket.start_time,
        },
    )
}

/// What tells two keys apart: the dimension values and the time bucket.
pub type KeyView = (
    Option<Seq<char>>,
    Option<Seq<char>>,
    Option<Seq<char>>,
    Option<Seq<char>>,
    Option<Seq<char>>,
    TimeRange,
);

pub open spec fn key_view(id: PaymentMetricsBucketIdentifier) -> KeyView {
    (
        opt_text(id.currency),
        opt_text(id.status),
        opt_text(id.connector),
        opt_text(id.auth_type),
        opt_text(id.payment_method),
        id.time_bucket,
    )
}

/// The key of a row, where its bucket can be computed.
pub open spec fn row_key(row: PaymentMetricRow, granularity: Option<Granularity>, time_range: TimeRange) -> KeyView {
    (
        opt_text(row.currency),
        opt_text(row.status),
        opt_text(row.connector),
        opt_text(row.authentication_type),
        opt_text(row.payment_method),
        bucket_range(row.start_bucket, granularity, time_range)->Some_0,
    )
}

/// The bucket of every row can be computed.
pub open spec fn all_buckets(rows: Seq<PaymentMetricRow>, granularity: Option<Granularity>, time_range: TimeRange) -> bool {
    forall|i: int|
        0 <= i < rows.len() ==> (#[trigger] bucket_range(rows[i].start_bucket, granularity, time_range)) is Some
}

/// No two rows have the same key.
pub open spec fn distinct_keys(rows: Seq<PaymentMetricRow>, granularity: Option<Granularity>, time_range: TimeRange) -> bool {
    forall|i: int, j: int|
        0 <= i < j < rows.len() ==> #[trigger] row_key(rows[i], granularity, time_range) != #[trigger] row_key(
            rows[j],
            granularity,
            time_range,
        )
}

fn same_text(a: &Option<String>, b: &Option<String>) -> (r: bool)
    ensures
        r == (opt_text(*a) == opt_text(*b)),
{
    match (a, b) {
        (Some(x), Some(y)) => x.eq(y),
        (None, None) => true,
        _ => false,
    }
}

fn same_key(a: &PaymentMetricsBucketIdentifier, b: &PaymentMetricsBucketIdentifier) -> (r: bool)
    ensures
        r == (key_view(*a) == key_view(*b)),
{
    same_text(&a.currency, &b.currency) && same_text(&a.status, &b.status) && same_text(
        &a.connector,
        &b.connector,
    ) && same_text(&a.auth_type, &b.auth_type) && same_text(&a.payment_method, &b.payment_method)
        && a.time_bucket == b.time_bucket
}

/// Pairs each row with its key, in order, so that the result maps each key to
/// its row. It fails with `BucketClipping` where the bucket of a row cannot be
/// computed and with `DuplicateBucket` where two rows have the same key, whichever
/// comes first.
pub fn bucket_rows(
    rows: Vec<PaymentMetricRow>,
    granularity: &Option<Granularity>,
    time_range: &TimeRange,
) -> (r: Result<Vec<(PaymentMetricsBucketIdentifier, PaymentMetricRow)>, PostProcessingError>)
    ensures
        r is Ok <==> all_buckets(rows@, *granularity, *time_range) && distinct_keys(
            rows@,
            *granularity,
            *time_range,
        ),
        r is Ok ==> {
            &&& r->Ok_0@.len() == rows@.len()
            &&& forall|i: int|
                0 <= i < rows@.len() ==> (#[trigger] r->Ok_0@[i]).1 == rows@[i] && identifies(
                    r->Ok_0@[i].0,
                    rows@[i],
                    *granularity,
                    *time_range,
                )
            &&& forall|i: int, j: int|
                0 <= i < j < rows@.len() ==> key_view(#[trigger] r->Ok_0@[i].0) != key_view(
                    #[trigger] r->Ok_0@[j].0,
                )
        },
        !all_buckets(rows@, *granularity, *time_range) && distinct_keys(rows@, *granularity, *time_range)
            ==> r == Err::<Vec<(PaymentMetricsBucketIdentifier, PaymentMetricRow)>, PostProcessingError>(
            PostProcessingError::BucketClipping,
        ),
        all_buckets(rows@, *granularity, *time_range) && !distinct_keys(rows@, *granularity, *time_range)
            ==> r == Err::<Vec<(PaymentMetricsBucketIdentifier, PaymentMetricRow)>, PostProcessingError>(
            PostProcessingError::DuplicateBucket,
        ),
{
    let ghost all = rows@;
    let ghost g = *granularity;
    let ghost tr = *time_range;
    let mut remaining = rows;
    let mut out: Vec<(PaymentMetricsBucketIdentifier, PaymentMetricRow)> = Vec::new();
    let n = remaining.len();
    let mut i: usize = 0;
    while i < n
        invariant
            0 <= i <= n,
            n == all.len(),
            all == rows@,
            g == *granularity,
            tr == *time_range,
            remaining@ == all.subrange(i as int, n as int),
            out@.len() == i,
            forall|j: int|
                0 <= j < i ==> (#[trigger] out@[j]).1 == all[j] && identifies(out@[j].0, all[j], g, tr),
            forall|j: int|
                0 <= j < i ==> (#[trigger] bucket_range(all[j].start_bucket, g, tr)) is Some,
            forall|j1: int, j2: int|
                0 <= j1 < j2 < i ==> #[trigger] row_key(all[j1], g, tr) != #[trigger] row_key(all[j2], g, tr),
        decreases n - i,
    {
        let row = remaining.remove(0);
        let id = match bucket_identifier(&row, granularity, time_range) {
            Ok(id) => id,
            Err(e) => {
                proof {
                    let k = i as int;
                    assert(row == all[k]);
                    assert(!(bucket_range(all[k].start_bucket, g, tr) is Some));
                    assert(!all_buckets(all, g, tr));
                }
                return Err(e);
            },
        };
        let mut k: usize = 0;
        while k < i
            invariant
                0 <= k <= i,
                i < n,
                n == all.len(),
                all == rows@,
                g == *granularity,
                tr == *time_range,
                out@.len() == i,
                forall|j: int|
                    0 <= j < i ==> (#[trigger] bucket_range(all[j].start_bucket, g, tr)) is Some,
                forall|j1: int, j2: int|
                    0 <= j1 < j2 < i ==> #[trigger] row_key(all[j1], g, tr) != #[trigger] row_key(all[j2], g, tr),
                row == all[i as int],
                identifies(id, row, g, tr),
                forall|j: int|
                    0 <= j < i ==> (#[trigger] out@[j]).1 == all[j] && identifies(out@[j].0, all[j], g, tr),
                forall|j: int| 0 <= j < k ==> key_view(#[trigger] out@[j].0) != key_view(id),
            decreases i - k,
        {
            if same_key(&out[k].0, &id) {
                proof {
                    let a = k as int;
                    let b = i as int;
                    assert(row_key(all[a], g, tr) == key_view(out@[a].0));
                    assert(row_key(all[b], g, tr) == key_view(id));
                    assert(!distinct_keys(all, g, tr));
                    assert(bucket_range(all[b].start_bucket, g, tr) is Some);
                }
                return Err(PostProcessingError::DuplicateBucket);
            }
            k += 1;
        }
        proof {
            assert forall|j1: int, j2: int|
                0 <= j1 < j2 < i + 1 implies #[trigger] row_key(all[j1], g, tr) != #[trigger] row_key(all[j2], g, tr) by {
                if j2 == i {
                    assert(row_key(all[j1], g, tr) == key_view(out@[j1].0));
                    assert(row_key(all[j2], g, tr) == key_view(id));
                }
            }
        }
        out.push((id, row));
        proof {
            assert(remaining@ =~= all.subrange(i + 1, n as int));
        }
        i += 1;
    }
    proof {
        assert forall|a: int, b: int|
            0 <= a < b < n implies key_view(#[trigger] out@[a].0) != key_view(#[trigger] out@[b].0) by {
            assert(row_key(all[a], g, tr) == key_view(out@[a].0));
            assert(row_key(all[b], g, tr) == key_view(out@[b].0));
        }
    }
    Ok(out)
}

/// With a granularity, the key of a row whose first creation time is a valid
/// timestamp names the bucket of the granularity that holds that instant: the
/// bucket starts no later than it, on the same date, and its end is the bucket's
/// last instant. Its start is the first instant of its own bucket, and that
/// bucket's last instant is its end.
pub proof fn lemma_bucket_key_holds_start(
    id: PaymentMetricsBucketIdentifier,
    row: PaymentMetricRow,
    g: Granularity,
    time_range: TimeRange,
)
    requires
        identifies(id, row, Some(g), time_range),
        row.start_bucket is Some,
        row.start_bucket->Some_0.wf(),
    ensures
        id.time_bucket.start_time == clip_to_start_of(g, row.start_bucket->Some_0)->Some_0,
        id.time_bucket.end_time == Some(clip_to_end_of(g, row.start_bucket->Some_0)->Some_0),
        id.time_bucket.start_time.le(row.start_bucket->Some_0),
        id.time_bucket.start_time.same_date(row.start_bucket->Some_0),
        id.start_time == id.time_bucket.start_time,
        clip_to_start_of(g, id.time_bucket.start_time) == Some(id.time_bucket.start_time),
        clip_to_end_of(g, id.time_bucket.start_time) == id.time_bucket.end_time,
{
    lemma_clip_to_start_bounds(g, row.start_bucket->Some_0);
    lemma_clip_to_end_bounds(g, row.start_bucket->Some_0);
    lemma_clip_to_start_idempotent(g, row.start_bucket->Some_0);
}

/// The number of the five metric computations that compute `m`.
pub open spec fn handlers_of(m: PaymentMetrics) -> int {
    (if PaymentSuccessRate.kind() == m { 1int } else { 0int })
        + (if PaymentCount.kind() == m { 1int } else { 0int })
        + (if PaymentSuccessCount.kind() == m { 1int } else { 0int })
        + (if PaymentProcessedAmount.kind() == m { 1int } else { 0int })
        + (if AvgTicketSize.kind() == m { 1int } else { 0int })
}

/// Every metric kind is computed by exactly one of the five computations, and
/// dispatching on the kind gives what that computation gives.
pub proof fn lemma_one_computation_per_kind(m: PaymentMetrics)
    ensures
        handlers_of(m) == 1,
        PaymentMetric::kind(&m) == m,
{
}

} // verus!
