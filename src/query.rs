use vstd::prelude::*;

use crate::datetime::{datetime_text, display_datetime, DateTime};
use crate::granularity::{bucket_size_of, level_name, level_of, Granularity, SeriesBucket};

verus! {

/// A value could not be rendered as SQL text.
#[derive(Clone, Copy, Debug, PartialEq, Eq, Structural)]
pub struct ParsingError;

/// The failures of assembling a query.
#[derive(Debug)]
pub enum QueryBuildingError {
    NotImplemented(String),
    SqlSerializeError,
    InvalidQuery(&'static str),
}

/// A comparison between the two sides of a filter.
#[derive(Clone, Copy, Debug, PartialEq, Eq, Structural)]
pub enum FilterTypes {
    Equal,
    EqualBool,
    In,
    Gte,
    Lte,
    Gt,
}

/// An aggregate over a field, with an optional alias for its result column.
#[allow(inconsistent_fields)]
#[derive(Debug)]
pub enum Aggregate<R> {
    Count { field: Option<R>, alias: Option<&'static str> },
    Sum { field: R, alias: Option<&'static str> },
    Min { field: R, alias: Option<&'static str> },
    Max { field: R, alias: Option<&'static str> },
}

/// The dataset that a query reads.
#[derive(Clone, Copy, Debug, PartialEq, Eq, Structural)]
pub enum AnalyticsCollection {
    Payment,
    Refund,
}

/// A value that has a text form in a query. There is one dialect: the row
/// store's. The columnar store's form of time bucketing stands beside it as
/// `QueryBuilder::add_granularity_in_mins`.
pub trait ToSql {
    /// The text of the value; `None` where it has none.
    spec fn sql(&self) -> Option<Seq<char>>;

    fn to_sql(&self) -> (r: Result<String, ParsingError>)
        ensures
            r is Ok <==> self.sql() is Some,
            r is Ok ==> r->Ok_0@ == self.sql()->Some_0,
    ;
}

pub open spec fn digit_char(d: nat) -> char {
    if d == 0 { '0' }
    else if d == 1 { '1' }
    else if d == 2 { '2' }
    else if d == 3 { '3' }
    else if d == 4 { '4' }
    else if d == 5 { '5' }
    else if d == 6 { '6' }
    else if d == 7 { '7' }
    else if d == 8 { '8' }
    else { '9' }
}

/// The decimal digits of `n`, most significant first, without leading zeros.
pub open spec fn decimal_text(n: nat) -> Seq<char>
    decreases n,
{
    if n < 10 {
        seq![digit_char(n)]
    } else {
        decimal_text(n / 10).push(digit_char(n % 10))
    }
}

/// Relies on u64's Display (through ToString): the decimal digits of the number.
#[verifier::external_body]
pub(crate) fn u64_text(n: u64) -> (r: String)
    ensures
        r@ == decimal_text(n as nat),
{
    n.to_string()
}

pub open spec fn bool_text(b: bool) -> Seq<char> {
    if b { "true"@ } else { "false"@ }
}

pub open spec fn collection_name(c: AnalyticsCollection) -> Seq<char> {
    match c {
        AnalyticsCollection::Payment => "payment_attempt"@,
        AnalyticsCollection::Refund => "refund"@,
    }
}

impl ToSql for String {
    open spec fn sql(&self) -> Option<Seq<char>> {
        Some(self@)
    }

    fn to_sql(&self) -> (r: Result<String, ParsingError>) {
        Ok(self.clone())
    }
}

impl<'a> ToSql for &'a str {
    open spec fn sql(&self) -> Option<Seq<char>> {
        Some((*self)@)
    }

    fn to_sql(&self) -> (r: Result<String, ParsingError>) {
        Ok(String::from_str(*self))
    }
}

impl ToSql for bool {
    open spec fn sql(&self) -> Option<Seq<char>> {
        Some(bool_text(*self))
    }

    fn to_sql(&self) -> (r: Result<String, ParsingError>) {
        if *self {
            Ok(String::from_str("true"))
        } else {
            Ok(String::from_str("false"))
        }
    }
}

impl ToSql for u64 {
    open spec fn sql(&self) -> Option<Seq<char>> {
        Some(decimal_text(*self as nat))
    }

    fn to_sql(&self) -> (r: Result<String, ParsingError>) {
        Ok(u64_text(*self))
    }
}

impl ToSql for AnalyticsCollection {
    open spec fn sql(&self) -> Option<Seq<char>> {
        Some(collection_name(*self))
    }

    fn to_sql(&self) -> (r: Result<String, ParsingError>) {
        match self {
            AnalyticsCollection::Payment => Ok(String::from_str("payment_attempt")),
            AnalyticsCollection::Refund => Ok(String::from_str("refund")),
        }
    }
}

pub open spec fn alias_text(alias: Option<&'static str>) -> Seq<char> {
    match alias {
        Some(a) => " as "@ + a@,
        None => Seq::empty(),
    }
}

/// `<name>(<field>)` followed by the alias text.
pub open spec fn call_text(name: Seq<char>, field: Seq<char>, alias: Option<&'static str>) -> Seq<char> {
    name + "("@ + field + ")"@ + alias_text(alias)
}

/// The text of an aggregate, in this library's own spelling: `count(*)`, `sum(f)`, `min(f)` or `max(f)`, followed
/// by ` as <alias>` where it has one.
pub open spec fn aggregate_text<R: ToSql>(a: &Aggregate<R>) -> Option<Seq<char>> {
    match a {
        Aggregate::Count { field: _, alias } => Some("count(*)"@ + alias_text(*alias)),
        Aggregate::Sum { field, alias } => match field.sql() {
            Some(f) => Some(call_text("sum"@, f, *alias)),
            None => None,
        },
        Aggregate::Min { field, alias } => match field.sql() {
            Some(f) => Some(call_text("min"@, f, *alias)),
            None => None,
        },
        Aggregate::Max { field, alias } => match field.sql() {
            Some(f) => Some(call_text("max"@, f, *alias)),
            None => None,
        },
    }
}

fn append_alias(s: &mut String, alias: Option<&'static str>)
    ensures
        final(s)@ == old(s)@ + alias_text(alias),
{
    match alias {
        Some(a) => {
            s.append(" as ");
            s.append(a);
        },
        None => {},
    }
}

/// `<name>(<field>)<alias>` for the aggregates that take a field.
fn field_aggregate<R: ToSql>(name: &str, field: &R, alias: Option<&'static str>) -> (r: Result<
    String,
    ParsingError,
>)
    ensures
        match field.sql() {
            Some(f) => r is Ok && r->Ok_0@ == call_text(name@, f, alias),
            None => r is Err,
        },
{
    let f = field.to_sql()?;
    let mut s = String::from_str(name);
    s.append("(");
    s.append(f.as_str());
    s.append(")");
    append_alias(&mut s, alias);
    Ok(s)
}

fn count_text(alias: Option<&'static str>) -> (r: String)
    ensures
        r@ == "count(*)"@ + alias_text(alias),
{
    let mut s = String::from_str("count(*)");
    append_alias(&mut s, alias);
    s
}

fn aggregate_to_sql<R: ToSql>(a: &Aggregate<R>) -> (r: Result<String, ParsingError>)
    ensures
        r is Ok <==> aggregate_text(a) is Some,
        r is Ok ==> r->Ok_0@ == aggregate_text(a)->Some_0,
{
    match a {
        Aggregate::Count { alias, .. } => {
            Ok(count_text(*alias))
        },
        Aggregate::Sum { field, alias } => field_aggregate("sum", field, *alias),
        Aggregate::Min { field, alias } => field_aggregate("min", field, *alias),
        Aggregate::Max { field, alias } => field_aggregate("max", field, *alias),
    }
}

impl<R: ToSql> ToSql for Aggregate<R> {
    open spec fn sql(&self) -> Option<Seq<char>> {
        aggregate_text(self)
    }

    fn to_sql(&self) -> (r: Result<String, ParsingError>) {
        aggregate_to_sql(self)
    }
}

/// A filter as text: left side, comparison, right side.
pub type FilterText = (Seq<char>, FilterTypes, Seq<char>);

/// What a query builder holds, as text.
pub struct QueryView {
    pub columns: Seq<Seq<char>>,
    pub filters: Seq<FilterText>,
    pub group_by: Seq<Seq<char>>,
    pub having: Option<Seq<FilterText>>,
    pub table: AnalyticsCollection,
    pub distinct: bool,
}

/// `parts` with `sep` between each two neighbours.
pub open spec fn join(parts: Seq<Seq<char>>, sep: Seq<char>) -> Seq<char>
    decreases parts.len(),
{
    if parts.len() == 0 {
        Seq::empty()
    } else if parts.len() == 1 {
        parts[0]
    } else {
        join(parts.drop_last(), sep) + sep + parts.last()
    }
}

/// A row filter as it stands in a WHERE clause: text operands of `=`, `>=` and
/// `<=` are quoted; boolean, list and `>` operands are not.
pub open spec fn where_predicate(f: FilterText) -> Seq<char> {
    match f.1 {
        FilterTypes::EqualBool => f.0 + " = "@ + f.2,
        FilterTypes::Equal => f.0 + " = '"@ + f.2 + "'"@,
        FilterTypes::In => f.0 + " IN ("@ + f.2 + ")"@,
        FilterTypes::Gte => f.0 + " >= '"@ + f.2 + "'"@,
        FilterTypes::Gt => f.0 + " > "@ + f.2,
        FilterTypes::Lte => f.0 + " <= '"@ + f.2 + "'"@,
    }
}

/// A filter on aggregates as it stands in a HAVING clause: no operand is quoted,
/// and `Lte` compares strictly.
pub open spec fn having_predicate(f: FilterText) -> Seq<char> {
    match f.1 {
        FilterTypes::Equal => f.0 + " = "@ + f.2,
        FilterTypes::EqualBool => f.0 + " = "@ + f.2,
        FilterTypes::In => f.0 + " IN ("@ + f.2 + ")"@,
        FilterTypes::Gte => f.0 + " >= "@ + f.2,
        FilterTypes::Lte => f.0 + " < "@ + f.2,
        FilterTypes::Gt => f.0 + " > "@ + f.2,
    }
}

pub open spec fn where_texts(filters: Seq<FilterText>) -> Seq<Seq<char>> {
    filters.map_values(|f: FilterText| where_predicate(f))
}

pub open spec fn having_texts(filters: Seq<FilterText>) -> Seq<Seq<char>> {
    filters.map_values(|f: FilterText| having_predicate(f))
}

pub open spec fn where_clause(filters: Seq<FilterText>) -> Seq<char> {
    join(where_texts(filters), " AND "@)
}

pub open spec fn having_clause(filters: Seq<FilterText>) -> Seq<char> {
    join(having_texts(filters), " AND "@)
}

/// The query that a builder renders.
pub open spec fn query_text(q: QueryView) -> Seq<char> {
    "SELECT "@ + (if q.distinct {
        "DISTINCT "@
    } else {
        Seq::empty()
    }) + join(q.columns, ", "@) + " FROM "@ + collection_name(q.table) + (if q.filters.len() > 0 {
        " WHERE "@ + where_clause(q.filters)
    } else {
        Seq::empty()
    }) + (if q.group_by.len() > 0 {
        " GROUP BY "@ + join(q.group_by, ", "@)
    } else {
        Seq::empty()
    }) + (match q.having {
        Some(h) => " HAVING "@ + having_clause(h),
        None => Seq::empty(),
    })
}

pub open spec fn strings_view(v: Seq<String>) -> Seq<Seq<char>> {
    v.map_values(|s: String| s@)
}

pub open spec fn filters_view(v: Seq<(String, FilterTypes, String)>) -> Seq<FilterText> {
    v.map_values(|f: (String, FilterTypes, String)| (f.0@, f.1, f.2@))
}

proof fn lemma_join_step(parts: Seq<Seq<char>>, sep: Seq<char>, i: int)
    requires
        1 <= i < parts.len(),
    ensures
        join(parts.take(i + 1), sep) == join(parts.take(i), sep) + sep + parts[i],
{
    assert(parts.take(i + 1).drop_last() =~= parts.take(i));
}

/// Joins the strings with `sep` between neighbours.
fn join_strings(parts: &Vec<String>, sep: &str) -> (r: String)
    ensures
        r@ == join(strings_view(parts@), sep@),
{
    let n = parts.len();
    if n == 0 {
        return String::new();
    }
    let mut acc = parts[0].clone();
    let mut i: usize = 1;
    while i < n
        invariant
            1 <= i <= n,
            n == parts@.len(),
            acc@ == join(strings_view(parts@).take(i as int), sep@),
        decreases n - i,
    {
        proof {
            lemma_join_step(strings_view(parts@), sep@, i as int);
        }
        acc.append(sep);
        acc.append(parts[i].as_str());
        i += 1;
    }
    proof {
        assert(strings_view(parts@).take(n as int) =~= strings_view(parts@));
    }
    acc
}

fn where_text(f: &(String, FilterTypes, String)) -> (r: String)
    ensures
        r@ == where_predicate((f.0@, f.1, f.2@)),
{
    let mut s = f.0.clone();
    match f.1 {
        FilterTypes::EqualBool => {
            s.append(" = ");
            s.append(f.2.as_str());
        },
        FilterTypes::Equal => {
            s.append(" = '");
            s.append(f.2.as_str());
            s.append("'");
        },
        FilterTypes::In => {
            s.append(" IN (");
            s.append(f.2.as_str());
            s.append(")");
        },
        FilterTypes::Gte => {
            s.append(" >= '");
            s.append(f.2.as_str());
            s.append("'");
        },
        FilterTypes::Gt => {
            s.append(" > ");
            s.append(f.2.as_str());
        },
        FilterTypes::Lte => {
            s.append(" <= '");
            s.append(f.2.as_str());
            s.append("'");
        },
    }
    s
}

fn having_text(f: &(String, FilterTypes, String)) -> (r: String)
    ensures
        r@ == having_predicate((f.0@, f.1, f.2@)),
{
    let mut s = f.0.clone();
    match f.1 {
        FilterTypes::Equal | FilterTypes::EqualBool => {
            s.append(" = ");
            s.append(f.2.as_str());
        },
        FilterTypes::In => {
            s.append(" IN (");
            s.append(f.2.as_str());
            s.append(")");
        },
        FilterTypes::Gte => {
            s.append(" >= ");
            s.append(f.2.as_str());
        },
        FilterTypes::Lte => {
            s.append(" < ");
            s.append(f.2.as_str());
        },
        FilterTypes::Gt => {
            s.append(" > ");
            s.append(f.2.as_str());
        },
    }
    s
}

/// An aggregate query under construction: select columns, row filters, grouping
/// expressions and filters on aggregates over one collection.
#[derive(Debug)]
pub struct QueryBuilder {
    columns: Vec<String>,
    filters: Vec<(String, FilterTypes, String)>,
    group_by: Vec<String>,
    having: Option<Vec<(String, FilterTypes, String)>>,
    table: AnalyticsCollection,
    distinct: bool,
}

impl View for QueryBuilder {
    type V = QueryView;

    closed spec fn view(&self) -> QueryView {
        QueryView {
            columns: strings_view(self.columns@),
            filters: filters_view(self.filters@),
            group_by: strings_view(self.group_by@),
            having: match self.having {
                Some(h) => Some(filters_view(h@)),
                None => None,
            },
            table: self.table,
            distinct: self.distinct,
        }
    }
}

/// The characters with the Unicode White_Space property.
pub open spec fn is_white_space(c: char) -> bool {
    let u = c as u32;
    ||| 0x09 <= u <= 0x0D
    ||| u == 0x20
    ||| u == 0x85
    ||| u == 0xA0
    ||| u == 0x1680
    ||| 0x2000 <= u <= 0x200A
    ||| u == 0x2028
    ||| u == 0x2029
    ||| u == 0x202F
    ||| u == 0x205F
    ||| u == 0x3000
}

/// `s` without its whitespace characters.
pub open spec fn without_whitespace(s: Seq<char>) -> Seq<char> {
    s.filter(|c: char| !is_white_space(c))
}

/// Relies on str::replace with char::is_whitespace as the pattern: every
/// character with the White_Space property replaced by nothing, the rest kept in
/// order.
#[verifier::external_body]
fn strip_whitespace(s: &str) -> (r: String)
    ensures
        r@ == without_whitespace(s@),
{
    s.replace(char::is_whitespace, "")
}

/// Every value has a text form.
pub open spec fn all_render<V: ToSql>(values: Seq<V>) -> bool {
    forall|i: int| 0 <= i < values.len() ==> (#[trigger] values[i]).sql() is Some
}

/// A value of an IN list: its text without whitespace, in single quotes.
pub open spec fn quoted_item<V: ToSql>(v: V) -> Seq<char> {
    "'"@ + without_whitespace(v.sql()->Some_0) + "'"@
}

pub open spec fn quoted_items<V: ToSql>(values: Seq<V>) -> Seq<Seq<char>> {
    values.map_values(|v: V| quoted_item(v))
}

/// The IN list of the values: each quoted, separated by `, `.
pub open spec fn in_list<V: ToSql>(values: Seq<V>) -> Seq<char> {
    join(quoted_items(values), ", "@)
}

pub open spec fn interval_text(g: Granularity) -> Seq<char> {
    match g {
        Granularity::OneMin => "1"@,
        Granularity::FiveMin => "5"@,
        Granularity::FifteenMin => "15"@,
        Granularity::ThirtyMin => "30"@,
        Granularity::OneHour => "60"@,
        Granularity::OneDay => "1440"@,
    }
}

/// The select column that truncates `created_at` natively to the start of its bucket.
pub open spec fn interval_column(g: Granularity) -> Seq<char> {
    "toStartOfInterval(created_at, INTERVAL "@ + interval_text(g) + " MINUTE) as time_bucket"@
}

fn interval_minutes(g: &Granularity) -> (r: &'static str)
    ensures
        r@ == interval_text(*g),
{
    match g {
        Granularity::OneMin => "1",
        Granularity::FiveMin => "5",
        Granularity::FifteenMin => "15",
        Granularity::ThirtyMin => "30",
        Granularity::OneHour => "60",
        Granularity::OneDay => "1440",
    }
}

/// A query can be rendered: it selects at least one column.
pub open spec fn renders(q: QueryView) -> bool {
    q.columns.len() > 0
}

/// The operation failed because a value has no text form.
pub open spec fn serialize_failed(r: Result<(), QueryBuildingError>) -> bool {
    r is Err && r->Err_0 is SqlSerializeError
}

/// `q` with `f` added to its filters on aggregates.
pub open spec fn with_having(q: QueryView, f: FilterText) -> QueryView {
    QueryView {
        having: Some(
            match q.having {
                Some(h) => h.push(f),
                None => seq![f],
            },
        ),
        ..q
    }
}

impl QueryBuilder {
    /// An empty query over `table`.
    pub fn new(table: AnalyticsCollection) -> (r: QueryBuilder)
        ensures
            r@ == (QueryView {
                columns: Seq::empty(),
                filters: Seq::empty(),
                group_by: Seq::empty(),
                having: None,
                table,
                distinct: false,
            }),
    {
        let r = QueryBuilder {
            columns: Vec::new(),
            filters: Vec::new(),
            group_by: Vec::new(),
            having: None,
            table,
            distinct: false,
        };
        proof {
            assert(r@.columns =~= Seq::empty());
            assert(r@.filters =~= Seq::empty());
            assert(r@.group_by =~= Seq::empty());
        }
        r
    }

    /// Appends the text of `column` to the select list.
    pub fn add_select_column<V: ToSql>(&mut self, column: V) -> (r: Result<(), QueryBuildingError>)
        ensures
            match column.sql() {
                Some(c) => r is Ok && final(self)@ == (QueryView {
                    columns: old(self)@.columns.push(c),
                    ..old(self)@
                }),
                None => serialize_failed(r) && final(self)@ == old(self)@,
            },
    {
        match column.to_sql() {
            Ok(c) => {
                self.columns.push(c);
                proof {
                    assert(strings_view(self.columns@) =~= old(self)@.columns.push(c@));
                }
                Ok(())
            },
            Err(_) => Err(QueryBuildingError::SqlSerializeError),
        }
    }

    /// Makes the query select distinct rows.
    pub fn set_distinct(&mut self)
        ensures
            final(self)@ == (QueryView { distinct: true, ..old(self)@ }),
    {
        self.distinct = true
    }

    /// Adds the row filter `key = 'value'`.
    pub fn add_filter_clause<K: ToSql, V: ToSql>(&mut self, key: K, value: V) -> (r: Result<
        (),
        QueryBuildingError,
    >)
        ensures
            match (key.sql(), value.sql()) {
                (Some(k), Some(v)) => r is Ok && final(self)@ == (QueryView {
                    filters: old(self)@.filters.push((k, FilterTypes::Equal, v)),
                    ..old(self)@
                }),
                _ => serialize_failed(r) && final(self)@ == old(self)@,
            },
    {
        self.add_custom_filter_clause(key, value, FilterTypes::Equal)
    }

    /// Adds the row filter `key = value` with an unquoted boolean.
    pub fn add_bool_filter_clause<K: ToSql, V: ToSql>(&mut self, key: K, value: V) -> (r: Result<
        (),
        QueryBuildingError,
    >)
        ensures
            match (key.sql(), value.sql()) {
                (Some(k), Some(v)) => r is Ok && final(self)@ == (QueryView {
                    filters: old(self)@.filters.push((k, FilterTypes::EqualBool, v)),
                    ..old(self)@
                }),
                _ => serialize_failed(r) && final(self)@ == old(self)@,
            },
    {
        self.add_custom_filter_clause(key, value, FilterTypes::EqualBool)
    }

    /// Adds the row filter comparing `lhs` with `rhs` by `comparison`.
    pub fn add_custom_filter_clause<L: ToSql, V: ToSql>(
        &mut self,
        lhs: L,
        rhs: V,
        comparison: FilterTypes,
    ) -> (r: Result<(), QueryBuildingError>)
        ensures
            match (lhs.sql(), rhs.sql()) {
                (Some(k), Some(v)) => r is Ok && final(self)@ == (QueryView {
                    filters: old(self)@.filters.push((k, comparison, v)),
                    ..old(self)@
                }),
                _ => serialize_failed(r) && final(self)@ == old(self)@,
            },
    {
        let l = match lhs.to_sql() {
            Ok(l) => l,
            Err(_) => return Err(QueryBuildingError::SqlSerializeError),
        };
        let v = match rhs.to_sql() {
            Ok(v) => v,
            Err(_) => return Err(QueryBuildingError::SqlSerializeError),
        };
        let ghost lv = l@;
        let ghost vv = v@;
        self.filters.push((l, comparison, v));
        proof {
            assert(filters_view(self.filters@) =~= old(self)@.filters.push((lv, comparison, vv)));
        }
        Ok(())
    }

    /// Adds the row filter `key IN ('v1', 'v2', ...)`, each value stripped of whitespace.
    pub fn add_filter_in_range_clause<K: ToSql, V: ToSql>(&mut self, key: K, values: &[V]) -> (r:
        Result<(), QueryBuildingError>)
        ensures
            match key.sql() {
                Some(k) => if all_render(values@) {
                    r is Ok && final(self)@ == (QueryView {
                        filters: old(self)@.filters.push((k, FilterTypes::In, in_list(values@))),
                        ..old(self)@
                    })
                } else {
                    serialize_failed(r) && final(self)@ == old(self)@
                },
                None => serialize_failed(r) && final(self)@ == old(self)@,
            },
    {
        let mut items: Vec<String> = Vec::new();
        let n = values.len();
        let mut i: usize = 0;
        while i < n
            invariant
                0 <= i <= n,
                n == values@.len(),
                items@.len() == i,
                forall|j: int| 0 <= j < i ==> (#[trigger] values@[j]).sql() is Some,
                forall|j: int|
                    0 <= j < i ==> (#[trigger] items@[j])@ == quoted_item(values@[j]),
            decreases n - i,
        {
            let text = match values[i].to_sql() {
                Ok(t) => t,
                Err(_) => return Err(QueryBuildingError::SqlSerializeError),
            };
            let mut item = String::from_str("'");
            let stripped = strip_whitespace(text.as_str());
            item.append(stripped.as_str());
            item.append("'");
            items.push(item);
            i += 1;
        }
        proof {
            assert(strings_view(items@) =~= quoted_items(values@));
        }
        let list = join_strings(&items, ", ");
        self.add_custom_filter_clause(key, list, FilterTypes::In)
    }

    /// Appends the text of `column` to the grouping expressions.
    pub fn add_group_by_clause<V: ToSql>(&mut self, column: V) -> (r: Result<(), QueryBuildingError>)
        ensures
            match column.sql() {
                Some(c) => r is Ok && final(self)@ == (QueryView {
                    group_by: old(self)@.group_by.push(c),
                    ..old(self)@
                }),
                None => serialize_failed(r) && final(self)@ == old(self)@,
            },
    {
        match column.to_sql() {
            Ok(c) => {
                self.group_by.push(c);
                proof {
                    assert(strings_view(self.group_by@) =~= old(self)@.group_by.push(c@));
                }
                Ok(())
            },
            Err(_) => Err(QueryBuildingError::SqlSerializeError),
        }
    }

    /// Selects `created_at` truncated natively to the start of its bucket of
    /// `granularity`, under the name `time_bucket`: the columnar store's form of
    /// time bucketing.
    pub fn add_granularity_in_mins(&mut self, granularity: &Granularity) -> (r: Result<
        (),
        QueryBuildingError,
    >)
        ensures
            r is Ok,
            final(self)@ == (QueryView {
                columns: old(self)@.columns.push(interval_column(*granularity)),
                ..old(self)@
            }),
    {
        let mut column = String::from_str("toStartOfInterval(created_at, INTERVAL ");
        column.append(interval_minutes(granularity));
        column.append(" MINUTE) as time_bucket");
        let _ = self.add_select_column(column);
        Ok(())
    }

    fn get_filter_clause(&self) -> (r: String)
        ensures
            r@ == where_clause(self@.filters),
    {
        let mut texts: Vec<String> = Vec::new();
        let n = self.filters.len();
        let mut i: usize = 0;
        while i < n
            invariant
                0 <= i <= n,
                n == self.filters@.len(),
                texts@.len() == i,
                forall|j: int|
                    0 <= j < i ==> (#[trigger] texts@[j])@ == where_predicate(
                        filters_view(self.filters@)[j],
                    ),
            decreases n - i,
        {
            texts.push(where_text(&self.filters[i]));
            i += 1;
        }
        proof {
            assert(strings_view(texts@) =~= where_texts(self@.filters));
        }
        join_strings(&texts, " AND ")
    }

    fn get_select_clause(&self) -> (r: String)
        ensures
            r@ == join(self@.columns, ", "@),
    {
        join_strings(&self.columns, ", ")
    }

    fn get_group_by_clause(&self) -> (r: String)
        ensures
            r@ == join(self@.group_by, ", "@),
    {
        join_strings(&self.group_by, ", ")
    }

    /// Adds the filter on aggregates comparing `aggregate` with `value`.
    pub fn add_having_clause<R: ToSql, V: ToSql>(
        &mut self,
        aggregate: Aggregate<R>,
        filter_type: FilterTypes,
        value: V,
    ) -> (r: Result<(), QueryBuildingError>)
        ensures
            match (aggregate.sql(), value.sql()) {
                (Some(a), Some(v)) => r is Ok && final(self)@ == with_having(
                    old(self)@,
                    (a, filter_type, v),
                ),
                _ => serialize_failed(r) && final(self)@ == old(self)@,
            },
    {
        let a = match aggregate.to_sql() {
            Ok(a) => a,
            Err(_) => return Err(QueryBuildingError::SqlSerializeError),
        };
        let v = match value.to_sql() {
            Ok(v) => v,
            Err(_) => return Err(QueryBuildingError::SqlSerializeError),
        };
        let ghost e = (a@, filter_type, v@);
        let entry = (a, filter_type, v);
        let having = match self.having.take() {
            Some(h) => {
                let mut h = h;
                h.push(entry);
                proof {
                    assert(filters_view(h@) =~= old(self)@.having->Some_0.push(e));
                }
                h
            },
            None => {
                let h = vec![entry];
                proof {
                    assert(filters_view(h@) =~= seq![e]);
                }
                h
            },
        };
        self.having = Some(having);
        Ok(())
    }

    /// The HAVING condition: the filters on aggregates joined by AND; `None` where
    /// none was added.
    pub fn get_filter_type_clause(&self) -> (r: Option<String>)
        ensures
            r is Some <==> self@.having is Some,
            r is Some ==> r->Some_0@ == having_clause(self@.having->Some_0),
    {
        match &self.having {
            None => None,
            Some(h) => {
                let mut texts: Vec<String> = Vec::new();
                let n = h.len();
                let mut i: usize = 0;
                while i < n
                    invariant
                        0 <= i <= n,
                        n == h@.len(),
                        texts@.len() == i,
                        forall|j: int|
                            0 <= j < i ==> (#[trigger] texts@[j])@ == having_predicate(
                                filters_view(h@)[j],
                            ),
                    decreases n - i,
                {
                    texts.push(having_text(&h[i]));
                    i += 1;
                }
                proof {
                    assert(strings_view(texts@) =~= having_texts(filters_view(h@)));
                }
                Some(join_strings(&texts, " AND "))
            },
        }
    }

    /// Renders the query. It fails exactly when no select column was added.
    pub fn build_query(&mut self) -> (r: Result<String, QueryBuildingError>)
        ensures
            final(self)@ == old(self)@,
            r is Ok <==> renders(old(self)@),
            !renders(old(self)@) ==> r is Err && r->Err_0 == QueryBuildingError::InvalidQuery(
                "No select fields provided",
            ),
            renders(old(self)@) ==> r is Ok && r->Ok_0@ == query_text(old(self)@),
    {
        if self.columns.len() == 0 {
            return Err(QueryBuildingError::InvalidQuery("No select fields provided"));
        }
        let mut query = String::from_str("SELECT ");
        if self.distinct {
            query.append("DISTINCT ");
        }
        let select = self.get_select_clause();
        query.append(select.as_str());
        query.append(" FROM ");
        let table = match self.table.to_sql() {
            Ok(t) => t,
            Err(_) => return Err(QueryBuildingError::SqlSerializeError),
        };
        query.append(table.as_str());
        if self.filters.len() > 0 {
            query.append(" WHERE ");
            let clause = self.get_filter_clause();
            query.append(clause.as_str());
        }
        if self.group_by.len() > 0 {
            query.append(" GROUP BY ");
            let clause = self.get_group_by_clause();
            query.append(clause.as_str());
        }
        if self.having.is_some() {
            match self.get_filter_type_clause() {
                Some(condition) => {
                    query.append(" HAVING ");
                    query.append(condition.as_str());
                },
                None => {},
            }
        }
        proof {
            assert(query@ =~= query_text(self@));
        }
        Ok(query)
    }
}

pub open spec fn datetime_sql(t: DateTime) -> Option<Seq<char>> {
    if t.wf() {
        Some(
            datetime_text(
                t.year as int,
                t.month as int,
                t.day as int,
                t.hour as int,
                t.minute as int,
                t.second as int,
                t.nanosecond as int,
            ),
        )
    } else {
        None
    }
}

impl ToSql for DateTime {
    open spec fn sql(&self) -> Option<Seq<char>> {
        datetime_sql(*self)
    }

    fn to_sql(&self) -> (r: Result<String, ParsingError>) {
        match DateTime::new(
            self.year,
            self.month,
            self.day,
            self.hour,
            self.minute,
            self.second,
            self.nanosecond,
        ) {
            Some(t) => Ok(display_datetime(t)),
            None => Err(ParsingError),
        }
    }
}

/// A source of row filters.
pub trait QueryFilter {
    /// The filters that this value adds; `None` where one cannot be rendered.
    spec fn filter_texts(&self) -> Option<Seq<FilterText>>;

    /// The filters that are added in order until one cannot be rendered: all of
    /// them where every one renders.
    spec fn added_filters(&self) -> Seq<FilterText>;

    fn set_filter_clause(&self, builder: &mut QueryBuilder) -> (r: Result<(), QueryBuildingError>)
        ensures
            final(builder)@ == (QueryView {
                filters: old(builder)@.filters + self.added_filters(),
                ..old(builder)@
            }),
            r is Ok <==> self.filter_texts() is Some,
            self.filter_texts() is Some ==> self.filter_texts()->Some_0 == self.added_filters(),
            r is Err ==> r->Err_0 is SqlSerializeError,
    ;
}

/// A source of grouping expressions.
pub trait GroupByClause {
    /// The grouping expressions that this value adds.
    spec fn group_by_texts(&self) -> Seq<Seq<char>>;

    fn set_group_by_clause(&self, builder: &mut QueryBuilder) -> (r: Result<
        (),
        QueryBuildingError,
    >)
        ensures
            r is Ok,
            final(builder)@ == (QueryView {
                group_by: old(builder)@.group_by + self.group_by_texts(),
                ..old(builder)@
            }),
    ;
}

/// An interval of creation times: from `start_time`, up to `end_time` where given.
#[derive(Clone, Copy, Debug, PartialEq, Eq, Hash, Structural)]
pub struct TimeRange {
    pub start_time: DateTime,
    pub end_time: Option<DateTime>,
}

/// The filters of a time range: `created_at >= start`, and `created_at <= end`
/// where it has an end.
pub open spec fn time_range_filters(t: TimeRange) -> Option<Seq<FilterText>> {
    match datetime_sql(t.start_time) {
        None => None,
        Some(s) => match t.end_time {
            None => Some(seq![("created_at"@, FilterTypes::Gte, s)]),
            Some(e) => match datetime_sql(e) {
                None => None,
                Some(e) => Some(
                    seq![("created_at"@, FilterTypes::Gte, s), ("created_at"@, FilterTypes::Lte, e)],
                ),
            },
        },
    }
}

/// The filters of a time range that are added before one fails to render: none
/// where the start fails, the start filter alone where only the end fails.
pub open spec fn time_range_added(t: TimeRange) -> Seq<FilterText> {
    match datetime_sql(t.start_time) {
        None => Seq::empty(),
        Some(s) => match t.end_time {
            Some(e) => match datetime_sql(e) {
                Some(e) => seq![
                    ("created_at"@, FilterTypes::Gte, s),
                    ("created_at"@, FilterTypes::Lte, e),
                ],
                None => seq![("created_at"@, FilterTypes::Gte, s)],
            },
            None => seq![("created_at"@, FilterTypes::Gte, s)],
        },
    }
}

impl QueryFilter for TimeRange {
    open spec fn filter_texts(&self) -> Option<Seq<FilterText>> {
        time_range_filters(*self)
    }

    open spec fn added_filters(&self) -> Seq<FilterText> {
        time_range_added(*self)
    }

    fn set_filter_clause(&self, builder: &mut QueryBuilder) -> (r: Result<(), QueryBuildingError>) {
        let ghost before = builder@;
        match builder.add_custom_filter_clause("created_at", self.start_time, FilterTypes::Gte) {
            Ok(()) => {},
            Err(e) => {
                proof {
                    assert(builder@.filters =~= before.filters + time_range_added(*self));
                }
                return Err(e);
            },
        }
        match self.end_time {
            Some(end) => {
                match builder.add_custom_filter_clause("created_at", end, FilterTypes::Lte) {
                    Ok(()) => {},
                    Err(e) => {
                        proof {
                            assert(builder@.filters =~= before.filters + time_range_added(*self));
                        }
                        return Err(e);
                    },
                }
            },
            None => {},
        }
        proof {
            assert(builder@.filters =~= before.filters + time_range_added(*self));
        }
        Ok(())
    }
}

/// The grouping expressions of the row store for a granularity: the timestamp
/// truncated to the granularity's level and, for buckets finer than an hour that
/// are coarser than a minute, the bucket number within the hour.
pub open spec fn granularity_group_by(g: Granularity) -> Seq<Seq<char>> {
    let trunc = "DATE_TRUNC('"@ + level_name(level_of(g)) + "', modified_at)"@;
    match g {
        Granularity::FiveMin | Granularity::FifteenMin | Granularity::ThirtyMin => seq![
            trunc,
            "FLOOR(DATE_PART('"@ + "minute"@ + "', modified_at)/"@ + decimal_text(
                bucket_size_of(g) as nat,
            ) + ")"@,
        ],
        _ => seq![trunc],
    }
}

impl GroupByClause for Granularity {
    open spec fn group_by_texts(&self) -> Seq<Seq<char>> {
        granularity_group_by(*self)
    }

    fn set_group_by_clause(&self, builder: &mut QueryBuilder) -> (r: Result<
        (),
        QueryBuildingError,
    >) {
        let ghost before = builder@;
        let trunc_scale = self.get_lowest_common_granularity_level();
        let granularity_bucket_scale: Option<&str> = match self {
            Granularity::OneMin => None,
            Granularity::FiveMin | Granularity::FifteenMin | Granularity::ThirtyMin => Some(
                "minute",
            ),
            Granularity::OneHour | Granularity::OneDay => None,
        };
        let granularity_divisor = self.get_bucket_size();
        let mut trunc = String::from_str("DATE_TRUNC('");
        trunc.append(trunc_scale.to_string().as_str());
        trunc.append("', modified_at)");
        let _ = builder.add_group_by_clause(trunc);
        match granularity_bucket_scale {
            Some(scale) => {
                let mut bin = String::from_str("FLOOR(DATE_PART('");
                bin.append(scale);
                bin.append("', modified_at)/");
                bin.append(u64_text(granularity_divisor as u64).as_str());
                bin.append(")");
                let _ = builder.add_group_by_clause(bin);
            },
            None => {},
        }
        proof {
            assert(builder@.group_by =~= before.group_by + granularity_group_by(*self));
        }
        Ok(())
    }
}

/// A query with no select column does not render, and the same query with one
/// select column added does.
pub proof fn lemma_select_column_enables_build(q: QueryView, column: Seq<char>)
    requires
        q.columns.len() == 0,
    ensures
        !renders(q),
        renders(QueryView { columns: q.columns.push(column), ..q }),
{
}

} // verus!
