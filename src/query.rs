//! SQL text builders of the gateway's storage layer: a general builder and a
//! parameterized one that only orders by known columns.

use vstd::prelude::*;
use vstd::string::StringExecFns;
use crate::catalog::strings_view;
use crate::text::{decimal, decimal_string, join, join_spec, owned, str_eq};

verus! {

/// A statement with its parameters, run as one of a batch.
#[derive(Debug)]
pub struct BatchOperation {
    pub sql: String,
    pub params: Vec<String>,
}

/// Connection pool counts.
#[derive(Debug, Clone, Copy, PartialEq, Eq, Structural)]
pub struct PoolStats {
    pub total_connections: usize,
    pub active_connections: usize,
    pub idle_connections: usize,
    pub max_connections: usize,
}

/// Copies string slices into owned strings.
fn owned_all(items: &[&str]) -> (r: Vec<String>)
    ensures
        strings_view(r@) == items@.map_values(|s: &str| s@),
{
    let mut v: Vec<String> = Vec::new();
    let mut i: usize = 0;
    while i < items.len()
        invariant
            i <= items@.len(),
            v@.len() == i,
            forall|k: int| 0 <= k < i ==> (#[trigger] v@[k])@ == items@[k]@,
        decreases items.len() - i,
    {
        v.push(owned(items[i]));
        i = i + 1;
    }
    assert(strings_view(v@) =~= items@.map_values(|s: &str| s@));
    v
}

/// A fluent SQL builder.
pub trait QueryBuilder: Sized {
    /// Whether a table was named.
    spec fn has_table(&self) -> bool;

    fn select(self, fields: &[&str]) -> (r: Self)
        ensures
            r.has_table() == self.has_table(),
    ;

    fn from(self, table: &str) -> (r: Self)
        ensures
            r.has_table(),
    ;

    fn where_clause(self, condition: &str, params: Vec<String>) -> (r: Self)
        ensures
            r.has_table() == self.has_table(),
    ;

    fn order_by(self, column: &str, descending: bool) -> (r: Self)
        ensures
            r.has_table() == self.has_table(),
    ;

    fn limit(self, count: u64) -> (r: Self)
        ensures
            r.has_table() == self.has_table(),
    ;

    fn offset(self, count: u64) -> (r: Self)
        ensures
            r.has_table() == self.has_table(),
    ;

    /// The SQL text and its parameters.
    fn build(self) -> (String, Vec<String>)
        requires
            self.has_table(),
    ;
}

/// The general builder.
#[derive(Debug)]
pub struct SimpleQueryBuilder {
    fields: Vec<String>,
    table: Option<String>,
    where_conditions: Vec<String>,
    where_params: Vec<String>,
    order_by_clause: Option<String>,
    limit_value: Option<u64>,
    offset_value: Option<u64>,
}

/// The SQL text of a builder's parts.
pub open spec fn simple_sql(
    fields: Seq<Seq<char>>,
    table: Seq<char>,
    conditions: Seq<Seq<char>>,
    order: Option<Seq<char>>,
    limit: Option<u64>,
    offset: Option<u64>,
) -> Seq<char> {
    let base = "SELECT "@ + join_spec(fields, ", "@) + " FROM "@ + table;
    let w = if conditions.len() > 0 {
        base + " WHERE "@ + join_spec(conditions, " AND "@)
    } else {
        base
    };
    let o = match order {
        Some(c) => w + " ORDER BY "@ + c,
        None => w,
    };
    let l = match limit {
        Some(n) => o + " LIMIT "@ + decimal(n as nat),
        None => o,
    };
    match offset {
        Some(n) => l + " OFFSET "@ + decimal(n as nat),
        None => l,
    }
}

impl SimpleQueryBuilder {
    /// A builder that selects `*` from no table yet.
    pub fn new() -> (r: SimpleQueryBuilder)
        ensures
            !r.has_table(),
            r.fields_spec() == seq!["*"@],
    {
        let mut fields: Vec<String> = Vec::new();
        fields.push(owned("*"));
        let r = SimpleQueryBuilder {
            fields,
            table: None,
            where_conditions: Vec::new(),
            where_params: Vec::new(),
            order_by_clause: None,
            limit_value: None,
            offset_value: None,
        };
        assert(r.fields_spec() =~= seq!["*"@]);
        r
    }

    pub closed spec fn fields_spec(&self) -> Seq<Seq<char>> {
        strings_view(self.fields@)
    }

    pub closed spec fn table_spec(&self) -> Option<Seq<char>> {
        crate::error::opt_chars(self.table)
    }

    pub closed spec fn conditions_spec(&self) -> Seq<Seq<char>> {
        strings_view(self.where_conditions@)
    }

    pub closed spec fn order_spec(&self) -> Option<Seq<char>> {
        crate::error::opt_chars(self.order_by_clause)
    }

    pub closed spec fn limit_spec(&self) -> Option<u64> {
        self.limit_value
    }

    pub closed spec fn offset_spec(&self) -> Option<u64> {
        self.offset_value
    }

    /// Every part but those named is as in `other`.
    pub open spec fn same_but(&self, other: &SimpleQueryBuilder, f: bool, t: bool, w: bool, o: bool, l: bool, x: bool) -> bool {
        &&& (f || self.fields_spec() == other.fields_spec())
        &&& (t || self.table_spec() == other.table_spec())
        &&& (w || (self.conditions_spec() == other.conditions_spec() && self.params_spec() == other.params_spec()))
        &&& (o || self.order_spec() == other.order_spec())
        &&& (l || self.limit_spec() == other.limit_spec())
        &&& (x || self.offset_spec() == other.offset_spec())
    }

    /// The SQL text that `build` returns.
    pub closed spec fn sql_spec(&self) -> Seq<char> {
        simple_sql(
            strings_view(self.fields@),
            self.table->0@,
            strings_view(self.where_conditions@),
            crate::error::opt_chars(self.order_by_clause),
            self.limit_value,
            self.offset_value,
        )
    }

    /// The parameters that `build` returns.
    pub closed spec fn params_spec(&self) -> Seq<Seq<char>> {
        strings_view(self.where_params@)
    }
}

impl QueryBuilder for SimpleQueryBuilder {
    closed spec fn has_table(&self) -> bool {
        self.table is Some
    }

    fn select(self, fields: &[&str]) -> (r: SimpleQueryBuilder)
        ensures
            r.fields_spec() == fields@.map_values(|s: &str| s@),
            r.same_but(&self, true, false, false, false, false, false),
    {
        let mut b = self;
        b.fields = owned_all(fields);
        b
    }

    fn from(self, table: &str) -> (r: SimpleQueryBuilder)
        ensures
            r.table_spec() == Some(table@),
            r.same_but(&self, false, true, false, false, false, false),
    {
        let mut b = self;
        b.table = Some(owned(table));
        b
    }

    fn where_clause(self, condition: &str, params: Vec<String>) -> (r: SimpleQueryBuilder)
        ensures
            r.conditions_spec() == self.conditions_spec().push(condition@),
            r.params_spec() == self.params_spec() + strings_view(params@),
            r.same_but(&self, false, false, true, false, false, false),
    {
        let mut b = self;
        let mut params = params;
        let ghost given = strings_view(params@);
        b.where_conditions.push(owned(condition));
        b.where_params.append(&mut params);
        assert(strings_view(b.where_conditions@) =~= strings_view(self.where_conditions@).push(condition@));
        assert(strings_view(b.where_params@) =~= strings_view(self.where_params@) + given);
        b
    }

    fn order_by(self, column: &str, descending: bool) -> (r: SimpleQueryBuilder)
        ensures
            r.order_spec() == Some(column@ + if descending { " DESC"@ } else { " ASC"@ }),
            r.same_but(&self, false, false, false, true, false, false),
    {
        let mut b = self;
        let mut c = owned(column);
        if descending {
            c.append(" DESC");
        } else {
            c.append(" ASC");
        }
        b.order_by_clause = Some(c);
        b
    }

    fn limit(self, count: u64) -> (r: SimpleQueryBuilder)
        ensures
            r.limit_spec() == Some(count),
            r.same_but(&self, false, false, false, false, true, false),
    {
        let mut b = self;
        b.limit_value = Some(count);
        b
    }

    fn offset(self, count: u64) -> (r: SimpleQueryBuilder)
        ensures
            r.offset_spec() == Some(count),
            r.same_but(&self, false, false, false, false, false, true),
    {
        let mut b = self;
        b.offset_value = Some(count);
        b
    }

    fn build(self) -> (r: (String, Vec<String>))
        ensures
            r.0@ == self.sql_spec(),
            strings_view(r.1@) == self.params_spec(),
    {
        self.build_query()
    }
}

impl SimpleQueryBuilder {
    /// The SQL text and the WHERE parameters, in order.
    pub fn build_query(self) -> (r: (String, Vec<String>))
        requires
            self.has_table(),
        ensures
            r.0@ == self.sql_spec(),
            strings_view(r.1@) == self.params_spec(),
    {
        let table = match &self.table {
            Some(t) => t.as_str(),
            None => "",
        };
        let mut sql = owned("SELECT ");
        sql.append(join(&self.fields, ", ").as_str());
        sql.append(" FROM ");
        sql.append(table);
        if self.where_conditions.len() > 0 {
            sql.append(" WHERE ");
            sql.append(join(&self.where_conditions, " AND ").as_str());
        }
        match &self.order_by_clause {
            Some(o) => {
                sql.append(" ORDER BY ");
                sql.append(o.as_str());
            },
            None => {},
        }
        match self.limit_value {
            Some(n) => {
                sql.append(" LIMIT ");
                sql.append(decimal_string(n).as_str());
            },
            None => {},
        }
        match self.offset_value {
            Some(n) => {
                sql.append(" OFFSET ");
                sql.append(decimal_string(n).as_str());
            },
            None => {},
        }
        (sql, self.where_params)
    }
}

/// A new general builder.
pub fn query() -> (r: SimpleQueryBuilder)
    ensures
        !r.has_table(),
        r.fields_spec() == seq!["*"@],
{
    SimpleQueryBuilder::new()
}

/// The columns that a safe query may order by.
pub open spec fn is_allowed_column(c: Seq<char>) -> bool {
    c == "id"@ || c == "name"@ || c == "value"@ || c == "created_at"@ || c == "updated_at"@
}

/// A parameterized query that orders only by known columns.
#[derive(Debug)]
pub struct SafeQuery {
    table: String,
    columns: Vec<String>,
    where_clause: Option<String>,
    order_by: Option<(String, bool)>,
    limit: Option<u32>,
    offset: Option<u32>,
    params: Vec<String>,
}

/// What a safe query holds, as plain values.
pub ghost struct SafeQueryModel {
    pub table: Seq<char>,
    pub columns: Seq<Seq<char>>,
    pub where_clause: Option<Seq<char>>,
    pub order_by: Option<(Seq<char>, bool)>,
    pub limit: Option<u32>,
    pub offset: Option<u32>,
    pub params: Seq<Seq<char>>,
}

impl View for SafeQuery {
    type V = SafeQueryModel;

    closed spec fn view(&self) -> SafeQueryModel {
        SafeQueryModel {
            table: self.table@,
            columns: strings_view(self.columns@),
            where_clause: crate::error::opt_chars(self.where_clause),
            order_by: match self.order_by {
                Some(p) => Some((p.0@, p.1)),
                None => None,
            },
            limit: self.limit,
            offset: self.offset,
            params: strings_view(self.params@),
        }
    }
}

/// The SQL text of a safe query.
pub open spec fn safe_sql(q: SafeQueryModel) -> Seq<char> {
    let base = "SELECT "@ + join_spec(q.columns, ", "@) + " FROM "@ + q.table;
    let w = match q.where_clause {
        Some(c) => base + " WHERE "@ + c,
        None => base,
    };
    let o = match q.order_by {
        Some(p) => w + " ORDER BY "@ + p.0 + if p.1 {
            " DESC"@
        } else {
            " ASC"@
        },
        None => w,
    };
    match q.limit {
        Some(_) => o + " LIMIT ?"@ + match q.offset {
            Some(_) => " OFFSET ?"@,
            None => Seq::empty(),
        },
        None => o,
    }
}

/// The parameters of a safe query: the WHERE value, then limit and offset.
pub open spec fn safe_params(q: SafeQueryModel) -> Seq<Seq<char>> {
    match q.limit {
        Some(l) => match q.offset {
            Some(o) => q.params.push(decimal(l as nat)).push(decimal(o as nat)),
            None => q.params.push(decimal(l as nat)),
        },
        None => q.params,
    }
}

impl SafeQuery {
    /// A query of every column of `table`.
    pub fn new(table: &str) -> (r: SafeQuery)
        ensures
            r@ == (SafeQueryModel {
                table: table@,
                columns: seq!["*"@],
                where_clause: None,
                order_by: None,
                limit: None,
                offset: None,
                params: Seq::empty(),
            }),
    {
        let mut columns: Vec<String> = Vec::new();
        columns.push(owned("*"));
        let r = SafeQuery {
            table: owned(table),
            columns,
            where_clause: None,
            order_by: None,
            limit: None,
            offset: None,
            params: Vec::new(),
        };
        assert(strings_view(r.columns@) =~= seq!["*"@]);
        assert(strings_view(r.params@) =~= Seq::<Seq<char>>::empty());
        r
    }

    /// Selects the given columns.
    pub fn select(self, columns: &[&str]) -> (r: SafeQuery)
        ensures
            r@ == (SafeQueryModel { columns: columns@.map_values(|s: &str| s@), ..self@ }),
    {
        let mut q = self;
        q.columns = owned_all(columns);
        q
    }

    /// Filters on `column = ?`, with `value` as the parameter.
    pub fn where_eq(self, column: &str, value: &str) -> (r: SafeQuery)
        ensures
            r@ == (SafeQueryModel {
                where_clause: Some(column@ + " = ?"@),
                params: self@.params.push(value@),
                ..self@
            }),
    {
        let mut q = self;
        let mut c = owned(column);
        c.append(" = ?");
        q.where_clause = Some(c);
        q.params.push(owned(value));
        assert(strings_view(q.params@) =~= strings_view(self.params@).push(value@));
        q
    }

    /// Orders by `column` when it is a known column, else by `created_at`
    /// ascending.
    pub fn order_by_safe(self, column: &str, desc: bool) -> (r: SafeQuery)
        ensures
            r@ == (SafeQueryModel {
                order_by: Some(
                    if is_allowed_column(column@) {
                        (column@, desc)
                    } else {
                        ("created_at"@, false)
                    },
                ),
                ..self@
            }),
    {
        let mut q = self;
        if str_eq(column, "id") || str_eq(column, "name") || str_eq(column, "value") || str_eq(
            column,
            "created_at",
        ) || str_eq(column, "updated_at") {
            q.order_by = Some((owned(column), desc));
        } else {
            q.order_by = Some((owned("created_at"), false));
        }
        q
    }

    /// Sets the limit and the offset.
    pub fn paginate(self, limit: u32, offset: u32) -> (r: SafeQuery)
        ensures
            r@ == (SafeQueryModel { limit: Some(limit), offset: Some(offset), ..self@ }),
    {
        let mut q = self;
        q.limit = Some(limit);
        q.offset = Some(offset);
        q
    }

    /// The SQL text and its parameters.
    pub fn build(self) -> (r: (String, Vec<String>))
        ensures
            r.0@ == safe_sql(self@),
            strings_view(r.1@) == safe_params(self@),
    {
        let ghost model = self@;
        let mut sql = owned("SELECT ");
        sql.append(join(&self.columns, ", ").as_str());
        sql.append(" FROM ");
        sql.append(self.table.as_str());
        let mut params = self.params;
        match &self.where_clause {
            Some(w) => {
                sql.append(" WHERE ");
                sql.append(w.as_str());
            },
            None => {},
        }
        match &self.order_by {
            Some((column, desc)) => {
                sql.append(" ORDER BY ");
                sql.append(column.as_str());
                if *desc {
                    sql.append(" DESC");
                } else {
                    sql.append(" ASC");
                }
            },
            None => {},
        }
        match self.limit {
            Some(l) => {
                sql.append(" LIMIT ?");
                params.push(decimal_string(l as u64));
                match self.offset {
                    Some(o) => {
                        sql.append(" OFFSET ?");
                        params.push(decimal_string(o as u64));
                    },
                    None => {},
                }
            },
            None => {},
        }
        proof {
            match model.limit {
                Some(l) => match model.offset {
                    Some(o) => {
                        assert(strings_view(params@) =~= model.params.push(decimal(l as nat)).push(decimal(o as nat)));
                    },
                    None => {
                        assert(strings_view(params@) =~= model.params.push(decimal(l as nat)));
                    },
                },
                None => {},
            }
        }
        (sql, params)
    }
}

} // verus!
