use vstd::prelude::*;
use vstd::string::StringExecFns;
use crate::text::{contains_where, dec_digits, has_where_keyword, join_seqs, join_strings,
    u64_to_dec};

verus! {

// ------------------------------------------------------------------
// The abstract builder state and the rendered SQL text
// ------------------------------------------------------------------

/// The abstract state of a `QueryWrapper`: every accumulated clause as
/// mathematical text, in the order the calls arrived.
#[verifier::ext_equal]
pub ghost struct WrapperModel {
    pub wheres: Seq<Seq<char>>,
    pub orders: Seq<Seq<char>>,
    pub selects: Seq<Seq<char>>,
    pub limit: Option<u64>,
    pub offset: Option<u64>,
    pub custom: Option<Seq<char>>,
    pub joins: Seq<Seq<char>>,
}

/// The state of a freshly constructed builder: nothing accumulated.
pub open spec fn empty_model() -> WrapperModel {
    WrapperModel {
        wheres: Seq::empty(),
        orders: Seq::empty(),
        selects: Seq::empty(),
        limit: None,
        offset: None,
        custom: None,
        joins: Seq::empty(),
    }
}

/// The predicate text of an equality condition: `column = 'value'`.
pub open spec fn eq_pred(column: Seq<char>, value: Seq<char>) -> Seq<char> {
    column + " = '"@ + value + "'"@
}

/// The predicate text of an inequality condition: `column != 'value'`.
pub open spec fn ne_pred(column: Seq<char>, value: Seq<char>) -> Seq<char> {
    column + " != '"@ + value + "'"@
}

/// The predicate text of a greater-than condition: `column > 'value'`.
pub open spec fn gt_pred(column: Seq<char>, value: Seq<char>) -> Seq<char> {
    column + " > '"@ + value + "'"@
}

/// The predicate text of a less-than condition: `column < 'value'`.
pub open spec fn lt_pred(column: Seq<char>, value: Seq<char>) -> Seq<char> {
    column + " < '"@ + value + "'"@
}

/// The predicate text of a LIKE condition: `column LIKE '%value%'`.
pub open spec fn like_pred(column: Seq<char>, value: Seq<char>) -> Seq<char> {
    column + " LIKE '%"@ + value + "%'"@
}

/// One ordering entry: `column ASC` or `column DESC`.
pub open spec fn order_entry(column: Seq<char>, asc: bool) -> Seq<char> {
    column + (if asc {
        " ASC"@
    } else {
        " DESC"@
    })
}

/// One join clause: `<kind> JOIN table ON condition`.
pub open spec fn join_entry(kind: Seq<char>, table: Seq<char>, condition: Seq<char>) -> Seq<char> {
    kind + " JOIN "@ + table + " ON "@ + condition
}

/// The WHERE clause of a freshly generated statement: empty when no
/// predicate was accumulated, else the AND-joined predicates.
pub open spec fn where_clause(wheres: Seq<Seq<char>>) -> Seq<char> {
    if wheres.len() == 0 {
        Seq::empty()
    } else {
        " WHERE "@ + join_seqs(wheres, " AND "@)
    }
}

/// A custom SQL body with the accumulated predicates merged in: they are
/// appended after ` WHERE ` when the body nowhere spells that keyword
/// (ignoring ASCII case), after ` AND ` otherwise.
pub open spec fn custom_with_wheres(custom: Seq<char>, wheres: Seq<Seq<char>>) -> Seq<char> {
    if wheres.len() == 0 {
        custom
    } else if contains_where(custom) {
        custom + " AND "@ + join_seqs(wheres, " AND "@)
    } else {
        custom + " WHERE "@ + join_seqs(wheres, " AND "@)
    }
}

/// The ORDER BY clause: empty when no ordering was accumulated.
pub open spec fn order_clause(orders: Seq<Seq<char>>) -> Seq<char> {
    if orders.len() == 0 {
        Seq::empty()
    } else {
        " ORDER BY "@ + join_seqs(orders, ", "@)
    }
}

/// The LIMIT clause: empty when no limit was set.
pub open spec fn limit_clause(limit: Option<u64>) -> Seq<char> {
    match limit {
        Some(n) => " LIMIT "@ + dec_digits(n as nat),
        None => Seq::empty(),
    }
}

/// The OFFSET clause: empty when no offset was set.
pub open spec fn offset_clause(offset: Option<u64>) -> Seq<char> {
    match offset {
        Some(n) => " OFFSET "@ + dec_digits(n as nat),
        None => Seq::empty(),
    }
}

/// The space-joined join clauses, preceded by one space; empty when none.
pub open spec fn join_clause(joins: Seq<Seq<char>>) -> Seq<char> {
    if joins.len() == 0 {
        Seq::empty()
    } else {
        " "@ + join_seqs(joins, " "@)
    }
}

/// The head of a generated statement: `SELECT <columns> FROM <table>`,
/// with `*` when no projection was chosen.
pub open spec fn select_head(selects: Seq<Seq<char>>, table: Seq<char>) -> Seq<char> {
    "SELECT "@ + (if selects.len() == 0 {
        "*"@
    } else {
        join_seqs(selects, ", "@)
    }) + " FROM "@ + table
}

/// The full statement rendered for the model `m` over `table`: either the
/// custom body with the predicates merged in, or a generated
/// SELECT-FROM-JOIN-WHERE prefix; ORDER BY, LIMIT and OFFSET follow in
/// that fixed order on both paths.
pub open spec fn sql_text(m: WrapperModel, table: Seq<char>) -> Seq<char> {
    let tail = order_clause(m.orders) + limit_clause(m.limit) + offset_clause(m.offset);
    match m.custom {
        Some(c) => custom_with_wheres(c, m.wheres) + tail,
        None => select_head(m.selects, table) + join_clause(m.joins) + where_clause(m.wheres)
            + tail,
    }
}

/// The COUNT(*) statement for the model `m` over `table`: a custom body is
/// wrapped as a subquery; ORDER BY, LIMIT and OFFSET never appear.
pub open spec fn count_sql_text(m: WrapperModel, table: Seq<char>) -> Seq<char> {
    match m.custom {
        Some(c) => "SELECT COUNT(*) FROM ("@ + custom_with_wheres(c, m.wheres) + ") as t"@,
        None => "SELECT COUNT(*) FROM "@ + table + join_clause(m.joins) + where_clause(m.wheres),
    }
}

// ------------------------------------------------------------------
// The builder
// ------------------------------------------------------------------

/// A fluent accumulator of SQL clauses: predicates, ordering, projection,
/// joins, a paging window and an optional custom SELECT body, rendered by
/// `build_sql` and `build_count_sql`.
///
/// Values are interpolated into the SQL text verbatim — no escaping and no
/// parameter binding, so single quotes in a value break the statement and
/// hostile input can inject SQL. Callers must trust or sanitise what they
/// pass in.
#[derive(Debug)]
pub struct QueryWrapper {
    where_conditions: Vec<String>,
    order_by: Vec<String>,
    select_columns: Vec<String>,
    limit: Option<u64>,
    offset: Option<u64>,
    custom_sql: Option<String>,
    join_conditions: Vec<String>,
}

impl View for QueryWrapper {
    type V = WrapperModel;

    closed spec fn view(&self) -> WrapperModel {
        WrapperModel {
            wheres: self.where_conditions.deep_view(),
            orders: self.order_by.deep_view(),
            selects: self.select_columns.deep_view(),
            limit: self.limit,
            offset: self.offset,
            custom: self.custom_sql.deep_view(),
            joins: self.join_conditions.deep_view(),
        }
    }
}

fn clone_strings(v: &Vec<String>) -> (out: Vec<String>)
    ensures
        out@ == v@,
{
    let mut out: Vec<String> = Vec::new();
    let mut i: usize = 0;
    proof {
        assert(out@ =~= v@.take(0));
    }
    while i < v.len()
        invariant
            i <= v@.len(),
            out@ == v@.take(i as int),
        decreases v@.len() - i,
    {
        out.push(v[i].clone());
        proof {
            assert(v@.take(i as int).push(v@[i as int]) =~= v@.take(i + 1));
        }
        i = i + 1;
    }
    proof {
        assert(v@.take(v@.len() as int) =~= v@);
    }
    out
}

impl Clone for QueryWrapper {
    /// The copy carries the same model, so it renders exactly the same SQL.
    fn clone(&self) -> (other: Self)
        ensures
            other@ == self@,
    {
        let other = QueryWrapper {
            where_conditions: clone_strings(&self.where_conditions),
            order_by: clone_strings(&self.order_by),
            select_columns: clone_strings(&self.select_columns),
            limit: self.limit,
            offset: self.offset,
            custom_sql: match &self.custom_sql {
                Some(s) => Some(s.clone()),
                None => None,
            },
            join_conditions: clone_strings(&self.join_conditions),
        };
        proof {
            assert(other@ =~= self@);
        }
        other
    }
}

impl Default for QueryWrapper {
    /// The same builder `new` constructs: nothing accumulated.
    fn default() -> (wrapper: Self)
        ensures
            wrapper@ == empty_model(),
    {
        QueryWrapper::new()
    }
}

impl QueryWrapper {
    /// A builder with nothing accumulated.
    pub fn new() -> (wrapper: QueryWrapper)
        ensures
            wrapper@ == empty_model(),
    {
        let wrapper = QueryWrapper {
            where_conditions: Vec::new(),
            order_by: Vec::new(),
            select_columns: Vec::new(),
            limit: None,
            offset: None,
            custom_sql: None,
            join_conditions: Vec::new(),
        };
        proof {
            assert(wrapper@ =~= empty_model());
        }
        wrapper
    }

    /// Appends the predicate `column = 'value'`, the value rendered by its
    /// `Display` implementation.
    pub fn eq<T: core::fmt::Display>(self, column: &str, value: T) -> (wrapper: Self)
        ensures
            exists|txt: String|
                #[trigger] vstd::string::to_string_from_display_ensures::<T>(&value, txt)
                    && wrapper@ == (WrapperModel {
                    wheres: self@.wheres.push(eq_pred(column@, txt@)),
                    ..self@
                }),
    {
        let ghost orig = self@;
        let mut wrapper = self;
        let txt = value.to_string();
        let mut pred = column.to_owned();
        pred.append(" = '");
        pred.append(txt.as_str());
        pred.append("'");
        proof {
            assert(pred@ =~= eq_pred(column@, txt@));
        }
        wrapper.where_conditions.push(pred);
        proof {
            assert(wrapper.where_conditions.deep_view() =~= orig.wheres.push(
                eq_pred(column@, txt@),
            ));
            assert(wrapper@ =~= (WrapperModel {
                wheres: orig.wheres.push(eq_pred(column@, txt@)),
                ..orig
            }));
        }
        wrapper
    }

    /// Appends the predicate `column != 'value'`, the value rendered by its
    /// `Display` implementation.
    pub fn ne<T: core::fmt::Display>(self, column: &str, value: T) -> (wrapper: Self)
        ensures
            exists|txt: String|
                #[trigger] vstd::string::to_string_from_display_ensures::<T>(&value, txt)
                    && wrapper@ == (WrapperModel {
                    wheres: self@.wheres.push(ne_pred(column@, txt@)),
                    ..self@
                }),
    {
        let ghost orig = self@;
        let mut wrapper = self;
        let txt = value.to_string();
        let mut pred = column.to_owned();
        pred.append(" != '");
        pred.append(txt.as_str());
        pred.append("'");
        proof {
            assert(pred@ =~= ne_pred(column@, txt@));
        }
        wrapper.where_conditions.push(pred);
        proof {
            assert(wrapper.where_conditions.deep_view() =~= orig.wheres.push(
                ne_pred(column@, txt@),
            ));
            assert(wrapper@ =~= (WrapperModel {
                wheres: orig.wheres.push(ne_pred(column@, txt@)),
                ..orig
            }));
        }
        wrapper
    }

    /// Appends the predicate `column > 'value'`, the value rendered by its
    /// `Display` implementation.
    pub fn gt<T: core::fmt::Display>(self, column: &str, value: T) -> (wrapper: Self)
        ensures
            exists|txt: String|
                #[trigger] vstd::string::to_string_from_display_ensures::<T>(&value, txt)
                    && wrapper@ == (WrapperModel {
                    wheres: self@.wheres.push(gt_pred(column@, txt@)),
                    ..self@
                }),
    {
        let ghost orig = self@;
        let mut wrapper = self;
        let txt = value.to_string();
        let mut pred = column.to_owned();
        pred.append(" > '");
        pred.append(txt.as_str());
        pred.append("'");
        proof {
            assert(pred@ =~= gt_pred(column@, txt@));
        }
        wrapper.where_conditions.push(pred);
        proof {
            assert(wrapper.where_conditions.deep_view() =~= orig.wheres.push(
                gt_pred(column@, txt@),
            ));
            assert(wrapper@ =~= (WrapperModel {
                wheres: orig.wheres.push(gt_pred(column@, txt@)),
                ..orig
            }));
        }
        wrapper
    }

    /// Appends the predicate `column < 'value'`, the value rendered by its
    /// `Display` implementation.
    pub fn lt<T: core::fmt::Display>(self, column: &str, value: T) -> (wrapper: Self)
        ensures
            exists|txt: String|
                #[trigger] vstd::string::to_string_from_display_ensures::<T>(&value, txt)
                    && wrapper@ == (WrapperModel {
                    wheres: self@.wheres.push(lt_pred(column@, txt@)),
                    ..self@
                }),
    {
        let ghost orig = self@;
        let mut wrapper = self;
        let txt = value.to_string();
        let mut pred = column.to_owned();
        pred.append(" < '");
        pred.append(txt.as_str());
        pred.append("'");
        proof {
            assert(pred@ =~= lt_pred(column@, txt@));
        }
        wrapper.where_conditions.push(pred);
        proof {
            assert(wrapper.where_conditions.deep_view() =~= orig.wheres.push(
                lt_pred(column@, txt@),
            ));
            assert(wrapper@ =~= (WrapperModel {
                wheres: orig.wheres.push(lt_pred(column@, txt@)),
                ..orig
            }));
        }
        wrapper
    }

    /// Appends the predicate `column LIKE '%value%'`.
    pub fn like(self, column: &str, value: &str) -> (wrapper: Self)
        ensures
            wrapper@ == (WrapperModel {
                wheres: self@.wheres.push(like_pred(column@, value@)),
                ..self@
            }),
    {
        let ghost orig = self@;
        let mut wrapper = self;
        let mut pred = column.to_owned();
        pred.append(" LIKE '%");
        pred.append(value);
        pred.append("%'");
        proof {
            assert(pred@ =~= like_pred(column@, value@));
        }
        wrapper.where_conditions.push(pred);
        proof {
            assert(wrapper.where_conditions.deep_view() =~= orig.wheres.push(
                like_pred(column@, value@),
            ));
            assert(wrapper@ =~= (WrapperModel {
                wheres: orig.wheres.push(like_pred(column@, value@)),
                ..orig
            }));
        }
        wrapper
    }

    /// Replaces the projection with the given column names.
    pub fn select(self, columns: Vec<&str>) -> (wrapper: Self)
        ensures
            wrapper@ == (WrapperModel { selects: columns.deep_view(), ..self@ }),
    {
        let ghost orig = self@;
        let mut wrapper = self;
        let mut cols: Vec<String> = Vec::new();
        let mut i: usize = 0;
        proof {
            assert(cols.deep_view() =~= columns.deep_view().take(0));
        }
        while i < columns.len()
            invariant
                i <= columns@.len(),
                cols.deep_view() == columns.deep_view().take(i as int),
            decreases columns@.len() - i,
        {
            cols.push(columns[i].to_owned());
            proof {
                assert(cols.deep_view() =~= columns.deep_view().take(i as int).push(
                    columns.deep_view()[i as int],
                ));
                assert(columns.deep_view().take(i as int).push(columns.deep_view()[i as int])
                    =~= columns.deep_view().take(i + 1));
            }
            i = i + 1;
        }
        proof {
            assert(columns.deep_view().take(columns@.len() as int) =~= columns.deep_view());
        }
        wrapper.select_columns = cols;
        proof {
            assert(wrapper@ =~= (WrapperModel { selects: columns.deep_view(), ..orig }));
        }
        wrapper
    }

    /// Appends one ordering entry, `column ASC` or `column DESC`; repeated
    /// calls order by several keys, in call order.
    pub fn order_by(self, column: &str, asc: bool) -> (wrapper: Self)
        ensures
            wrapper@ == (WrapperModel {
                orders: self@.orders.push(order_entry(column@, asc)),
                ..self@
            }),
    {
        let ghost orig = self@;
        let mut wrapper = self;
        let mut entry = column.to_owned();
        if asc {
            entry.append(" ASC");
        } else {
            entry.append(" DESC");
        }
        proof {
            assert(entry@ =~= order_entry(column@, asc));
        }
        wrapper.order_by.push(entry);
        proof {
            assert(wrapper.order_by.deep_view() =~= orig.orders.push(order_entry(column@, asc)));
            assert(wrapper@ =~= (WrapperModel {
                orders: orig.orders.push(order_entry(column@, asc)),
                ..orig
            }));
        }
        wrapper
    }

    /// Sets the LIMIT bound; the last call wins.
    pub fn limit(&mut self, limit: u64)
        ensures
            final(self)@ == (WrapperModel { limit: Some(limit), ..old(self)@ }),
    {
        self.limit = Some(limit);
        proof {
            assert(self@ =~= (WrapperModel { limit: Some(limit), ..old(self)@ }));
        }
    }

    /// Sets the OFFSET bound; the last call wins.
    pub fn offset(&mut self, offset: u64)
        ensures
            final(self)@ == (WrapperModel { offset: Some(offset), ..old(self)@ }),
    {
        self.offset = Some(offset);
        proof {
            assert(self@ =~= (WrapperModel { offset: Some(offset), ..old(self)@ }));
        }
    }

    /// Sets a raw SQL body that replaces the generated SELECT-FROM-JOIN
    /// prefix; WHERE, ORDER BY, LIMIT and OFFSET are still appended.
    pub fn custom_sql(self, sql: &str) -> (wrapper: Self)
        ensures
            wrapper@ == (WrapperModel { custom: Some(sql@), ..self@ }),
    {
        let ghost orig = self@;
        let mut wrapper = self;
        wrapper.custom_sql = Some(sql.to_owned());
        proof {
            assert(wrapper@ =~= (WrapperModel { custom: Some(sql@), ..orig }));
        }
        wrapper
    }

    /// Appends the clause `INNER JOIN table ON on_condition`.
    pub fn inner_join(self, table: &str, on_condition: &str) -> (wrapper: Self)
        ensures
            wrapper@ == (WrapperModel {
                joins: self@.joins.push(join_entry("INNER"@, table@, on_condition@)),
                ..self@
            }),
    {
        let ghost orig = self@;
        let mut wrapper = self;
        let mut entry = "INNER JOIN ".to_owned();
        entry.append(table);
        entry.append(" ON ");
        entry.append(on_condition);
        proof {
            reveal_strlit("INNER JOIN ");
            reveal_strlit("INNER");
            reveal_strlit(" JOIN ");
            assert(entry@ =~= join_entry("INNER"@, table@, on_condition@));
        }
        wrapper.join_conditions.push(entry);
        proof {
            assert(wrapper.join_conditions.deep_view() =~= orig.joins.push(
                join_entry("INNER"@, table@, on_condition@),
            ));
            assert(wrapper@ =~= (WrapperModel {
                joins: orig.joins.push(join_entry("INNER"@, table@, on_condition@)),
                ..orig
            }));
        }
        wrapper
    }

    /// Appends the clause `LEFT JOIN table ON on_condition`.
    pub fn left_join(self, table: &str, on_condition: &str) -> (wrapper: Self)
        ensures
            wrapper@ == (WrapperModel {
                joins: self@.joins.push(join_entry("LEFT"@, table@, on_condition@)),
                ..self@
            }),
    {
        let ghost orig = self@;
        let mut wrapper = self;
        let mut entry = "LEFT JOIN ".to_owned();
        entry.append(table);
        entry.append(" ON ");
        entry.append(on_condition);
        proof {
            reveal_strlit("LEFT JOIN ");
            reveal_strlit("LEFT");
            reveal_strlit(" JOIN ");
            assert(entry@ =~= join_entry("LEFT"@, table@, on_condition@));
        }
        wrapper.join_conditions.push(entry);
        proof {
            assert(wrapper.join_conditions.deep_view() =~= orig.joins.push(
                join_entry("LEFT"@, table@, on_condition@),
            ));
            assert(wrapper@ =~= (WrapperModel {
                joins: orig.joins.push(join_entry("LEFT"@, table@, on_condition@)),
                ..orig
            }));
        }
        wrapper
    }

    /// Appends the clause `RIGHT JOIN table ON on_condition`.
    pub fn right_join(self, table: &str, on_condition: &str) -> (wrapper: Self)
        ensures
            wrapper@ == (WrapperModel {
                joins: self@.joins.push(join_entry("RIGHT"@, table@, on_condition@)),
                ..self@
            }),
    {
        let ghost orig = self@;
        let mut wrapper = self;
        let mut entry = "RIGHT JOIN ".to_owned();
        entry.append(table);
        entry.append(" ON ");
        entry.append(on_condition);
        proof {
            reveal_strlit("RIGHT JOIN ");
            reveal_strlit("RIGHT");
            reveal_strlit(" JOIN ");
            assert(entry@ =~= join_entry("RIGHT"@, table@, on_condition@));
        }
        wrapper.join_conditions.push(entry);
        proof {
            assert(wrapper.join_conditions.deep_view() =~= orig.joins.push(
                join_entry("RIGHT"@, table@, on_condition@),
            ));
            assert(wrapper@ =~= (WrapperModel {
                joins: orig.joins.push(join_entry("RIGHT"@, table@, on_condition@)),
                ..orig
            }));
        }
        wrapper
    }

    fn custom_body(custom: &String, wheres: &Vec<String>) -> (body: String)
        ensures
            body@ == custom_with_wheres(custom@, wheres.deep_view()),
    {
        let mut body = custom.clone();
        if wheres.len() > 0 {
            if !has_where_keyword(custom.as_str()) {
                body.append(" WHERE ");
            } else {
                body.append(" AND ");
            }
            let preds = join_strings(wheres, " AND ");
            body.append(preds.as_str());
        }
        proof {
            assert(body@ =~= custom_with_wheres(custom@, wheres.deep_view()));
        }
        body
    }

    fn generated_body(&self, table_name: &str) -> (body: String)
        ensures
            body@ == select_head(self@.selects, table_name@) + join_clause(self@.joins)
                + where_clause(self@.wheres),
    {
        let mut body = "SELECT ".to_owned();
        if self.select_columns.len() == 0 {
            body.append("*");
        } else {
            let cols = join_strings(&self.select_columns, ", ");
            body.append(cols.as_str());
        }
        body.append(" FROM ");
        body.append(table_name);
        proof {
            assert(body@ =~= select_head(self@.selects, table_name@));
        }
        if self.join_conditions.len() > 0 {
            body.append(" ");
            let joins = join_strings(&self.join_conditions, " ");
            body.append(joins.as_str());
        }
        proof {
            assert(body@ =~= select_head(self@.selects, table_name@) + join_clause(self@.joins));
        }
        if self.where_conditions.len() > 0 {
            body.append(" WHERE ");
            let preds = join_strings(&self.where_conditions, " AND ");
            body.append(preds.as_str());
        }
        proof {
            assert(body@ =~= select_head(self@.selects, table_name@) + join_clause(self@.joins)
                + where_clause(self@.wheres));
        }
        body
    }

    fn append_tail(&self, sql: &mut String)
        ensures
            final(sql)@ == old(sql)@ + order_clause(self@.orders) + limit_clause(self@.limit)
                + offset_clause(self@.offset),
    {
        if self.order_by.len() > 0 {
            sql.append(" ORDER BY ");
            let orders = join_strings(&self.order_by, ", ");
            sql.append(orders.as_str());
        }
        proof {
            assert(sql@ =~= old(sql)@ + order_clause(self@.orders));
        }
        if let Some(limit) = self.limit {
            sql.append(" LIMIT ");
            let n = u64_to_dec(limit);
            sql.append(n.as_str());
        }
        proof {
            assert(sql@ =~= old(sql)@ + order_clause(self@.orders) + limit_clause(self@.limit));
        }
        if let Some(offset) = self.offset {
            sql.append(" OFFSET ");
            let n = u64_to_dec(offset);
            sql.append(n.as_str());
        }
        proof {
            assert(sql@ =~= old(sql)@ + order_clause(self@.orders) + limit_clause(self@.limit)
                + offset_clause(self@.offset));
        }
    }

    /// Renders the full statement for this builder over `table_name`, as
    /// `sql_text` describes.
    pub fn build_sql(&self, table_name: &str) -> (sql: String)
        ensures
            sql@ == sql_text(self@, table_name@),
    {
        let mut sql: String = if let Some(custom) = &self.custom_sql {
            Self::custom_body(custom, &self.where_conditions)
        } else {
            self.generated_body(table_name)
        };
        self.append_tail(&mut sql);
        proof {
            assert(sql@ =~= sql_text(self@, table_name@));
        }
        sql
    }

    /// Renders the COUNT(*) statement for this builder over `table_name`,
    /// as `count_sql_text` describes: ORDER BY, LIMIT and OFFSET never
    /// appear in it.
    pub fn build_count_sql(&self, table_name: &str) -> (sql: String)
        ensures
            sql@ == count_sql_text(self@, table_name@),
    {
        if let Some(custom) = &self.custom_sql {
            let inner = Self::custom_body(custom, &self.where_conditions);
            let mut sql = "SELECT COUNT(*) FROM (".to_owned();
            sql.append(inner.as_str());
            sql.append(") as t");
            proof {
                assert(sql@ =~= count_sql_text(self@, table_name@));
            }
            sql
        } else {
            let mut sql = "SELECT COUNT(*) FROM ".to_owned();
            sql.append(table_name);
            if self.join_conditions.len() > 0 {
                sql.append(" ");
                let joins = join_strings(&self.join_conditions, " ");
                sql.append(joins.as_str());
            }
            if self.where_conditions.len() > 0 {
                sql.append(" WHERE ");
                let preds = join_strings(&self.where_conditions, " AND ");
                sql.append(preds.as_str());
            }
            proof {
                assert(sql@ =~= count_sql_text(self@, table_name@));
            }
            sql
        }
    }

    /// Renders the statement a delete flow executes: a custom body
    /// `delete from <table_name>` with the accumulated WHERE, ORDER BY,
    /// LIMIT and OFFSET clauses appended by the general renderer.
    pub fn build_delete_sql(self, table_name: &str) -> (sql: String)
        ensures
            sql@ == sql_text(
                WrapperModel { custom: Some("delete from "@ + table_name@), ..self@ },
                table_name@,
            ),
    {
        let ghost orig = self@;
        let mut body = "delete from ".to_owned();
        body.append(table_name);
        let wrapper = self.custom_sql(body.as_str());
        proof {
            assert(wrapper@ =~= (WrapperModel {
                custom: Some("delete from "@ + table_name@),
                ..orig
            }));
        }
        wrapper.build_sql(table_name)
    }

    /// The decision step of a paged fetch: nothing is to be fetched when
    /// the count query reported no rows; otherwise a copy of this builder
    /// whose window is forced to the requested page, overriding any limit
    /// or offset the caller had set.
    pub fn plan_page(&self, page_no: u64, page_size: u64, total: u64) -> (plan: Option<
        QueryWrapper,
    >)
        requires
            page_no >= 1,
            (page_no - 1) * page_size <= u64::MAX,
        ensures
            match plan {
                None => total == 0,
                Some(windowed) => total > 0 && windowed@ == (WrapperModel {
                    limit: Some(page_size),
                    offset: Some((((page_no - 1) * page_size) as u64)),
                    ..self@
                }),
            },
    {
        if total > 0 {
            let page_offset = (page_no - 1) * page_size;
            let mut windowed = self.clone();
            windowed.limit(page_size);
            windowed.offset(page_offset);
            proof {
                assert(windowed@ =~= (WrapperModel {
                    limit: Some(page_size),
                    offset: Some(page_offset),
                    ..self@
                }));
            }
            Some(windowed)
        } else {
            None
        }
    }
}

} // verus!
