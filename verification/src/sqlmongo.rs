//! The statement translator: mapping a SQL `SELECT` statement tree to the
//! query options of the document store, and the recursive predicate encoder
//! for the `WHERE` clause.

use vstd::prelude::*;

use crate::ast::{
    CmpOp, GroupItem, NumericArg, OrderTarget, ProjItem, Operand, QueryBody, SpecGroupItem,
    SpecNumericArg, SpecOrderItem, SpecOrderTarget, SpecProjItem, SpecOperand, SpecQueryBody,
    SpecStmt, SpecTableRef, SpecTopClause, SpecWhereExpr, Stmt, TableRef, TopClause, WhereExpr,
};
use crate::document::{
    IntDoc, LeafDoc, LeafVal, MongoOp, Pred, SpecLeafVal, SpecPred, spec_doc_insert,
};
use crate::numlit::{
    int_literal_value, is_int_literal, is_uint_literal, parse_i64, parse_u64, parse_usize,
    uint_literal_value,
};

verus! {

/// A row-count bound taken from a SQL `TOP n [PERCENT]` clause.
#[derive(Debug, Clone, Copy, PartialEq, Eq, Structural)]
pub enum TopRows {
    Percent(usize),
    Number(usize),
}

/// The statement shapes that the translator refuses rather than guessing
/// a translation for.
#[derive(Debug, Clone, Copy, PartialEq, Eq, Structural)]
pub enum TranslateError {
    /// The statement is not a query with a simple `SELECT` body.
    UnsupportedStatementShape,
    /// A projection item is a computed expression.
    UnsupportedProjectionItem,
    /// A `WHERE` node is not a binary operation.
    UnsupportedPredicateShape,
    /// A binary `WHERE` operator outside `AND`, `OR` and the six comparisons.
    UnsupportedComparisonOperator,
}

/// The translation result: one optional field per SQL clause, each set only
/// when the clause is present and has a supported shape.
#[derive(Debug, PartialEq)]
pub struct SqlQueryOpts {
    pub sort_options: Option<IntDoc>,
    pub find_options: Option<Pred>,
    pub specific_cols: Option<IntDoc>,
    pub top_rows: Option<TopRows>,
    pub tables: Vec<String>,
    pub group_by: Vec<String>,
    pub distinct: bool,
    pub limit: Option<i64>,
    pub skip: Option<u64>,
}

/// Ghost form of `SqlQueryOpts`.
pub struct SpecOpts {
    pub sort_options: Option<Seq<(Seq<char>, i64)>>,
    pub find_options: Option<SpecPred>,
    pub specific_cols: Option<Seq<(Seq<char>, i64)>>,
    pub top_rows: Option<TopRows>,
    pub tables: Seq<Seq<char>>,
    pub group_by: Seq<Seq<char>>,
    pub distinct: bool,
    pub limit: Option<i64>,
    pub skip: Option<u64>,
}

impl View for SqlQueryOpts {
    type V = SpecOpts;

    open spec fn view(&self) -> SpecOpts {
        SpecOpts {
            sort_options: self.sort_options.deep_view(),
            find_options: self.find_options.deep_view(),
            specific_cols: self.specific_cols.deep_view(),
            top_rows: self.top_rows,
            tables: self.tables.deep_view(),
            group_by: self.group_by.deep_view(),
            distinct: self.distinct,
            limit: self.limit,
            skip: self.skip,
        }
    }
}

/// The predicate operator token for each supported comparison operator.
pub open spec fn spec_mongo_op(op: CmpOp) -> MongoOp
    recommends
        op != CmpOp::Other,
{
    match op {
        CmpOp::Gt => MongoOp::Gt,
        CmpOp::GtEq => MongoOp::Gte,
        CmpOp::Lt => MongoOp::Lt,
        CmpOp::LtEq => MongoOp::Lte,
        CmpOp::Equal => MongoOp::Equal,
        CmpOp::NotEqual => MongoOp::NotEqual,
        CmpOp::Other => arbitrary(),
    }
}

/// The integer read from a non-string right-hand operand: the value of its
/// text when that is an integer literal fitting `i64`, and 0 otherwise.
pub open spec fn spec_operand_int(t: Seq<u8>) -> i64 {
    if is_int_literal(t) && i64::MIN <= int_literal_value(t) <= i64::MAX {
        int_literal_value(t) as i64
    } else {
        0
    }
}

/// The predicate document that a `WHERE` expression encodes to, starting
/// from the accumulator document `acc`. A comparison leaf merges into `acc`;
/// a logical combinator discards `acc` and encodes each side into a fresh
/// document, pairing the results under its combinator key.
pub open spec fn spec_encode(e: SpecWhereExpr, acc: Seq<(Seq<char>, SpecLeafVal)>) -> Result<
    SpecPred,
    TranslateError,
>
    decreases e,
{
    match e {
        SpecWhereExpr::And(l, r) => match spec_encode(*l, Seq::empty()) {
            Result::Ok(lp) => match spec_encode(*r, Seq::empty()) {
                Result::Ok(rp) => Result::Ok(SpecPred::And(Box::new(lp), Box::new(rp))),
                Result::Err(err) => Result::Err(err),
            },
            Result::Err(err) => Result::Err(err),
        },
        SpecWhereExpr::Or(l, r) => match spec_encode(*l, Seq::empty()) {
            Result::Ok(lp) => match spec_encode(*r, Seq::empty()) {
                Result::Ok(rp) => Result::Ok(SpecPred::Or(Box::new(lp), Box::new(rp))),
                Result::Err(err) => Result::Err(err),
            },
            Result::Err(err) => Result::Err(err),
        },
        SpecWhereExpr::Cmp { op, col, rhs } => {
            if op == CmpOp::Other {
                Result::Err(TranslateError::UnsupportedComparisonOperator)
            } else {
                match rhs {
                    SpecOperand::StrLit(s) => {
                        if op == CmpOp::NotEqual {
                            Result::Ok(
                                SpecPred::Leaf(
                                    spec_doc_insert(
                                        acc,
                                        col,
                                        SpecLeafVal::OpStr(MongoOp::NotEqual, s),
                                    ),
                                ),
                            )
                        } else {
                            Result::Ok(
                                SpecPred::Leaf(spec_doc_insert(acc, col, SpecLeafVal::Bare(s))),
                            )
                        }
                    },
                    SpecOperand::Text(t) => Result::Ok(
                        SpecPred::Leaf(
                            spec_doc_insert(
                                acc,
                                col,
                                SpecLeafVal::OpInt(spec_mongo_op(op), spec_operand_int(t)),
                            ),
                        ),
                    ),
                }
            }
        },
        SpecWhereExpr::Other => Result::Err(TranslateError::UnsupportedPredicateShape),
    }
}

/// Ghost form of a predicate-encoder result.
pub open spec fn encode_result_view(r: Result<Pred, TranslateError>) -> Result<
    SpecPred,
    TranslateError,
> {
    match r {
        Result::Ok(p) => Result::Ok(p@),
        Result::Err(e) => Result::Err(e),
    }
}

/// The row-count bound read from a `TOP` clause: set only when the quantity
/// is a numeric literal fitting `usize`; any other shape is skipped.
pub open spec fn spec_top_rows(top: Option<SpecTopClause>) -> Option<TopRows> {
    match top {
        Option::None => Option::None,
        Option::Some(t) => match t.quantity {
            Option::Some(SpecNumericArg::Num(txt)) => if is_uint_literal(txt)
                && uint_literal_value(txt) <= usize::MAX {
                if t.percent {
                    Option::Some(TopRows::Percent(uint_literal_value(txt) as usize))
                } else {
                    Option::Some(TopRows::Number(uint_literal_value(txt) as usize))
                }
            } else {
                Option::None
            },
            _ => Option::None,
        },
    }
}

/// The table-name parts read from the `FROM` entries: each plain table
/// reference overwrites the previous one, so the last one wins; every other
/// relation shape is skipped.
pub open spec fn spec_tables(from: Seq<SpecTableRef>) -> Seq<Seq<char>>
    decreases from.len(),
{
    if from.len() == 0 {
        Seq::empty()
    } else {
        match from.last() {
            SpecTableRef::Table(names) => names,
            SpecTableRef::Other => spec_tables(from.drop_last()),
        }
    }
}

/// The column names read from `GROUP BY`: bare identifiers in order, every
/// other item shape skipped.
pub open spec fn spec_group_by(items: Seq<SpecGroupItem>) -> Seq<Seq<char>>
    decreases items.len(),
{
    if items.len() == 0 {
        Seq::empty()
    } else {
        match items.last() {
            SpecGroupItem::Col(name) => spec_group_by(items.drop_last()).push(name),
            SpecGroupItem::Other => spec_group_by(items.drop_last()),
        }
    }
}

/// The projection document read from the projection list: a bare column
/// identifier contributes an inclusion entry, wildcards and aliased items
/// contribute nothing, and any other expression shape is refused.
pub open spec fn spec_projection(items: Seq<SpecProjItem>) -> Result<
    Seq<(Seq<char>, i64)>,
    TranslateError,
>
    decreases items.len(),
{
    if items.len() == 0 {
        Result::Ok(Seq::empty())
    } else {
        match spec_projection(items.drop_last()) {
            Result::Err(err) => Result::Err(err),
            Result::Ok(m) => match items.last() {
                SpecProjItem::Col(name) => Result::Ok(spec_doc_insert(m, name, 1)),
                SpecProjItem::Wildcard => Result::Ok(m),
                SpecProjItem::Aliased => Result::Ok(m),
                SpecProjItem::Other => Result::Err(TranslateError::UnsupportedProjectionItem),
            },
        }
    }
}

/// The sort document read from `ORDER BY`: only items with a bare identifier
/// target and an explicit direction contribute, ascending as 1 and
/// descending as -1; every other item is skipped.
pub open spec fn spec_sort(items: Seq<SpecOrderItem>) -> Seq<(Seq<char>, i64)>
    decreases items.len(),
{
    if items.len() == 0 {
        Seq::empty()
    } else {
        let prefix = spec_sort(items.drop_last());
        match items.last().target {
            SpecOrderTarget::Col(name) => match items.last().asc {
                Option::Some(b) => spec_doc_insert(
                    prefix,
                    name,
                    if b {
                        1i64
                    } else {
                        -1i64
                    },
                ),
                Option::None => prefix,
            },
            SpecOrderTarget::Other => prefix,
        }
    }
}

/// The row bound read from `LIMIT`: set only when the argument is a numeric
/// literal fitting `i64`; any other shape is skipped.
pub open spec fn spec_limit(arg: Option<SpecNumericArg>) -> Option<i64> {
    match arg {
        Option::Some(SpecNumericArg::Num(txt)) => if is_int_literal(txt) && i64::MIN
            <= int_literal_value(txt) <= i64::MAX {
            Option::Some(int_literal_value(txt) as i64)
        } else {
            Option::None
        },
        _ => Option::None,
    }
}

/// The row offset read from `OFFSET`: set only when the argument is a
/// numeric literal fitting `u64`; any other shape is skipped.
pub open spec fn spec_skip(arg: Option<SpecNumericArg>) -> Option<u64> {
    match arg {
        Option::Some(SpecNumericArg::Num(txt)) => if is_uint_literal(txt) && uint_literal_value(
            txt,
        ) <= u64::MAX {
            Option::Some(uint_literal_value(txt) as u64)
        } else {
            Option::None
        },
        _ => Option::None,
    }
}

/// The whole translation: refuse anything that is not a query with a simple
/// `SELECT` body, refuse an unsupported `WHERE` shape or projection item,
/// and otherwise read each clause by its rule, normalizing empty sort,
/// filter and projection documents to "absent".
pub open spec fn spec_translate(s: SpecStmt) -> Result<SpecOpts, TranslateError> {
    match s {
        SpecStmt::Other => Result::Err(TranslateError::UnsupportedStatementShape),
        SpecStmt::Query(q) => match q.body {
            SpecQueryBody::Other => Result::Err(TranslateError::UnsupportedStatementShape),
            SpecQueryBody::Select(sel) => {
                let filter = match sel.selection {
                    Option::None => Result::Ok(Option::None),
                    Option::Some(e) => match spec_encode(e, Seq::empty()) {
                        Result::Ok(p) => Result::Ok(Option::Some(p)),
                        Result::Err(err) => Result::Err(err),
                    },
                };
                match filter {
                    Result::Err(err) => Result::Err(err),
                    Result::Ok(find_options) => match spec_projection(sel.projection) {
                        Result::Err(err) => Result::Err(err),
                        Result::Ok(proj) => {
                            let sort = spec_sort(q.order_by);
                            Result::Ok(
                                SpecOpts {
                                    sort_options: if sort.len() > 0 {
                                        Option::Some(sort)
                                    } else {
                                        Option::None
                                    },
                                    find_options,
                                    specific_cols: if proj.len() > 0 {
                                        Option::Some(proj)
                                    } else {
                                        Option::None
                                    },
                                    top_rows: spec_top_rows(sel.top),
                                    tables: spec_tables(sel.from),
                                    group_by: spec_group_by(sel.group_by),
                                    distinct: sel.distinct,
                                    limit: spec_limit(q.limit),
                                    skip: spec_skip(q.offset),
                                },
                            )
                        },
                    },
                }
            },
        },
    }
}

/// Ghost form of a translation result.
pub open spec fn opts_result_view(r: Result<SqlQueryOpts, TranslateError>) -> Result<
    SpecOpts,
    TranslateError,
> {
    match r {
        Result::Ok(o) => Result::Ok(o@),
        Result::Err(e) => Result::Err(e),
    }
}

/// The predicate operator token for a supported comparison operator.
fn mongo_op_of(op: CmpOp) -> (r: MongoOp)
    requires
        op != CmpOp::Other,
    ensures
        r == spec_mongo_op(op),
{
    match op {
        CmpOp::Gt => MongoOp::Gt,
        CmpOp::GtEq => MongoOp::Gte,
        CmpOp::Lt => MongoOp::Lt,
        CmpOp::LtEq => MongoOp::Lte,
        CmpOp::Equal => MongoOp::Equal,
        CmpOp::NotEqual => MongoOp::NotEqual,
        CmpOp::Other => vstd::pervasive::unreached(),
    }
}

/// Traverses the `WHERE` expression tree and encodes it as a predicate
/// document. A comparison leaf merges into the document passed down; the
/// logical branches discard it and pair two freshly encoded sub-documents
/// under their combinator key.
pub fn convert_to_doc(expr: &WhereExpr, document: LeafDoc) -> (r: Result<Pred, TranslateError>)
    ensures
        encode_result_view(r) == spec_encode(expr@, document@),
    decreases expr,
{
    let mut document = document;
    match expr {
        WhereExpr::And(l, rr) => {
            match convert_to_doc(&**l, LeafDoc::new()) {
                Result::Err(err) => Result::Err(err),
                Result::Ok(lp) => match convert_to_doc(&**rr, LeafDoc::new()) {
                    Result::Err(err) => Result::Err(err),
                    Result::Ok(rp) => Result::Ok(Pred::And(Box::new(lp), Box::new(rp))),
                },
            }
        },
        WhereExpr::Or(l, rr) => {
            match convert_to_doc(&**l, LeafDoc::new()) {
                Result::Err(err) => Result::Err(err),
                Result::Ok(lp) => match convert_to_doc(&**rr, LeafDoc::new()) {
                    Result::Err(err) => Result::Err(err),
                    Result::Ok(rp) => Result::Ok(Pred::Or(Box::new(lp), Box::new(rp))),
                },
            }
        },
        WhereExpr::Cmp { op, col, rhs } => {
            let op = *op;
            if op == CmpOp::Other {
                return Result::Err(TranslateError::UnsupportedComparisonOperator);
            }
            match rhs {
                Operand::StrLit(s) => {
                    if op == CmpOp::NotEqual {
                        document.insert(col.clone(), LeafVal::OpStr(MongoOp::NotEqual, s.clone()));
                    } else {
                        document.insert(col.clone(), LeafVal::Bare(s.clone()));
                    }
                    Result::Ok(Pred::Leaf(document))
                },
                Operand::Text(t) => {
                    let n = match parse_i64(t) {
                        Option::Some(n) => n,
                        Option::None => 0,
                    };
                    document.insert(col.clone(), LeafVal::OpInt(mongo_op_of(op), n));
                    Result::Ok(Pred::Leaf(document))
                },
            }
        },
        WhereExpr::Other => Result::Err(TranslateError::UnsupportedPredicateShape),
    }
}

/// The row-count bound of the `TOP` clause, by its rule.
fn top_rows_of(top: &Option<TopClause>) -> (r: Option<TopRows>)
    ensures
        r == spec_top_rows(top.deep_view()),
{
    match top {
        Option::None => Option::None,
        Option::Some(t) => match &t.quantity {
            Option::Some(NumericArg::Num(txt)) => match parse_usize(txt) {
                Option::Some(n) => if t.percent {
                    Option::Some(TopRows::Percent(n))
                } else {
                    Option::Some(TopRows::Number(n))
                },
                Option::None => Option::None,
            },
            _ => Option::None,
        },
    }
}

/// The row bound of the `LIMIT` clause, by its rule.
fn limit_of(arg: &Option<NumericArg>) -> (r: Option<i64>)
    ensures
        r == spec_limit(arg.deep_view()),
{
    match arg {
        Option::Some(NumericArg::Num(txt)) => parse_i64(txt),
        _ => Option::None,
    }
}

/// The row offset of the `OFFSET` clause, by its rule.
fn skip_of(arg: &Option<NumericArg>) -> (r: Option<u64>)
    ensures
        r == spec_skip(arg.deep_view()),
{
    match arg {
        Option::Some(NumericArg::Num(txt)) => parse_u64(txt),
        _ => Option::None,
    }
}

/// A fresh copy of a list of names, equal entry by entry.
fn clone_strings(names: &Vec<String>) -> (r: Vec<String>)
    ensures
        r.deep_view() == names.deep_view(),
{
    let mut r: Vec<String> = Vec::new();
    let mut i: usize = 0;
    while i < names.len()
        invariant
            i <= names@.len(),
            r@.len() == i,
            forall|j: int| 0 <= j < i ==> r@[j] == names@[j],
        decreases names@.len() - i,
    {
        r.push(names[i].clone());
        i = i + 1;
    }
    proof {
        assert(r.deep_view() =~= names.deep_view());
    }
    r
}

/// An error already reached within a prefix of the projection list decides
/// the whole list.
proof fn lemma_projection_err_persists(items: Seq<SpecProjItem>, i: int)
    requires
        0 <= i <= items.len(),
        spec_projection(items.take(i)) is Err,
    ensures
        spec_projection(items) == spec_projection(items.take(i)),
    decreases items.len() - i,
{
    if i < items.len() {
        assert(items.take(i + 1).drop_last() =~= items.take(i));
        lemma_projection_err_persists(items, i + 1);
    } else {
        assert(items.take(i) =~= items);
    }
}

/// The statement translator: one `SqlQueryOpts` value per accepted
/// statement, read clause by clause, or the error naming the first
/// unsupported construct.
#[verifier::loop_isolation(false)]
pub fn convert_sql_to_sqlopts(stmt: &Stmt) -> (r: Result<SqlQueryOpts, TranslateError>)
    ensures
        opts_result_view(r) == spec_translate(stmt@),
{
    let q = match stmt {
        Stmt::Other => {
            return Result::Err(TranslateError::UnsupportedStatementShape);
        },
        Stmt::Query(q) => q,
    };
    let sel = match &q.body {
        QueryBody::Other => {
            return Result::Err(TranslateError::UnsupportedStatementShape);
        },
        QueryBody::Select(sel) => sel,
    };

    // DISTINCT
    let distinct = sel.distinct;

    // TOP
    let top_rows = top_rows_of(&sel.top);

    // FROM
    let ghost from_v = sel.from.deep_view();
    let mut tables: Vec<String> = Vec::new();
    let mut fi: usize = 0;
    while fi < sel.from.len()
        invariant
            fi <= sel.from@.len(),
            from_v == sel.from.deep_view(),
            from_v.len() == sel.from@.len(),
            tables.deep_view() == spec_tables(from_v.take(fi as int)),
        decreases sel.from@.len() - fi,
    {
        proof {
            assert(from_v.take(fi + 1).drop_last() =~= from_v.take(fi as int));
            assert(from_v[fi as int] == sel.from@[fi as int].deep_view());
        }
        match &sel.from[fi] {
            TableRef::Table(names) => {
                tables = clone_strings(names);
            },
            TableRef::Other => {},
        }
        fi = fi + 1;
    }
    proof {
        assert(from_v.take(sel.from@.len() as int) =~= from_v);
    }

    // SELECTION
    let find_options = match &sel.selection {
        Option::None => Option::None,
        Option::Some(e) => match convert_to_doc(e, LeafDoc::new()) {
            Result::Err(err) => {
                return Result::Err(err);
            },
            Result::Ok(p) => Option::Some(p),
        },
    };

    // GROUP BY
    let ghost group_v = sel.group_by.deep_view();
    let mut group_by: Vec<String> = Vec::new();
    let mut gi: usize = 0;
    while gi < sel.group_by.len()
        invariant
            gi <= sel.group_by@.len(),
            group_v == sel.group_by.deep_view(),
            group_v.len() == sel.group_by@.len(),
            group_by.deep_view() == spec_group_by(group_v.take(gi as int)),
        decreases sel.group_by@.len() - gi,
    {
        proof {
            assert(group_v.take(gi + 1).drop_last() =~= group_v.take(gi as int));
            assert(group_v[gi as int] == sel.group_by@[gi as int].deep_view());
        }
        match &sel.group_by[gi] {
            GroupItem::Col(name) => {
                group_by.push(name.clone());
                proof {
                    assert(group_by.deep_view() =~= spec_group_by(group_v.take(gi + 1)));
                }
            },
            GroupItem::Other => {},
        }
        gi = gi + 1;
    }
    proof {
        assert(group_v.take(sel.group_by@.len() as int) =~= group_v);
    }

    // PROJECTION (custom column names to fetch)
    let ghost proj_v = sel.projection.deep_view();
    let mut specific_cols = IntDoc::new();
    let mut pi: usize = 0;
    while pi < sel.projection.len()
        invariant
            pi <= sel.projection@.len(),
            proj_v == sel.projection.deep_view(),
            proj_v.len() == sel.projection@.len(),
            spec_projection(proj_v.take(pi as int)) == Result::<
                Seq<(Seq<char>, i64)>,
                TranslateError,
            >::Ok(specific_cols@),
        decreases sel.projection@.len() - pi,
    {
        proof {
            assert(proj_v.take(pi + 1).drop_last() =~= proj_v.take(pi as int));
            assert(proj_v[pi as int] == sel.projection@[pi as int].deep_view());
        }
        match &sel.projection[pi] {
            ProjItem::Wildcard => {},
            ProjItem::Col(name) => {
                specific_cols.insert(name.clone(), 1);
            },
            ProjItem::Aliased => {},
            ProjItem::Other => {
                proof {
                    lemma_projection_err_persists(proj_v, pi + 1);
                }
                return Result::Err(TranslateError::UnsupportedProjectionItem);
            },
        }
        pi = pi + 1;
    }
    proof {
        assert(proj_v.take(sel.projection@.len() as int) =~= proj_v);
    }

    // LIMIT
    let limit = limit_of(&q.limit);

    // ORDER BY
    let ghost order_v = q.order_by.deep_view();
    let mut sort_options = IntDoc::new();
    let mut oi: usize = 0;
    while oi < q.order_by.len()
        invariant
            oi <= q.order_by@.len(),
            order_v == q.order_by.deep_view(),
            order_v.len() == q.order_by@.len(),
            sort_options@ == spec_sort(order_v.take(oi as int)),
        decreases q.order_by@.len() - oi,
    {
        proof {
            assert(order_v.take(oi + 1).drop_last() =~= order_v.take(oi as int));
            assert(order_v[oi as int] == q.order_by@[oi as int].deep_view());
        }
        let item = &q.order_by[oi];
        match &item.target {
            OrderTarget::Col(name) => match item.asc {
                Option::Some(b) => {
                    sort_options.insert(
                        name.clone(),
                        if b {
                            1
                        } else {
                            -1
                        },
                    );
                },
                Option::None => {},
            },
            OrderTarget::Other => {},
        }
        oi = oi + 1;
    }
    proof {
        assert(order_v.take(q.order_by@.len() as int) =~= order_v);
    }

    // OFFSET
    let skip = skip_of(&q.offset);

    // Empty sort, filter and projection documents mean "clause absent".
    let sort_options = if sort_options.len() > 0 {
        Option::Some(sort_options)
    } else {
        Option::None
    };
    let specific_cols = if specific_cols.len() > 0 {
        Option::Some(specific_cols)
    } else {
        Option::None
    };

    Result::Ok(
        SqlQueryOpts {
            sort_options,
            find_options,
            specific_cols,
            top_rows,
            tables,
            group_by,
            distinct,
            limit,
            skip,
        },
    )
}

} // verus!
