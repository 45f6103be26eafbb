//! The library's model of a parsed SQL statement: exactly the clause shapes
//! that the translator reads. Every shape the translator does not understand
//! is kept as an explicit "other" case, so that the translation rules for
//! skipping or rejecting it can be stated and proved.

use vstd::prelude::*;

verus! {

/// The operator of a binary `WHERE` node: the six supported comparisons,
/// or any other non-logical binary operator (`Other`), which the encoder
/// rejects. Logical `AND`/`OR` are the combinator nodes of `WhereExpr`.
#[derive(Debug, Clone, Copy, PartialEq, Eq, Structural)]
pub enum CmpOp {
    Gt,
    GtEq,
    Lt,
    LtEq,
    Equal,
    NotEqual,
    Other,
}

/// The right-hand operand of a comparison.
#[derive(Debug, Clone, PartialEq)]
pub enum Operand {
    /// A single-quoted string literal, with its contents.
    StrLit(String),
    /// Any other operand, carried as the bytes of its source text; the
    /// encoder reads it as an integer, or as 0 when it does not parse.
    Text(Vec<u8>),
}

/// Ghost form of `Operand`.
pub enum SpecOperand {
    StrLit(Seq<char>),
    Text(Seq<u8>),
}

impl View for Operand {
    type V = SpecOperand;

    open spec fn view(&self) -> SpecOperand {
        match self {
            Operand::StrLit(s) => SpecOperand::StrLit(s@),
            Operand::Text(b) => SpecOperand::Text(b@),
        }
    }
}

impl DeepView for Operand {
    type V = SpecOperand;

    open spec fn deep_view(&self) -> SpecOperand {
        self.view()
    }
}

/// A `WHERE` expression tree. Binary logical nodes keep their sub-trees;
/// a comparison keeps its operator, the source text of its left operand
/// (the column reference) and its right operand; any non-binary node is
/// `Other`, which the encoder rejects.
#[derive(Debug, PartialEq)]
pub enum WhereExpr {
    And(Box<WhereExpr>, Box<WhereExpr>),
    Or(Box<WhereExpr>, Box<WhereExpr>),
    Cmp { op: CmpOp, col: String, rhs: Operand },
    Other,
}

/// Ghost form of `WhereExpr`.
pub enum SpecWhereExpr {
    And(Box<SpecWhereExpr>, Box<SpecWhereExpr>),
    Or(Box<SpecWhereExpr>, Box<SpecWhereExpr>),
    Cmp { op: CmpOp, col: Seq<char>, rhs: SpecOperand },
    Other,
}

/// Ghost form of a `WHERE` expression tree.
pub open spec fn where_view(e: WhereExpr) -> SpecWhereExpr
    decreases e,
{
    match e {
        WhereExpr::And(l, r) => SpecWhereExpr::And(
            Box::new(where_view(*l)),
            Box::new(where_view(*r)),
        ),
        WhereExpr::Or(l, r) => SpecWhereExpr::Or(
            Box::new(where_view(*l)),
            Box::new(where_view(*r)),
        ),
        WhereExpr::Cmp { op, col, rhs } => SpecWhereExpr::Cmp { op, col: col@, rhs: rhs@ },
        WhereExpr::Other => SpecWhereExpr::Other,
    }
}

impl View for WhereExpr {
    type V = SpecWhereExpr;

    open spec fn view(&self) -> SpecWhereExpr {
        where_view(*self)
    }
}

impl DeepView for WhereExpr {
    type V = SpecWhereExpr;

    open spec fn deep_view(&self) -> SpecWhereExpr {
        where_view(*self)
    }
}

/// A clause argument that the translator only reads as a number: the bytes
/// of a numeric literal's text, or any other expression shape, which the
/// surrounding clause silently skips.
#[derive(Debug, Clone, PartialEq)]
pub enum NumericArg {
    Num(Vec<u8>),
    Other,
}

/// Ghost form of `NumericArg`.
pub enum SpecNumericArg {
    Num(Seq<u8>),
    Other,
}

impl View for NumericArg {
    type V = SpecNumericArg;

    open spec fn view(&self) -> SpecNumericArg {
        match self {
            NumericArg::Num(b) => SpecNumericArg::Num(b@),
            NumericArg::Other => SpecNumericArg::Other,
        }
    }
}

impl DeepView for NumericArg {
    type V = SpecNumericArg;

    open spec fn deep_view(&self) -> SpecNumericArg {
        self.view()
    }
}

/// A `TOP [n] [PERCENT]` clause.
#[derive(Debug, Clone, PartialEq)]
pub struct TopClause {
    pub percent: bool,
    pub quantity: Option<NumericArg>,
}

/// Ghost form of `TopClause`.
pub struct SpecTopClause {
    pub percent: bool,
    pub quantity: Option<SpecNumericArg>,
}

impl View for TopClause {
    type V = SpecTopClause;

    open spec fn view(&self) -> SpecTopClause {
        SpecTopClause { percent: self.percent, quantity: self.quantity.deep_view() }
    }
}

impl DeepView for TopClause {
    type V = SpecTopClause;

    open spec fn deep_view(&self) -> SpecTopClause {
        self.view()
    }
}

/// One item of the projection list.
#[derive(Debug, Clone, PartialEq)]
pub enum ProjItem {
    /// `*` or `t.*`: contributes nothing.
    Wildcard,
    /// A bare unaliased column identifier: contributes an inclusion entry.
    Col(String),
    /// An aliased expression: silently ignored.
    Aliased,
    /// Any other expression shape: rejected as unsupported.
    Other,
}

/// Ghost form of `ProjItem`.
pub enum SpecProjItem {
    Wildcard,
    Col(Seq<char>),
    Aliased,
    Other,
}

impl View for ProjItem {
    type V = SpecProjItem;

    open spec fn view(&self) -> SpecProjItem {
        match self {
            ProjItem::Wildcard => SpecProjItem::Wildcard,
            ProjItem::Col(s) => SpecProjItem::Col(s@),
            ProjItem::Aliased => SpecProjItem::Aliased,
            ProjItem::Other => SpecProjItem::Other,
        }
    }
}

impl DeepView for ProjItem {
    type V = SpecProjItem;

    open spec fn deep_view(&self) -> SpecProjItem {
        self.view()
    }
}

/// One item of the `GROUP BY` list: a bare column identifier, or any other
/// expression shape, which is silently skipped.
#[derive(Debug, Clone, PartialEq)]
pub enum GroupItem {
    Col(String),
    Other,
}

/// Ghost form of `GroupItem`.
pub enum SpecGroupItem {
    Col(Seq<char>),
    Other,
}

impl View for GroupItem {
    type V = SpecGroupItem;

    open spec fn view(&self) -> SpecGroupItem {
        match self {
            GroupItem::Col(s) => SpecGroupItem::Col(s@),
            GroupItem::Other => SpecGroupItem::Other,
        }
    }
}

impl DeepView for GroupItem {
    type V = SpecGroupItem;

    open spec fn deep_view(&self) -> SpecGroupItem {
        self.view()
    }
}

/// The target of one `ORDER BY` item: a bare column identifier, or any
/// other expression shape, which is silently skipped.
#[derive(Debug, Clone, PartialEq)]
pub enum OrderTarget {
    Col(String),
    Other,
}

/// Ghost form of `OrderTarget`.
pub enum SpecOrderTarget {
    Col(Seq<char>),
    Other,
}

impl View for OrderTarget {
    type V = SpecOrderTarget;

    open spec fn view(&self) -> SpecOrderTarget {
        match self {
            OrderTarget::Col(s) => SpecOrderTarget::Col(s@),
            OrderTarget::Other => SpecOrderTarget::Other,
        }
    }
}

impl DeepView for OrderTarget {
    type V = SpecOrderTarget;

    open spec fn deep_view(&self) -> SpecOrderTarget {
        self.view()
    }
}

/// One `ORDER BY` item: its target and its explicit direction, if any.
#[derive(Debug, Clone, PartialEq)]
pub struct OrderItem {
    pub target: OrderTarget,
    pub asc: Option<bool>,
}

/// Ghost form of `OrderItem`.
pub struct SpecOrderItem {
    pub target: SpecOrderTarget,
    pub asc: Option<bool>,
}

impl View for OrderItem {
    type V = SpecOrderItem;

    open spec fn view(&self) -> SpecOrderItem {
        SpecOrderItem { target: self.target@, asc: self.asc }
    }
}

impl DeepView for OrderItem {
    type V = SpecOrderItem;

    open spec fn deep_view(&self) -> SpecOrderItem {
        self.view()
    }
}

/// One `FROM` entry: a plain table reference with its dotted name parts, or
/// any other relation shape (join, subquery), which is silently skipped.
#[derive(Debug, Clone, PartialEq)]
pub enum TableRef {
    Table(Vec<String>),
    Other,
}

/// Ghost form of `TableRef`.
pub enum SpecTableRef {
    Table(Seq<Seq<char>>),
    Other,
}

impl View for TableRef {
    type V = SpecTableRef;

    open spec fn view(&self) -> SpecTableRef {
        match self {
            TableRef::Table(names) => SpecTableRef::Table(names.deep_view()),
            TableRef::Other => SpecTableRef::Other,
        }
    }
}

impl DeepView for TableRef {
    type V = SpecTableRef;

    open spec fn deep_view(&self) -> SpecTableRef {
        self.view()
    }
}

/// The clause-level content of a simple `SELECT` body.
#[derive(Debug, PartialEq)]
pub struct SelectBody {
    pub distinct: bool,
    pub top: Option<TopClause>,
    pub projection: Vec<ProjItem>,
    pub from: Vec<TableRef>,
    pub selection: Option<WhereExpr>,
    pub group_by: Vec<GroupItem>,
}

/// Ghost form of `SelectBody`.
pub struct SpecSelectBody {
    pub distinct: bool,
    pub top: Option<SpecTopClause>,
    pub projection: Seq<SpecProjItem>,
    pub from: Seq<SpecTableRef>,
    pub selection: Option<SpecWhereExpr>,
    pub group_by: Seq<SpecGroupItem>,
}

impl View for SelectBody {
    type V = SpecSelectBody;

    open spec fn view(&self) -> SpecSelectBody {
        SpecSelectBody {
            distinct: self.distinct,
            top: self.top.deep_view(),
            projection: self.projection.deep_view(),
            from: self.from.deep_view(),
            selection: self.selection.deep_view(),
            group_by: self.group_by.deep_view(),
        }
    }
}

impl DeepView for SelectBody {
    type V = SpecSelectBody;

    open spec fn deep_view(&self) -> SpecSelectBody {
        self.view()
    }
}

/// The body of a query: a simple `SELECT`, or any other body shape
/// (table expression, nested query, set operation), which the translator
/// rejects as unsupported.
#[derive(Debug, PartialEq)]
pub enum QueryBody {
    Select(SelectBody),
    Other,
}

/// Ghost form of `QueryBody`.
pub enum SpecQueryBody {
    Select(SpecSelectBody),
    Other,
}

impl View for QueryBody {
    type V = SpecQueryBody;

    open spec fn view(&self) -> SpecQueryBody {
        match self {
            QueryBody::Select(s) => SpecQueryBody::Select(s@),
            QueryBody::Other => SpecQueryBody::Other,
        }
    }
}

impl DeepView for QueryBody {
    type V = SpecQueryBody;

    open spec fn deep_view(&self) -> SpecQueryBody {
        self.view()
    }
}

/// A query statement: its body and the query-level clauses.
#[derive(Debug, PartialEq)]
pub struct QueryStmt {
    pub body: QueryBody,
    pub order_by: Vec<OrderItem>,
    pub limit: Option<NumericArg>,
    pub offset: Option<NumericArg>,
}

/// Ghost form of `QueryStmt`.
pub struct SpecQueryStmt {
    pub body: SpecQueryBody,
    pub order_by: Seq<SpecOrderItem>,
    pub limit: Option<SpecNumericArg>,
    pub offset: Option<SpecNumericArg>,
}

impl View for QueryStmt {
    type V = SpecQueryStmt;

    open spec fn view(&self) -> SpecQueryStmt {
        SpecQueryStmt {
            body: self.body@,
            order_by: self.order_by.deep_view(),
            limit: self.limit.deep_view(),
            offset: self.offset.deep_view(),
        }
    }
}

impl DeepView for QueryStmt {
    type V = SpecQueryStmt;

    open spec fn deep_view(&self) -> SpecQueryStmt {
        self.view()
    }
}

/// A parsed SQL statement: a query, or any other statement kind, which the
/// translator rejects as unsupported.
#[derive(Debug, PartialEq)]
pub enum Stmt {
    Query(QueryStmt),
    Other,
}

/// Ghost form of `Stmt`.
pub enum SpecStmt {
    Query(SpecQueryStmt),
    Other,
}

impl View for Stmt {
    type V = SpecStmt;

    open spec fn view(&self) -> SpecStmt {
        match self {
            Stmt::Query(q) => SpecStmt::Query(q@),
            Stmt::Other => SpecStmt::Other,
        }
    }
}

} // verus!
