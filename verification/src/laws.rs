//! General laws of the translation, stated over the ghost forms that the
//! translator's own contracts use and proved from them.

use vstd::prelude::*;

use crate::ast::{CmpOp, SpecNumericArg, SpecOrderItem, SpecOrderTarget, SpecProjItem,
    SpecOperand, SpecQueryBody, SpecStmt, SpecTableRef, SpecWhereExpr};
use crate::document::{spec_doc_insert, SpecLeafVal, SpecPred, MongoOp};
use crate::numlit::{int_literal_value, is_int_literal, is_uint_literal, uint_literal_value};
use crate::sqlmongo::{spec_encode, spec_limit, spec_mongo_op, spec_operand_int, spec_projection,
    spec_skip, spec_sort, spec_tables, spec_translate, SpecOpts, TranslateError};

verus! {

/// A simple `SELECT` with no `WHERE` clause translates with the filter
/// absent.
pub proof fn lemma_no_where_no_filter(s: SpecStmt)
    requires
        s matches SpecStmt::Query(q) && q.body matches SpecQueryBody::Select(sel)
            && sel.selection is None,
        spec_translate(s) is Ok,
    ensures
        spec_translate(s)->Ok_0.find_options is None,
{
}

/// `e` is a tree of supported comparison leaves joined only by `AND`.
pub open spec fn and_tree(e: SpecWhereExpr) -> bool
    decreases e,
{
    match e {
        SpecWhereExpr::And(l, r) => and_tree(*l) && and_tree(*r),
        SpecWhereExpr::Cmp { op, .. } => op != CmpOp::Other,
        SpecWhereExpr::Or(_, _) => false,
        SpecWhereExpr::Other => false,
    }
}

/// `p` nests `$and` pairs exactly as `e` nests `AND` nodes, ending in leaf
/// documents where `e` has comparisons.
pub open spec fn mirrors_and_shape(e: SpecWhereExpr, p: SpecPred) -> bool
    decreases e,
{
    match e {
        SpecWhereExpr::And(l, r) => p matches SpecPred::And(pl, pr) && mirrors_and_shape(*l, *pl)
            && mirrors_and_shape(*r, *pr),
        SpecWhereExpr::Cmp { .. } => p is Leaf,
        SpecWhereExpr::Or(_, _) => false,
        SpecWhereExpr::Other => false,
    }
}

/// A `WHERE` clause of pure comparison leaves joined only by `AND` encodes
/// to a nest of `$and` pairs that mirrors the input tree exactly, so the
/// parser's right-associative chains come out nested right-to-left.
pub proof fn lemma_and_tree_encoding(e: SpecWhereExpr, acc: Seq<(Seq<char>, SpecLeafVal)>)
    requires
        and_tree(e),
    ensures
        spec_encode(e, acc) is Ok,
        mirrors_and_shape(e, spec_encode(e, acc)->Ok_0),
    decreases e,
{
    match e {
        SpecWhereExpr::And(l, r) => {
            lemma_and_tree_encoding(*l, Seq::empty());
            lemma_and_tree_encoding(*r, Seq::empty());
        },
        _ => {},
    }
}

/// A comparison against a quoted string literal: inequality encodes as an
/// operator leaf `{col: {"$ne": s}}`; every other supported comparison,
/// equality included, encodes as the bare-value leaf `{col: s}` and never
/// as `{col: {"$eq": s}}`.
pub proof fn lemma_string_literal_leaf(
    op: CmpOp,
    col: Seq<char>,
    s: Seq<char>,
    acc: Seq<(Seq<char>, SpecLeafVal)>,
)
    requires
        op != CmpOp::Other,
    ensures
        op == CmpOp::NotEqual ==> spec_encode(
            SpecWhereExpr::Cmp { op, col, rhs: SpecOperand::StrLit(s) },
            acc,
        ) == Result::<SpecPred, TranslateError>::Ok(
            SpecPred::Leaf(
                spec_doc_insert(acc, col, SpecLeafVal::OpStr(MongoOp::NotEqual, s)),
            ),
        ),
        op != CmpOp::NotEqual ==> spec_encode(
            SpecWhereExpr::Cmp { op, col, rhs: SpecOperand::StrLit(s) },
            acc,
        ) == Result::<SpecPred, TranslateError>::Ok(
            SpecPred::Leaf(spec_doc_insert(acc, col, SpecLeafVal::Bare(s))),
        ),
{
}

/// A comparison whose right operand is not a string literal encodes as
/// `{col: {token: n}}`, where `n` is the integer read from the operand's
/// text and 0 when that text is not an integer literal fitting `i64`.
pub proof fn lemma_numeric_operand_leaf(
    op: CmpOp,
    col: Seq<char>,
    t: Seq<u8>,
    acc: Seq<(Seq<char>, SpecLeafVal)>,
)
    requires
        op != CmpOp::Other,
    ensures
        spec_encode(SpecWhereExpr::Cmp { op, col, rhs: SpecOperand::Text(t) }, acc) == Result::<
            SpecPred,
            TranslateError,
        >::Ok(
            SpecPred::Leaf(
                spec_doc_insert(
                    acc,
                    col,
                    SpecLeafVal::OpInt(spec_mongo_op(op), spec_operand_int(t)),
                ),
            ),
        ),
        is_int_literal(t) && i64::MIN <= int_literal_value(t) <= i64::MAX ==> spec_operand_int(t)
            == int_literal_value(t),
        !(is_int_literal(t) && i64::MIN <= int_literal_value(t) <= i64::MAX)
            ==> spec_operand_int(t) == 0,
{
}

/// One `ORDER BY` item on a bare column: explicit ascending order yields
/// direction 1, explicit descending order yields -1, and an item without
/// an explicit direction contributes no entry.
pub proof fn lemma_order_directions(name: Seq<char>)
    ensures
        spec_sort(
            seq![SpecOrderItem { target: SpecOrderTarget::Col(name), asc: Option::Some(true) }],
        ) == seq![(name, 1i64)],
        spec_sort(
            seq![SpecOrderItem { target: SpecOrderTarget::Col(name), asc: Option::Some(false) }],
        ) == seq![(name, -1i64)],
        spec_sort(
            seq![SpecOrderItem { target: SpecOrderTarget::Col(name), asc: Option::None }],
        ) == Seq::<(Seq<char>, i64)>::empty(),
{
    let up = seq![SpecOrderItem { target: SpecOrderTarget::Col(name), asc: Option::Some(true) }];
    let down = seq![
        SpecOrderItem { target: SpecOrderTarget::Col(name), asc: Option::Some(false) },
    ];
    let plain = seq![SpecOrderItem { target: SpecOrderTarget::Col(name), asc: Option::None }];
    assert(up.drop_last() =~= Seq::<SpecOrderItem>::empty());
    assert(down.drop_last() =~= Seq::<SpecOrderItem>::empty());
    assert(plain.drop_last() =~= Seq::<SpecOrderItem>::empty());
    assert(spec_sort(Seq::<SpecOrderItem>::empty()) =~= Seq::<(Seq<char>, i64)>::empty());
    assert(spec_doc_insert(Seq::<(Seq<char>, i64)>::empty(), name, 1i64) =~= seq![(name, 1i64)]);
    assert(spec_doc_insert(Seq::<(Seq<char>, i64)>::empty(), name, -1i64) =~= seq![
        (name, -1i64),
    ]);
    assert(spec_sort(up) =~= seq![(name, 1i64)]);
    assert(spec_sort(down) =~= seq![(name, -1i64)]);
}

/// A projection list of wildcards and aliased items only contributes no
/// entries, so the projection comes out absent.
pub proof fn lemma_projection_all_wildcards(items: Seq<SpecProjItem>)
    requires
        forall|i: int|
            0 <= i < items.len() ==> (items[i] is Wildcard || items[i] is Aliased),
    ensures
        spec_projection(items) == Result::<Seq<(Seq<char>, i64)>, TranslateError>::Ok(
            Seq::<(Seq<char>, i64)>::empty(),
        ),
    decreases items.len(),
{
    if items.len() > 0 {
        assert(forall|i: int| 0 <= i < items.len() - 1 ==> items.drop_last()[i] == items[i]);
        lemma_projection_all_wildcards(items.drop_last());
    }
}

/// A projection list of pairwise distinct bare columns contributes one
/// inclusion entry per column, in the list's left-to-right order.
pub proof fn lemma_projection_cols_in_order(items: Seq<SpecProjItem>)
    requires
        forall|i: int| 0 <= i < items.len() ==> items[i] is Col,
        forall|i: int, j: int|
            0 <= i < j < items.len() ==> items[i]->Col_0 != items[j]->Col_0,
    ensures
        spec_projection(items) == Result::<Seq<(Seq<char>, i64)>, TranslateError>::Ok(
            items.map_values(|it: SpecProjItem| (it->Col_0, 1i64)),
        ),
    decreases items.len(),
{
    let f = |it: SpecProjItem| (it->Col_0, 1i64);
    if items.len() == 0 {
        assert(items.map_values(f) =~= Seq::<(Seq<char>, i64)>::empty());
    } else {
        let prefix = items.drop_last();
        assert(forall|i: int| 0 <= i < prefix.len() ==> prefix[i] == items[i]);
        lemma_projection_cols_in_order(prefix);
        let m = prefix.map_values(f);
        assert forall|j: int| 0 <= j < m.len() implies m[j].0 != items.last()->Col_0 by {
            assert(m[j] == f(prefix[j]));
        }
        crate::document::lemma_doc_insert_absent(m, items.last()->Col_0, 1i64);
        assert(items.map_values(f) =~= m.push((items.last()->Col_0, 1i64)));
    }
}

/// A literal `LIMIT` argument yields exactly its value as the limit, and a
/// literal `OFFSET` argument yields exactly its value as the skip.
pub proof fn lemma_limit_offset(lt: Seq<u8>, ot: Seq<u8>)
    requires
        is_int_literal(lt),
        i64::MIN <= int_literal_value(lt) <= i64::MAX,
        is_uint_literal(ot),
        uint_literal_value(ot) <= u64::MAX,
    ensures
        spec_limit(Option::Some(SpecNumericArg::Num(lt))) == Option::Some(
            int_literal_value(lt) as i64,
        ),
        spec_skip(Option::Some(SpecNumericArg::Num(ot))) == Option::Some(
            uint_literal_value(ot) as u64,
        ),
{
}

/// A `FROM` list whose last plain table reference carries the dotted parts
/// `names` yields exactly those parts, in order; in particular a single
/// plain table does.
pub proof fn lemma_from_single_table(names: Seq<Seq<char>>)
    ensures
        spec_tables(seq![SpecTableRef::Table(names)]) == names,
{
}

/// Translation is a function of the statement value alone: any two results
/// that meet the translator's contract for the same statement are equal,
/// so translating the same statement twice gives structurally equal query
/// options.
pub proof fn lemma_translate_deterministic(
    s: SpecStmt,
    r1: Result<SpecOpts, TranslateError>,
    r2: Result<SpecOpts, TranslateError>,
)
    requires
        r1 == spec_translate(s),
        r2 == spec_translate(s),
    ensures
        r1 == r2,
{
}

} // verus!
