use sqlmongo::ast::{
    CmpOp, GroupItem, NumericArg, Operand, OrderItem, OrderTarget, ProjItem, QueryBody, QueryStmt,
    SelectBody, Stmt, TableRef, TopClause, WhereExpr,
};
use sqlmongo::document::{IntDoc, LeafDoc, LeafVal, MongoOp, Pred};
use sqlmongo::sqlmongo::{convert_sql_to_sqlopts, convert_to_doc, TopRows, TranslateError};

fn s(x: &str) -> String {
    x.to_string()
}

fn num(x: &str) -> NumericArg {
    NumericArg::Num(x.as_bytes().to_vec())
}

fn cmp(op: CmpOp, col: &str, rhs: Operand) -> WhereExpr {
    WhereExpr::Cmp { op, col: s(col), rhs }
}

fn empty_select() -> SelectBody {
    SelectBody {
        distinct: false,
        top: None,
        projection: vec![ProjItem::Wildcard],
        from: vec![TableRef::Table(vec![s("db"), s("coll")])],
        selection: None,
        group_by: vec![],
    }
}

fn query(body: SelectBody) -> Stmt {
    Stmt::Query(QueryStmt {
        body: QueryBody::Select(body),
        order_by: vec![],
        limit: None,
        offset: None,
    })
}

#[test]
fn no_where_clause_leaves_filter_absent() {
    let opts = convert_sql_to_sqlopts(&query(empty_select())).unwrap();
    assert_eq!(opts.find_options, None);
}

#[test]
fn end_to_end_example() {
    let sel = SelectBody {
        distinct: false,
        top: None,
        projection: vec![ProjItem::Col(s("fname")), ProjItem::Col(s("lname"))],
        from: vec![TableRef::Table(vec![s("test_db"), s("person")])],
        selection: Some(WhereExpr::And(
            Box::new(cmp(CmpOp::Equal, "fname", Operand::StrLit(s("T1")))),
            Box::new(cmp(CmpOp::Gt, "age", Operand::Text(b"9999".to_vec()))),
        )),
        group_by: vec![],
    };
    let stmt = Stmt::Query(QueryStmt {
        body: QueryBody::Select(sel),
        order_by: vec![],
        limit: Some(num("20")),
        offset: None,
    });
    let opts = convert_sql_to_sqlopts(&stmt).unwrap();
    assert_eq!(opts.tables, vec![s("test_db"), s("person")]);
    assert_eq!(
        opts.specific_cols,
        Some(IntDoc { entries: vec![(s("fname"), 1), (s("lname"), 1)] })
    );
    assert_eq!(
        opts.find_options,
        Some(Pred::And(
            Box::new(Pred::Leaf(LeafDoc {
                entries: vec![(s("fname"), LeafVal::Bare(s("T1")))]
            })),
            Box::new(Pred::Leaf(LeafDoc {
                entries: vec![(s("age"), LeafVal::OpInt(MongoOp::Gt, 9999))]
            })),
        ))
    );
    assert_eq!(opts.limit, Some(20));
    assert_eq!(opts.skip, None);
    assert_eq!(opts.sort_options, None);
    assert_eq!(opts.top_rows, None);
    assert!(!opts.distinct);
    assert!(opts.group_by.is_empty());
}

#[test]
fn and_chain_nests_right_to_left() {
    // a = 'x' AND (b = 'y' AND c = 'z'), as a right-associative parser
    // produces it for an unparenthesized chain.
    let e = WhereExpr::And(
        Box::new(cmp(CmpOp::Equal, "a", Operand::StrLit(s("x")))),
        Box::new(WhereExpr::And(
            Box::new(cmp(CmpOp::Equal, "b", Operand::StrLit(s("y")))),
            Box::new(cmp(CmpOp::Equal, "c", Operand::StrLit(s("z")))),
        )),
    );
    let p = convert_to_doc(&e, LeafDoc::new()).unwrap();
    let leaf = |col: &str, v: &str| {
        Pred::Leaf(LeafDoc { entries: vec![(s(col), LeafVal::Bare(s(v)))] })
    };
    assert_eq!(
        p,
        Pred::And(
            Box::new(leaf("a", "x")),
            Box::new(Pred::And(Box::new(leaf("b", "y")), Box::new(leaf("c", "z")))),
        )
    );
}

#[test]
fn or_pairs_under_or_key() {
    let e = WhereExpr::Or(
        Box::new(cmp(CmpOp::Equal, "a", Operand::StrLit(s("x")))),
        Box::new(cmp(CmpOp::Equal, "b", Operand::StrLit(s("y")))),
    );
    let p = convert_to_doc(&e, LeafDoc::new()).unwrap();
    match p {
        Pred::Or(_, _) => {}
        other => panic!("expected an $or pair, got {:?}", other),
    }
}

#[test]
fn string_equality_is_bare_value() {
    let e = cmp(CmpOp::Equal, "fname", Operand::StrLit(s("T1")));
    let p = convert_to_doc(&e, LeafDoc::new()).unwrap();
    assert_eq!(
        p,
        Pred::Leaf(LeafDoc { entries: vec![(s("fname"), LeafVal::Bare(s("T1")))] })
    );
}

#[test]
fn non_equality_string_comparison_is_still_bare() {
    // Any supported comparison other than `<>`/`!=` against a quoted string
    // produces the bare-value leaf, `>` included.
    let e = cmp(CmpOp::Gt, "age", Operand::StrLit(s("x")));
    let p = convert_to_doc(&e, LeafDoc::new()).unwrap();
    assert_eq!(
        p,
        Pred::Leaf(LeafDoc { entries: vec![(s("age"), LeafVal::Bare(s("x")))] })
    );
}

#[test]
fn comparison_leaf_merges_into_passed_document() {
    // The non-logical branch accumulates into the document handed down.
    let mut acc = LeafDoc::new();
    acc.insert(s("kept"), LeafVal::OpInt(MongoOp::Lt, 1));
    let e = cmp(CmpOp::Equal, "fname", Operand::StrLit(s("T1")));
    let p = convert_to_doc(&e, acc).unwrap();
    assert_eq!(
        p,
        Pred::Leaf(LeafDoc {
            entries: vec![
                (s("kept"), LeafVal::OpInt(MongoOp::Lt, 1)),
                (s("fname"), LeafVal::Bare(s("T1"))),
            ]
        })
    );
}

#[test]
fn string_inequality_uses_ne_operator() {
    let e = cmp(CmpOp::NotEqual, "fname", Operand::StrLit(s("T1")));
    let p = convert_to_doc(&e, LeafDoc::new()).unwrap();
    assert_eq!(
        p,
        Pred::Leaf(LeafDoc {
            entries: vec![(s("fname"), LeafVal::OpStr(MongoOp::NotEqual, s("T1")))]
        })
    );
}

#[test]
fn numeric_operands_use_operator_documents() {
    let cases = [
        (CmpOp::Gt, MongoOp::Gt),
        (CmpOp::GtEq, MongoOp::Gte),
        (CmpOp::Lt, MongoOp::Lt),
        (CmpOp::LtEq, MongoOp::Lte),
        (CmpOp::Equal, MongoOp::Equal),
        (CmpOp::NotEqual, MongoOp::NotEqual),
    ];
    for (op, tok) in cases {
        let e = cmp(op, "age", Operand::Text(b"42".to_vec()));
        let p = convert_to_doc(&e, LeafDoc::new()).unwrap();
        assert_eq!(
            p,
            Pred::Leaf(LeafDoc { entries: vec![(s("age"), LeafVal::OpInt(tok, 42))] })
        );
    }
}

#[test]
fn unreadable_numeric_operand_defaults_to_zero() {
    let e = cmp(CmpOp::Lt, "age", Operand::Text(b"years".to_vec()));
    let p = convert_to_doc(&e, LeafDoc::new()).unwrap();
    assert_eq!(
        p,
        Pred::Leaf(LeafDoc { entries: vec![(s("age"), LeafVal::OpInt(MongoOp::Lt, 0))] })
    );
}

#[test]
fn negative_numeric_operand_is_read() {
    let e = cmp(CmpOp::GtEq, "delta", Operand::Text(b"-17".to_vec()));
    let p = convert_to_doc(&e, LeafDoc::new()).unwrap();
    assert_eq!(
        p,
        Pred::Leaf(LeafDoc { entries: vec![(s("delta"), LeafVal::OpInt(MongoOp::Gte, -17))] })
    );
}

#[test]
fn unsupported_predicate_shape_is_refused() {
    let e = WhereExpr::Other;
    assert_eq!(
        convert_to_doc(&e, LeafDoc::new()),
        Err(TranslateError::UnsupportedPredicateShape)
    );
    let mut sel = empty_select();
    sel.selection = Some(WhereExpr::And(
        Box::new(WhereExpr::Other),
        Box::new(cmp(CmpOp::Equal, "a", Operand::StrLit(s("x")))),
    ));
    assert_eq!(
        convert_sql_to_sqlopts(&query(sel)),
        Err(TranslateError::UnsupportedPredicateShape)
    );
}

#[test]
fn unsupported_comparison_operator_is_refused() {
    let e = cmp(CmpOp::Other, "a", Operand::Text(b"1".to_vec()));
    assert_eq!(
        convert_to_doc(&e, LeafDoc::new()),
        Err(TranslateError::UnsupportedComparisonOperator)
    );
}

#[test]
fn non_query_statement_is_refused() {
    assert_eq!(
        convert_sql_to_sqlopts(&Stmt::Other),
        Err(TranslateError::UnsupportedStatementShape)
    );
}

#[test]
fn non_select_body_is_refused() {
    let stmt = Stmt::Query(QueryStmt {
        body: QueryBody::Other,
        order_by: vec![],
        limit: Some(num("10")),
        offset: None,
    });
    assert_eq!(
        convert_sql_to_sqlopts(&stmt),
        Err(TranslateError::UnsupportedStatementShape)
    );
}

#[test]
fn computed_projection_item_is_refused() {
    let mut sel = empty_select();
    sel.projection = vec![ProjItem::Col(s("a")), ProjItem::Other];
    assert_eq!(
        convert_sql_to_sqlopts(&query(sel)),
        Err(TranslateError::UnsupportedProjectionItem)
    );
}

#[test]
fn wildcard_projection_is_absent() {
    let opts = convert_sql_to_sqlopts(&query(empty_select())).unwrap();
    assert_eq!(opts.specific_cols, None);
}

#[test]
fn named_columns_project_in_order() {
    let mut sel = empty_select();
    sel.projection = vec![
        ProjItem::Col(s("a")),
        ProjItem::Wildcard,
        ProjItem::Col(s("b")),
        ProjItem::Aliased,
    ];
    let opts = convert_sql_to_sqlopts(&query(sel)).unwrap();
    assert_eq!(
        opts.specific_cols,
        Some(IntDoc { entries: vec![(s("a"), 1), (s("b"), 1)] })
    );
}

#[test]
fn order_by_directions() {
    let mk = |asc: Option<bool>| OrderItem { target: OrderTarget::Col(s("age")), asc };
    for (asc, want) in [(Some(true), 1i64), (Some(false), -1i64)] {
        let stmt = Stmt::Query(QueryStmt {
            body: QueryBody::Select(empty_select()),
            order_by: vec![mk(asc)],
            limit: None,
            offset: None,
        });
        let opts = convert_sql_to_sqlopts(&stmt).unwrap();
        assert_eq!(
            opts.sort_options,
            Some(IntDoc { entries: vec![(s("age"), want)] })
        );
    }
    let stmt = Stmt::Query(QueryStmt {
        body: QueryBody::Select(empty_select()),
        order_by: vec![mk(None), OrderItem { target: OrderTarget::Other, asc: Some(true) }],
        limit: None,
        offset: None,
    });
    let opts = convert_sql_to_sqlopts(&stmt).unwrap();
    assert_eq!(opts.sort_options, None);
}

#[test]
fn limit_and_offset_literals() {
    let stmt = Stmt::Query(QueryStmt {
        body: QueryBody::Select(empty_select()),
        order_by: vec![],
        limit: Some(num("10")),
        offset: Some(num("20")),
    });
    let opts = convert_sql_to_sqlopts(&stmt).unwrap();
    assert_eq!(opts.limit, Some(10));
    assert_eq!(opts.skip, Some(20));
}

#[test]
fn unreadable_limit_and_offset_are_skipped() {
    let stmt = Stmt::Query(QueryStmt {
        body: QueryBody::Select(empty_select()),
        order_by: vec![],
        limit: Some(NumericArg::Other),
        offset: Some(num("1.5")),
    });
    let opts = convert_sql_to_sqlopts(&stmt).unwrap();
    assert_eq!(opts.limit, None);
    assert_eq!(opts.skip, None);
}

#[test]
fn top_clause_variants() {
    let mut sel = empty_select();
    sel.top = Some(TopClause { percent: true, quantity: Some(num("20")) });
    let opts = convert_sql_to_sqlopts(&query(sel)).unwrap();
    assert_eq!(opts.top_rows, Some(TopRows::Percent(20)));

    let mut sel = empty_select();
    sel.top = Some(TopClause { percent: false, quantity: Some(num("7")) });
    let opts = convert_sql_to_sqlopts(&query(sel)).unwrap();
    assert_eq!(opts.top_rows, Some(TopRows::Number(7)));

    let mut sel = empty_select();
    sel.top = Some(TopClause { percent: false, quantity: Some(NumericArg::Other) });
    let opts = convert_sql_to_sqlopts(&query(sel)).unwrap();
    assert_eq!(opts.top_rows, None);

    let mut sel = empty_select();
    sel.top = Some(TopClause { percent: false, quantity: Some(num("2.5")) });
    let opts = convert_sql_to_sqlopts(&query(sel)).unwrap();
    assert_eq!(opts.top_rows, None);
}

#[test]
fn group_by_keeps_bare_identifiers() {
    let mut sel = empty_select();
    sel.group_by = vec![GroupItem::Col(s("age")), GroupItem::Other, GroupItem::Col(s("text"))];
    let opts = convert_sql_to_sqlopts(&query(sel)).unwrap();
    assert_eq!(opts.group_by, vec![s("age"), s("text")]);
}

#[test]
fn distinct_flag_is_copied() {
    let mut sel = empty_select();
    sel.distinct = true;
    let opts = convert_sql_to_sqlopts(&query(sel)).unwrap();
    assert!(opts.distinct);
}

#[test]
fn last_plain_table_wins() {
    let mut sel = empty_select();
    sel.from = vec![
        TableRef::Table(vec![s("one")]),
        TableRef::Other,
        TableRef::Table(vec![s("db"), s("coll")]),
    ];
    let opts = convert_sql_to_sqlopts(&query(sel)).unwrap();
    assert_eq!(opts.tables, vec![s("db"), s("coll")]);
}

#[test]
fn translation_is_idempotent() {
    let sel = SelectBody {
        distinct: true,
        top: Some(TopClause { percent: false, quantity: Some(num("3")) }),
        projection: vec![ProjItem::Col(s("a"))],
        from: vec![TableRef::Table(vec![s("db"), s("coll")])],
        selection: Some(WhereExpr::Or(
            Box::new(cmp(CmpOp::LtEq, "a", Operand::Text(b"5".to_vec()))),
            Box::new(cmp(CmpOp::NotEqual, "b", Operand::StrLit(s("x")))),
        )),
        group_by: vec![GroupItem::Col(s("a"))],
    };
    let stmt = Stmt::Query(QueryStmt {
        body: QueryBody::Select(sel),
        order_by: vec![OrderItem { target: OrderTarget::Col(s("a")), asc: Some(false) }],
        limit: Some(num("10")),
        offset: Some(num("2")),
    });
    let first = convert_sql_to_sqlopts(&stmt);
    let second = convert_sql_to_sqlopts(&stmt);
    assert_eq!(first, second);
}
