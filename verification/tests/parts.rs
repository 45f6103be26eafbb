use sqlmongo::ast::{ProjItem, QueryBody, QueryStmt, SelectBody, Stmt, TableRef};
use sqlmongo::document::{token_text, IntDoc, LeafDoc, LeafVal, MongoOp};
use sqlmongo::mongo_misc::{dec_str, get_db_and_collection};
use sqlmongo::numlit::{parse_i64, parse_u64, parse_usize};
use sqlmongo::sqlmongo::convert_sql_to_sqlopts;

fn s(x: &str) -> String {
    x.to_string()
}

#[test]
fn operator_tokens() {
    assert_eq!(token_text(MongoOp::Gt), "$gt");
    assert_eq!(token_text(MongoOp::Gte), "$gte");
    assert_eq!(token_text(MongoOp::Lt), "$lt");
    assert_eq!(token_text(MongoOp::Lte), "$lte");
    assert_eq!(token_text(MongoOp::Equal), "$eq");
    assert_eq!(token_text(MongoOp::NotEqual), "$ne");
}

#[test]
fn int_doc_insert_appends_and_replaces() {
    let mut d = IntDoc::new();
    d.insert(s("a"), 1);
    d.insert(s("b"), 1);
    assert_eq!(d.entries, vec![(s("a"), 1), (s("b"), 1)]);
    d.insert(s("a"), -1);
    assert_eq!(d.entries, vec![(s("a"), -1), (s("b"), 1)]);
    assert_eq!(d.len(), 2);
}

#[test]
fn leaf_doc_insert_appends_and_replaces() {
    let mut d = LeafDoc::new();
    d.insert(s("a"), LeafVal::Bare(s("x")));
    d.insert(s("a"), LeafVal::OpInt(MongoOp::Gt, 3));
    assert_eq!(d.entries, vec![(s("a"), LeafVal::OpInt(MongoOp::Gt, 3))]);
    assert_eq!(d.len(), 1);
}

#[test]
fn parse_i64_accepts_signed_literals() {
    assert_eq!(parse_i64(&b"0".to_vec()), Some(0));
    assert_eq!(parse_i64(&b"9999".to_vec()), Some(9999));
    assert_eq!(parse_i64(&b"+42".to_vec()), Some(42));
    assert_eq!(parse_i64(&b"-42".to_vec()), Some(-42));
    assert_eq!(parse_i64(&b"007".to_vec()), Some(7));
    assert_eq!(parse_i64(&b"9223372036854775807".to_vec()), Some(i64::MAX));
    assert_eq!(parse_i64(&b"-9223372036854775808".to_vec()), Some(i64::MIN));
}

#[test]
fn parse_i64_rejects_bad_literals() {
    assert_eq!(parse_i64(&b"".to_vec()), None);
    assert_eq!(parse_i64(&b"+".to_vec()), None);
    assert_eq!(parse_i64(&b"-".to_vec()), None);
    assert_eq!(parse_i64(&b"1.5".to_vec()), None);
    assert_eq!(parse_i64(&b"12a".to_vec()), None);
    assert_eq!(parse_i64(&b" 12".to_vec()), None);
    assert_eq!(parse_i64(&b"9223372036854775808".to_vec()), None);
    assert_eq!(parse_i64(&b"-9223372036854775809".to_vec()), None);
}

#[test]
fn parse_u64_rejects_minus_and_overflow() {
    assert_eq!(parse_u64(&b"20".to_vec()), Some(20));
    assert_eq!(parse_u64(&b"+20".to_vec()), Some(20));
    assert_eq!(parse_u64(&b"-20".to_vec()), None);
    assert_eq!(parse_u64(&b"18446744073709551615".to_vec()), Some(u64::MAX));
    assert_eq!(parse_u64(&b"18446744073709551616".to_vec()), None);
}

#[test]
fn parse_usize_reads_small_numbers() {
    assert_eq!(parse_usize(&b"20".to_vec()), Some(20));
    assert_eq!(parse_usize(&b"percent".to_vec()), None);
}

#[test]
fn decimal_rendering() {
    assert_eq!(dec_str(0), "0");
    assert_eq!(dec_str(7), "7");
    assert_eq!(dec_str(10), "10");
    assert_eq!(dec_str(1234), "1234");
}

fn opts_with_tables(names: Vec<String>) -> sqlmongo::sqlmongo::SqlQueryOpts {
    let sel = SelectBody {
        distinct: false,
        top: None,
        projection: vec![ProjItem::Wildcard],
        from: vec![TableRef::Table(names)],
        selection: None,
        group_by: vec![],
    };
    let stmt = Stmt::Query(QueryStmt {
        body: QueryBody::Select(sel),
        order_by: vec![],
        limit: None,
        offset: None,
    });
    convert_sql_to_sqlopts(&stmt).unwrap()
}

#[test]
fn two_part_table_path_splits() {
    let opts = opts_with_tables(vec![s("db"), s("coll")]);
    assert_eq!(opts.tables, vec![s("db"), s("coll")]);
    let (dbname, collname) = get_db_and_collection(&opts).unwrap();
    assert_eq!(dbname, "db");
    assert_eq!(collname, "coll");
}

#[test]
fn one_part_table_path_is_rejected_with_count() {
    let opts = opts_with_tables(vec![s("onlytable")]);
    assert_eq!(opts.tables, vec![s("onlytable")]);
    let err = get_db_and_collection(&opts).unwrap_err();
    assert_eq!(err, "1 table rows found, should have been 1");
}

#[test]
fn three_part_table_path_is_rejected_with_count() {
    let opts = opts_with_tables(vec![s("a"), s("b"), s("c")]);
    let err = get_db_and_collection(&opts).unwrap_err();
    assert_eq!(err, "3 table rows found, should have been 1");
}
