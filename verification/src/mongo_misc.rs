//! The consuming side of a translation: splitting the table path into the
//! database and collection names, with the count check that the translator
//! itself defers.

use vstd::prelude::*;

use crate::sqlmongo::SqlQueryOpts;

verus! {

/// The decimal digit character for `d`.
pub open spec fn digit_char(d: int) -> char
    recommends
        0 <= d <= 9,
{
    if d == 0 {
        '0'
    } else if d == 1 {
        '1'
    } else if d == 2 {
        '2'
    } else if d == 3 {
        '3'
    } else if d == 4 {
        '4'
    } else if d == 5 {
        '5'
    } else if d == 6 {
        '6'
    } else if d == 7 {
        '7'
    } else if d == 8 {
        '8'
    } else {
        '9'
    }
}

/// The decimal rendering of a non-negative integer, most significant digit
/// first.
pub open spec fn dec_digits(n: int) -> Seq<char>
    recommends
        n >= 0,
    decreases n,
{
    if n < 10 {
        seq![digit_char(n)]
    } else {
        dec_digits(n / 10).push(digit_char(n % 10))
    }
}

/// One decimal digit as source text.
fn digit_str(d: usize) -> (r: &'static str)
    requires
        d <= 9,
    ensures
        r@ == seq![digit_char(d as int)],
{
    if d == 0 {
        proof {
            reveal_strlit("0");
            assert("0"@ =~= seq![digit_char(0)]);
        }
        "0"
    } else if d == 1 {
        proof {
            reveal_strlit("1");
            assert("1"@ =~= seq![digit_char(1)]);
        }
        "1"
    } else if d == 2 {
        proof {
            reveal_strlit("2");
            assert("2"@ =~= seq![digit_char(2)]);
        }
        "2"
    } else if d == 3 {
        proof {
            reveal_strlit("3");
            assert("3"@ =~= seq![digit_char(3)]);
        }
        "3"
    } else if d == 4 {
        proof {
            reveal_strlit("4");
            assert("4"@ =~= seq![digit_char(4)]);
        }
        "4"
    } else if d == 5 {
        proof {
            reveal_strlit("5");
            assert("5"@ =~= seq![digit_char(5)]);
        }
        "5"
    } else if d == 6 {
        proof {
            reveal_strlit("6");
            assert("6"@ =~= seq![digit_char(6)]);
        }
        "6"
    } else if d == 7 {
        proof {
            reveal_strlit("7");
            assert("7"@ =~= seq![digit_char(7)]);
        }
        "7"
    } else if d == 8 {
        proof {
            reveal_strlit("8");
            assert("8"@ =~= seq![digit_char(8)]);
        }
        "8"
    } else {
        proof {
            reveal_strlit("9");
            assert("9"@ =~= seq![digit_char(9)]);
        }
        "9"
    }
}

/// The decimal text of `n`.
pub fn dec_str(n: usize) -> (r: String)
    ensures
        r@ == dec_digits(n as int),
    decreases n,
{
    let d = n % 10;
    let ds = digit_str(d);
    if n < 10 {
        String::from_str(ds)
    } else {
        let mut s = dec_str(n / 10);
        s.append(ds);
        proof {
            assert(s@ =~= dec_digits(n as int));
        }
        s
    }
}

/// The message reported for a table path whose part count is not 2.
pub open spec fn spec_count_message(n: int) -> Seq<char> {
    dec_digits(n) + " table rows found, should have been 1"@
}

/// Builds the table-count message for an observed count.
fn count_message(n: usize) -> (r: String)
    ensures
        r@ == spec_count_message(n as int),
{
    let mut s = dec_str(n);
    s.append(" table rows found, should have been 1");
    s
}

/// Splits the translated table path into the database name and the
/// collection name. Exactly two parts are required; any other count is
/// rejected with a message naming it.
pub fn get_db_and_collection(sql_opt: &SqlQueryOpts) -> (r: Result<(String, String), String>)
    ensures
        sql_opt@.tables.len() == 2 ==> (r matches Result::Ok(p) && p.0@ == sql_opt@.tables[0]
            && p.1@ == sql_opt@.tables[1]),
        sql_opt@.tables.len() != 2 ==> (r matches Result::Err(m) && m@ == spec_count_message(
            sql_opt@.tables.len() as int,
        )),
{
    let tables_len = sql_opt.tables.len();
    if tables_len == 2 {
        let dbname = sql_opt.tables[0].clone();
        let collname = sql_opt.tables[1].clone();
        proof {
            assert(sql_opt@.tables[0] == sql_opt.tables@[0].deep_view());
            assert(sql_opt@.tables[1] == sql_opt.tables@[1].deep_view());
        }
        Result::Ok((dbname, collname))
    } else {
        Result::Err(count_message(tables_len))
    }
}

} // verus!
