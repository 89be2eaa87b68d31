//! Normalizes flat postal address records into three deduplicated,
//! insertion-ordered tables (prefectures, cities, towns) and renders each
//! table as one multi-row SQL INSERT statement, in dependency order.

use vstd::prelude::*;
use vstd::string::StringExecFns;

pub mod digits;
pub mod laws;
pub mod model;
pub mod record;
pub mod sql;
pub mod tables;

use crate::model::{tables_of, RecV, TablesV};
use crate::record::{decode, spec_decode, DecodeError};
use crate::sql::{
    create_cities_sql, create_prefs_sql, create_towns_sql, spec_cities_sql, spec_prefs_sql,
    spec_towns_sql,
};
use crate::tables::Tables;

verus! {

/// Decodes a whole sequence of raw records, aborting on the first record
/// whose decoding fails; the result is the error of the earliest bad record,
/// or every decoded record in input order.
pub open spec fn decode_all(rows: Seq<Seq<Seq<char>>>) -> Result<Seq<RecV>, DecodeError>
    decreases rows.len(),
{
    if rows.len() == 0 {
        Ok(Seq::empty())
    } else {
        match decode_all(rows.drop_last()) {
            Err(e) => Err(e),
            Ok(rest) => match spec_decode(rows.last()) {
                Err(e) => Err(e),
                Ok(rv) => Ok(rest.push(rv)),
            },
        }
    }
}

/// The three INSERT statements, in the fixed order prefecture, city, town.
pub open spec fn sql_all(t: TablesV) -> Seq<char> {
    spec_prefs_sql(t.prefs) + spec_cities_sql(t.cities) + spec_towns_sql(t.towns)
}

/// What a whole run produces: the rendered statements when every record
/// decodes, or the error of the earliest bad record and no output at all.
pub open spec fn spec_run(rows: Seq<Seq<Seq<char>>>) -> Result<Seq<char>, DecodeError> {
    match decode_all(rows) {
        Ok(recs) => Ok(sql_all(tables_of(recs))),
        Err(e) => Err(e),
    }
}

/// Once some prefix fails to decode, the whole input fails with that
/// prefix's error.
proof fn lemma_decode_all_err(rows: Seq<Seq<Seq<char>>>, i: int)
    requires
        0 <= i <= rows.len(),
        decode_all(rows.take(i)) is Err,
    ensures
        decode_all(rows) == decode_all(rows.take(i)),
    decreases rows.len() - i,
{
    if i == rows.len() {
        assert(rows.take(i) =~= rows);
    } else {
        assert(rows.take(i + 1).drop_last() =~= rows.take(i));
        lemma_decode_all_err(rows, i + 1);
    }
}

/// Runs the whole pipeline on every raw record: decode each, feed the
/// accepted ones through the normalizer, and render the three INSERT
/// statements. On the first record that fails to decode the run aborts with
/// that record's error and produces no output.
pub fn run_rows(rows: &Vec<Vec<String>>) -> (r: Result<String, DecodeError>)
    requires
        rows@.len() < u32::MAX,
    ensures
        (match spec_run(rows.deep_view()) {
            Ok(s) => r matches Ok(out) && out@ == s,
            Err(e) => r matches Err(e2) && e2 == e,
        }),
{
    let ghost rvs = rows.deep_view();
    let mut tables = Tables::new();
    let n = rows.len();
    proof {
        assert(rvs.take(0) =~= Seq::<Seq<Seq<char>>>::empty());
    }
    for i in 0..n
        invariant
            n == rows@.len(),
            rows@.len() < u32::MAX,
            rvs == rows.deep_view(),
            decode_all(rvs.take(i as int)) is Ok,
            tables@ == tables_of(decode_all(rvs.take(i as int))->Ok_0),
            tables@.towns.len() <= i,
    {
        let ghost recs = decode_all(rvs.take(i as int))->Ok_0;
        proof {
            assert(rvs[i as int] == rows@[i as int].deep_view());
            assert(rvs.take(i as int + 1).drop_last() =~= rvs.take(i as int));
            assert(rvs.take(i as int + 1).last() == rvs[i as int]);
        }
        match decode(&rows[i]) {
            Err(e) => {
                proof {
                    assert(decode_all(rvs.take(i as int + 1)) == Err::<Seq<RecV>, DecodeError>(e));
                    lemma_decode_all_err(rvs, i as int + 1);
                }
                return Err(e);
            },
            Ok(rec) => {
                tables.process_record(&rec);
                proof {
                    assert(decode_all(rvs.take(i as int + 1)) == Ok::<Seq<RecV>, DecodeError>(
                        recs.push(rec@),
                    ));
                    assert(recs.push(rec@).drop_last() =~= recs);
                    assert(tables@ == tables_of(recs.push(rec@)));
                }
            },
        }
    }
    proof {
        assert(rvs.take(n as int) =~= rvs);
    }
    let mut out = create_prefs_sql(&tables.prefs);
    let cities_sql = create_cities_sql(&tables.cities);
    out.append(cities_sql.as_str());
    let towns_sql = create_towns_sql(&tables.towns);
    out.append(towns_sql.as_str());
    proof {
        assert(out@ =~= sql_all(tables@));
    }
    Ok(out)
}

} // verus!
