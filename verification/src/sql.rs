//! The SQL emitter: renders each finalized collection as one multi-row
//! INSERT statement.
//!
//! Layout policy: every header names exactly the columns whose values the
//! rows supply, in the same order. Numeric attributes are rendered unquoted;
//! string attributes are single-quoted with no escaping of embedded quote
//! characters, a documented limitation — callers must keep quote characters
//! out of the fields.
//!
//! Rows are separated by `,` and a line break; the last row ends with `;`
//! and a blank line. An empty collection yields the header line alone.

use vstd::prelude::*;
use vstd::string::StringExecFns;

use crate::digits::{dec_of, u32_dec};
use crate::model::{CityV, PrefV, TownV};
use crate::tables::{city_views, pref_views, town_views, City, Pref, Town};

verus! {

/// The separator that follows a row: `;` and a blank line after the last
/// row, `,` and a line break otherwise.
pub open spec fn row_end(is_last: bool) -> Seq<char> {
    if is_last {
        ";\n\n"@
    } else {
        ",\n"@
    }
}

pub open spec fn pref_row(p: PrefV) -> Seq<char> {
    "("@ + dec_of(p.id as nat) + ", '"@ + p.name + "')"@
}

pub open spec fn pref_rows(ps: Seq<PrefV>) -> Seq<char>
    decreases ps.len(),
{
    if ps.len() == 0 {
        Seq::empty()
    } else {
        pref_row(ps[0]) + row_end(ps.len() == 1) + pref_rows(ps.drop_first())
    }
}

/// The full INSERT statement for the prefecture table.
pub open spec fn spec_prefs_sql(ps: Seq<PrefV>) -> Seq<char> {
    "INSERT INTO prefs(id, name) VALUES\n"@ + pref_rows(ps)
}

pub open spec fn city_row(c: CityV) -> Seq<char> {
    "('"@ + c.code + "', "@ + dec_of(c.pref_id as nat) + ", '"@ + c.name + "')"@
}

pub open spec fn city_rows(cs: Seq<CityV>) -> Seq<char>
    decreases cs.len(),
{
    if cs.len() == 0 {
        Seq::empty()
    } else {
        city_row(cs[0]) + row_end(cs.len() == 1) + city_rows(cs.drop_first())
    }
}

/// The full INSERT statement for the city table.
pub open spec fn spec_cities_sql(cs: Seq<CityV>) -> Seq<char> {
    "INSERT INTO cities(code, pref_id, name) VALUES\n"@ + city_rows(cs)
}

pub open spec fn town_row(t: TownV) -> Seq<char> {
    "("@ + dec_of(t.id as nat) + ", '"@ + t.city_code + "', '"@ + t.zip_code + "', '"@
        + t.area_name + "', '"@ + t.street_name + "')"@
}

pub open spec fn town_rows(ts: Seq<TownV>) -> Seq<char>
    decreases ts.len(),
{
    if ts.len() == 0 {
        Seq::empty()
    } else {
        town_row(ts[0]) + row_end(ts.len() == 1) + town_rows(ts.drop_first())
    }
}

/// The full INSERT statement for the town table.
pub open spec fn spec_towns_sql(ts: Seq<TownV>) -> Seq<char> {
    "INSERT INTO towns(id, city_code, zip_code, area_name, street_name) VALUES\n"@ + town_rows(ts)
}

/// Renders the prefecture collection as one INSERT statement.
pub fn create_prefs_sql(prefs: &Vec<Pref>) -> (r: String)
    ensures
        r@ == spec_prefs_sql(pref_views(prefs@)),
{
    let ghost views = pref_views(prefs@);
    let mut out = String::new();
    out.append("INSERT INTO prefs(id, name) VALUES\n");
    proof {
        assert(views.skip(0) =~= views);
        assert(out@ + pref_rows(views) =~= spec_prefs_sql(views));
    }
    let n = prefs.len();
    for i in 0..n
        invariant
            n == prefs@.len(),
            views == pref_views(prefs@),
            out@ + pref_rows(views.skip(i as int)) == spec_prefs_sql(views),
    {
        let ghost at_start = out@;
        let p = &prefs[i];
        out.append("(");
        let ds = u32_dec(p.id as u32);
        out.append(ds.as_str());
        out.append(", '");
        out.append(p.name.as_str());
        out.append("')");
        if i + 1 == n {
            out.append(";\n\n");
        } else {
            out.append(",\n");
        }
        proof {
            let rest = views.skip(i as int);
            assert(views[i as int] == prefs@[i as int]@);
            assert(rest[0] == views[i as int]);
            assert(rest.drop_first() =~= views.skip(i as int + 1));
            assert(out@ =~= at_start + pref_row(views[i as int]) + row_end(i + 1 == n));
            assert(out@ + pref_rows(views.skip(i as int + 1)) =~= at_start + pref_rows(rest));
        }
    }
    proof {
        assert(pref_rows(views.skip(n as int)) =~= Seq::<char>::empty());
        assert(out@ + Seq::<char>::empty() =~= out@);
    }
    out
}

/// Renders the city collection as one INSERT statement.
pub fn create_cities_sql(cities: &Vec<City>) -> (r: String)
    ensures
        r@ == spec_cities_sql(city_views(cities@)),
{
    let ghost views = city_views(cities@);
    let mut out = String::new();
    out.append("INSERT INTO cities(code, pref_id, name) VALUES\n");
    proof {
        assert(views.skip(0) =~= views);
        assert(out@ + city_rows(views) =~= spec_cities_sql(views));
    }
    let n = cities.len();
    for i in 0..n
        invariant
            n == cities@.len(),
            views == city_views(cities@),
            out@ + city_rows(views.skip(i as int)) == spec_cities_sql(views),
    {
        let ghost at_start = out@;
        let c = &cities[i];
        out.append("('");
        out.append(c.code.as_str());
        out.append("', ");
        let ds = u32_dec(c.pref_id as u32);
        out.append(ds.as_str());
        out.append(", '");
        out.append(c.name.as_str());
        out.append("')");
        if i + 1 == n {
            out.append(";\n\n");
        } else {
            out.append(",\n");
        }
        proof {
            let rest = views.skip(i as int);
            assert(views[i as int] == cities@[i as int]@);
            assert(rest[0] == views[i as int]);
            assert(rest.drop_first() =~= views.skip(i as int + 1));
            assert(out@ =~= at_start + city_row(views[i as int]) + row_end(i + 1 == n));
            assert(out@ + city_rows(views.skip(i as int + 1)) =~= at_start + city_rows(rest));
        }
    }
    proof {
        assert(city_rows(views.skip(n as int)) =~= Seq::<char>::empty());
        assert(out@ + Seq::<char>::empty() =~= out@);
    }
    out
}

/// Renders the town collection as one INSERT statement.
#[verifier::rlimit(60)]
pub fn create_towns_sql(towns: &Vec<Town>) -> (r: String)
    ensures
        r@ == spec_towns_sql(town_views(towns@)),
{
    let ghost views = town_views(towns@);
    let mut out = String::new();
    out.append("INSERT INTO towns(id, city_code, zip_code, area_name, street_name) VALUES\n");
    proof {
        assert(views.skip(0) =~= views);
        assert(out@ + town_rows(views) =~= spec_towns_sql(views));
    }
    let n = towns.len();
    for i in 0..n
        invariant
            n == towns@.len(),
            views == town_views(towns@),
            out@ + town_rows(views.skip(i as int)) == spec_towns_sql(views),
    {
        let ghost at_start = out@;
        let t = &towns[i];
        out.append("(");
        let ds = u32_dec(t.id);
        out.append(ds.as_str());
        out.append(", '");
        out.append(t.city_code.as_str());
        out.append("', '");
        out.append(t.zip_code.as_str());
        out.append("', '");
        out.append(t.area_name.as_str());
        out.append("', '");
        out.append(t.street_name.as_str());
        out.append("')");
        if i + 1 == n {
            out.append(";\n\n");
        } else {
            out.append(",\n");
        }
        proof {
            let rest = views.skip(i as int);
            assert(views[i as int] == towns@[i as int]@);
            assert(rest[0] == views[i as int]);
            assert(rest.drop_first() =~= views.skip(i as int + 1));
            assert(out@ =~= at_start + town_row(views[i as int]) + row_end(i + 1 == n));
            assert(out@ + town_rows(views.skip(i as int + 1)) =~= at_start + town_rows(rest));
        }
    }
    proof {
        assert(town_rows(views.skip(n as int)) =~= Seq::<char>::empty());
        assert(out@ + Seq::<char>::empty() =~= out@);
    }
    out
}

} // verus!
