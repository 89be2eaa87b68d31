//! Mathematical model of the normalization pipeline: record and entity
//! values, first-seen-order deduplicating insertion, and the table state
//! reached after a sequence of records.

use vstd::prelude::*;

verus! {

/// One decoded input record, reduced to the fields the pipeline reads.
pub ghost struct RecV {
    /// True when the record carries a bulk-recipient address and must
    /// contribute no entity to any table.
    pub skip: bool,
    pub pref_code: int,
    pub pref_name: Seq<char>,
    pub city_code: Seq<char>,
    pub city_name: Seq<char>,
    pub zip_code: Seq<char>,
    pub town_area: Seq<char>,
    pub street_name: Seq<char>,
    pub kyoto_street_name: Seq<char>,
}

pub ghost struct PrefV {
    pub id: int,
    pub name: Seq<char>,
}

pub ghost struct CityV {
    pub code: Seq<char>,
    pub name: Seq<char>,
    pub pref_id: int,
}

pub ghost struct TownV {
    /// Dense surrogate key, 1-based position of first occurrence.
    pub id: int,
    pub zip_code: Seq<char>,
    pub area_name: Seq<char>,
    pub street_name: Seq<char>,
    pub city_code: Seq<char>,
}

/// The three collections the normalizer maintains.
pub ghost struct TablesV {
    pub prefs: Seq<PrefV>,
    pub cities: Seq<CityV>,
    pub towns: Seq<TownV>,
}

/// The prefecture entity a record yields.
pub open spec fn pref_of(r: RecV) -> PrefV {
    PrefV { id: r.pref_code, name: r.pref_name }
}

/// The city entity a record yields.
pub open spec fn city_of(r: RecV) -> CityV {
    CityV { code: r.city_code, name: r.city_name, pref_id: r.pref_code }
}

/// The town entity a record yields under a given surrogate id. Its street
/// name is the plain street field followed immediately by the Kyoto-style
/// street suffix, with no separator.
pub open spec fn town_of(r: RecV, id: int) -> TownV {
    TownV {
        id,
        zip_code: r.zip_code,
        area_name: r.town_area,
        street_name: r.street_name + r.kyoto_street_name,
        city_code: r.city_code,
    }
}

/// Appends an element unless a structurally equal one is already present;
/// the first occurrence keeps its place.
pub open spec fn insert_new<A>(s: Seq<A>, e: A) -> Seq<A> {
    if s.contains(e) {
        s
    } else {
        s.push(e)
    }
}

/// The deduplication key of a town: every attribute except the surrogate id.
pub open spec fn same_town_key(a: TownV, b: TownV) -> bool {
    &&& a.zip_code == b.zip_code
    &&& a.area_name == b.area_name
    &&& a.street_name == b.street_name
    &&& a.city_code == b.city_code
}

pub open spec fn towns_contain_key(ts: Seq<TownV>, c: TownV) -> bool {
    exists|i: int| 0 <= i < ts.len() && same_town_key(ts[i], c)
}

/// Appends a town candidate unless one with the same key is already present;
/// a discarded duplicate consumes no surrogate id.
pub open spec fn insert_town(ts: Seq<TownV>, c: TownV) -> Seq<TownV> {
    if towns_contain_key(ts, c) {
        ts
    } else {
        ts.push(c)
    }
}

pub open spec fn empty_tables() -> TablesV {
    TablesV { prefs: Seq::empty(), cities: Seq::empty(), towns: Seq::empty() }
}

/// The effect of one record on the three collections. A skipped record
/// changes nothing; otherwise each derived entity is inserted independently,
/// the town candidate tentatively taking the next dense id.
pub open spec fn step(t: TablesV, r: RecV) -> TablesV {
    if r.skip {
        t
    } else {
        TablesV {
            prefs: insert_new(t.prefs, pref_of(r)),
            cities: insert_new(t.cities, city_of(r)),
            towns: insert_town(t.towns, town_of(r, t.towns.len() as int + 1)),
        }
    }
}

/// The collections after a whole sequence of records, in input order.
pub open spec fn tables_of(recs: Seq<RecV>) -> TablesV
    decreases recs.len(),
{
    if recs.len() == 0 {
        empty_tables()
    } else {
        step(tables_of(recs.drop_last()), recs.last())
    }
}

} // verus!
