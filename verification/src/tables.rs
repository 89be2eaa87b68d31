//! The three entity types and the normalizer state: deduplicated,
//! insertion-ordered collections of prefectures, cities and towns.

use vstd::prelude::*;

use crate::model::{
    city_of, empty_tables, pref_of, same_town_key, step, town_of, towns_contain_key, CityV, PrefV,
    TablesV, TownV,
};
use crate::record::Record;

verus! {

/// Top-level administrative region.
pub struct Pref {
    pub id: u8,
    pub name: String,
}

impl View for Pref {
    type V = PrefV;

    open spec fn view(&self) -> PrefV {
        PrefV { id: self.id as int, name: self.name@ }
    }
}

/// Second-level administrative division, identified by a code string.
///
/// Deduplication compares the whole tuple (code, name, pref_id): two records
/// sharing a code but carrying different name text stay distinct rows. That
/// ambiguity is deliberately surfaced to the operator, not merged away.
pub struct City {
    pub code: String,
    pub name: String,
    pub pref_id: u8,
}

impl View for City {
    type V = CityV;

    open spec fn view(&self) -> CityV {
        CityV { code: self.code@, name: self.name@, pref_id: self.pref_id as int }
    }
}

/// Named area within a city, carrying a dense surrogate id.
pub struct Town {
    pub id: u32,
    pub zip_code: String,
    pub area_name: String,
    pub street_name: String,
    pub city_code: String,
}

impl View for Town {
    type V = TownV;

    open spec fn view(&self) -> TownV {
        TownV {
            id: self.id as int,
            zip_code: self.zip_code@,
            area_name: self.area_name@,
            street_name: self.street_name@,
            city_code: self.city_code@,
        }
    }
}

pub open spec fn pref_views(s: Seq<Pref>) -> Seq<PrefV> {
    s.map_values(|p: Pref| p@)
}

pub open spec fn city_views(s: Seq<City>) -> Seq<CityV> {
    s.map_values(|c: City| c@)
}

pub open spec fn town_views(s: Seq<Town>) -> Seq<TownV> {
    s.map_values(|t: Town| t@)
}

/// Builds the prefecture entity of a record.
pub fn collect_prefs(record: &Record) -> (p: Pref)
    ensures
        p@ == pref_of(record@),
{
    Pref { id: record.pref_code, name: record.pref_name.clone() }
}

/// Builds the city entity of a record.
pub fn collect_cities(record: &Record) -> (c: City)
    ensures
        c@ == city_of(record@),
{
    City {
        code: record.city_code.clone(),
        name: record.city_name.clone(),
        pref_id: record.pref_code,
    }
}

/// Builds the town candidate of a record: its surrogate id is tentatively
/// one past the current collection size, and its street name is the plain
/// street field followed immediately by the Kyoto-style suffix.
pub fn collect_towns(record: &Record, city: &City, towns: &Vec<Town>) -> (t: Town)
    requires
        towns@.len() + 1 <= u32::MAX,
    ensures
        t@.id == towns@.len() + 1,
        t@.zip_code == record@.zip_code,
        t@.area_name == record@.town_area,
        t@.street_name == record@.street_name + record@.kyoto_street_name,
        record@.kyoto_street_name.len() == 0 ==> t@.street_name == record@.street_name,
        t@.city_code == city@.code,
        city@ == city_of(record@) ==> t@ == town_of(record@, towns@.len() as int + 1),
{
    let mut street = record.street_name.clone();
    street.append(record.kyoto_street_name.as_str());
    proof {
        if record@.kyoto_street_name.len() == 0 {
            assert(record@.street_name + record@.kyoto_street_name =~= record@.street_name);
        }
    }
    Town {
        id: towns.len() as u32 + 1,
        zip_code: record.zip_code.clone(),
        area_name: record.town_area.clone(),
        street_name: street,
        city_code: city.code.clone(),
    }
}

fn pref_eq(a: &Pref, b: &Pref) -> (r: bool)
    ensures
        r == (a@ == b@),
{
    a.id == b.id && a.name == b.name
}

fn city_eq(a: &City, b: &City) -> (r: bool)
    ensures
        r == (a@ == b@),
{
    a.code == b.code && a.name == b.name && a.pref_id == b.pref_id
}

fn town_key_eq(a: &Town, b: &Town) -> (r: bool)
    ensures
        r == same_town_key(a@, b@),
{
    a.zip_code == b.zip_code && a.area_name == b.area_name && a.street_name == b.street_name
        && a.city_code == b.city_code
}

fn contains_pref(prefs: &Vec<Pref>, p: &Pref) -> (r: bool)
    ensures
        r == pref_views(prefs@).contains(p@),
{
    let n = prefs.len();
    for i in 0..n
        invariant
            n == prefs@.len(),
            forall|j: int| 0 <= j < i ==> pref_views(prefs@)[j] != p@,
    {
        if pref_eq(&prefs[i], p) {
            assert(pref_views(prefs@)[i as int] == p@);
            return true;
        }
    }
    false
}

fn contains_city(cities: &Vec<City>, c: &City) -> (r: bool)
    ensures
        r == city_views(cities@).contains(c@),
{
    let n = cities.len();
    for i in 0..n
        invariant
            n == cities@.len(),
            forall|j: int| 0 <= j < i ==> city_views(cities@)[j] != c@,
    {
        if city_eq(&cities[i], c) {
            assert(city_views(cities@)[i as int] == c@);
            return true;
        }
    }
    false
}

fn contains_town_key(towns: &Vec<Town>, cand: &Town) -> (r: bool)
    ensures
        r == towns_contain_key(town_views(towns@), cand@),
{
    let n = towns.len();
    for i in 0..n
        invariant
            n == towns@.len(),
            forall|j: int| 0 <= j < i ==> !same_town_key(town_views(towns@)[j], cand@),
    {
        if town_key_eq(&towns[i], cand) {
            assert(same_town_key(town_views(towns@)[i as int], cand@));
            return true;
        }
    }
    false
}

/// The normalizer: owns the three collections for the duration of a run.
pub struct Tables {
    pub prefs: Vec<Pref>,
    pub cities: Vec<City>,
    pub towns: Vec<Town>,
}

impl View for Tables {
    type V = TablesV;

    open spec fn view(&self) -> TablesV {
        TablesV {
            prefs: pref_views(self.prefs@),
            cities: city_views(self.cities@),
            towns: town_views(self.towns@),
        }
    }
}

impl Tables {
    pub fn new() -> (t: Tables)
        ensures
            t@ == empty_tables(),
    {
        let t = Tables { prefs: Vec::new(), cities: Vec::new(), towns: Vec::new() };
        proof {
            assert(pref_views(t.prefs@) =~= Seq::<PrefV>::empty());
            assert(city_views(t.cities@) =~= Seq::<CityV>::empty());
            assert(town_views(t.towns@) =~= Seq::<TownV>::empty());
        }
        t
    }

    /// Feeds one decoded record to the normalizer. A skipped
    /// (bulk-recipient) record leaves every collection unchanged; otherwise
    /// each derived entity is appended to its collection unless a
    /// structurally equal one (for towns: one with an equal dedup key) is
    /// already present.
    pub fn process_record(&mut self, record: &Record)
        requires
            old(self).towns@.len() + 1 <= u32::MAX,
        ensures
            final(self)@ == step(old(self)@, record@),
    {
        if record.skip {
            return;
        }
        let pref = collect_prefs(record);
        let city = collect_cities(record);
        let town = collect_towns(record, &city, &self.towns);
        if !contains_pref(&self.prefs, &pref) {
            let ghost before = self.prefs@;
            self.prefs.push(pref);
            proof {
                assert(pref_views(self.prefs@) =~= pref_views(before).push(pref_of(record@)));
            }
        }
        if !contains_city(&self.cities, &city) {
            let ghost before = self.cities@;
            self.cities.push(city);
            proof {
                assert(city_views(self.cities@) =~= city_views(before).push(city_of(record@)));
            }
        }
        if !contains_town_key(&self.towns, &town) {
            let ghost before = self.towns@;
            let ghost cand = town@;
            self.towns.push(town);
            proof {
                assert(town_views(self.towns@) =~= town_views(before).push(cand));
            }
        }
        proof {
            assert(self@ == step(old(self)@, record@));
        }
    }
}

} // verus!
