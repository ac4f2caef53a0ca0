use vstd::prelude::*;

use crate::locale::Names;
use crate::locale::lemma_lookup_finds_first;
use crate::locale::lemma_lookup_key_exact;

verus! {

/// A country entry: an optional ISO code and an optional locale-keyed
/// name mapping. The same shape serves the country of the address, the
/// country it is registered in, and the country it is represented by.
pub struct Country {
    pub iso_code: Option<String>,
    pub names: Option<Names>,
}

/// A city entry: an optional geographic identifier and an optional
/// locale-keyed name mapping.
pub struct City {
    pub geoname_id: Option<u32>,
    pub names: Option<Names>,
}

/// A continent entry: an optional short code, an optional geographic
/// identifier and an optional locale-keyed name mapping.
pub struct Continent {
    pub code: Option<String>,
    pub geoname_id: Option<u32>,
    pub names: Option<Names>,
}

/// One subdivision (state, province, ...) of an ordered sequence,
/// addressed by position.
pub struct Subdivision {
    pub geoname_id: Option<u32>,
    pub iso_code: Option<String>,
    pub names: Option<Names>,
}

/// A postal entry: an optional postal code.
pub struct Postal {
    pub code: Option<String>,
}

/// A geographic position and timezone. Longitude and latitude each carry
/// the IEEE 754 bit pattern of the decoded 64-bit coordinate, so that the
/// pair travels through this layer unchanged, bit for bit.
pub struct Location {
    pub longitude: Option<u64>,
    pub latitude: Option<u64>,
    pub time_zone: Option<String>,
}

/// A decoded geolocation record, normalized: a tree of optional
/// sub-structures with every leaf independently optional. The getters on
/// this type collapse any absent node along a field's access path to an
/// absent result.
pub struct NormalizedCityRecord {
    pub country: Option<Country>,
    pub registered_country: Option<Country>,
    pub represented_country: Option<Country>,
    pub city: Option<City>,
    pub continent: Option<Continent>,
    pub subdivisions: Option<Vec<Subdivision>>,
    pub postal: Option<Postal>,
    pub location: Option<Location>,
}

/// The locale key a name getter looks up: the caller's locale code, or
/// `"en"` when the caller supplied none.
pub open spec fn spec_requested_key(language: Option<&str>) -> Seq<char> {
    match language {
        Some(l) => l@,
        None => "en"@,
    }
}

/// Name resolution on an optional locale-keyed mapping: absent mapping
/// means absent name; otherwise the requested key is matched exactly.
pub open spec fn spec_name_in(names: Option<Names>, language: Option<&str>) -> Option<Seq<char>> {
    match names {
        Some(n) => n.spec_get(spec_requested_key(language)),
        None => None,
    }
}

/// The shared locale-fallback walk: looks the requested locale up in an
/// optional name mapping, defaulting the locale to `"en"`.
fn name_in(names: &Option<Names>, language: Option<&str>) -> (r: Option<String>)
    ensures
        r.deep_view() == spec_name_in(*names, language),
{
    match names {
        Some(n) => n.get(language.unwrap_or("en")),
        None => None,
    }
}

/// The ISO code of an optional country entry.
pub open spec fn spec_code_of(country: Option<Country>) -> Option<Seq<char>> {
    match country {
        Some(c) => match c.iso_code {
            Some(s) => Some(s@),
            None => None,
        },
        None => None,
    }
}

/// The resolved name of an optional country entry.
pub open spec fn spec_name_of(country: Option<Country>, language: Option<&str>) -> Option<
    Seq<char>,
> {
    match country {
        Some(c) => spec_name_in(c.names, language),
        None => None,
    }
}

/// The ISO code of an optional country entry, as an owned borrow.
fn code_of(country: &Option<Country>) -> (r: Option<&str>)
    ensures
        r.deep_view() == spec_code_of(*country),
{
    match country {
        Some(c) => match &c.iso_code {
            Some(s) => Some(s.as_str()),
            None => None,
        },
        None => None,
    }
}

/// The resolved name of an optional country entry, as an owned string.
fn name_of(country: &Option<Country>, language: Option<&str>) -> (r: Option<String>)
    ensures
        r.deep_view() == spec_name_of(*country, language),
{
    match country {
        Some(c) => name_in(&c.names, language),
        None => None,
    }
}

impl NormalizedCityRecord {
    /// The country ISO code, absent when country or code is missing.
    pub open spec fn spec_country_code(self) -> Option<Seq<char>> {
        spec_code_of(self.country)
    }

    /// The country name under the requested locale.
    pub open spec fn spec_country_name(self, language: Option<&str>) -> Option<Seq<char>> {
        spec_name_of(self.country, language)
    }

    /// The registered country ISO code.
    pub open spec fn spec_registered_country_iso_code(self) -> Option<Seq<char>> {
        spec_code_of(self.registered_country)
    }

    /// The registered country name under the requested locale.
    pub open spec fn spec_registered_country_name(self, language: Option<&str>) -> Option<
        Seq<char>,
    > {
        spec_name_of(self.registered_country, language)
    }

    /// The represented country ISO code.
    pub open spec fn spec_represented_country_iso_code(self) -> Option<Seq<char>> {
        spec_code_of(self.represented_country)
    }

    /// The represented country name under the requested locale.
    pub open spec fn spec_represented_country_name(self, language: Option<&str>) -> Option<
        Seq<char>,
    > {
        spec_name_of(self.represented_country, language)
    }

    /// The city name under the requested locale.
    pub open spec fn spec_city_name(self, language: Option<&str>) -> Option<Seq<char>> {
        match self.city {
            Some(c) => spec_name_in(c.names, language),
            None => None,
        }
    }

    /// The city's geographic identifier.
    pub open spec fn spec_city_geoname_id(self) -> Option<u32> {
        match self.city {
            Some(c) => c.geoname_id,
            None => None,
        }
    }

    /// The subdivision at `idx`, absent when the list is missing or `idx`
    /// is out of range.
    pub open spec fn spec_subdivision(self, idx: int) -> Option<Subdivision> {
        match self.subdivisions {
            Some(subs) => if 0 <= idx && idx < subs@.len() {
                Some(subs@[idx])
            } else {
                None
            },
            None => None,
        }
    }

    /// The geographic identifier of the subdivision at `idx`.
    pub open spec fn spec_subdivision_geoname_id(self, idx: int) -> Option<u32> {
        match self.spec_subdivision(idx) {
            Some(s) => s.geoname_id,
            None => None,
        }
    }

    /// The name of the subdivision at `idx` under the requested locale.
    pub open spec fn spec_subdivision_name(self, idx: int, language: Option<&str>) -> Option<
        Seq<char>,
    > {
        match self.spec_subdivision(idx) {
            Some(s) => spec_name_in(s.names, language),
            None => None,
        }
    }

    /// The ISO code of the subdivision at `idx`.
    pub open spec fn spec_subdivision_iso_code(self, idx: int) -> Option<Seq<char>> {
        match self.spec_subdivision(idx) {
            Some(s) => match s.iso_code {
                Some(c) => Some(c@),
                None => None,
            },
            None => None,
        }
    }

    /// The continent code.
    pub open spec fn spec_continent_code(self) -> Option<Seq<char>> {
        match self.continent {
            Some(c) => match c.code {
                Some(s) => Some(s@),
                None => None,
            },
            None => None,
        }
    }

    /// The continent's geographic identifier.
    pub open spec fn spec_continent_geoname_id(self) -> Option<u32> {
        match self.continent {
            Some(c) => c.geoname_id,
            None => None,
        }
    }

    /// The continent name under the requested locale.
    pub open spec fn spec_continent_name(self, language: Option<&str>) -> Option<Seq<char>> {
        match self.continent {
            Some(c) => spec_name_in(c.names, language),
            None => None,
        }
    }

    /// The postal code.
    pub open spec fn spec_postal_code(self) -> Option<Seq<char>> {
        match self.postal {
            Some(p) => match p.code {
                Some(s) => Some(s@),
                None => None,
            },
            None => None,
        }
    }

    /// The timezone identifier.
    pub open spec fn spec_time_zone(self) -> Option<Seq<char>> {
        match self.location {
            Some(l) => match l.time_zone {
                Some(s) => Some(s@),
                None => None,
            },
            None => None,
        }
    }

    /// The coordinate pair, present only when longitude and latitude both
    /// are.
    pub open spec fn spec_lon_and_lat(self) -> Option<(u64, u64)> {
        match self.location {
            Some(l) => match (l.longitude, l.latitude) {
                (Some(lon), Some(lat)) => Some((lon, lat)),
                _ => None,
            },
            None => None,
        }
    }

    /// Returns the country ISO code.
    pub fn country_code(&self) -> (r: Option<&str>)
        ensures
            r.deep_view() == self.spec_country_code(),
            r is Some <==> (self.country matches Some(c) && c.iso_code is Some),
    {
        code_of(&self.country)
    }

    /// Returns the country name under the requested locale, `"en"` by
    /// default.
    pub fn country_name(&self, language: Option<&str>) -> (r: Option<String>)
        ensures
            r.deep_view() == self.spec_country_name(language),
            r is Some <==> ({
                &&& self.country matches Some(c)
                &&& c.names matches Some(n)
                &&& n.spec_get(spec_requested_key(language)) is Some
            }),
    {
        name_of(&self.country, language)
    }

    /// Returns the registered country ISO code.
    pub fn registered_country_iso_code(&self) -> (r: Option<&str>)
        ensures
            r.deep_view() == self.spec_registered_country_iso_code(),
            r is Some <==> (self.registered_country matches Some(c) && c.iso_code is Some),
    {
        code_of(&self.registered_country)
    }

    /// Returns the registered country name under the requested locale,
    /// `"en"` by default.
    pub fn registered_country_name(&self, language: Option<&str>) -> (r: Option<String>)
        ensures
            r.deep_view() == self.spec_registered_country_name(language),
            r is Some <==> ({
                &&& self.registered_country matches Some(c)
                &&& c.names matches Some(n)
                &&& n.spec_get(spec_requested_key(language)) is Some
            }),
    {
        name_of(&self.registered_country, language)
    }

    /// Returns the represented country ISO code.
    pub fn represented_country_iso_code(&self) -> (r: Option<&str>)
        ensures
            r.deep_view() == self.spec_represented_country_iso_code(),
            r is Some <==> (self.represented_country matches Some(c) && c.iso_code is Some),
    {
        code_of(&self.represented_country)
    }

    /// Returns the represented country name under the requested locale,
    /// `"en"` by default.
    pub fn represented_country_name(&self, language: Option<&str>) -> (r: Option<String>)
        ensures
            r.deep_view() == self.spec_represented_country_name(language),
            r is Some <==> ({
                &&& self.represented_country matches Some(c)
                &&& c.names matches Some(n)
                &&& n.spec_get(spec_requested_key(language)) is Some
            }),
    {
        name_of(&self.represented_country, language)
    }

    /// Returns the city name under the requested locale, `"en"` by
    /// default.
    pub fn city_name(&self, language: Option<&str>) -> (r: Option<String>)
        ensures
            r.deep_view() == self.spec_city_name(language),
            r is Some <==> ({
                &&& self.city matches Some(c)
                &&& c.names matches Some(n)
                &&& n.spec_get(spec_requested_key(language)) is Some
            }),
    {
        match &self.city {
            Some(c) => name_in(&c.names, language),
            None => None,
        }
    }

    /// Returns the city's geographic identifier.
    pub fn city_geoname_id(&self) -> (r: Option<u32>)
        ensures
            r == self.spec_city_geoname_id(),
            r is Some <==> (self.city matches Some(c) && c.geoname_id is Some),
    {
        match &self.city {
            Some(c) => c.geoname_id,
            None => None,
        }
    }

    /// Returns the geographic identifier of the subdivision at `idx`.
    pub fn subdivision_geoname_id(&self, idx: usize) -> (r: Option<u32>)
        ensures
            r == self.spec_subdivision_geoname_id(idx as int),
            r is Some <==> (self.subdivisions matches Some(subs) && idx < subs@.len()
                && subs@[idx as int].geoname_id is Some),
    {
        match &self.subdivisions {
            Some(subs) => if idx < subs.len() {
                subs[idx].geoname_id
            } else {
                None
            },
            None => None,
        }
    }

    /// Returns the name of the subdivision at `idx` under the requested
    /// locale, `"en"` by default.
    pub fn subdivision_name(&self, idx: usize, language: Option<&str>) -> (r: Option<String>)
        ensures
            r.deep_view() == self.spec_subdivision_name(idx as int, language),
            r is Some <==> ({
                &&& self.subdivisions matches Some(subs)
                &&& idx < subs@.len()
                &&& subs@[idx as int].names matches Some(n)
                &&& n.spec_get(spec_requested_key(language)) is Some
            }),
    {
        match &self.subdivisions {
            Some(subs) => if idx < subs.len() {
                name_in(&subs[idx].names, language)
            } else {
                None
            },
            None => None,
        }
    }

    /// Returns the ISO code of the subdivision at `idx`.
    pub fn subdivision_iso_code(&self, idx: usize) -> (r: Option<&str>)
        ensures
            r.deep_view() == self.spec_subdivision_iso_code(idx as int),
            r is Some <==> (self.subdivisions matches Some(subs) && idx < subs@.len()
                && subs@[idx as int].iso_code is Some),
    {
        match &self.subdivisions {
            Some(subs) => if idx < subs.len() {
                match &subs[idx].iso_code {
                    Some(s) => Some(s.as_str()),
                    None => None,
                }
            } else {
                None
            },
            None => None,
        }
    }

    /// Returns the continent code.
    pub fn continent_code(&self) -> (r: Option<&str>)
        ensures
            r.deep_view() == self.spec_continent_code(),
            r is Some <==> (self.continent matches Some(c) && c.code is Some),
    {
        match &self.continent {
            Some(c) => match &c.code {
                Some(s) => Some(s.as_str()),
                None => None,
            },
            None => None,
        }
    }

    /// Returns the continent's geographic identifier.
    pub fn continent_geoname_id(&self) -> (r: Option<u32>)
        ensures
            r == self.spec_continent_geoname_id(),
            r is Some <==> (self.continent matches Some(c) && c.geoname_id is Some),
    {
        match &self.continent {
            Some(c) => c.geoname_id,
            None => None,
        }
    }

    /// Returns the continent name under the requested locale, `"en"` by
    /// default.
    pub fn continent_name(&self, language: Option<&str>) -> (r: Option<String>)
        ensures
            r.deep_view() == self.spec_continent_name(language),
            r is Some <==> (self.continent matches Some(c) && c.names matches Some(n)
                && n.spec_get(spec_requested_key(language)) is Some),
    {
        match &self.continent {
            Some(c) => name_in(&c.names, language),
            None => None,
        }
    }

    /// Returns the postal code.
    pub fn postal_code(&self) -> (r: Option<&str>)
        ensures
            r.deep_view() == self.spec_postal_code(),
            r is Some <==> (self.postal matches Some(p) && p.code is Some),
    {
        match &self.postal {
            Some(p) => match &p.code {
                Some(s) => Some(s.as_str()),
                None => None,
            },
            None => None,
        }
    }

    /// Returns the timezone identifier.
    pub fn time_zone(&self) -> (r: Option<&str>)
        ensures
            r.deep_view() == self.spec_time_zone(),
            r is Some <==> (self.location matches Some(l) && l.time_zone is Some),
    {
        match &self.location {
            Some(l) => match &l.time_zone {
                Some(s) => Some(s.as_str()),
                None => None,
            },
            None => None,
        }
    }

    /// Returns the coordinate bit patterns as a pair, longitude first.
    /// The pair is present only when longitude and latitude both are: a
    /// partial coordinate is never reported.
    pub fn lon_and_lat(&self) -> (r: Option<(u64, u64)>)
        ensures
            r == self.spec_lon_and_lat(),
            r is Some <==> (self.location matches Some(l) && l.longitude is Some
                && l.latitude is Some),
    {
        match &self.location {
            Some(l) => match (l.longitude, l.latitude) {
                (Some(lon), Some(lat)) => Some((lon, lat)),
                _ => None,
            },
            None => None,
        }
    }
}

/// With no locale argument the default locale key is `"en"`, and the match
/// is exact: a record whose country name mapping holds no entry under the
/// key `"en"` yields an absent country name, whatever other locales the
/// mapping holds.
pub proof fn lemma_default_locale_exact(r: NormalizedCityRecord)
    requires
        r.country is Some,
        r.country.unwrap().names is Some,
        forall|i: int|
            0 <= i < r.country.unwrap().names.unwrap().pairs().len()
                ==> r.country.unwrap().names.unwrap().pairs()[i].0 != "en"@,
    ensures
        r.spec_country_name(None) is None,
{
    lemma_lookup_key_exact(r.country.unwrap().names.unwrap().pairs(), "en"@);
}

/// The converse of the exact-match rule: a country name stored under the
/// caller's explicit locale is returned. When every entry of the mapping
/// before position `i` misses that locale and entry `i` carries it, the
/// resolved name is exactly that entry's value, whether or not the
/// mapping also holds other locales.
pub proof fn lemma_explicit_locale_finds_entry(
    r: NormalizedCityRecord,
    language: &str,
    i: int,
)
    requires
        r.country is Some,
        r.country.unwrap().names is Some,
        0 <= i < r.country.unwrap().names.unwrap().pairs().len(),
        r.country.unwrap().names.unwrap().pairs()[i].0 == language@,
        forall|j: int|
            0 <= j < i ==> r.country.unwrap().names.unwrap().pairs()[j].0 != language@,
    ensures
        r.spec_country_name(Some(language)) == Some(
            r.country.unwrap().names.unwrap().pairs()[i].1,
        ),
{
    lemma_lookup_finds_first(r.country.unwrap().names.unwrap().pairs(), language@, i);
}

/// Requesting a subdivision at an index beyond the stored sequence is
/// indistinguishable from requesting one on a record that has no
/// subdivisions at all: every subdivision field of both is absent, so the
/// two records agree on all of them.
pub proof fn lemma_index_out_of_range_equivalence(
    a: NormalizedCityRecord,
    i: usize,
    b: NormalizedCityRecord,
    j: usize,
    language: Option<&str>,
)
    requires
        a.subdivisions matches Some(s) ==> i >= s@.len(),
        b.subdivisions matches Some(s) ==> j >= s@.len(),
    ensures
        a.spec_subdivision_geoname_id(i as int) is None,
        a.spec_subdivision_iso_code(i as int) is None,
        a.spec_subdivision_name(i as int, language) is None,
        a.spec_subdivision_geoname_id(i as int) == b.spec_subdivision_geoname_id(j as int),
        a.spec_subdivision_iso_code(i as int) == b.spec_subdivision_iso_code(j as int),
        a.spec_subdivision_name(i as int, language) == b.spec_subdivision_name(j as int, language),
{
}

/// Every getter is pure: its contract determines the result from the
/// record and the arguments alone, so repeated calls with the same
/// arguments on an unchanged record return results with identical
/// observable values. Stated for the owned-string getters; the numeric
/// and borrowing getters return values their contracts pin outright.
pub proof fn lemma_getter_deterministic(
    expected: Option<Seq<char>>,
    first: Option<String>,
    second: Option<String>,
)
    requires
        first.deep_view() == expected,
        second.deep_view() == expected,
    ensures
        first is Some <==> second is Some,
        first matches Some(x) ==> second matches Some(y) && x@ == y@,
{
}

} // verus!

