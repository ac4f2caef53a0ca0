use geonorm::City;
use geonorm::Continent;
use geonorm::Country;
use geonorm::Location;
use geonorm::NameEntry;
use geonorm::Names;
use geonorm::NormalizedCityRecord;
use geonorm::Postal;
use geonorm::Subdivision;

fn names(pairs: &[(&str, &str)]) -> Names {
    Names {
        entries: pairs
            .iter()
            .map(|(locale, value)| NameEntry {
                locale: locale.to_string(),
                value: value.to_string(),
            })
            .collect(),
    }
}

fn empty_record() -> NormalizedCityRecord {
    NormalizedCityRecord {
        country: None,
        registered_country: None,
        represented_country: None,
        city: None,
        continent: None,
        subdivisions: None,
        postal: None,
        location: None,
    }
}

#[test]
fn absent_root_nodes_collapse_every_getter() {
    let r = empty_record();
    assert_eq!(None, r.country_code());
    assert_eq!(None, r.country_name(None));
    assert_eq!(None, r.registered_country_iso_code());
    assert_eq!(None, r.registered_country_name(None));
    assert_eq!(None, r.represented_country_iso_code());
    assert_eq!(None, r.represented_country_name(None));
    assert_eq!(None, r.city_name(None));
    assert_eq!(None, r.city_geoname_id());
    assert_eq!(None, r.subdivision_geoname_id(0));
    assert_eq!(None, r.subdivision_name(0, None));
    assert_eq!(None, r.subdivision_iso_code(0));
    assert_eq!(None, r.continent_code());
    assert_eq!(None, r.continent_geoname_id());
    assert_eq!(None, r.continent_name(None));
    assert_eq!(None, r.postal_code());
    assert_eq!(None, r.time_zone());
    assert_eq!(None, r.lon_and_lat());
}

#[test]
fn absent_inner_nodes_collapse_the_lookup() {
    // Present country node, absent leaves.
    let mut r = empty_record();
    r.country = Some(Country {
        iso_code: None,
        names: None,
    });
    assert_eq!(None, r.country_code());
    assert_eq!(None, r.country_name(None));

    // Present names mapping without the requested key.
    let mut r = empty_record();
    r.country = Some(Country {
        iso_code: None,
        names: Some(names(&[])),
    });
    assert_eq!(None, r.country_name(None));

    // Present city node with absent leaves.
    let mut r = empty_record();
    r.city = Some(City {
        geoname_id: None,
        names: None,
    });
    assert_eq!(None, r.city_geoname_id());
    assert_eq!(None, r.city_name(None));

    // Present continent node with absent leaves.
    let mut r = empty_record();
    r.continent = Some(Continent {
        code: None,
        geoname_id: None,
        names: None,
    });
    assert_eq!(None, r.continent_code());
    assert_eq!(None, r.continent_geoname_id());
    assert_eq!(None, r.continent_name(None));

    // Present postal and location nodes with absent leaves.
    let mut r = empty_record();
    r.postal = Some(Postal { code: None });
    r.location = Some(Location {
        longitude: None,
        latitude: None,
        time_zone: None,
    });
    assert_eq!(None, r.postal_code());
    assert_eq!(None, r.time_zone());
    assert_eq!(None, r.lon_and_lat());

    // Present subdivision with absent leaves.
    let mut r = empty_record();
    r.subdivisions = Some(vec![Subdivision {
        geoname_id: None,
        iso_code: None,
        names: None,
    }]);
    assert_eq!(None, r.subdivision_geoname_id(0));
    assert_eq!(None, r.subdivision_iso_code(0));
    assert_eq!(None, r.subdivision_name(0, None));
}

#[test]
fn locale_match_is_exact_and_defaults_to_en() {
    let mut r = empty_record();
    r.country = Some(Country {
        iso_code: None,
        names: Some(names(&[("de", "Deutschland")])),
    });
    // "de" is present but "en" is not: the default lookup is absent, not
    // a substitution.
    assert_eq!(None, r.country_name(None));
    assert_eq!(
        Some("Deutschland".to_string()),
        r.country_name(Some("de"))
    );
    assert_eq!(None, r.country_name(Some("en")));
    assert_eq!(None, r.country_name(Some("DE")));
}

#[test]
fn default_locale_finds_en_when_stored() {
    let mut r = empty_record();
    r.city = Some(City {
        geoname_id: Some(2_950_159),
        names: Some(names(&[("de", "Berlin"), ("en", "Berlin"), ("ja", "ベルリン")])),
    });
    assert_eq!(Some("Berlin".to_string()), r.city_name(None));
    assert_eq!(Some("ベルリン".to_string()), r.city_name(Some("ja")));
    assert_eq!(Some(2_950_159), r.city_geoname_id());
}

#[test]
fn name_mapping_first_match_wins() {
    let m = names(&[("en", "first"), ("en", "second")]);
    assert_eq!(Some("first".to_string()), m.get("en"));
    assert_eq!(None, m.get("fr"));
}

#[test]
fn coordinates_are_conjunctive() {
    let lon = f64::to_bits(-87.6298);
    let lat = f64::to_bits(41.8781);

    let mut r = empty_record();
    r.location = Some(Location {
        longitude: Some(lon),
        latitude: None,
        time_zone: None,
    });
    assert_eq!(None, r.lon_and_lat());

    r.location = Some(Location {
        longitude: None,
        latitude: Some(lat),
        time_zone: None,
    });
    assert_eq!(None, r.lon_and_lat());

    r.location = Some(Location {
        longitude: Some(lon),
        latitude: Some(lat),
        time_zone: None,
    });
    assert_eq!(Some((lon, lat)), r.lon_and_lat());
    let (lon_out, lat_out) = r.lon_and_lat().unwrap();
    assert_eq!(-87.6298, f64::from_bits(lon_out));
    assert_eq!(41.8781, f64::from_bits(lat_out));
}

#[test]
fn out_of_range_index_equals_missing_list() {
    let mut with_two = empty_record();
    with_two.subdivisions = Some(vec![
        Subdivision {
            geoname_id: Some(1),
            iso_code: Some("IL".to_string()),
            names: Some(names(&[("en", "Illinois")])),
        },
        Subdivision {
            geoname_id: Some(2),
            iso_code: Some("IN".to_string()),
            names: Some(names(&[("en", "Indiana")])),
        },
    ]);
    let without_list = empty_record();

    assert_eq!(
        without_list.subdivision_geoname_id(0),
        with_two.subdivision_geoname_id(5)
    );
    assert_eq!(
        without_list.subdivision_iso_code(0),
        with_two.subdivision_iso_code(5)
    );
    assert_eq!(
        without_list.subdivision_name(0, None),
        with_two.subdivision_name(5, None)
    );
    assert_eq!(None, with_two.subdivision_geoname_id(5));
    assert_eq!(None, with_two.subdivision_iso_code(2));
    assert_eq!(None, with_two.subdivision_name(2, None));
}

#[test]
fn subdivisions_are_addressed_in_order() {
    let mut r = empty_record();
    r.subdivisions = Some(vec![
        Subdivision {
            geoname_id: Some(4_896_861),
            iso_code: Some("IL".to_string()),
            names: Some(names(&[("en", "Illinois")])),
        },
        Subdivision {
            geoname_id: Some(4_921_868),
            iso_code: Some("IN".to_string()),
            names: Some(names(&[("en", "Indiana")])),
        },
    ]);
    assert_eq!(Some(4_896_861), r.subdivision_geoname_id(0));
    assert_eq!(Some("IL"), r.subdivision_iso_code(0));
    assert_eq!(Some("Illinois".to_string()), r.subdivision_name(0, None));
    assert_eq!(Some(4_921_868), r.subdivision_geoname_id(1));
    assert_eq!(Some("IN"), r.subdivision_iso_code(1));
    assert_eq!(Some("Indiana".to_string()), r.subdivision_name(1, None));
}

#[test]
fn repeated_calls_return_identical_results() {
    let mut r = empty_record();
    r.country = Some(Country {
        iso_code: Some("US".to_string()),
        names: Some(names(&[("en", "United States")])),
    });
    r.location = Some(Location {
        longitude: Some(f64::to_bits(-87.6298)),
        latitude: Some(f64::to_bits(41.8781)),
        time_zone: Some("America/Chicago".to_string()),
    });

    assert_eq!(r.country_code(), r.country_code());
    assert_eq!(r.country_name(None), r.country_name(None));
    assert_eq!(r.country_name(Some("de")), r.country_name(Some("de")));
    assert_eq!(r.time_zone(), r.time_zone());
    assert_eq!(r.lon_and_lat(), r.lon_and_lat());
    assert_eq!(r.subdivision_name(3, None), r.subdivision_name(3, None));
}

#[test]
fn every_present_field_is_returned() {
    let r = NormalizedCityRecord {
        country: Some(Country {
            iso_code: Some("US".to_string()),
            names: Some(names(&[("en", "United States")])),
        }),
        registered_country: Some(Country {
            iso_code: Some("US".to_string()),
            names: Some(names(&[("en", "United States")])),
        }),
        represented_country: Some(Country {
            iso_code: Some("GB".to_string()),
            names: Some(names(&[("en", "United Kingdom")])),
        }),
        city: Some(City {
            geoname_id: Some(4_887_398),
            names: Some(names(&[("en", "Chicago")])),
        }),
        continent: Some(Continent {
            code: Some("NA".to_string()),
            geoname_id: Some(6_255_149),
            names: Some(names(&[("en", "North America")])),
        }),
        subdivisions: Some(vec![Subdivision {
            geoname_id: Some(4_896_861),
            iso_code: Some("IL".to_string()),
            names: Some(names(&[("en", "Illinois")])),
        }]),
        postal: Some(Postal {
            code: Some("60601".to_string()),
        }),
        location: Some(Location {
            longitude: Some(f64::to_bits(-87.6298)),
            latitude: Some(f64::to_bits(41.8781)),
            time_zone: Some("America/Chicago".to_string()),
        }),
    };
    assert_eq!(Some("US"), r.country_code());
    assert_eq!(Some("United States".to_string()), r.country_name(None));
    assert_eq!(Some("US"), r.registered_country_iso_code());
    assert_eq!(
        Some("United States".to_string()),
        r.registered_country_name(None)
    );
    assert_eq!(Some("GB"), r.represented_country_iso_code());
    assert_eq!(
        Some("United Kingdom".to_string()),
        r.represented_country_name(None)
    );
    assert_eq!(Some("Chicago".to_string()), r.city_name(None));
    assert_eq!(Some(4_887_398), r.city_geoname_id());
    assert_eq!(Some("NA"), r.continent_code());
    assert_eq!(Some(6_255_149), r.continent_geoname_id());
    assert_eq!(Some("North America".to_string()), r.continent_name(None));
    assert_eq!(Some("60601"), r.postal_code());
    assert_eq!(Some("America/Chicago"), r.time_zone());
}

#[test]
fn sparse_record_scenario() {
    // A record shaped like one resolved for a well-known address: a
    // timezone and names for the continent and registered country, but no
    // postal code and no city name.
    let r = NormalizedCityRecord {
        country: Some(Country {
            iso_code: Some("US".to_string()),
            names: Some(names(&[("en", "United States")])),
        }),
        registered_country: Some(Country {
            iso_code: Some("US".to_string()),
            names: Some(names(&[("de", "USA"), ("en", "United States")])),
        }),
        represented_country: None,
        city: None,
        continent: Some(Continent {
            code: Some("NA".to_string()),
            geoname_id: Some(6_255_149),
            names: Some(names(&[("en", "North America")])),
        }),
        subdivisions: None,
        postal: None,
        location: Some(Location {
            longitude: Some(f64::to_bits(-97.822)),
            latitude: Some(f64::to_bits(37.751)),
            time_zone: Some("America/Chicago".to_string()),
        }),
    };
    assert_eq!(Some("America/Chicago"), r.time_zone());
    assert_eq!(None, r.postal_code());
    assert_eq!(None, r.city_name(None));
    assert_eq!(Some("North America".to_string()), r.continent_name(None));
    assert_eq!(Some("US"), r.registered_country_iso_code());
    assert_eq!(
        Some("United States".to_string()),
        r.registered_country_name(None)
    );
}
