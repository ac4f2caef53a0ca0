//! A normalized, null-safe accessor layer over a sparse geolocation record.
//!
//! A decoded geolocation record is a tree of optional sub-structures:
//! countries, city, continent, subdivisions, postal code and location, each
//! leaf independently optional. This crate wraps such a record and exposes
//! one flat getter per semantic field. Every getter returns an optional
//! value: a missing node anywhere along a field's access path collapses the
//! whole lookup to absent, and absence is an ordinary outcome, never an
//! error. Name-like fields are stored as locale-keyed mappings and resolved
//! against one exact locale key, `"en"` by default.

mod locale;
mod record;

pub use locale::NameEntry;
pub use locale::Names;
pub use locale::lemma_lookup_finds_first;
pub use locale::lemma_lookup_key_exact;
pub use locale::spec_lookup;
pub use record::City;
pub use record::lemma_default_locale_exact;
pub use record::lemma_explicit_locale_finds_entry;
pub use record::lemma_getter_deterministic;
pub use record::lemma_index_out_of_range_equivalence;
pub use record::spec_name_in;
pub use record::spec_requested_key;
pub use record::Continent;
pub use record::Country;
pub use record::Location;
pub use record::NormalizedCityRecord;
pub use record::Postal;
pub use record::Subdivision;
