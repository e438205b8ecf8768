//! The data model: the geographic and network metadata resolved for one
//! address specifier.

use vstd::prelude::*;

verus! {

use crate::text::newline_free;

/// The resolved metadata for one address. Immutable once constructed: it is
/// produced by one resolution and read by at most two renderers.
///
/// The coordinates are held in their decimal text form, exactly as the
/// provider's floating-point values render; the renderers only ever use that
/// text.
pub struct GeoRecord {
    pub ip: String,
    pub country: String,
    pub organization: String,
    pub timezone: String,
    pub continent_code: String,
    pub country_code: String,
    pub country_code3: String,
    pub region_code: String,
    pub postal_code: String,
    pub area_code: i32,
    pub dma_code: i32,
    pub offset: i32,
    pub asn: i32,
    pub longitude: String,
    pub latitude: String,
}

impl GeoRecord {
    /// A record as the provider delivers it: every text field is a single
    /// line, so the file renderer's one-line-per-attribute layout holds.
    pub open spec fn single_line(self) -> bool {
        &&& newline_free(self.ip@)
        &&& newline_free(self.country@)
        &&& newline_free(self.organization@)
        &&& newline_free(self.timezone@)
        &&& newline_free(self.continent_code@)
        &&& newline_free(self.country_code@)
        &&& newline_free(self.country_code3@)
        &&& newline_free(self.region_code@)
        &&& newline_free(self.postal_code@)
        &&& newline_free(self.longitude@)
        &&& newline_free(self.latitude@)
    }
}

} // verus!
