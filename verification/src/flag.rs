//! The flag lookup: the glyph for a record is fetched from the flag host
//! keyed by the country name with every space replaced by an underscore,
//! case preserved.

use vstd::prelude::*;

verus! {

use crate::text::spaces_to_underscores;
use crate::text::underscore_spaces;
use vstd::string::StringExecFns;

/// The lookup key for a country's flag.
pub fn flag_key(country: &str) -> (r: String)
    ensures
        r@ == underscore_spaces(country@),
{
    spaces_to_underscores(country)
}

/// The address the flag glyph is fetched from, for a country.
pub open spec fn flag_url_spec(country: Seq<char>) -> Seq<char> {
    "https://raw.githubusercontent.com/mark-ruddy/ipfetch/main/country_flags"@ + "/"@
        + underscore_spaces(country)
}

pub fn flag_url(country: &str) -> (r: String)
    ensures
        r@ == flag_url_spec(country@),
{
    let mut r = String::from_str(
        "https://raw.githubusercontent.com/mark-ruddy/ipfetch/main/country_flags",
    );
    r.append("/");
    let key = flag_key(country);
    r.append(key.as_str());
    r
}

} // verus!
