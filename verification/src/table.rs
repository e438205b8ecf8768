//! The terminal renderer: a record becomes an aligned two-column table with
//! one row per attribute, in a fixed order. The alignment and borders come
//! from the `tabled` crate behind trusted wrappers; which rows appear, with
//! which labels and values, is verified here.

use vstd::prelude::*;

verus! {

use crate::num::dec_int;
use crate::num::i32_to_decimal;
use crate::record::GeoRecord;
use vstd::string::StringExecFns;

#[verifier::external_type_specification]
#[verifier::external_body]
pub struct ExBuilder(tabled::builder::Builder);

/// The rows a builder holds, in the order they were pushed: label and value
/// of each.
pub uninterp spec fn builder_rows(b: tabled::builder::Builder) -> Seq<(Seq<char>, Seq<char>)>;

/// The column count a builder has settled on.
pub uninterp spec fn builder_width(b: tabled::builder::Builder) -> nat;

/// The text `tabled` renders for the given rows: a function of the rows
/// alone.
pub uninterp spec fn table_text(rows: Seq<(Seq<char>, Seq<char>)>) -> Seq<char>;

/// Relies on tabled's Builder::default: a fresh builder holds no rows and has
/// not settled on a column count.
#[verifier::external_body]
fn builder_new() -> (b: tabled::builder::Builder)
    ensures
        builder_rows(b) == Seq::<(Seq<char>, Seq<char>)>::empty(),
        builder_width(b) == 0,
{
    tabled::builder::Builder::default()
}

/// Relies on tabled's Builder::push_record: the pair is appended as one row.
/// Pushing a two-cell row is refused by the crate once a wider width is
/// settled, hence the bound.
#[verifier::external_body]
fn builder_push_pair(b: &mut tabled::builder::Builder, label: &str, value: &str)
    requires
        builder_width(*old(b)) <= 2,
    ensures
        builder_rows(*final(b)) == builder_rows(*old(b)).push((label@, value@)),
        builder_width(*final(b)) == 2,
{
    b.push_record([label, value]);
}

/// Relies on tabled's Table::from(Builder) and its Display implementation:
/// the rendered text depends on the pushed rows alone.
#[verifier::external_body]
fn builder_to_text(b: tabled::builder::Builder) -> (r: String)
    ensures
        r@ == table_text(builder_rows(b)),
{
    b.build().to_string()
}

/// The fixed table rows for a record: fifteen label/value pairs, in order,
/// values given verbatim and integers in their decimal text.
pub open spec fn table_rows(r: GeoRecord) -> Seq<(Seq<char>, Seq<char>)> {
    seq![
        ("IP"@, r.ip@),
        ("Country"@, r.country@),
        ("Organization"@, r.organization@),
        ("Timezone"@, r.timezone@),
        ("Continent Code"@, r.continent_code@),
        ("Country Code"@, r.country_code@),
        ("Country Code 3"@, r.country_code3@),
        ("Region Code"@, r.region_code@),
        ("Postal Code"@, r.postal_code@),
        ("Area Code"@, dec_int(r.area_code as int)),
        ("DMA Code"@, dec_int(r.dma_code as int)),
        ("Offset"@, dec_int(r.offset as int)),
        ("ASN"@, dec_int(r.asn as int)),
        ("Longitude"@, r.longitude@),
        ("Latitude"@, r.latitude@),
    ]
}

/// The rows of a record's table as label/value strings, for callers that
/// inspect the rendered attributes rather than the aligned text.
pub fn labeled_values(r: &GeoRecord) -> (rows: Vec<(String, String)>)
    ensures
        rows@.len() == table_rows(*r).len(),
        forall|i: int|
            0 <= i < rows@.len() ==> (#[trigger] rows@[i]).0@ == table_rows(*r)[i].0
                && rows@[i].1@ == table_rows(*r)[i].1,
{
    let mut rows: Vec<(String, String)> = Vec::new();
    rows.push((String::from_str("IP"), r.ip.clone()));
    rows.push((String::from_str("Country"), r.country.clone()));
    rows.push((String::from_str("Organization"), r.organization.clone()));
    rows.push((String::from_str("Timezone"), r.timezone.clone()));
    rows.push((String::from_str("Continent Code"), r.continent_code.clone()));
    rows.push((String::from_str("Country Code"), r.country_code.clone()));
    rows.push((String::from_str("Country Code 3"), r.country_code3.clone()));
    rows.push((String::from_str("Region Code"), r.region_code.clone()));
    rows.push((String::from_str("Postal Code"), r.postal_code.clone()));
    rows.push((String::from_str("Area Code"), i32_to_decimal(r.area_code)));
    rows.push((String::from_str("DMA Code"), i32_to_decimal(r.dma_code)));
    rows.push((String::from_str("Offset"), i32_to_decimal(r.offset)));
    rows.push((String::from_str("ASN"), i32_to_decimal(r.asn)));
    rows.push((String::from_str("Longitude"), r.longitude.clone()));
    rows.push((String::from_str("Latitude"), r.latitude.clone()));
    rows
}

/// The aligned table text for a record: exactly the fifteen fixed rows, in
/// order, rendered by `tabled`.
pub fn render_table(r: &GeoRecord) -> (out: String)
    ensures
        out@ == table_text(table_rows(*r)),
{
    let mut b = builder_new();
    builder_push_pair(&mut b, "IP", r.ip.as_str());
    builder_push_pair(&mut b, "Country", r.country.as_str());
    builder_push_pair(&mut b, "Organization", r.organization.as_str());
    builder_push_pair(&mut b, "Timezone", r.timezone.as_str());
    builder_push_pair(&mut b, "Continent Code", r.continent_code.as_str());
    builder_push_pair(&mut b, "Country Code", r.country_code.as_str());
    builder_push_pair(&mut b, "Country Code 3", r.country_code3.as_str());
    builder_push_pair(&mut b, "Region Code", r.region_code.as_str());
    builder_push_pair(&mut b, "Postal Code", r.postal_code.as_str());
    let area = i32_to_decimal(r.area_code);
    builder_push_pair(&mut b, "Area Code", area.as_str());
    let dma = i32_to_decimal(r.dma_code);
    builder_push_pair(&mut b, "DMA Code", dma.as_str());
    let offset = i32_to_decimal(r.offset);
    builder_push_pair(&mut b, "Offset", offset.as_str());
    let asn = i32_to_decimal(r.asn);
    builder_push_pair(&mut b, "ASN", asn.as_str());
    builder_push_pair(&mut b, "Longitude", r.longitude.as_str());
    builder_push_pair(&mut b, "Latitude", r.latitude.as_str());
    proof {
        assert(builder_rows(b) =~= table_rows(*r));
    }
    builder_to_text(b)
}

/// What the terminal shows for one record: the flag glyph immediately before
/// the table.
pub fn terminal_output(flag: &str, r: &GeoRecord) -> (out: String)
    ensures
        out@ == flag@ + table_text(table_rows(*r)),
{
    let mut out = String::from_str(flag);
    let table = render_table(r);
    out.append(table.as_str());
    out
}

} // verus!
