//! The file renderer: one record becomes one block of fifteen `key:value`
//! lines, spaces stripped throughout, and blocks are only ever appended after
//! what was issued before, never truncating it.

use vstd::prelude::*;

verus! {

use crate::num::dec_int;
use crate::num::i32_to_decimal;
use crate::num::lemma_dec_int_newline_free;
use crate::record::GeoRecord;
use crate::text::lemma_newline_free_concat;
use crate::text::lemma_strip_spaces_newline_free;
use crate::text::newline_free;
use crate::text::remove_spaces;
use crate::text::strip_spaces;
use vstd::string::StringExecFns;

/// One line of the file block: key, colon, value, line break.
pub open spec fn kv_line(key: Seq<char>, value: Seq<char>) -> Seq<char> {
    key + seq![':'] + value + seq!['\n']
}

/// The block written for one record: fifteen lines in the fixed attribute
/// order, every space stripped from the values (a verbatim quirk of the file
/// format, kept for output compatibility: spaces inside multi-word values go
/// too), integers in their decimal text.
pub open spec fn block_of(r: GeoRecord) -> Seq<char> {
    kv_line("ip"@, strip_spaces(r.ip@)) + kv_line("country"@, strip_spaces(r.country@)) + kv_line(
        "organization"@,
        strip_spaces(r.organization@),
    ) + kv_line("timezone"@, strip_spaces(r.timezone@)) + kv_line(
        "continent_code"@,
        strip_spaces(r.continent_code@),
    ) + kv_line("country_code"@, strip_spaces(r.country_code@)) + kv_line(
        "country_code3"@,
        strip_spaces(r.country_code3@),
    ) + kv_line("region_code"@, strip_spaces(r.region_code@)) + kv_line(
        "postal_code"@,
        strip_spaces(r.postal_code@),
    ) + kv_line("area_code"@, dec_int(r.area_code as int)) + kv_line(
        "dma_code"@,
        dec_int(r.dma_code as int),
    ) + kv_line("offset"@, dec_int(r.offset as int)) + kv_line("asn"@, dec_int(r.asn as int))
        + kv_line("longitude"@, strip_spaces(r.longitude@)) + kv_line(
        "latitude"@,
        strip_spaces(r.latitude@),
    )
}

/// How many line breaks a text holds.
pub open spec fn newline_count(s: Seq<char>) -> nat
    decreases s.len(),
{
    if s.len() == 0 {
        0
    } else {
        newline_count(s.drop_last()) + (if s.last() == '\n' {
            1nat
        } else {
            0nat
        })
    }
}

pub proof fn lemma_newline_count_concat(a: Seq<char>, b: Seq<char>)
    ensures
        newline_count(a + b) == newline_count(a) + newline_count(b),
    decreases b.len(),
{
    if b.len() == 0 {
        assert(a + b =~= a);
    } else {
        assert((a + b).drop_last() =~= a + b.drop_last());
        assert((a + b).last() == b.last());
        lemma_newline_count_concat(a, b.drop_last());
    }
}

pub proof fn lemma_newline_free_count(s: Seq<char>)
    requires
        newline_free(s),
    ensures
        newline_count(s) == 0,
    decreases s.len(),
{
    if s.len() > 0 {
        assert(newline_free(s.drop_last()));
        lemma_newline_free_count(s.drop_last());
    }
}

/// A line of the block holds exactly one line break, as its final character.
pub proof fn lemma_kv_line_count(key: Seq<char>, value: Seq<char>)
    requires
        newline_free(key),
        newline_free(value),
    ensures
        newline_count(kv_line(key, value)) == 1,
        kv_line(key, value).last() == '\n',
{
    lemma_newline_free_count(key);
    lemma_newline_free_count(value);
    assert(newline_count(Seq::<char>::empty()) == 0);
    assert(newline_count(seq![':']) == 0) by {
        assert(seq![':'].drop_last() =~= Seq::<char>::empty());
        assert(newline_count(Seq::<char>::empty()) == 0);
    }
    assert(newline_count(seq!['\n']) == 1) by {
        assert(seq!['\n'].drop_last() =~= Seq::<char>::empty());
        assert(newline_count(Seq::<char>::empty()) == 0);
    }
    lemma_newline_count_concat(key, seq![':']);
    lemma_newline_count_concat(key + seq![':'], value);
    lemma_newline_count_concat(key + seq![':'] + value, seq!['\n']);
}

/// A block for a record whose attribute values are single lines is exactly
/// fifteen lines: fifteen line breaks, the last character being one.
pub proof fn lemma_block_is_fifteen_lines(r: GeoRecord)
    requires
        r.single_line(),
    ensures
        newline_count(block_of(r)) == 15,
        block_of(r).len() > 0,
        block_of(r).last() == '\n',
{
    reveal_strlit("ip");
    reveal_strlit("country");
    reveal_strlit("organization");
    reveal_strlit("timezone");
    reveal_strlit("continent_code");
    reveal_strlit("country_code");
    reveal_strlit("country_code3");
    reveal_strlit("region_code");
    reveal_strlit("postal_code");
    reveal_strlit("area_code");
    reveal_strlit("dma_code");
    reveal_strlit("offset");
    reveal_strlit("asn");
    reveal_strlit("longitude");
    reveal_strlit("latitude");
    lemma_strip_spaces_newline_free(r.ip@);
    lemma_strip_spaces_newline_free(r.country@);
    lemma_strip_spaces_newline_free(r.organization@);
    lemma_strip_spaces_newline_free(r.timezone@);
    lemma_strip_spaces_newline_free(r.continent_code@);
    lemma_strip_spaces_newline_free(r.country_code@);
    lemma_strip_spaces_newline_free(r.country_code3@);
    lemma_strip_spaces_newline_free(r.region_code@);
    lemma_strip_spaces_newline_free(r.postal_code@);
    lemma_strip_spaces_newline_free(r.longitude@);
    lemma_strip_spaces_newline_free(r.latitude@);
    lemma_dec_int_newline_free(r.area_code as int);
    lemma_dec_int_newline_free(r.dma_code as int);
    lemma_dec_int_newline_free(r.offset as int);
    lemma_dec_int_newline_free(r.asn as int);
    let l1 = kv_line("ip"@, strip_spaces(r.ip@));
    let l2 = kv_line("country"@, strip_spaces(r.country@));
    let l3 = kv_line("organization"@, strip_spaces(r.organization@));
    let l4 = kv_line("timezone"@, strip_spaces(r.timezone@));
    let l5 = kv_line("continent_code"@, strip_spaces(r.continent_code@));
    let l6 = kv_line("country_code"@, strip_spaces(r.country_code@));
    let l7 = kv_line("country_code3"@, strip_spaces(r.country_code3@));
    let l8 = kv_line("region_code"@, strip_spaces(r.region_code@));
    let l9 = kv_line("postal_code"@, strip_spaces(r.postal_code@));
    let l10 = kv_line("area_code"@, dec_int(r.area_code as int));
    let l11 = kv_line("dma_code"@, dec_int(r.dma_code as int));
    let l12 = kv_line("offset"@, dec_int(r.offset as int));
    let l13 = kv_line("asn"@, dec_int(r.asn as int));
    let l14 = kv_line("longitude"@, strip_spaces(r.longitude@));
    let l15 = kv_line("latitude"@, strip_spaces(r.latitude@));
    lemma_kv_line_count("ip"@, strip_spaces(r.ip@));
    lemma_kv_line_count("country"@, strip_spaces(r.country@));
    lemma_kv_line_count("organization"@, strip_spaces(r.organization@));
    lemma_kv_line_count("timezone"@, strip_spaces(r.timezone@));
    lemma_kv_line_count("continent_code"@, strip_spaces(r.continent_code@));
    lemma_kv_line_count("country_code"@, strip_spaces(r.country_code@));
    lemma_kv_line_count("country_code3"@, strip_spaces(r.country_code3@));
    lemma_kv_line_count("region_code"@, strip_spaces(r.region_code@));
    lemma_kv_line_count("postal_code"@, strip_spaces(r.postal_code@));
    lemma_kv_line_count("area_code"@, dec_int(r.area_code as int));
    lemma_kv_line_count("dma_code"@, dec_int(r.dma_code as int));
    lemma_kv_line_count("offset"@, dec_int(r.offset as int));
    lemma_kv_line_count("asn"@, dec_int(r.asn as int));
    lemma_kv_line_count("longitude"@, strip_spaces(r.longitude@));
    lemma_kv_line_count("latitude"@, strip_spaces(r.latitude@));
    lemma_newline_count_concat(l1, l2);
    lemma_newline_count_concat(l1 + l2, l3);
    lemma_newline_count_concat(l1 + l2 + l3, l4);
    lemma_newline_count_concat(l1 + l2 + l3 + l4, l5);
    lemma_newline_count_concat(l1 + l2 + l3 + l4 + l5, l6);
    lemma_newline_count_concat(l1 + l2 + l3 + l4 + l5 + l6, l7);
    lemma_newline_count_concat(l1 + l2 + l3 + l4 + l5 + l6 + l7, l8);
    lemma_newline_count_concat(l1 + l2 + l3 + l4 + l5 + l6 + l7 + l8, l9);
    lemma_newline_count_concat(l1 + l2 + l3 + l4 + l5 + l6 + l7 + l8 + l9, l10);
    lemma_newline_count_concat(l1 + l2 + l3 + l4 + l5 + l6 + l7 + l8 + l9 + l10, l11);
    lemma_newline_count_concat(l1 + l2 + l3 + l4 + l5 + l6 + l7 + l8 + l9 + l10 + l11, l12);
    lemma_newline_count_concat(l1 + l2 + l3 + l4 + l5 + l6 + l7 + l8 + l9 + l10 + l11 + l12, l13);
    lemma_newline_count_concat(
        l1 + l2 + l3 + l4 + l5 + l6 + l7 + l8 + l9 + l10 + l11 + l12 + l13,
        l14,
    );
    lemma_newline_count_concat(
        l1 + l2 + l3 + l4 + l5 + l6 + l7 + l8 + l9 + l10 + l11 + l12 + l13 + l14,
        l15,
    );
    assert(block_of(r).last() == l15.last());
}

fn append_text_attr(out: &mut String, key: &str, value: &str)
    ensures
        final(out)@ == old(out)@ + kv_line(key@, strip_spaces(value@)),
{
    out.append(key);
    proof {
        reveal_strlit(":");
        reveal_strlit("\n");
    }
    out.append(":");
    let stripped = remove_spaces(value);
    out.append(stripped.as_str());
    out.append("\n");
    proof {
        assert(":"@ =~= seq![':']);
        assert("\n"@ =~= seq!['\n']);
        assert(out@ =~= old(out)@ + kv_line(key@, strip_spaces(value@)));
    }
}

fn append_num_attr(out: &mut String, key: &str, value: i32)
    ensures
        final(out)@ == old(out)@ + kv_line(key@, dec_int(value as int)),
{
    out.append(key);
    proof {
        reveal_strlit(":");
        reveal_strlit("\n");
    }
    out.append(":");
    let text = i32_to_decimal(value);
    out.append(text.as_str());
    out.append("\n");
    proof {
        assert(":"@ =~= seq![':']);
        assert("\n"@ =~= seq!['\n']);
        assert(out@ =~= old(out)@ + kv_line(key@, dec_int(value as int)));
    }
}

/// The file block for one record.
pub fn format_block(r: &GeoRecord) -> (out: String)
    ensures
        out@ == block_of(*r),
{
    let mut out = String::new();
    append_text_attr(&mut out, "ip", r.ip.as_str());
    append_text_attr(&mut out, "country", r.country.as_str());
    append_text_attr(&mut out, "organization", r.organization.as_str());
    append_text_attr(&mut out, "timezone", r.timezone.as_str());
    append_text_attr(&mut out, "continent_code", r.continent_code.as_str());
    append_text_attr(&mut out, "country_code", r.country_code.as_str());
    append_text_attr(&mut out, "country_code3", r.country_code3.as_str());
    append_text_attr(&mut out, "region_code", r.region_code.as_str());
    append_text_attr(&mut out, "postal_code", r.postal_code.as_str());
    append_num_attr(&mut out, "area_code", r.area_code);
    append_num_attr(&mut out, "dma_code", r.dma_code);
    append_num_attr(&mut out, "offset", r.offset);
    append_num_attr(&mut out, "asn", r.asn);
    append_text_attr(&mut out, "longitude", r.longitude.as_str());
    append_text_attr(&mut out, "latitude", r.latitude.as_str());
    proof {
        assert(out@ =~= block_of(*r));
    }
    out
}

/// The blocks of a batch of records, in order.
pub open spec fn concat_blocks(recs: Seq<GeoRecord>) -> Seq<char>
    decreases recs.len(),
{
    if recs.len() == 0 {
        Seq::empty()
    } else {
        concat_blocks(recs.drop_last()) + block_of(recs.last())
    }
}

/// A batch of single-line records yields fifteen lines per record.
pub proof fn lemma_batch_is_fifteen_lines_each(recs: Seq<GeoRecord>)
    requires
        forall|i: int| 0 <= i < recs.len() ==> recs[i].single_line(),
    ensures
        newline_count(concat_blocks(recs)) == 15 * recs.len(),
    decreases recs.len(),
{
    if recs.len() > 0 {
        lemma_batch_is_fifteen_lines_each(recs.drop_last());
        lemma_block_is_fifteen_lines(recs.last());
        lemma_newline_count_concat(concat_blocks(recs.drop_last()), block_of(recs.last()));
    }
}

/// The file renderer. `path` is the configured output path, if any; `content`
/// models the text this renderer has issued for appending since it was
/// created, in order. Blocks are only ever added after prior content.
pub struct FileRenderer {
    pub path: Option<String>,
    pub content: String,
}

impl FileRenderer {
    pub open spec fn enabled(self) -> bool {
        self.path is Some
    }

    pub fn new(path: Option<String>) -> (r: Self)
        ensures
            r.path == path,
            r.content@ == Seq::<char>::empty(),
    {
        FileRenderer { path, content: String::new() }
    }

    /// Append one record: the block is added after everything issued before,
    /// and handed back so the caller can write it out. Only callable when an
    /// output path is configured.
    pub fn append(&mut self, rec: &GeoRecord) -> (block: String)
        requires
            old(self).enabled(),
        ensures
            block@ == block_of(*rec),
            final(self).content@ == old(self).content@ + block_of(*rec),
            final(self).path == old(self).path,
    {
        let block = format_block(rec);
        self.content.append(block.as_str());
        block
    }

    /// Append a batch of records: one block per record, in call order, each
    /// added after the prior content.
    pub fn append_all(&mut self, recs: &Vec<GeoRecord>) -> (blocks: Vec<String>)
        requires
            old(self).enabled(),
        ensures
            final(self).content@ == old(self).content@ + concat_blocks(recs@),
            final(self).path == old(self).path,
            blocks@.len() == recs@.len(),
            forall|i: int| 0 <= i < recs@.len() ==> blocks@[i]@ == block_of(recs@[i]),
    {
        let mut blocks: Vec<String> = Vec::new();
        let n = recs.len();
        let mut i: usize = 0;
        while i < n
            invariant
                n == recs@.len(),
                i <= n,
                old(self).enabled(),
                self.enabled(),
                self.path == old(self).path,
                self.content@ == old(self).content@ + concat_blocks(recs@.take(i as int)),
                blocks@.len() == i,
                forall|j: int| 0 <= j < i ==> blocks@[j]@ == block_of(recs@[j]),
            decreases n - i,
        {
            let block = self.append(&recs[i]);
            blocks.push(block);
            proof {
                assert(recs@.take(i + 1).drop_last() =~= recs@.take(i as int));
                assert(recs@.take(i + 1).last() == recs@[i as int]);
            }
            i = i + 1;
        }
        proof {
            assert(recs@.take(n as int) =~= recs@);
        }
        blocks
    }
}

} // verus!
