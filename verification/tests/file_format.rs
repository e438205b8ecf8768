use ipfetch::file::{format_block, FileRenderer};
use ipfetch::num::i32_to_decimal;
use ipfetch::record::GeoRecord;

fn sample_record() -> GeoRecord {
    GeoRecord {
        ip: String::from("208.67.222.222"),
        country: String::from("United States"),
        organization: String::from("Cisco OpenDNS, LLC"),
        timezone: String::from("America/Los_Angeles"),
        continent_code: String::from("NA"),
        country_code: String::from("US"),
        country_code3: String::from("USA"),
        region_code: String::from("CA"),
        postal_code: String::from("94105"),
        area_code: 0,
        dma_code: 807,
        offset: -8,
        asn: 36692,
        longitude: String::from("-122.3971"),
        latitude: String::from("37.7697"),
    }
}

#[test]
fn block_has_fixed_keys_and_stripped_values() {
    let block = format_block(&sample_record());
    let expected = "ip:208.67.222.222\n\
                    country:UnitedStates\n\
                    organization:CiscoOpenDNS,LLC\n\
                    timezone:America/Los_Angeles\n\
                    continent_code:NA\n\
                    country_code:US\n\
                    country_code3:USA\n\
                    region_code:CA\n\
                    postal_code:94105\n\
                    area_code:0\n\
                    dma_code:807\n\
                    offset:-8\n\
                    asn:36692\n\
                    longitude:-122.3971\n\
                    latitude:37.7697\n";
    assert_eq!(block, expected);
}

#[test]
fn block_strips_spaces_inside_values() {
    let mut rec = sample_record();
    rec.organization = String::from("Example Org");
    let block = format_block(&rec);
    assert!(block.contains("organization:ExampleOrg\n"));
    assert!(!block.contains("organization:Example Org"));
}

#[test]
fn block_is_fifteen_newline_terminated_lines() {
    let block = format_block(&sample_record());
    assert_eq!(block.chars().filter(|c| *c == '\n').count(), 15);
    assert!(block.ends_with('\n'));
    assert_eq!(block.lines().count(), 15);
}

#[test]
fn append_accumulates_blocks_in_call_order() {
    let mut renderer = FileRenderer::new(Some(String::from("out.txt")));
    assert_eq!(renderer.content, "");
    let first = sample_record();
    let mut second = sample_record();
    second.ip = String::from("1.1.1.1");
    let block_a = renderer.append(&first);
    let after_one = renderer.content.clone();
    let block_b = renderer.append(&second);
    assert_eq!(block_a, format_block(&first));
    assert_eq!(block_b, format_block(&second));
    assert!(renderer.content.starts_with(&after_one));
    let mut joined = format_block(&first);
    joined.push_str(&format_block(&second));
    assert_eq!(renderer.content, joined);
    assert_eq!(renderer.content.chars().filter(|c| *c == '\n').count(), 30);
}

#[test]
fn append_all_yields_one_block_per_record() {
    let mut renderer = FileRenderer::new(Some(String::from("out.txt")));
    let mut recs = Vec::new();
    for i in 0..3 {
        let mut rec = sample_record();
        rec.asn = i;
        recs.push(rec);
    }
    let blocks = renderer.append_all(&recs);
    assert_eq!(blocks.len(), 3);
    let mut joined = String::new();
    for (i, block) in blocks.iter().enumerate() {
        assert_eq!(*block, format_block(&recs[i]));
        joined.push_str(block);
    }
    assert_eq!(renderer.content, joined);
    assert_eq!(renderer.content.chars().filter(|c| *c == '\n').count(), 45);
}

#[test]
fn decimal_rendering_matches_std() {
    for value in [0, 1, -1, 9, 10, -10, 807, -3600, i32::MAX, i32::MIN] {
        assert_eq!(i32_to_decimal(value), value.to_string());
    }
}
