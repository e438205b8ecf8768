use ipfetch::dispatch::{Action, Dispatcher, ErrorKind, Event, Outcome};
use ipfetch::file::format_block;
use ipfetch::flag::flag_url;
use ipfetch::record::GeoRecord;
use ipfetch::resolve::{accept_response, build_specifiers, Specifier};
use ipfetch::table::terminal_output;

fn record_for(ip: &str) -> GeoRecord {
    GeoRecord {
        ip: String::from(ip),
        country: String::from("United States"),
        organization: String::from("Example Org"),
        timezone: String::from("UTC"),
        continent_code: String::from("NA"),
        country_code: String::from("US"),
        country_code3: String::from("USA"),
        region_code: String::from(""),
        postal_code: String::from(""),
        area_code: 0,
        dma_code: 0,
        offset: 0,
        asn: 1,
        longitude: String::from("0"),
        latitude: String::from("0"),
    }
}

#[test]
fn partial_failure_keeps_order_and_continues() {
    let mut d = Dispatcher::new(None);
    // First specifier resolves and renders.
    let a = d.step(Event::Resolved(record_for("1.1.1.1")));
    assert!(matches!(a, Action::FetchFlag(_)));
    let a = d.step(Event::FlagFetched(String::from("FLAG1")));
    assert!(matches!(a, Action::Show(_)));
    // Second specifier fails resolution; processing continues.
    let a = d.step(Event::ResolveFailed);
    assert!(matches!(a, Action::Settled));
    // Third specifier resolves and renders.
    let a = d.step(Event::Resolved(record_for("3.3.3.3")));
    assert!(matches!(a, Action::FetchFlag(_)));
    let a = d.step(Event::FlagFetched(String::from("FLAG3")));
    assert!(matches!(a, Action::Show(_)));
    assert_eq!(
        d.outcomes,
        vec![
            Outcome::Rendered,
            Outcome::Failed(ErrorKind::Resolution),
            Outcome::Rendered,
        ]
    );
}

#[test]
fn no_output_path_means_no_append_and_no_confirmation() {
    let mut d = Dispatcher::new(None);
    let a = d.step(Event::Resolved(record_for("1.1.1.1")));
    assert!(!matches!(a, Action::AppendBlock(_)));
    let a = d.step(Event::FlagFetched(String::from("FLAG")));
    assert!(matches!(a, Action::Show(_)));
    assert_eq!(d.file.content, "");
    assert!(d.confirmation().is_none());
}

#[test]
fn output_path_appends_before_rendering() {
    let mut d = Dispatcher::new(Some(String::from("geo.txt")));
    let rec = record_for("2.2.2.2");
    let a = d.step(Event::Resolved(record_for("2.2.2.2")));
    match a {
        Action::AppendBlock(block) => assert_eq!(block, format_block(&rec)),
        _ => panic!("expected an append before any rendering"),
    }
    let a = d.step(Event::Appended);
    match a {
        Action::FetchFlag(url) => assert_eq!(url, flag_url("United States")),
        _ => panic!("expected the flag fetch after the append"),
    }
    let a = d.step(Event::FlagFetched(String::from("FLAG")));
    match a {
        Action::Show(text) => assert_eq!(text, terminal_output("FLAG", &rec)),
        _ => panic!("expected the terminal output last"),
    }
    assert_eq!(d.outcomes, vec![Outcome::Rendered]);
    assert_eq!(d.file.content, format_block(&rec));
    assert_eq!(
        d.confirmation().as_deref(),
        Some("\nOutput written to file: geo.txt")
    );
}

#[test]
fn write_failure_settles_without_rendering() {
    let mut d = Dispatcher::new(Some(String::from("geo.txt")));
    let a = d.step(Event::Resolved(record_for("2.2.2.2")));
    assert!(matches!(a, Action::AppendBlock(_)));
    let a = d.step(Event::AppendFailed);
    assert!(matches!(a, Action::Settled));
    assert_eq!(d.outcomes, vec![Outcome::Failed(ErrorKind::FileWrite)]);
}

#[test]
fn flag_failure_aborts_the_table_but_not_the_append() {
    let mut d = Dispatcher::new(Some(String::from("geo.txt")));
    let rec = record_for("2.2.2.2");
    let a = d.step(Event::Resolved(record_for("2.2.2.2")));
    assert!(matches!(a, Action::AppendBlock(_)));
    let a = d.step(Event::Appended);
    assert!(matches!(a, Action::FetchFlag(_)));
    let a = d.step(Event::FlagFailed);
    assert!(matches!(a, Action::Settled));
    assert_eq!(d.outcomes, vec![Outcome::Failed(ErrorKind::FlagFetch)]);
    // The block already issued for the file stays.
    assert_eq!(d.file.content, format_block(&rec));
}

#[test]
fn responses_resolve_exactly_when_they_name_an_address() {
    let ok = accept_response(record_for("9.9.9.9"));
    match ok {
        Ok(rec) => assert!(!rec.ip.is_empty()),
        Err(_) => panic!("a response naming an address must resolve"),
    }
    let rejected = accept_response(record_for(""));
    match rejected {
        Ok(_) => panic!("a response without an address must be rejected"),
        Err(kind) => assert_eq!(kind, ErrorKind::Resolution),
    }
}

#[test]
fn specifiers_keep_the_request_order() {
    let ips = vec![String::from("1.1.1.1"), String::from("2.2.2.2")];
    let specs = build_specifiers(true, true, true, ips);
    assert_eq!(
        specs,
        vec![
            Specifier::CallerAny,
            Specifier::CallerV4,
            Specifier::CallerV6,
            Specifier::Explicit(String::from("1.1.1.1")),
            Specifier::Explicit(String::from("2.2.2.2")),
        ]
    );
    let specs = build_specifiers(false, false, false, vec![String::from("8.8.8.8")]);
    assert_eq!(specs, vec![Specifier::Explicit(String::from("8.8.8.8"))]);
    let specs = build_specifiers(false, true, false, Vec::new());
    assert_eq!(specs, vec![Specifier::CallerV4]);
}
