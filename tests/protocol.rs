use dnsupdate::cloudflare::{Action, CloudflareExchange, ProtocolError, Stage};
use dnsupdate::config::{config_candidates, first_present};
use dnsupdate::domain::{decompose, from_parts, DecomposedDomain, DecompositionError, SuffixSplit};
use dnsupdate::reply::read_reply;
use dnsupdate::report::{progress_line, Backend, Outcome, Progress};
use dnsupdate::ydns::{outcome_for_status, update_url};

fn s(x: &str) -> String {
    x.to_string()
}

fn home() -> DecomposedDomain {
    DecomposedDomain {
        label: Some(s("home")),
        registrable_domain: s("example"),
        public_suffix: s("co.uk"),
    }
}

#[test]
fn decompose_home_example_co_uk() {
    let d = decompose("home.example.co.uk").unwrap();
    assert_eq!(d, home());
    assert_eq!(d.full_name_string(), "home.example.co.uk");
    assert_eq!(d.apex_name(), "example.co.uk");
}

#[test]
fn decompose_apex_has_no_label() {
    let d = decompose("example.com").unwrap();
    assert_eq!(d.label, None);
    assert_eq!(d.registrable_domain, "example");
    assert_eq!(d.public_suffix, "com");
    assert_eq!(d.full_name_string(), "example.com");
}

#[test]
fn decompose_deep_label_reassembles() {
    let d = decompose("a.b.example.co.uk").unwrap();
    assert_eq!(d.label, Some(s("a.b")));
    assert_eq!(d.full_name_string(), "a.b.example.co.uk");
}

#[test]
fn decompose_unrecognized_suffix_fails() {
    assert_eq!(
        decompose("host.example.notarealsuffixzz").unwrap_err(),
        DecompositionError::UnrecognizedSuffix
    );
}

#[test]
fn decompose_suffix_alone_has_no_domain() {
    assert_eq!(decompose("co.uk").unwrap_err(), DecompositionError::NoRegistrableDomain);
}

#[test]
fn from_parts_errors() {
    let split = |a: Option<&str>, b: Option<&str>, c: Option<&str>| SuffixSplit {
        subdomain: a.map(s),
        domain: b.map(s),
        suffix: c.map(s),
    };
    assert_eq!(
        from_parts("x.example.com", split(Some("x"), Some("example"), None)).unwrap_err(),
        DecompositionError::UnrecognizedSuffix
    );
    assert_eq!(
        from_parts("com", split(None, None, Some("com"))).unwrap_err(),
        DecompositionError::NoRegistrableDomain
    );
    assert_eq!(
        from_parts("x.example.com.", split(Some("x"), Some("example"), Some("com"))).unwrap_err(),
        DecompositionError::Mismatch
    );
    let d = from_parts("x.example.com", split(Some("x"), Some("example"), Some("com"))).unwrap();
    assert_eq!(d.label, Some(s("x")));
}

#[test]
fn zone_request_url() {
    let ex = CloudflareExchange::new(home(), s("203.0.113.5"));
    assert_eq!(
        ex.zone_request(),
        Action::Get(s(
            "https://api.cloudflare.com/client/v4/zones?name=example.co.uk&status=active&per_page=1&page=1"
        ))
    );
}

#[test]
fn empty_zone_lookup_skips() {
    let mut ex = CloudflareExchange::new(home(), s("203.0.113.5"));
    let r = ex.feed(r#"{"result":[],"success":true}"#);
    assert_eq!(r, Ok(Action::Finish(Outcome::Skipped)));
    assert_eq!(ex.stage, Stage::Done);
}

#[test]
fn cname_record_skips() {
    let mut ex = CloudflareExchange::new(home(), s("203.0.113.5"));
    ex.feed(r#"{"result":[{"id":"z1"}]}"#).unwrap();
    let r = ex.feed(r#"{"result":[{"id":"r1","type":"CNAME","proxied":false}]}"#);
    assert_eq!(r, Ok(Action::Finish(Outcome::Skipped)));
    assert_eq!(ex.stage, Stage::Done);
}

#[test]
fn missing_record_skips() {
    let mut ex = CloudflareExchange::new(home(), s("203.0.113.5"));
    ex.feed(r#"{"result":[{"id":"z1"}]}"#).unwrap();
    assert_eq!(ex.feed(r#"{"result":[]}"#), Ok(Action::Finish(Outcome::Skipped)));
}

#[test]
fn proxied_a_record_is_updated() {
    let mut ex = CloudflareExchange::new(home(), s("203.0.113.5"));
    let r = ex.feed(r#"{"result":[{"id":"z1","name":"example.co.uk"}],"success":true}"#);
    assert_eq!(
        r,
        Ok(Action::Get(s(
            "https://api.cloudflare.com/client/v4/zones/z1/dns_records?name=home.example.co.uk"
        )))
    );
    assert_eq!(ex.stage, Stage::Record(s("z1")));
    let r = ex.feed(r#"{"result":[{"id":"r1","type":"A","name":"home.example.co.uk","proxied":true,"content":"198.51.100.1"}]}"#);
    let (url, body) = match r {
        Ok(Action::Put(url, body)) => (url, body),
        other => panic!("expected an update, got {:?}", other),
    };
    assert_eq!(url, "https://api.cloudflare.com/client/v4/zones/z1/dns_records/r1");
    assert_eq!(
        body,
        r#"{"id":"r1","content":"203.0.113.5","type":"A","name":"home.example.co.uk","proxied":true}"#
    );
    assert!(body.contains(r#""proxied":true"#));
    assert_eq!(ex.feed(r#"{"success":true}"#), Ok(Action::Finish(Outcome::Success)));
}

#[test]
fn aaaa_record_keeps_unproxied_flag() {
    let mut ex = CloudflareExchange::new(home(), s("2001:db8::1"));
    ex.feed(r#"{"result":[{"id":"z1"}]}"#).unwrap();
    match ex.feed(r#"{"result":[{"id":"r2","type":"AAAA","name":"home.example.co.uk","proxied":false}]}"#) {
        Ok(Action::Put(_, body)) => assert_eq!(
            body,
            r#"{"id":"r2","content":"2001:db8::1","type":"A","name":"home.example.co.uk","proxied":false}"#
        ),
        other => panic!("expected an update, got {:?}", other),
    }
}

#[test]
fn rejected_update_fails() {
    let mut ex = CloudflareExchange::new(home(), s("203.0.113.5"));
    ex.feed(r#"{"result":[{"id":"z1"}]}"#).unwrap();
    ex.feed(r#"{"result":[{"id":"r1","type":"A","name":"home.example.co.uk","proxied":false}]}"#).unwrap();
    assert_eq!(ex.feed(r#"{"success":false}"#), Ok(Action::Finish(Outcome::Fail)));
}

#[test]
fn protocol_errors() {
    let mut ex = CloudflareExchange::new(home(), s("203.0.113.5"));
    assert_eq!(ex.feed("not json"), Err(ProtocolError::Unparsable));
    let mut ex = CloudflareExchange::new(home(), s("203.0.113.5"));
    assert_eq!(ex.feed(r#"{"result":[{"name":"x"}]}"#), Err(ProtocolError::MissingField));
    let mut ex = CloudflareExchange::new(home(), s("203.0.113.5"));
    ex.feed(r#"{"result":[{"id":"z1"}]}"#).unwrap();
    assert_eq!(
        ex.feed(r#"{"result":[{"id":"r1","type":"A"}]}"#),
        Err(ProtocolError::MissingField)
    );
    let mut ex = CloudflareExchange::new(home(), s("203.0.113.5"));
    ex.feed(r#"{"result":[{"id":"z1"}]}"#).unwrap();
    ex.feed(r#"{"result":[{"id":"r1","type":"A","name":"home.example.co.uk","proxied":true}]}"#).unwrap();
    assert_eq!(ex.feed(r#"{"errors":[]}"#), Err(ProtocolError::MissingField));
}

#[test]
fn read_reply_fields() {
    let r = read_reply(r#"{"result":[{"id":"r1","type":"A","name":"h.example.com","proxied":true},{"id":"r2"}],"success":false}"#).unwrap();
    assert_eq!(r.count, 2);
    assert_eq!(r.id, Some(s("r1")));
    assert_eq!(r.name, Some(s("h.example.com")));
    assert_eq!(r.kind, Some(s("A")));
    assert_eq!(r.proxied, Some(true));
    assert_eq!(r.success, Some(false));
    assert!(read_reply("{").is_err());
}

#[test]
fn ydns_unauthorized_fails() {
    assert_eq!(
        update_url("test.example.com", "203.0.113.5"),
        "https://ydns.io/api/v1/update/?host=test.example.com&ip=203.0.113.5"
    );
    assert_eq!(outcome_for_status(401), Outcome::Fail);
}

#[test]
fn ydns_success_only_on_200() {
    assert_eq!(outcome_for_status(200), Outcome::Success);
    assert_eq!(outcome_for_status(201), Outcome::Fail);
    assert_eq!(outcome_for_status(500), Outcome::Fail);
}

#[test]
fn progress_lines_follow_configured_order() {
    let mut p = Progress::new(Backend::Ydns, vec![s("a.example.com"), s("b.example.com")]);
    assert_eq!(p.next_subdomain(), Some(s("a.example.com")));
    assert_eq!(p.record(Outcome::Success), "[YDNS] Update a.example.com: Success");
    assert_eq!(p.next_subdomain(), Some(s("b.example.com")));
    assert_eq!(p.record(Outcome::Fail), "[YDNS] Update b.example.com: Fail");
    assert_eq!(p.next_subdomain(), None);
    assert_eq!(
        p.report(),
        vec![s("[YDNS] Update a.example.com: Success"), s("[YDNS] Update b.example.com: Fail")]
    );
}

#[test]
fn progress_line_format() {
    assert_eq!(
        progress_line(Backend::Cloudflare, "home.example.co.uk", Outcome::Skipped),
        "[Cloudflare] Update home.example.co.uk: Skipped"
    );
    let p = Progress::new(Backend::Cloudflare, vec![]);
    assert_eq!(p.next_subdomain(), None);
    assert!(p.report().is_empty());
}

#[test]
fn config_absent_everywhere() {
    assert_eq!(first_present(&vec![false, false, false]), None);
    assert_eq!(first_present(&vec![false, true, true]), Some(1));
    assert_eq!(
        config_candidates(),
        vec![s(".config.toml"), s("config.toml"), s("/etc/dnsupdate.toml")]
    );
}

#[test]
fn update_sends_back_the_records_own_name() {
    let mut ex = CloudflareExchange::new(home(), s("203.0.113.5"));
    ex.feed(r#"{"result":[{"id":"z1"}]}"#).unwrap();
    match ex.feed(r#"{"result":[{"id":"r1","type":"A","name":"Home.Example.co.uk","proxied":true}]}"#) {
        Ok(Action::Put(_, body)) => assert_eq!(
            body,
            r#"{"id":"r1","content":"203.0.113.5","type":"A","name":"Home.Example.co.uk","proxied":true}"#
        ),
        other => panic!("expected an update, got {:?}", other),
    }
}

#[test]
fn record_without_name_is_a_protocol_error() {
    let mut ex = CloudflareExchange::new(home(), s("203.0.113.5"));
    ex.feed(r#"{"result":[{"id":"z1"}]}"#).unwrap();
    assert_eq!(
        ex.feed(r#"{"result":[{"id":"r1","type":"A","proxied":true}]}"#),
        Err(ProtocolError::MissingField)
    );
}

#[test]
fn reply_reading_edge_cases() {
    let r = read_reply(r#"{"result":{"id":"x"},"success":"yes"}"#).unwrap();
    assert_eq!(r.count, 1);
    assert_eq!(r.id, None);
    assert_eq!(r.success, None);
    let r = read_reply(r#"[1,2,3]"#).unwrap();
    assert_eq!(r.count, 0);
    assert_eq!(r.kind, None);
    assert_eq!(r.proxied, None);
}
