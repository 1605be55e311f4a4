use klenkiven_toolkit::args::{log_level, LogLevel, RecordType};
use klenkiven_toolkit::cloudfare_api_idl::{
    CloudfareRecordsResponse, CloudfareUpdateRecordRequest, CloudfareZonesResponse, RecordResult,
    ZonesResult,
};
use klenkiven_toolkit::cloudfare_ddns::{
    bearer_token, check_fqdn_record, home_directory, ip_endpoint, ip_eq_ignore_ascii_case, is_success_status,
    record_identifier, records_url, state_file_path, update_method, update_url, zone_identifier,
    zones_url, Action, DdnsRun, Event, HttpMethod, Outcome, Phase,
};
use klenkiven_toolkit::error::DdnsError;

fn zones_with(ids: &[&str]) -> CloudfareZonesResponse {
    let mut z = CloudfareZonesResponse::default();
    for id in ids {
        let mut r = ZonesResult::default();
        r.id = id.to_string();
        z.result.push(r);
    }
    z
}

fn records_with(ids: &[&str]) -> CloudfareRecordsResponse {
    let mut z = CloudfareRecordsResponse::default();
    for id in ids {
        let mut r = RecordResult::default();
        r.id = id.to_string();
        z.result.push(r);
    }
    z
}

fn start(force: bool) -> (DdnsRun, Action) {
    DdnsRun::new(
        bearer_token("T"),
        "example.org".to_string(),
        "home.example.org".to_string(),
        RecordType::A,
        3600,
        false,
        force,
        "/home/u".to_string(),
    )
}

fn is_finish(a: &Action, o: Outcome) -> bool {
    matches!(a, Action::Finish(x) if *x == o)
}

#[test]
fn fqdn_accepts_zone_itself() {
    assert_eq!(check_fqdn_record("example.org", "example.org"), Ok("example.org"));
}

#[test]
fn fqdn_accepts_subdomain() {
    assert_eq!(check_fqdn_record("example.org", "home.example.org"), Ok("home.example.org"));
}

#[test]
fn fqdn_rejects_other_names() {
    assert_eq!(check_fqdn_record("example.org", "home.example.com"), Err(DdnsError::Input));
    assert_eq!(check_fqdn_record("example.org", "org"), Err(DdnsError::Input));
    assert_eq!(check_fqdn_record("example.org", ""), Err(DdnsError::Input));
}

#[test]
fn fqdn_empty_zone_accepts_anything() {
    assert_eq!(check_fqdn_record("", "a.b"), Ok("a.b"));
}

#[test]
fn ip_comparison_ignores_ascii_case() {
    assert!(ip_eq_ignore_ascii_case("2408:8226:A103::1", "2408:8226:a103::1"));
    assert!(!ip_eq_ignore_ascii_case("1.2.3.4", "1.2.3.5"));
    assert!(!ip_eq_ignore_ascii_case("1.2.3.4", ""));
}

#[test]
fn endpoints_and_urls() {
    assert_eq!(ip_endpoint(RecordType::A), "http://4.ipw.cn");
    assert_eq!(ip_endpoint(RecordType::AAAA), "http://6.ipw.cn");
    assert_eq!(zones_url("example.org"), "https://api.cloudflare.com/client/v4/zones?name=example.org");
    assert_eq!(
        records_url("Z1", "home.example.org"),
        "https://api.cloudflare.com/client/v4/zones/Z1/dns_records?name=home.example.org"
    );
    assert_eq!(update_url("Z1", "R1"), "https://api.cloudflare.com/client/v4/zones/Z1/dns_records/R1");
    assert_eq!(update_url("Z1", ""), "https://api.cloudflare.com/client/v4/zones/Z1/dns_records/");
    assert_eq!(bearer_token("T"), "Bearer T");
}

#[test]
fn state_file_location() {
    assert_eq!(state_file_path("/home/u", "home.example.org"), "/home/u/.cf_old_wan_ip_home.example.org.txt");
    assert_eq!(home_directory(None), "~");
    assert_eq!(home_directory(Some("/root".to_string())), "/root");
}

#[test]
fn create_or_update_method() {
    assert_eq!(update_method(""), HttpMethod::Post);
    assert_eq!(update_method("R1"), HttpMethod::Put);
}

#[test]
fn identifiers_from_replies() {
    assert_eq!(zone_identifier(&zones_with(&["Z1", "Z2"])), Ok("Z1".to_string()));
    assert_eq!(zone_identifier(&zones_with(&[])), Err(DdnsError::Provider));
    assert_eq!(record_identifier(&records_with(&["R1"])), "R1");
    assert_eq!(record_identifier(&records_with(&[])), "");
}

#[test]
fn update_body_json() {
    let req = CloudfareUpdateRecordRequest {
        content: "1.2.3.4".to_string(),
        name: "home.example.org".to_string(),
        proxied: false,
        type_field: "A".to_string(),
        comment: "DDNS".to_string(),
        ttl: 3600,
    };
    assert_eq!(
        req.to_json(),
        "{\"content\":\"1.2.3.4\",\"name\":\"home.example.org\",\"proxied\":false,\"type\":\"A\",\"comment\":\"DDNS\",\"ttl\":3600}"
    );
}

#[test]
fn update_body_escapes_and_negative_ttl() {
    let req = CloudfareUpdateRecordRequest {
        content: "a\"b\\c\n".to_string(),
        name: "x".to_string(),
        proxied: true,
        type_field: "AAAA".to_string(),
        comment: "DDNS".to_string(),
        ttl: -5,
    };
    assert_eq!(
        req.to_json(),
        "{\"content\":\"a\\\"b\\\\c\\n\",\"name\":\"x\",\"proxied\":true,\"type\":\"AAAA\",\"comment\":\"DDNS\",\"ttl\":-5}"
    );
}

#[test]
fn update_body_escapes_controls() {
    let req = CloudfareUpdateRecordRequest {
        content: "\u{1}\u{8}\u{c}\r\u{1f}\u{e9}".to_string(),
        name: "n".to_string(),
        proxied: false,
        type_field: "A".to_string(),
        comment: "DDNS".to_string(),
        ttl: i64::MIN,
    };
    assert_eq!(
        req.to_json(),
        "{\"content\":\"\\u0001\\b\\f\\r\\u001f\u{e9}\",\"name\":\"n\",\"proxied\":false,\"type\":\"A\",\"comment\":\"DDNS\",\"ttl\":-9223372036854775808}"
    );
}

#[test]
fn ip_body_trims_unicode_white_space() {
    let (mut run, _) = start(false);
    run.step(Event::IpFetched(Ok("\u{3000}\u{a0}1.2.3.4\u{2028}\u{85}".to_string())));
    assert_eq!(run.current_ip, "1.2.3.4");
}

#[test]
fn update_body_round_trip() {
    let req = CloudfareUpdateRecordRequest {
        content: "2408:8226::\"1\u{e9}".to_string(),
        name: "h\\.example.org".to_string(),
        proxied: true,
        type_field: "AAAA".to_string(),
        comment: "DDNS\t".to_string(),
        ttl: 86400,
    };
    let body = req.to_json();
    let v: serde_json::Value = serde_json::from_str(&body).unwrap();
    assert_eq!(v["content"].as_str(), Some(req.content.as_str()));
    assert_eq!(v["name"].as_str(), Some(req.name.as_str()));
    assert_eq!(v["proxied"].as_bool(), Some(true));
    assert_eq!(v["type"].as_str(), Some("AAAA"));
    assert_eq!(v["comment"].as_str(), Some("DDNS\t"));
    assert_eq!(v["ttl"].as_i64(), Some(86400));
    assert_eq!(v.as_object().unwrap().len(), 6);
}

#[test]
fn unchanged_address_makes_no_provider_call() {
    let (mut run, a) = start(false);
    assert!(matches!(a, Action::FetchIp { ref url } if url == "http://4.ipw.cn"));
    let a = run.step(Event::IpFetched(Ok("1.2.3.4\n".to_string())));
    assert!(matches!(a, Action::ReadOldIp { ref path } if path == "/home/u/.cf_old_wan_ip_home.example.org.txt"));
    let a = run.step(Event::OldIpRead("1.2.3.4".to_string()));
    assert!(is_finish(&a, Outcome::Unchanged));
    assert_eq!(Outcome::Unchanged.exit_code(), 0);
    assert_eq!(run.phase, Phase::Done);
}

#[test]
fn unchanged_ipv6_address_differs_only_in_case() {
    let (mut run, _) = DdnsRun::new(
        bearer_token("T"),
        "example.org".to_string(),
        "example.org".to_string(),
        RecordType::AAAA,
        3600,
        false,
        false,
        "~".to_string(),
    );
    run.step(Event::IpFetched(Ok("fe80::ABCD".to_string())));
    let a = run.step(Event::OldIpRead("FE80::abcd".to_string()));
    assert!(is_finish(&a, Outcome::Unchanged));
}

#[test]
fn forced_run_calls_provider_even_when_unchanged() {
    let (mut run, _) = start(true);
    run.step(Event::IpFetched(Ok("1.2.3.4".to_string())));
    let a = run.step(Event::OldIpRead("1.2.3.4".to_string()));
    match a {
        Action::Request(q) => {
            assert_eq!(q.method, HttpMethod::Get);
            assert_eq!(q.url, "https://api.cloudflare.com/client/v4/zones?name=example.org");
            assert_eq!(q.authorization, "Bearer T");
            assert!(q.body.is_none());
        }
        _ => panic!("expected a zone lookup"),
    }
    assert_eq!(run.phase, Phase::AwaitZone);
}

#[test]
fn bad_record_name_is_input_error() {
    let (mut run, _) = DdnsRun::new(
        bearer_token("T"),
        "example.org".to_string(),
        "home.example.com".to_string(),
        RecordType::A,
        3600,
        false,
        false,
        "~".to_string(),
    );
    let a = run.step(Event::IpFetched(Ok("1.2.3.4".to_string())));
    assert!(is_finish(&a, Outcome::Failed(DdnsError::Input)));
    assert_eq!(Outcome::Failed(DdnsError::Input).exit_code(), 2);
}

#[test]
fn address_service_failure_aborts() {
    let (mut run, _) = start(false);
    let a = run.step(Event::IpFetched(Err(DdnsError::Network)));
    assert!(is_finish(&a, Outcome::Failed(DdnsError::Network)));
    assert!(!run.accepts(&Event::OldIpRead(String::new())));
}

#[test]
fn new_record_is_created() {
    let (mut run, _) = start(false);
    run.step(Event::IpFetched(Ok("1.2.3.4".to_string())));
    run.step(Event::OldIpRead(String::new()));
    let a = run.step(Event::ZonesFetched(Ok(zones_with(&["Z1"]))));
    match a {
        Action::Request(q) => {
            assert_eq!(q.method, HttpMethod::Get);
            assert_eq!(q.url, "https://api.cloudflare.com/client/v4/zones/Z1/dns_records?name=home.example.org");
        }
        _ => panic!("expected a record lookup"),
    }
    assert!(run.accepts(&Event::RecordsFetched(Err(DdnsError::Network))));
    let a = run.step(Event::RecordsFetched(Ok(records_with(&[]))));
    match a {
        Action::Request(q) => {
            assert_eq!(q.method, HttpMethod::Post);
            assert_eq!(q.url, "https://api.cloudflare.com/client/v4/zones/Z1/dns_records/");
            assert_eq!(q.authorization, "Bearer T");
            assert_eq!(
                q.body.as_deref(),
                Some("{\"content\":\"1.2.3.4\",\"name\":\"home.example.org\",\"proxied\":false,\"type\":\"A\",\"comment\":\"DDNS\",\"ttl\":3600}")
            );
        }
        _ => panic!("expected a create call"),
    }
    let a = run.step(Event::UpdateSent(Ok(200)));
    assert!(is_finish(&a, Outcome::Updated));
    assert_eq!(Outcome::Updated.exit_code(), 0);
}

#[test]
fn existing_record_is_updated() {
    let (mut run, _) = start(false);
    run.step(Event::IpFetched(Ok("5.6.7.8".to_string())));
    run.step(Event::OldIpRead("1.2.3.4".to_string()));
    run.step(Event::ZonesFetched(Ok(zones_with(&["Z1"]))));
    let a = run.step(Event::RecordsFetched(Ok(records_with(&["R9", "R10"]))));
    match a {
        Action::Request(q) => {
            assert_eq!(q.method, HttpMethod::Put);
            assert_eq!(q.url, "https://api.cloudflare.com/client/v4/zones/Z1/dns_records/R9");
        }
        _ => panic!("expected an update call"),
    }
    let a = run.step(Event::UpdateSent(Err(DdnsError::Network)));
    assert!(is_finish(&a, Outcome::Failed(DdnsError::Network)));
}

#[test]
fn refused_update_is_provider_error() {
    let (mut run, _) = start(false);
    run.step(Event::IpFetched(Ok(" \t5.6.7.8\r\n".to_string())));
    assert_eq!(run.current_ip, "5.6.7.8");
    run.step(Event::OldIpRead("1.2.3.4".to_string()));
    run.step(Event::ZonesFetched(Ok(zones_with(&["Z1"]))));
    run.step(Event::RecordsFetched(Ok(records_with(&["R9"]))));
    let a = run.step(Event::UpdateSent(Ok(403)));
    assert!(is_finish(&a, Outcome::Failed(DdnsError::Provider)));
    assert_eq!(Outcome::Failed(DdnsError::Provider).exit_code(), 2);
}

#[test]
fn success_statuses() {
    assert!(is_success_status(200));
    assert!(is_success_status(299));
    assert!(!is_success_status(199));
    assert!(!is_success_status(300));
    assert!(!is_success_status(500));
}

#[test]
fn empty_zone_lookup_aborts_before_record_lookup() {
    let (mut run, _) = start(false);
    run.step(Event::IpFetched(Ok("1.2.3.4".to_string())));
    run.step(Event::OldIpRead(String::new()));
    let a = run.step(Event::ZonesFetched(Ok(zones_with(&[]))));
    assert!(is_finish(&a, Outcome::Failed(DdnsError::Provider)));
    assert_eq!(Outcome::Failed(DdnsError::Provider).exit_code(), 2);
    assert_eq!(run.phase, Phase::Done);
    assert!(!run.accepts(&Event::RecordsFetched(Ok(records_with(&[])))));
}

#[test]
fn unparsable_reply_aborts() {
    let (mut run, _) = start(false);
    run.step(Event::IpFetched(Ok("1.2.3.4".to_string())));
    run.step(Event::OldIpRead(String::new()));
    let a = run.step(Event::ZonesFetched(Err(DdnsError::Parse)));
    assert!(is_finish(&a, Outcome::Failed(DdnsError::Parse)));
}

#[test]
fn error_messages() {
    assert_eq!(DdnsError::Input.message(), "Hostname is not a FQDN, please try again");
    assert_eq!(DdnsError::Network.message(), "request to a remote service failed");
    assert_eq!(
        DdnsError::Provider.message(),
        "provider returned no zone of that name, or refused the update"
    );
}

#[test]
fn log_levels() {
    assert_eq!(log_level(0), LogLevel::Info);
    assert_eq!(log_level(1), LogLevel::Trace);
    assert_eq!(log_level(2), LogLevel::Trace);
    assert_eq!(log_level(3), LogLevel::Info);
    assert_eq!(RecordType::AAAA.tag(), "AAAA");
}
