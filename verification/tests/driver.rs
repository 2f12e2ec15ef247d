use geolookup::api::{any_success, lookup_all, lookup_reply, ProviderOutcome};
use geolookup::http::Reply;
use geolookup::ip::shuffled_order;
use geolookup::lookup::{lookup_with_geolocated, lookup_with_ipapi};
use geolookup::{get_public_ip_addr, lookup, LookupProvider, LookupResult};

fn answer(status: u16, body: &str) -> Reply {
    Reply::Answer { status, body: body.to_string() }
}

fn catalogue() -> Vec<LookupProvider> {
    vec![
        LookupProvider::IpApi,
        LookupProvider::IpInfo,
        LookupProvider::IpSb,
        LookupProvider::IpApiIo,
        LookupProvider::ApipCc,
        LookupProvider::IpapiIs,
        LookupProvider::Geolocated,
        LookupProvider::IpLocationApi,
    ]
}

#[test]
fn catalogue_order_is_fixed() {
    assert_eq!(LookupProvider::all().to_vec(), catalogue());
    let first = LookupProvider::all().to_vec();
    let _ = get_public_ip_addr(&vec![answer(200, "203.0.113.1")]);
    let _ = shuffled_order();
    let second = LookupProvider::all().to_vec();
    assert_eq!(first, second);
    assert_eq!(second.len(), 8);
}

#[test]
fn dispatch_reaches_each_normalizer() {
    let body = r#"{"status":"success","city":"Berlin","cityName":"Recife"}"#;
    assert_eq!(lookup(LookupProvider::IpApi, body), lookup_with_ipapi(body));
    assert_eq!(lookup(LookupProvider::Geolocated, body), lookup_with_geolocated(body));
    assert_eq!(lookup(LookupProvider::IpApi, body).unwrap().country.city, Some("Berlin".to_string()));
    assert_eq!(lookup(LookupProvider::Geolocated, body).unwrap().country.city, Some("Recife".to_string()));
    assert_eq!(lookup(LookupProvider::IpApiIo, body), None);
    assert_eq!(lookup(LookupProvider::IpapiIs, body), None);
    assert_eq!(lookup(LookupProvider::ApipCc, body).unwrap().country.city, None);
    for provider in catalogue() {
        assert_eq!(lookup(provider, "<html>"), None);
    }
}

#[test]
fn reply_without_a_usable_body_gives_nothing() {
    for provider in catalogue() {
        assert_eq!(lookup_reply(provider, &Reply::Unreachable), None);
        assert_eq!(lookup_reply(provider, &answer(503, "{}")), None);
        assert_eq!(lookup_reply(provider, &answer(200, "oops")), None);
    }
    assert_eq!(lookup_reply(LookupProvider::IpSb, &answer(200, "{}")), Some(LookupResult::default()));
}

#[test]
fn provider_urls() {
    assert_eq!(LookupProvider::IpApi.url(""), "http://ip-api.com/json/");
    assert_eq!(LookupProvider::IpInfo.url(""), "https://ipinfo.io/json");
    assert_eq!(LookupProvider::IpSb.url("203.0.113.1"), "https://api.ip.sb/geoip");
    assert_eq!(LookupProvider::IpApiIo.url(""), "https://ip-api.io/api/v1/ip");
    assert_eq!(LookupProvider::ApipCc.url("203.0.113.1"), "https://apip.cc/api-json/203.0.113.1");
    assert_eq!(LookupProvider::IpapiIs.url(""), "https://api.ipapi.is");
    assert_eq!(LookupProvider::Geolocated.url(""), "https://us-west-1.geolocated.io/where-am-i");
    assert_eq!(LookupProvider::IpLocationApi.url(""), "https://api.iplocationapi.net/api/self-lookup");
    for provider in catalogue() {
        assert_eq!(provider.needs_address(), provider == LookupProvider::ApipCc);
    }
}

#[test]
fn report_follows_the_catalogue_whatever_fails() {
    let replies = vec![
        answer(200, r#"{"status":"fail"}"#),
        answer(200, r#"{"city":"Lyon"}"#),
        Reply::Unreachable,
        answer(200, r#"{"ip":"192.0.2.90"}"#),
        answer(500, r#"{"status":"success"}"#),
        answer(200, "not json"),
        answer(200, r#"{"cityName":"Recife"}"#),
    ];
    let report = lookup_all(&replies);
    assert_eq!(report.len(), 8);
    for (i, outcome) in report.iter().enumerate() {
        assert_eq!(outcome.provider, catalogue()[i]);
    }
    let present: Vec<bool> = report.iter().map(|o| o.result.is_some()).collect();
    assert_eq!(present, vec![false, true, false, false, false, false, true, false]);
    assert_eq!(report[1].result.as_ref().unwrap().country.city, Some("Lyon".to_string()));
    assert_eq!(report[6].result.as_ref().unwrap().country.city, Some("Recife".to_string()));
    assert!(any_success(&report));
}

#[test]
fn aggregate_flag_is_set_by_one_record() {
    for winner in 0..8usize {
        let mut replies: Vec<Reply> = Vec::new();
        for i in 0..8usize {
            if i == winner {
                replies.push(answer(
                    200,
                    r#"{"status":"success","location":{},"asn":{},"ip":"192.0.2.1"}"#,
                ));
            } else {
                replies.push(Reply::Unreachable);
            }
        }
        let report = lookup_all(&replies);
        assert!(any_success(&report));
        for (i, outcome) in report.iter().enumerate() {
            assert_eq!(outcome.result.is_some(), i == winner);
        }
    }
}

#[test]
fn aggregate_flag_is_clear_when_all_fail() {
    let replies: Vec<Reply> = (0..8).map(|_| Reply::Unreachable).collect();
    let report = lookup_all(&replies);
    assert_eq!(report.len(), 8);
    assert!(!any_success(&report));
    assert!(!any_success(&lookup_all(&Vec::new())));
    assert!(!any_success(&Vec::new()));
    let lone = vec![ProviderOutcome { provider: LookupProvider::IpSb, result: None }];
    assert!(!any_success(&lone));
    let lone = vec![
        ProviderOutcome { provider: LookupProvider::IpSb, result: None },
        ProviderOutcome { provider: LookupProvider::IpInfo, result: Some(LookupResult::default()) },
    ];
    assert!(any_success(&lone));
}
