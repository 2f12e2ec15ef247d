use geolookup::get_public_ip_addr;
use geolookup::http::Reply;
use geolookup::ip::{
    endpoints, extract_address, non_empty, resolve_in_order, shuffled_order, ResponseShape,
};

fn answer(status: u16, body: &str) -> Reply {
    Reply::Answer { status, body: body.to_string() }
}

fn unreachable_all() -> Vec<Reply> {
    vec![Reply::Unreachable, Reply::Unreachable, Reply::Unreachable, Reply::Unreachable]
}

#[test]
fn endpoint_list_has_two_of_each_shape() {
    let list = endpoints();
    assert_eq!(list.len(), 4);
    assert_eq!(list[0].url, "https://icanhazip.com/");
    assert_eq!(list[1].url, "https://api.ip.sb/ip");
    assert_eq!(list[2].url, "https://api.ipsimple.org/ipv4?format=json");
    assert_eq!(list[3].url, "https://api.ipify.org/?format=json");
    assert_eq!(list[0].shape, ResponseShape::PlainText);
    assert_eq!(list[1].shape, ResponseShape::PlainText);
    assert_eq!(list[2].shape, ResponseShape::JsonIpField);
    assert_eq!(list[3].shape, ResponseShape::JsonIpField);
}

#[test]
fn plain_text_body_is_trimmed() {
    let r = extract_address(ResponseShape::PlainText, &answer(200, "  203.0.113.9\n"));
    assert_eq!(r, Some("203.0.113.9".to_string()));
}

#[test]
fn empty_or_blank_body_is_a_failure() {
    assert_eq!(extract_address(ResponseShape::PlainText, &answer(200, "")), None);
    assert_eq!(extract_address(ResponseShape::PlainText, &answer(200, " \n\t")), None);
    assert_eq!(extract_address(ResponseShape::JsonIpField, &answer(200, "")), None);
    assert_eq!(extract_address(ResponseShape::JsonIpField, &answer(200, r#"{"ip":""}"#)), None);
}

#[test]
fn json_body_yields_its_ip_member() {
    let r = extract_address(ResponseShape::JsonIpField, &answer(200, r#"{"ip":"203.0.113.10"}"#));
    assert_eq!(r, Some("203.0.113.10".to_string()));
}

#[test]
fn json_body_without_a_string_ip_is_a_failure() {
    assert_eq!(extract_address(ResponseShape::JsonIpField, &answer(200, r#"{"addr":"203.0.113.10"}"#)), None);
    assert_eq!(extract_address(ResponseShape::JsonIpField, &answer(200, r#"{"ip":17}"#)), None);
    assert_eq!(extract_address(ResponseShape::JsonIpField, &answer(200, "203.0.113.10")), None);
    assert_eq!(extract_address(ResponseShape::JsonIpField, &answer(200, r#"["ip"]"#)), None);
}

#[test]
fn status_outside_the_success_range_is_a_failure() {
    for status in [0u16, 100, 199, 300, 301, 404, 500, 65535] {
        assert_eq!(extract_address(ResponseShape::PlainText, &answer(status, "203.0.113.9")), None);
        assert_eq!(
            extract_address(ResponseShape::JsonIpField, &answer(status, r#"{"ip":"203.0.113.10"}"#)),
            None
        );
    }
    for status in [200u16, 204, 299] {
        assert_eq!(
            extract_address(ResponseShape::PlainText, &answer(status, "203.0.113.9")),
            Some("203.0.113.9".to_string())
        );
    }
}

#[test]
fn unreachable_endpoint_is_a_failure() {
    assert_eq!(extract_address(ResponseShape::PlainText, &Reply::Unreachable), None);
    assert_eq!(extract_address(ResponseShape::JsonIpField, &Reply::Unreachable), None);
}

#[test]
fn single_reachable_endpoint_wins_in_every_order() {
    let fixtures = [
        (0usize, answer(200, "203.0.113.1\n"), "203.0.113.1"),
        (1usize, answer(200, "203.0.113.2"), "203.0.113.2"),
        (2usize, answer(200, r#"{"ip":"203.0.113.3"}"#), "203.0.113.3"),
        (3usize, answer(200, r#"{"ip":"203.0.113.4"}"#), "203.0.113.4"),
    ];
    for (place, reply, address) in fixtures {
        let mut replies = unreachable_all();
        replies[place] = reply;
        for _ in 0..50 {
            assert_eq!(get_public_ip_addr(&replies), Some(address.to_string()));
        }
        for order in [vec![0usize, 1, 2, 3], vec![3, 2, 1, 0], vec![2, 0, 3, 1], vec![1, 3, 0, 2]] {
            assert_eq!(resolve_in_order(&order, &replies), Some(address.to_string()));
        }
    }
}

#[test]
fn no_reachable_endpoint_gives_nothing() {
    for _ in 0..20 {
        assert_eq!(get_public_ip_addr(&unreachable_all()), None);
    }
    assert_eq!(get_public_ip_addr(&Vec::new()), None);
    let failing = vec![answer(500, "203.0.113.1"), answer(200, ""), answer(200, "{}"), Reply::Unreachable];
    assert_eq!(get_public_ip_addr(&failing), None);
}

#[test]
fn first_success_in_the_order_is_returned() {
    let replies = vec![
        answer(200, "203.0.113.1"),
        Reply::Unreachable,
        answer(200, r#"{"ip":"203.0.113.3"}"#),
        answer(404, r#"{"ip":"203.0.113.4"}"#),
    ];
    assert_eq!(resolve_in_order(&vec![0, 1, 2, 3], &replies), Some("203.0.113.1".to_string()));
    assert_eq!(resolve_in_order(&vec![1, 3, 2, 0], &replies), Some("203.0.113.3".to_string()));
    assert_eq!(resolve_in_order(&vec![3, 1], &replies), None);
    assert_eq!(resolve_in_order(&vec![9, 2], &replies), Some("203.0.113.3".to_string()));
    assert_eq!(resolve_in_order(&Vec::new(), &replies), None);
    for _ in 0..50 {
        let r = get_public_ip_addr(&replies).unwrap();
        assert!(r == "203.0.113.1" || r == "203.0.113.3");
    }
}

#[test]
fn plain_and_json_shapes_go_by_place() {
    let as_json = r#"{"ip":"203.0.113.3"}"#;
    let mut replies = unreachable_all();
    replies[0] = answer(200, as_json);
    assert_eq!(resolve_in_order(&vec![0], &replies), Some(as_json.to_string()));
    let mut replies = unreachable_all();
    replies[3] = answer(200, "203.0.113.4");
    assert_eq!(resolve_in_order(&vec![3], &replies), None);
}

#[test]
fn shuffled_order_is_a_permutation_and_varies() {
    let mut varied = false;
    for _ in 0..200 {
        let order = shuffled_order();
        let mut sorted = order.clone();
        sorted.sort();
        assert_eq!(sorted, vec![0usize, 1, 2, 3]);
        if order != vec![0usize, 1, 2, 3] {
            varied = true;
        }
    }
    assert!(varied);
}

#[test]
fn empty_address_is_dropped() {
    assert_eq!(non_empty(String::new()), None);
    assert_eq!(non_empty("203.0.113.9".to_string()), Some("203.0.113.9".to_string()));
    assert_eq!(non_empty(" ".to_string()), Some(" ".to_string()));
}
