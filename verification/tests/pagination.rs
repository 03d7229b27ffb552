use twitch_wrapper::error::TwitchError;
use twitch_wrapper::models::streams::{streams_endpoint, streams_paginator};
use twitch_wrapper::pagination::Paginator;

fn sample_record(message: &str, value: i64) -> serde_json::Value {
    let mut m = serde_json::Map::new();
    m.insert(
        String::from("message"),
        serde_json::Value::String(String::from(message)),
    );
    m.insert(
        String::from("value"),
        serde_json::Value::Number(serde_json::Number::from(value)),
    );
    serde_json::Value::Object(m)
}

fn page_body(records: &[(&str, i64)], cursor: &str) -> String {
    let mut data: Vec<serde_json::Value> = Vec::new();
    for (message, value) in records {
        data.push(sample_record(message, *value));
    }
    let mut pagination = serde_json::Map::new();
    pagination.insert(
        String::from("cursor"),
        serde_json::Value::String(String::from(cursor)),
    );
    let mut envelope = serde_json::Map::new();
    envelope.insert(String::from("data"), serde_json::Value::Array(data));
    envelope.insert(
        String::from("pagination"),
        serde_json::Value::Object(pagination),
    );
    serde_json::to_string(&serde_json::Value::Object(envelope)).unwrap()
}

fn query_pair(query: &[(String, String)], key: &str) -> String {
    for (k, v) in query {
        if k == key {
            return v.clone();
        }
    }
    panic!("missing query key");
}

#[test]
fn test_query_paginated() {
    let bodies = vec![
        String::from(
            r#"{"data": [ {"message": "first call", "value": 1}, {"message": "second call", "value": 2} ], "pagination": { "cursor": "abc" }}"#,
        ),
        String::from(
            r#"{"data": [ {"message": "third call", "value": 3}, {"message": "fourth call", "value": 4} ], "pagination": { "cursor": "def" }}"#,
        ),
        String::from(
            r#"{"data": [ {"message": "fifth call", "value": 5}, {"message": "sixth call", "value": 6} ], "pagination": { "cursor": "ghi" }}"#,
        ),
    ];
    let expected_queries = vec![
        ("2", ""),
        ("2", "abc"),
        ("1", "def"),
    ];

    let mut pager = Paginator::new(2, 5);
    let mut page: usize = 0;
    while !pager.is_done() {
        let query = pager.next_query(None);
        assert_eq!(query.len(), 2);
        assert_eq!(query[0].0, "first");
        assert_eq!(query[0].1, expected_queries[page].0);
        assert_eq!(query[1].0, "after");
        assert_eq!(query[1].1, expected_queries[page].1);
        pager.feed_response(200, &bodies[page]).unwrap();
        page += 1;
    }
    assert_eq!(page, 3);

    // The aggregate holds exactly the requested count: the five earliest
    // records, in request order.
    let items = pager.into_items();
    assert_eq!(items.len(), 5);
    let expected = vec![
        ("first call", 1),
        ("second call", 2),
        ("third call", 3),
        ("fourth call", 4),
        ("fifth call", 5),
    ];
    for (item, (message, value)) in items.iter().zip(expected.iter()) {
        let parsed: serde_json::Value = serde_json::from_str(item).unwrap();
        assert_eq!(parsed, sample_record(message, *value));
    }
}

#[test]
fn full_pages_give_exact_count() {
    let mut pager = Paginator::new(3, 7);
    let cursors = vec!["c1", "c2", "c3"];
    let mut page: usize = 0;
    while !pager.is_done() {
        let (first, _after) = pager.next_request();
        let mut records: Vec<(String, i64)> = Vec::new();
        for i in 0..first {
            records.push((format!("item {} {}", page, i), i as i64));
        }
        let borrowed: Vec<(&str, i64)> = records.iter().map(|(m, v)| (m.as_str(), *v)).collect();
        let body = page_body(&borrowed, cursors[page]);
        pager.feed_response(200, &body).unwrap();
        page += 1;
    }
    assert_eq!(page, 3);
    assert_eq!(pager.into_items().len(), 7);
}

#[test]
fn page_sizes_follow_ceiling_arithmetic() {
    // count = 5, endpoint_maximum = 2: exactly three requests of sizes
    // 2, 2, 1 in that order.
    let mut pager = Paginator::new(2, 5);
    let mut sizes: Vec<u64> = Vec::new();
    let cursors = vec!["a", "b", "c"];
    let mut page: usize = 0;
    while !pager.is_done() {
        let (first, _after) = pager.next_request();
        sizes.push(first);
        let mut records: Vec<(&str, i64)> = Vec::new();
        let names = ["r0", "r1"];
        for i in 0..first as usize {
            records.push((names[i], i as i64));
        }
        let body = page_body(&records, cursors[page]);
        pager.feed_response(200, &body).unwrap();
        page += 1;
    }
    assert_eq!(sizes, vec![2, 2, 1]);
}

#[test]
fn cursor_threading_is_exact() {
    let mut pager = Paginator::new(2, 6);
    let cursors = ["abc", "def", "ghi"];
    let mut seen_after: Vec<String> = Vec::new();
    for cursor in cursors {
        let (_first, after) = pager.next_request();
        seen_after.push(after);
        let body = page_body(&[("x", 1), ("y", 2)], cursor);
        pager.feed_response(200, &body).unwrap();
    }
    // The first request carries an empty cursor; each later request carries
    // the cursor of the previous response, exactly.
    assert_eq!(seen_after, vec!["", "abc", "def"]);
    assert!(pager.is_done());
}

#[test]
fn output_preserves_page_and_item_order() {
    let mut pager = Paginator::new(2, 4);
    let body1 = page_body(&[("A", 1), ("B", 2)], "next");
    let body2 = page_body(&[("C", 3), ("D", 4)], "end");
    pager.feed_response(200, &body1).unwrap();
    pager.feed_response(200, &body2).unwrap();
    let items = pager.into_items();
    let labels: Vec<String> = items
        .iter()
        .map(|s| {
            let v: serde_json::Value = serde_json::from_str(s).unwrap();
            String::from(v["message"].as_str().unwrap())
        })
        .collect();
    assert_eq!(labels, vec!["A", "B", "C", "D"]);
}

#[test]
fn single_page_query_is_idempotent() {
    // Two aggregations over identical inputs decode to identical output.
    let body = page_body(&[("only", 42)], "cur");
    let mut first_run = Paginator::new(5, 1);
    first_run.feed_response(200, &body).unwrap();
    let mut second_run = Paginator::new(5, 1);
    second_run.feed_response(200, &body).unwrap();
    let a = first_run.into_items();
    let b = second_run.into_items();
    assert_eq!(a, b);
    assert_eq!(a.len(), 1);
}

#[test]
fn failure_on_a_later_page_propagates_and_keeps_nothing() {
    let mut pager = Paginator::new(2, 5);
    let body1 = page_body(&[("A", 1), ("B", 2)], "abc");
    pager.feed_response(200, &body1).unwrap();

    // The second page answers with a server error: the aggregation reports
    // exactly that status and a driver returns the error, not a partial
    // list.
    let body2 = page_body(&[("C", 3), ("D", 4)], "def");
    let e = pager.feed_response(500, &body2).unwrap_err();
    assert_eq!(e, TwitchError::UnsuccessfulStatus(500));
    assert_eq!(pager.pages_fetched(), 1);
    assert!(!pager.is_done());
}

#[test]
fn zero_count_issues_zero_requests() {
    // A driver loops only while the aggregation is unfinished, so a done
    // paginator means zero HTTP calls.
    let pager = Paginator::new(100, 0);
    assert!(pager.is_done());
    assert_eq!(pager.into_items().len(), 0);
}

#[test]
fn literal_three_page_scenario() {
    // endpoint_maximum = 2, count = 5, three pages of 2, 2 and exactly the
    // queried remainder of 1, with cursors "abc", "def", "ghi".
    let bodies = vec![
        page_body(&[("p0 i0", 0), ("p0 i1", 1)], "abc"),
        page_body(&[("p1 i0", 2), ("p1 i1", 3)], "def"),
        page_body(&[("p2 i0", 4)], "ghi"),
    ];
    let expected_queries = vec![("2", ""), ("2", "abc"), ("1", "def")];
    let mut pager = Paginator::new(2, 5);
    let mut page: usize = 0;
    while !pager.is_done() {
        let query = pager.next_query(None);
        assert_eq!(query_pair(&query, "first"), expected_queries[page].0);
        assert_eq!(query_pair(&query, "after"), expected_queries[page].1);
        pager.feed_response(200, &bodies[page]).unwrap();
        page += 1;
    }
    assert_eq!(page, 3);
    let items = pager.into_items();
    assert_eq!(items.len(), 5);
    let labels: Vec<String> = items
        .iter()
        .map(|s| {
            let v: serde_json::Value = serde_json::from_str(s).unwrap();
            String::from(v["message"].as_str().unwrap())
        })
        .collect();
    assert_eq!(labels, vec!["p0 i0", "p0 i1", "p1 i0", "p1 i1", "p2 i0"]);
}

#[test]
fn base_query_parameters_come_first() {
    let mut pager = Paginator::new(2, 2);
    let base = vec![
        (String::from("game_id"), String::from("123")),
        (String::from("language"), String::from("en")),
    ];
    let query = pager.next_query(Some(&base));
    assert_eq!(query.len(), 4);
    assert_eq!(query[0], (String::from("game_id"), String::from("123")));
    assert_eq!(query[1], (String::from("language"), String::from("en")));
    assert_eq!(query[2], (String::from("first"), String::from("2")));
    assert_eq!(query[3], (String::from("after"), String::from("")));
    let body = page_body(&[("A", 1), ("B", 2)], "zzz");
    pager.feed_response(200, &body).unwrap();
    assert!(pager.is_done());
}

#[test]
fn malformed_envelopes_are_classified() {
    let mut pager = Paginator::new(2, 4);

    // Not JSON at all.
    let e = pager.feed_response(200, "not json").unwrap_err();
    assert_eq!(e, TwitchError::DeserializationFailed);

    // Valid JSON without a pagination block.
    let e = pager.feed_response(200, r#"{"data": []}"#).unwrap_err();
    assert_eq!(e, TwitchError::MalformedPaginationEnvelope);

    // Cursor present but not a string.
    let e = pager
        .feed_response(200, r#"{"data": [], "pagination": {"cursor": 7}}"#)
        .unwrap_err();
    assert_eq!(e, TwitchError::MalformedPaginationEnvelope);

    // Item list present but not an array.
    let e = pager
        .feed_response(200, r#"{"data": {}, "pagination": {"cursor": "x"}}"#)
        .unwrap_err();
    assert_eq!(e, TwitchError::MalformedPaginationEnvelope);

    // Nothing was kept by any failed page.
    assert_eq!(pager.pages_fetched(), 0);
    assert_eq!(pager.into_items().len(), 0);
}

#[test]
fn streams_binding_uses_endpoint_maximum() {
    assert_eq!(streams_endpoint(), "streams");
    let pager = streams_paginator(250);
    let (first, after) = pager.next_request();
    assert_eq!(first, 100);
    assert_eq!(after, "");

    let small = streams_paginator(5);
    let (first, _after) = small.next_request();
    assert_eq!(first, 5);

    assert!(streams_paginator(0).is_done());
}
