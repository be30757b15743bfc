use leptos_axum::header::FieldName;
use leptos_axum::header::FieldValue;
use leptos_axum::header_map::MAX_HEADER_NAMES;
use leptos_axum::response::redirect;
use leptos_axum::response::ResponseOptions;
use leptos_axum::response::ResponseParts;
use leptos_axum::status::StatusCode;

fn name(text: &str) -> FieldName {
    FieldName::from_str(text).unwrap()
}

fn value(text: &str) -> FieldValue {
    FieldValue::from_str(text).unwrap()
}

fn values(headers: &http::HeaderMap, key: &str) -> Vec<Vec<u8>> {
    headers.get_all(key).iter().map(|v| v.as_bytes().to_vec()).collect()
}

#[test]
fn default_parts_are_empty() {
    let parts = ResponseParts::default();
    assert_eq!(parts.status, None);
    assert!(parts.headers.is_empty());
    let sink = ResponseOptions::default();
    assert_eq!(sink.0.status, None);
    assert!(sink.0.headers.is_empty());
}

#[test]
fn insert_replaces_and_append_keeps() {
    let mut parts = ResponseParts::default();
    parts.append_header(name("Set-Cookie"), value("a=1"));
    parts.append_header(name("set-cookie"), value("b=2"));
    assert_eq!(values(&parts.headers, "set-cookie"), vec![b"a=1".to_vec(), b"b=2".to_vec()]);
    parts.insert_header(name("set-cookie"), value("c=3"));
    assert_eq!(values(&parts.headers, "set-cookie"), vec![b"c=3".to_vec()]);
    assert_eq!(parts.status, None);
}

#[test]
fn insert_leaves_other_headers_alone() {
    let mut parts = ResponseParts::default();
    parts.insert_header(name("x-a"), value("1"));
    parts.append_header(name("x-b"), value("2"));
    parts.insert_header(name("x-a"), value("3"));
    assert_eq!(values(&parts.headers, "x-a"), vec![b"3".to_vec()]);
    assert_eq!(values(&parts.headers, "x-b"), vec![b"2".to_vec()]);
    assert_eq!(parts.headers.keys_len(), 2);
}

#[test]
fn two_appends_both_persist_in_either_order() {
    let mut sink = ResponseOptions::default();
    sink.append_header(name("set-cookie"), value("first"));
    sink.append_header(name("set-cookie"), value("second"));
    assert_eq!(
        values(&sink.0.headers, "set-cookie"),
        vec![b"first".to_vec(), b"second".to_vec()]
    );
    let mut sink = ResponseOptions::default();
    sink.append_header(name("set-cookie"), value("second"));
    sink.append_header(name("set-cookie"), value("first"));
    assert_eq!(
        values(&sink.0.headers, "set-cookie"),
        vec![b"second".to_vec(), b"first".to_vec()]
    );
    let mut sink = ResponseOptions::default();
    sink.append_header(name("x-one"), value("1"));
    sink.append_header(name("x-two"), value("2"));
    assert_eq!(values(&sink.0.headers, "x-one"), vec![b"1".to_vec()]);
    assert_eq!(values(&sink.0.headers, "x-two"), vec![b"2".to_vec()]);
}

#[test]
fn last_status_wins() {
    let mut sink = ResponseOptions::default();
    sink.insert_header(name("x-kept"), value("yes"));
    sink.set_status(StatusCode::from_u16(201).unwrap());
    sink.set_status(StatusCode::from_u16(418).unwrap());
    assert_eq!(sink.0.status, Some(StatusCode::from_u16(418).unwrap()));
    assert_eq!(values(&sink.0.headers, "x-kept"), vec![b"yes".to_vec()]);
}

#[test]
fn sink_insert_replaces() {
    let mut sink = ResponseOptions::default();
    sink.append_header(name("x-a"), value("1"));
    sink.append_header(name("x-a"), value("2"));
    sink.insert_header(name("x-a"), value("3"));
    assert_eq!(values(&sink.0.headers, "x-a"), vec![b"3".to_vec()]);
}

#[test]
fn overwrite_replaces_everything() {
    let mut sink = ResponseOptions::default();
    sink.set_status(StatusCode::bad_request());
    sink.insert_header(name("x-old"), value("1"));
    let mut parts = ResponseParts::default();
    parts.insert_header(name("x-new"), value("2"));
    sink.overwrite(parts);
    assert_eq!(sink.0.status, None);
    assert!(sink.0.headers.get("x-old").is_none());
    assert_eq!(values(&sink.0.headers, "x-new"), vec![b"2".to_vec()]);
}

#[test]
fn redirect_sets_found_and_location() {
    let mut sink = ResponseOptions::default();
    sink.insert_header(name("location"), value("/old"));
    sink.append_header(name("location"), value("/older"));
    redirect(&mut sink, "/login?next=%2F");
    assert_eq!(sink.0.status.map(|s| s.as_u16()), Some(302));
    assert_eq!(values(&sink.0.headers, "location"), vec![b"/login?next=%2F".to_vec()]);
}

#[test]
fn clone_of_parts_is_a_copy_of_its_own() {
    let mut parts = ResponseParts::default();
    parts.status = Some(StatusCode::found());
    parts.append_header(name("x-a"), value("1"));
    let copy = parts.clone();
    parts.append_header(name("x-a"), value("2"));
    assert_eq!(copy.status, Some(StatusCode::found()));
    assert_eq!(values(&copy.headers, "x-a"), vec![b"1".to_vec()]);
    assert_eq!(values(&parts.headers, "x-a"), vec![b"1".to_vec(), b"2".to_vec()]);
}

#[test]
fn room_is_counted_in_names() {
    assert_eq!(MAX_HEADER_NAMES, 6554);
    let mut parts = ResponseParts::default();
    assert!(parts.room_for(0));
    assert!(parts.room_for(MAX_HEADER_NAMES));
    assert!(!parts.room_for(MAX_HEADER_NAMES + 1));
    assert!(!parts.room_for(usize::MAX));
    parts.append_header(name("x-a"), value("1"));
    parts.append_header(name("x-a"), value("2"));
    parts.append_header(name("x-b"), value("3"));
    assert!(parts.room_for(MAX_HEADER_NAMES - 2));
    assert!(!parts.room_for(MAX_HEADER_NAMES - 1));
}

#[test]
fn a_map_takes_as_many_names_as_promised() {
    let mut parts = ResponseParts::default();
    let mut i = 0;
    while parts.room_for(1) {
        parts.insert_header(name(&format!("x-{i}")), value("v"));
        i += 1;
    }
    assert_eq!(i, MAX_HEADER_NAMES);
    assert_eq!(parts.headers.keys_len(), MAX_HEADER_NAMES);
}

#[test]
fn without_room_nothing_is_added() {
    let mut sink = ResponseOptions::default();
    let mut i = 0;
    while sink.try_append_header(name(&format!("x-{i}")), value("v")) {
        i += 1;
    }
    assert_eq!(i, MAX_HEADER_NAMES);
    assert!(!sink.try_insert_header(name("x-0"), value("w")));
    assert!(!sink.try_append_header(name("x-0"), value("w")));
    assert!(!sink.0.try_insert_header(name("one-more"), value("w")));
    assert!(!sink.0.try_append_header(name("one-more"), value("w")));
    assert_eq!(sink.0.headers.keys_len(), MAX_HEADER_NAMES);
    assert_eq!(values(&sink.0.headers, "x-0"), vec![b"v".to_vec()]);
    assert!(sink.0.headers.get("one-more").is_none());
}

#[test]
fn with_room_the_checked_operations_do_as_the_others() {
    let mut parts = ResponseParts::default();
    assert!(parts.try_append_header(name("x-a"), value("1")));
    assert!(parts.try_append_header(name("x-a"), value("2")));
    assert_eq!(values(&parts.headers, "x-a"), vec![b"1".to_vec(), b"2".to_vec()]);
    assert!(parts.try_insert_header(name("x-a"), value("3")));
    assert_eq!(values(&parts.headers, "x-a"), vec![b"3".to_vec()]);
}

#[test]
fn headers_behave_as_lists_of_values_by_name() {
    let names = ["a", "b", "set-cookie", "x-long-header-name", "content-type"];
    let mut parts = ResponseParts::default();
    let mut model: Vec<(&str, Vec<String>)> = Vec::new();
    let mut state: u64 = 0x9e3779b97f4a7c15;
    for step in 0..5000 {
        state = state.wrapping_mul(6364136223846793005).wrapping_add(1442695040888963407);
        let key = names[((state >> 33) as usize) % names.len()];
        let text = format!("v{step}");
        let at = model.iter().position(|(k, _)| *k == key);
        if (state >> 20) % 3 == 0 {
            parts.insert_header(name(key), value(&text));
            match at {
                Some(at) => model[at].1 = vec![text],
                None => model.push((key, vec![text])),
            }
        } else {
            parts.append_header(name(key), value(&text));
            match at {
                Some(at) => model[at].1.push(text),
                None => model.push((key, vec![text])),
            }
        }
        assert_eq!(parts.headers.keys_len(), model.len());
        for key in names {
            let expected: Vec<Vec<u8>> = model
                .iter()
                .filter(|(k, _)| *k == key)
                .flat_map(|(_, values)| values.iter().map(|v| v.clone().into_bytes()))
                .collect();
            assert_eq!(values(&parts.headers, key), expected);
        }
    }
}
