use vibewatch::protocol::{ClientMessage, JsonError};

#[test]
fn test_client_pty_input_json() {
    let msg = ClientMessage::pty_input_str("hello");
    let json = msg.to_json().unwrap();
    let decoded = ClientMessage::from_json(&json).unwrap();
    match decoded {
        ClientMessage::PtyInput(data) => {
            assert_eq!(String::from_utf8_lossy(&data), "hello");
        }
        _ => panic!("Wrong message type"),
    }
}

#[test]
fn test_client_input_json() {
    let msg = ClientMessage::input("测试文本");
    let json = msg.to_json().unwrap();
    let decoded = ClientMessage::from_json(&json).unwrap();
    match decoded {
        ClientMessage::Input(text) => {
            assert_eq!(text, "测试文本");
        }
        _ => panic!("Wrong message type"),
    }
}

#[test]
fn test_client_sync_json() {
    let json = ClientMessage::sync().to_json().unwrap();
    match ClientMessage::from_json(&json).unwrap() {
        ClientMessage::Sync {
            width,
            height,
            pixels,
            close,
        } => {
            assert_eq!((width, height), (408, 496));
            assert!(pixels);
            assert!(!close);
        }
        _ => panic!("Wrong message type"),
    }
}

#[test]
fn test_client_sync_defaults_json() {
    match ClientMessage::from_json(r#"{"type":"sync","data":{"width":80,"height":24}}"#).unwrap() {
        ClientMessage::Sync {
            width,
            height,
            pixels,
            close,
        } => {
            assert_eq!((width, height), (80, 24));
            assert!(pixels);
            assert!(!close);
        }
        _ => panic!("Wrong message type"),
    }
}

#[test]
fn test_client_sync_cells_json() {
    let json = ClientMessage::sync_cells(51, 29, false).to_json().unwrap();
    match ClientMessage::from_json(&json).unwrap() {
        ClientMessage::Sync {
            width,
            height,
            pixels,
            close,
        } => {
            assert_eq!((width, height), (51, 29));
            assert!(!pixels);
            assert!(!close);
        }
        _ => panic!("Wrong message type"),
    }
}

#[test]
fn test_client_scroll_json() {
    let msg = ClientMessage::ScrollUp { rows: 0 };
    let json = msg.to_json().unwrap();
    match ClientMessage::from_json(&json).unwrap() {
        ClientMessage::ScrollUp { rows } => assert_eq!(rows, 0),
        _ => panic!("Wrong message type"),
    }

    match ClientMessage::from_json(r#"{"type":"scroll_down","data":{}}"#).unwrap() {
        ClientMessage::ScrollDown { rows } => assert_eq!(rows, 0),
        _ => panic!("Wrong message type"),
    }
}

#[test]
fn message_texts_are_exact() {
    assert_eq!(
        ClientMessage::sync().to_json().unwrap(),
        r#"{"type":"sync","data":{"width":408,"height":496,"pixels":true,"close":false}}"#
    );
    assert_eq!(
        ClientMessage::pty_input_str("\x1b[B").to_json().unwrap(),
        r#"{"type":"pty_in","data":[27,91,66]}"#
    );
    assert_eq!(
        ClientMessage::pty_input(vec![]).to_json().unwrap(),
        r#"{"type":"pty_in","data":[]}"#
    );
    assert_eq!(
        ClientMessage::input("a\"b\n\u{1}é").to_json().unwrap(),
        "{\"type\":\"input_text\",\"data\":\"a\\\"b\\n\\u0001é\"}"
    );
    assert_eq!(
        ClientMessage::ScrollDown { rows: 15 }.to_json().unwrap(),
        r#"{"type":"scroll_down","data":{"rows":15}}"#
    );
    assert_eq!(
        ClientMessage::sync_with_close(true).to_json().unwrap(),
        r#"{"type":"sync","data":{"width":408,"height":496,"pixels":true,"close":true}}"#
    );
}

fn is_refused(json: &str) -> bool {
    matches!(ClientMessage::from_json(json), Err(JsonError))
}

#[test]
fn messages_in_other_forms_are_read() {
    match ClientMessage::from_json(
        " { \"x\" : [1,{\"y\":\"}\"}] , \"data\" : { \"rows\" : 7, \"z\":null } , \"type\":\"scroll_up\" } ",
    )
    .unwrap()
    {
        ClientMessage::ScrollUp { rows } => assert_eq!(rows, 7),
        _ => panic!("Wrong message type"),
    }
    match ClientMessage::from_json(r#"["input_text", "hi"]"#).unwrap() {
        ClientMessage::Input(text) => assert_eq!(text, "hi"),
        _ => panic!("Wrong message type"),
    }
    match ClientMessage::from_json(r#"{"type":{"scroll_down":null},"data":{"rows":2}}"#).unwrap() {
        ClientMessage::ScrollDown { rows } => assert_eq!(rows, 2),
        _ => panic!("Wrong message type"),
    }
    match ClientMessage::from_json(r#"{"type":"pty_in","data":[0,255]}"#).unwrap() {
        ClientMessage::PtyInput(data) => assert_eq!(data, vec![0, 255]),
        _ => panic!("Wrong message type"),
    }
}

#[test]
fn texts_that_are_no_message_are_refused() {
    for json in [
        "",
        "null",
        "[]",
        r#"["input_text"]"#,
        r#"["input_text","a","b"]"#,
        r#"{"type":"sync"}"#,
        r#"{"data":{"rows":1}}"#,
        r#"{"type":"other","data":{}}"#,
        r#"{"type":"sync","data":{"width":80}}"#,
        r#"{"type":"sync","data":{"width":80,"height":70000}}"#,
        r#"{"type":"sync","data":{"width":80,"height":24,"pixels":null}}"#,
        r#"{"type":"sync","data":[80,24]}"#,
        r#"{"type":"sync","data":{"width":80,"width":80,"height":24}}"#,
        r#"{"type":"scroll_up","type":"scroll_up","data":{}}"#,
        r#"{"type":"pty_in","data":[256]}"#,
        r#"{"type":"pty_in","data":"abc"}"#,
        r#"{"type":"input_text","data":1}"#,
        r#"{"type":"scroll_up","data":{}"#,
        r#"{"type":"scroll_up","data":{}}x"#,
        r#"{"type":"scroll_up","data":{},}"#,
        r#"{"type":"scroll_up" "data":{}}"#,
        r#"{"data":{"x":1e999},"type":"scroll_up"}"#,
    ] {
        assert!(is_refused(json), "{json}");
    }
    assert!(!is_refused(r#"{"type":"scroll_up","data":{"x":1e999}}"#));
}

#[test]
fn data_before_the_type_may_be_nested_so_deep() {
    let nested = |depth: usize| format!("{}{}", "[".repeat(depth), "]".repeat(depth));
    let data_first = |depth: usize| {
        format!(
            "{{\"data\":{{\"rows\":3,\"x\":{}}},\"type\":\"scroll_up\"}}",
            nested(depth)
        )
    };
    assert!(!is_refused(&data_first(125)));
    assert!(is_refused(&data_first(126)));
    let type_first = format!(
        "{{\"type\":\"scroll_up\",\"data\":{{\"rows\":3,\"x\":{}}}}}",
        nested(300)
    );
    assert!(!is_refused(&type_first));
}

#[test]
fn data_before_the_type_may_hold_any_name() {
    for name in ["$serde_json::private::RawValue", "\\u0024serde_json::private::RawValue", ""] {
        let first = format!("{{\"data\":{{\"{name}\":5,\"rows\":3}},\"type\":\"scroll_up\"}}");
        let inner = format!("{{\"data\":{{\"x\":[{{\"{name}\":{{}}}}]}},\"type\":\"scroll_up\"}}");
        assert!(!is_refused(&first), "{first}");
        assert!(!is_refused(&inner), "{inner}");
    }
    assert!(is_refused(r#"{"data":{"\ud800":1},"type":"scroll_up"}"#));
    assert!(is_refused(r#"{"data":{"x":["\ud800"]},"type":"scroll_up"}"#));
    assert!(is_refused(r#"{"data":{"x":[{"y":-1e999}]},"type":"scroll_up"}"#));
}

#[test]
fn numbers_and_truth_values_have_one_form() {
    let rows = |text: &str| format!("{{\"type\":\"scroll_up\",\"data\":{{\"rows\":{text}}}}}");
    for (text, value) in [("0", 0), (" 7\n", 7), ("65535", 65_535)] {
        match ClientMessage::from_json(&rows(text)).unwrap() {
            ClientMessage::ScrollUp { rows } => assert_eq!(rows, value),
            _ => panic!("Wrong message type"),
        }
    }
    for text in ["65536", "-0", "-1", "1.0", "1e1", "true", "null", "\"7\""] {
        assert!(is_refused(&rows(text)), "{text}");
    }
    let pixels = |text: &str| {
        format!("{{\"type\":\"sync\",\"data\":{{\"width\":1,\"height\":2,\"pixels\":{text}}}}}")
    };
    for (text, value) in [(" true ", true), ("\tfalse", false)] {
        match ClientMessage::from_json(&pixels(text)).unwrap() {
            ClientMessage::Sync { pixels, .. } => assert_eq!(pixels, value),
            _ => panic!("Wrong message type"),
        }
    }
    assert!(is_refused(&pixels("1")));
    assert!(is_refused(&pixels("\"true\"")));
}
