use price_feed::encode::encode_result;
use price_feed::phase::{
    fetch_error_message, request_url, step, Action, Event, PhaseError, Stage,
    FETCH_ERROR_MESSAGE, PROXY_BASE,
};
use price_feed::response::FetchResponse;

fn fetched(status: u16, body: &[u8]) -> Event {
    Event::Fetched(FetchResponse { status, bytes: body.to_vec() })
}

#[test]
fn bitcoin_round_trip() {
    let (stage, action) = step(Stage::AwaitingInput, Event::Inputs(b"bitcoin".to_vec()));
    assert_eq!(stage, Stage::AwaitingResponse);
    assert_eq!(
        action,
        Action::Fetch("http://testnet-2.proxy.testnet.seda.xyz/proxy/bitcoin".to_string())
    );
    let (stage, action) = step(stage, fetched(200, b"65432.1"));
    assert_eq!(stage, Stage::AwaitingPrice);
    assert_eq!(action, Action::ParsePrice(b"65432.1".to_vec()));
    let (stage, action) = step(stage, Event::Price(Some(65432100000u128)));
    assert_eq!(stage, Stage::Finished);
    assert_eq!(action, Action::ReportSuccess(65432100000u128.to_le_bytes().to_vec()));
}

#[test]
fn doge_rejected_fetch() {
    let (stage, action) = step(Stage::AwaitingInput, Event::Inputs(b"doge".to_vec()));
    assert_eq!(
        action,
        Action::Fetch("http://testnet-2.proxy.testnet.seda.xyz/proxy/doge".to_string())
    );
    let (stage, action) = step(stage, fetched(500, b"rate limited"));
    assert_eq!(stage, Stage::Finished);
    assert_eq!(
        action,
        Action::ReportError {
            status: 500,
            body: "rate limited".to_string(),
            message: b"Error while fetching price feed".to_vec(),
        }
    );
    let (stage, action) = step(stage, Event::Price(Some(1)));
    assert_eq!(stage, Stage::Finished);
    assert_eq!(action, Action::Ignore);
}

#[test]
fn input_not_utf8_fails_before_fetch() {
    let (stage, action) = step(Stage::AwaitingInput, Event::Inputs(vec![0xff, 0xfe, 0x41]));
    assert_eq!(stage, Stage::Finished);
    assert_eq!(action, Action::Fail(PhaseError::InputNotUtf8));
    let (stage, action) = step(stage, Event::Inputs(b"bitcoin".to_vec()));
    assert_eq!(stage, Stage::Finished);
    assert_eq!(action, Action::Ignore);
}

#[test]
fn rejected_body_not_utf8_fails() {
    let (stage, action) = step(Stage::AwaitingResponse, fetched(404, &[0xc3, 0x28]));
    assert_eq!(stage, Stage::Finished);
    assert_eq!(action, Action::Fail(PhaseError::BodyNotUtf8));
}

#[test]
fn unreadable_price_fails_without_report() {
    let (stage, action) = step(Stage::AwaitingResponse, fetched(200, b"abc"));
    assert_eq!(action, Action::ParsePrice(b"abc".to_vec()));
    let (stage, action) = step(stage, Event::Price(None));
    assert_eq!(stage, Stage::Finished);
    assert_eq!(action, Action::Fail(PhaseError::PriceNotNumeric));
}

#[test]
fn success_body_need_not_be_utf8() {
    let (stage, action) = step(Stage::AwaitingResponse, fetched(204, &[0xff]));
    assert_eq!(stage, Stage::AwaitingPrice);
    assert_eq!(action, Action::ParsePrice(vec![0xff]));
}

#[test]
fn status_range_edges() {
    assert!(!FetchResponse { status: 199, bytes: vec![] }.is_ok());
    assert!(FetchResponse { status: 200, bytes: vec![] }.is_ok());
    assert!(FetchResponse { status: 299, bytes: vec![] }.is_ok());
    assert!(!FetchResponse { status: 300, bytes: vec![] }.is_ok());
    assert!(!FetchResponse { status: 0, bytes: vec![] }.is_ok());
    let (stage, action) = step(Stage::AwaitingResponse, fetched(299, b"1"));
    assert_eq!(stage, Stage::AwaitingPrice);
    assert_eq!(action, Action::ParsePrice(b"1".to_vec()));
    let (stage, _) = step(Stage::AwaitingResponse, fetched(300, b""));
    assert_eq!(stage, Stage::Finished);
}

#[test]
fn events_out_of_order_are_ignored() {
    let (stage, action) = step(Stage::AwaitingInput, fetched(200, b"1"));
    assert_eq!((stage, action), (Stage::AwaitingInput, Action::Ignore));
    let (stage, action) = step(Stage::AwaitingResponse, Event::Price(Some(3)));
    assert_eq!((stage, action), (Stage::AwaitingResponse, Action::Ignore));
    let (stage, action) = step(Stage::AwaitingPrice, Event::Inputs(b"x".to_vec()));
    assert_eq!((stage, action), (Stage::AwaitingPrice, Action::Ignore));
    let (stage, action) = step(Stage::Finished, Event::Price(None));
    assert_eq!((stage, action), (Stage::Finished, Action::Ignore));
}

#[test]
fn one_fetch_per_run() {
    let mut stage = Stage::AwaitingInput;
    let mut fetches = 0;
    let events = vec![
        Event::Inputs(b"eth".to_vec()),
        Event::Inputs(b"eth".to_vec()),
        fetched(200, b"2"),
        Event::Inputs(b"eth".to_vec()),
        Event::Price(Some(2_000_000)),
        Event::Inputs(b"eth".to_vec()),
    ];
    let mut reports = 0;
    for event in events {
        let (next, action) = step(stage, event);
        stage = next;
        match action {
            Action::Fetch(_) => fetches += 1,
            Action::ReportSuccess(_) | Action::ReportError { .. } => reports += 1,
            _ => {}
        }
    }
    assert_eq!(fetches, 1);
    assert_eq!(reports, 1);
}

#[test]
fn url_is_base_then_identifier() {
    assert_eq!(request_url(&"".to_string()), PROXY_BASE.to_string());
    assert_eq!(
        request_url(&"usd-coin".to_string()),
        "http://testnet-2.proxy.testnet.seda.xyz/proxy/usd-coin"
    );
    let (_, action) = step(Stage::AwaitingInput, Event::Inputs("ethé".as_bytes().to_vec()));
    assert_eq!(
        action,
        Action::Fetch("http://testnet-2.proxy.testnet.seda.xyz/proxy/ethé".to_string())
    );
}

#[test]
fn error_message_bytes() {
    assert_eq!(fetch_error_message(), FETCH_ERROR_MESSAGE.as_bytes().to_vec());
    assert_eq!(fetch_error_message(), b"Error while fetching price feed".to_vec());
}

#[test]
fn encode_result_little_endian() {
    assert_eq!(encode_result(0), vec![0u8; 16]);
    assert_eq!(encode_result(1)[0], 1);
    assert_eq!(encode_result(0x0102), {
        let mut v = vec![0u8; 16];
        v[0] = 0x02;
        v[1] = 0x01;
        v
    });
    assert_eq!(encode_result(u128::MAX), vec![0xffu8; 16]);
    assert_eq!(encode_result(65432100000).len(), 16);
    assert_eq!(encode_result(65432100000), 65432100000u128.to_le_bytes().to_vec());
}
