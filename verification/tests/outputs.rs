use status_monitor::alert_analyser::StateChange;
use status_monitor::alert_emailer::AlertEmailer;
use status_monitor::message::TxMessage;
use status_monitor::multiplexer::{MultiplexMsg, Multiplexer};
use status_monitor::redis_client::RedisClient;
use status_monitor::status::{Status, Timestamp};

fn status() -> Status {
    Status {
        name: "db".to_string(),
        timestamp: Timestamp { seconds: 1600000000, nanoseconds: 0 },
        status: "down".to_string(),
        description: "no answer".to_string(),
        account_id: "acme".to_string(),
    }
}

#[test]
fn fan_out_with_no_successful_delivery_is_ok() {
    let m = Multiplexer::new(vec!['a', 'b']);
    assert_eq!(m.handle(&vec![false, false]), Ok(()));
    assert_eq!(m.handle(&vec![]), Ok(()));
    assert_eq!(m.recipients(), &vec!['a', 'b']);
}

#[test]
fn fan_out_reports_the_counted_deliveries() {
    let m = Multiplexer::new(vec![0u8; 3]);
    assert_eq!(m.handle(&vec![true, false, true]), Err("2 send error(s)".to_string()));
    let many = vec![true; 12];
    assert_eq!(m.handle(&many), Err("12 send error(s)".to_string()));
    let msg = MultiplexMsg(5u8);
    assert_eq!(msg.0, 5);
}

#[test]
fn redis_key_and_command() {
    assert_eq!(RedisClient::<()>::status_key(&status()), "statuses:acme:db");
    let client = RedisClient::new("redis://127.0.0.1/", 7u8);
    assert_eq!(client.uri(), "redis://127.0.0.1/");
    assert_eq!(*client.result_recipient(), 7);
    let args = client.handle(&status(), "{\"name\":\"db\"}".to_string());
    assert_eq!(args, vec!["SET".to_string(), "statuses:acme:db".to_string(), "{\"name\":\"db\"}".to_string()]);
}

#[test]
fn alert_mail_lines() {
    let emailer = AlertEmailer {
        from: "alerts@example.com".to_string(),
        to: "ops@example.com".to_string(),
        hostname: "smtp.example.com".to_string(),
        port: 465,
        username: "u".to_string(),
        password: "SECRET-REDACTED".to_string(),
    };
    let alert = TxMessage { msg: StateChange { previous_status: None, current_status: status() }, id: "i".to_string() };
    assert_eq!(
        emailer.handle(&alert),
        vec![
            "Content-Type: text/plain\r\n".to_string(),
            "MIME-Version: 1.0\r\n".to_string(),
            "From: alerts@example.com\r\n".to_string(),
            "To: ops@example.com\r\n".to_string(),
            "Subject: test_email\r\n\r\n".to_string(),
            "fun_email\r\n\r\n".to_string(),
        ]
    );
}

#[test]
fn redis_key_splits_into_its_parts() {
    let key = RedisClient::<()>::status_key(&status());
    let parts: Vec<&str> = key.split(':').collect();
    assert_eq!(parts, vec!["statuses", "acme", "db"]);
}
