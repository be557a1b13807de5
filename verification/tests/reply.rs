use ddns_notify::reply::{decimal_text, http_reply};

#[test]
fn success_statuses_give_the_body() {
    assert_eq!(http_reply(200, String::from("1.2.3.4")), Ok(String::from("1.2.3.4")));
    assert_eq!(http_reply(204, String::new()), Ok(String::new()));
    assert_eq!(http_reply(299, String::from("x")), Ok(String::from("x")));
}

#[test]
fn other_statuses_are_failures_that_name_the_status() {
    assert_eq!(
        http_reply(404, String::from("not found")),
        Err(String::from("unexpected HTTP status 404"))
    );
    assert_eq!(http_reply(199, String::new()), Err(String::from("unexpected HTTP status 199")));
    assert_eq!(http_reply(300, String::new()), Err(String::from("unexpected HTTP status 300")));
    assert_eq!(http_reply(500, String::new()), Err(String::from("unexpected HTTP status 500")));
    assert_eq!(http_reply(0, String::new()), Err(String::from("unexpected HTTP status 0")));
}

#[test]
fn decimal_text_agrees_with_std() {
    let mut n: u16 = 0;
    loop {
        assert_eq!(decimal_text(n), n.to_string());
        if n == u16::MAX {
            break;
        }
        n += 1;
    }
}

#[test]
fn decimal_text_examples() {
    assert_eq!(decimal_text(0), "0");
    assert_eq!(decimal_text(9), "9");
    assert_eq!(decimal_text(10), "10");
    assert_eq!(decimal_text(65535), "65535");
}
