use solar_frontend::auth::{checkcredentials, current_user, isloged_fn, login_fn, ServerError};
use solar_frontend::bridge::{
    bool_to_text, classify_topic, command_effects, copy_log, current_pw_signal, day_pw_signal,
    log_data_effects, message_effects, reboot_effects, reboot_signal, relay_signal,
    relay_state_effects, settings_effects, sun_data_effects, Effect, Publication, QoS, Topic,
};
use solar_frontend::cookie::{remove_cookie_header, user_cookie_header, user_cookie_payload};
use solar_frontend::models::{ActionMqtt, LogData, ParamsJson, RebootMqtt, RelayMqtt, User};
use solar_frontend::server::{
    get_reboothour, login_message, relay_shown_on, set_params, set_pool, websocket_url,
};
use solar_frontend::text::{chars_of, i64_to_decimal, parse_i64, same_text};

fn user(name: &str, pass: &str) -> User {
    User { name: name.to_string(), pass: pass.to_string() }
}

fn publish(topic: &str, qos: QoS, retain: bool, payload: &str) -> Effect {
    Effect::Publish(Publication {
        topic: topic.to_string(),
        qos,
        retain,
        payload: payload.to_string(),
    })
}

#[test]
fn decimal_text_of_readings() {
    assert_eq!(i64_to_decimal(0), "0");
    assert_eq!(i64_to_decimal(7), "7");
    assert_eq!(i64_to_decimal(1234), "1234");
    assert_eq!(i64_to_decimal(-56), "-56");
    assert_eq!(i64_to_decimal(i64::MAX), "9223372036854775807");
    assert_eq!(i64_to_decimal(i64::MIN), "-9223372036854775808");
}

#[test]
fn decimal_text_matches_to_string() {
    for n in [0i64, 1, 9, 10, 99, 100, 101, -1, -10, 4711, -123456789, i64::MAX, i64::MIN] {
        assert_eq!(i64_to_decimal(n), n.to_string());
    }
}

#[test]
fn parse_reads_integers() {
    assert_eq!(parse_i64("42"), Some(42));
    assert_eq!(parse_i64("+42"), Some(42));
    assert_eq!(parse_i64("-42"), Some(-42));
    assert_eq!(parse_i64("007"), Some(7));
    assert_eq!(parse_i64("-0"), Some(0));
    assert_eq!(parse_i64("9223372036854775807"), Some(i64::MAX));
    assert_eq!(parse_i64("-9223372036854775808"), Some(i64::MIN));
}

#[test]
fn parse_refuses_what_is_not_an_i64() {
    for t in ["", "-", "+", "12a", " 12", "12 ", "1.5", "--1", "+-1", "9223372036854775808",
        "-9223372036854775809", "99999999999999999999999", "١٢", "error reboot time json parsing"] {
        assert_eq!(parse_i64(t), None, "{t}");
        assert_eq!(parse_i64(t), t.parse::<i64>().ok(), "{t}");
    }
}

#[test]
fn parse_matches_std_on_samples() {
    for t in ["0", "+0", "123", "-123", "0000000000000000000001", "-9223372036854775807", "x", "1_000"] {
        assert_eq!(parse_i64(t), t.parse::<i64>().ok(), "{t}");
    }
}

#[test]
fn decimal_round_trip_on_samples() {
    for n in [0i64, 5, -5, 1000, -1000, i64::MAX, i64::MIN, 31415926] {
        assert_eq!(parse_i64(&i64_to_decimal(n)), Some(n));
    }
}

#[test]
fn chars_and_text_equality() {
    assert_eq!(chars_of("añb"), vec!['a', 'ñ', 'b']);
    assert!(same_text("admin", "admin"));
    assert!(!same_text("admin", "admim"));
    assert!(!same_text("admin", "admin "));
    assert!(same_text("", ""));
}

#[test]
fn credentials_are_checked() {
    assert!(checkcredentials(&user("admin", "1234")));
    assert!(!checkcredentials(&user("admin", "12345")));
    assert!(!checkcredentials(&user("Admin", "1234")));
    assert!(!checkcredentials(&user("", "")));
}

#[test]
fn login_accepts_the_account_only() {
    assert_eq!(login_fn("admin".to_string(), "1234".to_string()), Ok(user("admin", "1234")));
    assert_eq!(
        login_fn("admin".to_string(), "wrong".to_string()),
        Err(ServerError::IncorrectCredentials)
    );
    assert_eq!(
        ServerError::IncorrectCredentials.message(),
        "Incorrect username or password!"
    );
}

#[test]
fn current_user_reads_the_session() {
    assert_eq!(current_user(None), Err(ServerError::NotLoggedIn));
    assert_eq!(
        current_user(Some(user("admin", "0000"))),
        Err(ServerError::CookieCredentialsIncorrect)
    );
    assert_eq!(current_user(Some(user("admin", "1234"))), Ok(user("admin", "1234")));
    assert_eq!(ServerError::NotLoggedIn.message(), "you must be logged in");
    assert_eq!(
        ServerError::CookieCredentialsIncorrect.message(),
        "cookie Login credentials are incorrect"
    );
    assert_eq!(ServerError::RebootHourMissing.message(), "could not get lasthour");
}

#[test]
fn logged_in_needs_a_valid_cookie_user() {
    assert!(!isloged_fn(&None));
    assert!(!isloged_fn(&Some(user("guest", "1234"))));
    assert!(isloged_fn(&Some(user("admin", "1234"))));
}

#[test]
fn login_then_session() {
    let u = login_fn("admin".to_string(), "1234".to_string()).unwrap();
    assert_eq!(current_user(Some(u.clone())), Ok(u.clone()));
    assert!(isloged_fn(&Some(u)));
}

#[test]
fn cookie_value_is_found() {
    let json = r#"{"name":"admin","pass":"1234"}"#;
    assert_eq!(user_cookie_payload(&format!("user={json}")), Some(json.to_string()));
    assert_eq!(
        user_cookie_payload(&format!("theme=dark; user={json}; lang=en")),
        Some(json.to_string())
    );
    assert_eq!(user_cookie_payload("theme=dark; lang=en"), None);
    assert_eq!(user_cookie_payload(""), None);
    assert_eq!(user_cookie_payload("userx=1; user=2"), Some("1".to_string()));
    assert_eq!(user_cookie_payload("user"), Some("user".to_string()));
    assert_eq!(user_cookie_payload("user=a=b"), Some("b".to_string()));
    assert_eq!(user_cookie_payload("user="), Some(String::new()));
    assert_eq!(user_cookie_payload("a;user=1"), None);
    assert_eq!(user_cookie_payload("a;; user=1"), Some("1".to_string()));
}

#[test]
fn cookie_value_matches_split_reading() {
    fn reference(header: &str) -> Option<String> {
        header
            .split("; ")
            .find(|&x| x.starts_with("user"))
            .and_then(|x| x.split('=').last())
            .map(|x| x.to_string())
    }
    for h in ["user=1", "a=1; user=2; user=3", "; user=4", "x=1;  user=5", "user=; ", "users=6=7",
        "a; b; c", "ä=1; user=ö", "; ; user=8"] {
        assert_eq!(user_cookie_payload(h), reference(h), "{h}");
    }
}

#[test]
fn cookie_headers_are_framed() {
    assert_eq!(user_cookie_header("{}"), "user={}; path=/; HttpOnly");
    assert_eq!(
        remove_cookie_header(),
        "user=; path=/; expires=Thu, 01 Jan 1970 00:00:00 GMT"
    );
}

#[test]
fn cookie_round_trip_on_sample() {
    let payload = r#"{"name":"admin","pass":"1234"}"#;
    let set = user_cookie_header(payload);
    let pair = set.split("; ").next().unwrap();
    assert_eq!(user_cookie_payload(pair), Some(payload.to_string()));
}

#[test]
fn topics_are_classified() {
    assert_eq!(classify_topic("esp32/sendsundata"), Topic::SunData);
    assert_eq!(classify_topic("esp32/sendrelaystate"), Topic::RelayState);
    assert_eq!(classify_topic("esp32/sendlogdata"), Topic::LogData);
    assert_eq!(classify_topic("esp32/reboot"), Topic::Reboot);
    assert_eq!(classify_topic("esp32/relay"), Topic::Other);
    assert_eq!(classify_topic(""), Topic::Other);
}

#[test]
fn sun_data_is_passed_on() {
    assert_eq!(sun_data_effects(None, Some(3)), vec![]);
    assert_eq!(sun_data_effects(Some(5), None), vec![Effect::SendCurrentPw(5)]);
    assert_eq!(
        sun_data_effects(Some(5), Some(3)),
        vec![Effect::SendCurrentPw(5), Effect::SendDayPw(3)]
    );
}

#[test]
fn relay_state_is_stored_and_passed_on() {
    assert_eq!(relay_state_effects(None, Some(true)), vec![]);
    assert_eq!(relay_state_effects(Some(true), None), vec![Effect::StoreState(true)]);
    assert_eq!(
        relay_state_effects(Some(false), Some(true)),
        vec![
            Effect::StoreState(false),
            Effect::StoreMode(true),
            Effect::SendRelay(RelayMqtt { value: "false".to_string(), mode: true }),
        ]
    );
    assert_eq!(bool_to_text(true), "true");
    assert_eq!(bool_to_text(false), "false");
}

#[test]
fn reboot_hour_is_stored_and_passed_on() {
    assert_eq!(
        reboot_effects(Some("17".to_string())),
        vec![Effect::StoreReboot("17".to_string()), Effect::SendReboot(17)]
    );
    assert_eq!(
        reboot_effects(Some("17:30".to_string())),
        vec![Effect::StoreReboot("17:30".to_string()), Effect::SendReboot(0)]
    );
    assert_eq!(
        reboot_effects(None),
        vec![
            Effect::StoreReboot("error reboot time json parsing".to_string()),
            Effect::SendReboot(0)
        ]
    );
}

#[test]
fn log_data_is_stored_and_passed_on() {
    let rec = LogData { timeon: "3.5".to_string(), currenttimehours: "14".to_string() };
    assert_eq!(
        log_data_effects(Some(rec.clone()), Some("200".to_string())),
        vec![
            Effect::StoreLog { timeon: "3.5".to_string(), lasttime: 14, lastday: 200 },
            Effect::SendLog(rec.clone()),
        ]
    );
    let bad = LogData {
        timeon: "error parsing json".to_string(),
        currenttimehours: "error parsing json".to_string(),
    };
    assert_eq!(
        log_data_effects(None, Some("200".to_string())),
        vec![
            Effect::StoreLog { timeon: "error parsing json".to_string(), lasttime: 0, lastday: 0 },
            Effect::SendLog(bad.clone()),
        ]
    );
    assert_eq!(
        log_data_effects(Some(rec), None),
        vec![
            Effect::StoreLog { timeon: "error parsing json".to_string(), lasttime: 0, lastday: 0 },
            Effect::SendLog(bad),
        ]
    );
}

#[test]
fn messages_are_read_from_json() {
    assert_eq!(
        message_effects("esp32/sendsundata", br#"{"currentpw": 1200, "daypw": 5400}"#, None),
        vec![Effect::SendCurrentPw(1200), Effect::SendDayPw(5400)]
    );
    assert_eq!(
        message_effects("esp32/sendsundata", br#"{"currentpw": -3}"#, None),
        vec![Effect::SendCurrentPw(-3)]
    );
    assert_eq!(
        message_effects("esp32/sendsundata", br#"{"currentpw": 1.5, "daypw": 2}"#, None),
        vec![]
    );
    assert_eq!(message_effects("esp32/sendsundata", b"not json", None), vec![]);
    assert_eq!(
        message_effects("esp32/sendrelaystate", br#"{"state": true, "mode": false}"#, None),
        vec![
            Effect::StoreState(true),
            Effect::StoreMode(false),
            Effect::SendRelay(RelayMqtt { value: "true".to_string(), mode: false }),
        ]
    );
    assert_eq!(
        message_effects("esp32/sendrelaystate", br#"{"state": "on"}"#, None),
        vec![]
    );
    assert_eq!(
        message_effects("esp32/reboot", br#"{"currenttimehours": "6"}"#, None),
        vec![Effect::StoreReboot("6".to_string()), Effect::SendReboot(6)]
    );
    assert_eq!(
        message_effects("esp32/reboot", br#"{"currenttimehours": 6}"#, None),
        vec![
            Effect::StoreReboot("error reboot time json parsing".to_string()),
            Effect::SendReboot(0)
        ]
    );
    let rec = LogData { timeon: "2".to_string(), currenttimehours: "9".to_string() };
    assert_eq!(
        message_effects(
            "esp32/sendlogdata",
            br#"{"timeon": "2", "currenttimehours": "9", "dayofyear": "45"}"#,
            Some(rec.clone())
        ),
        vec![
            Effect::StoreLog { timeon: "2".to_string(), lasttime: 9, lastday: 45 },
            Effect::SendLog(rec),
        ]
    );
    assert_eq!(message_effects("esp32/unknown", br#"{"currentpw": 1}"#, None), vec![]);
}

#[test]
fn commands_are_stored_and_published() {
    assert_eq!(
        command_effects(ActionMqtt::State(true)),
        vec![
            Effect::StoreState(true),
            publish("esp32/relay", QoS::ExactlyOnce, false, r#"{"state":"on"}"#),
        ]
    );
    assert_eq!(
        command_effects(ActionMqtt::State(false)),
        vec![
            Effect::StoreState(false),
            publish("esp32/relay", QoS::ExactlyOnce, false, r#"{"state":"off"}"#),
        ]
    );
    assert_eq!(
        command_effects(ActionMqtt::Get),
        vec![publish("esp32/get", QoS::AtMostOnce, false, "uninportant message")]
    );
    assert_eq!(
        command_effects(ActionMqtt::setmanualmode(true)),
        vec![
            Effect::StoreMode(true),
            publish("esp32/setmanualmode", QoS::ExactlyOnce, false, r#"{"state":"on"}"#),
        ]
    );
    assert_eq!(
        settings_effects(r#"{"minpw":300}"#.to_string()),
        vec![publish("esp32/settings", QoS::ExactlyOnce, true, r#"{"minpw":300}"#)]
    );
}

#[test]
fn dashboard_signals() {
    assert_eq!(current_pw_signal(1500).value, "1500");
    assert_eq!(day_pw_signal(-2).value, "-2");
    assert_eq!(reboot_signal(4), RebootMqtt { value: 4 });
    let r = RelayMqtt { value: "true".to_string(), mode: true };
    assert_eq!(relay_signal(&r), r);
    let l = LogData { timeon: "1".to_string(), currenttimehours: "2".to_string() };
    assert_eq!(copy_log(&l), l);
}

#[test]
fn reboot_hour_requests() {
    assert_eq!(get_reboothour(false, Some("5".to_string())), Ok("could not get login info".to_string()));
    assert_eq!(get_reboothour(true, None), Err(ServerError::RebootHourMissing));
    assert_eq!(get_reboothour(true, Some("5".to_string())), Ok("5".to_string()));
}

#[test]
fn pool_and_settings_requests_need_login() {
    assert_eq!(set_pool(true, ActionMqtt::Get), Some(ActionMqtt::Get));
    assert_eq!(set_pool(false, ActionMqtt::State(true)), None);
    assert_eq!(
        set_params(true, Some(10), None, Some(300)),
        Some(ParamsJson { mininterval: Some(10), mintimeon: None, minpw: Some(300) })
    );
    assert_eq!(set_params(false, Some(10), Some(4), Some(300)), None);
}

#[test]
fn login_form_messages() {
    assert_eq!(login_message(true, None), "Login success!");
    assert_eq!(login_message(false, None), "");
    assert_eq!(login_message(false, Some(Ok(()))), "loged out");
    assert_eq!(
        login_message(false, Some(Err("bad".to_string()))),
        "login error: bad"
    );
}

#[test]
fn page_helpers() {
    assert_eq!(websocket_url("https:", "pool.example"), "wss://pool.example/ws");
    assert_eq!(websocket_url("http:", "localhost:3000"), "ws://localhost:3000/ws");
    assert!(relay_shown_on("true"));
    assert!(!relay_shown_on("false"));
    assert!(!relay_shown_on(""));
}

#[test]
fn log_record_text() {
    let l = LogData { timeon: "3".to_string(), currenttimehours: "12".to_string() };
    assert_eq!(l.display_text(), "timeon: 3\n \n current time: 12");
}
