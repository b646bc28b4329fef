use vstd::prelude::*;
use vstd::string::*;
use crate::models::{ActionMqtt, LogData, LogDataView, RelayMqtt, RelayView, CurrentPw, DayPw, RebootMqtt};
use crate::text::{same_text, i64_to_decimal, parse_i64, decimal_text, parse_i64_spec};
use crate::json::{
    json_i64_member, json_bool_member, json_str_member, read_i64_member, read_bool_member,
    read_str_member,
};

verus! {

/// The delivery guarantee of an MQTT publication.
#[derive(Clone, Copy, Debug, PartialEq, Eq, Structural)]
pub enum QoS {
    AtMostOnce,
    AtLeastOnce,
    ExactlyOnce,
}

/// A message to publish to the pool controller.
#[derive(Clone, Debug, PartialEq, Eq)]
pub struct Publication {
    pub topic: String,
    pub qos: QoS,
    pub retain: bool,
    pub payload: String,
}

/// A publication as text.
pub struct PublicationView {
    pub topic: Seq<char>,
    pub qos: QoS,
    pub retain: bool,
    pub payload: Seq<char>,
}

impl View for Publication {
    type V = PublicationView;

    open spec fn view(&self) -> PublicationView {
        PublicationView { topic: self.topic@, qos: self.qos, retain: self.retain, payload: self.payload@ }
    }
}

/// One thing the server does in answer to MQTT traffic or to a dashboard command.
#[derive(Clone, Debug, PartialEq, Eq)]
pub enum Effect {
    /// Store the relay state in the controller table (`laststate`).
    StoreState(bool),
    /// Store the manual mode in the controller table (`lastmode`).
    StoreMode(bool),
    /// Store the hour of the last reboot (`lastreboot`), as the controller wrote it.
    StoreReboot(String),
    /// Store the log record: the running time as written (`timeon`, read as a
    /// number when stored), the hour (`lasttime`) and the day of the year (`lastday`).
    StoreLog { timeon: String, lasttime: i64, lastday: i64 },
    /// Hand the current power to the dashboards.
    SendCurrentPw(i64),
    /// Hand the energy of the day to the dashboards.
    SendDayPw(i64),
    /// Hand the relay report to the dashboards.
    SendRelay(RelayMqtt),
    /// Hand the log record to the dashboards.
    SendLog(LogData),
    /// Hand the hour of the last reboot to the dashboards.
    SendReboot(i64),
    /// Publish a message to the controller.
    Publish(Publication),
}

/// An effect as text.
pub enum EffectView {
    StoreState(bool),
    StoreMode(bool),
    StoreReboot(Seq<char>),
    StoreLog { timeon: Seq<char>, lasttime: i64, lastday: i64 },
    SendCurrentPw(i64),
    SendDayPw(i64),
    SendRelay(RelayView),
    SendLog(LogDataView),
    SendReboot(i64),
    Publish(PublicationView),
}

impl View for Effect {
    type V = EffectView;

    open spec fn view(&self) -> EffectView {
        match self {
            Effect::StoreState(b) => EffectView::StoreState(*b),
            Effect::StoreMode(b) => EffectView::StoreMode(*b),
            Effect::StoreReboot(t) => EffectView::StoreReboot(t@),
            Effect::StoreLog { timeon, lasttime, lastday } => EffectView::StoreLog {
                timeon: timeon@,
                lasttime: *lasttime,
                lastday: *lastday,
            },
            Effect::SendCurrentPw(v) => EffectView::SendCurrentPw(*v),
            Effect::SendDayPw(v) => EffectView::SendDayPw(*v),
            Effect::SendRelay(r) => EffectView::SendRelay(r@),
            Effect::SendLog(l) => EffectView::SendLog(l@),
            Effect::SendReboot(v) => EffectView::SendReboot(*v),
            Effect::Publish(p) => EffectView::Publish(p@),
        }
    }
}

/// A list of effects as text.
pub open spec fn effects_view(effects: Seq<Effect>) -> Seq<EffectView> {
    effects.map_values(|e: Effect| e@)
}

/// The topics that the controller publishes on.
#[derive(Clone, Copy, Debug, PartialEq, Eq, Structural)]
pub enum Topic {
    /// `esp32/sendsundata`: the current power and the energy of the day.
    SunData,
    /// `esp32/sendrelaystate`: the relay state and the manual mode.
    RelayState,
    /// `esp32/sendlogdata`: the log record.
    LogData,
    /// `esp32/reboot`: the controller restarted.
    Reboot,
    /// Any other topic.
    Other,
}

/// The topic that the name `t` stands for.
pub open spec fn topic_of(t: Seq<char>) -> Topic {
    if t == "esp32/sendsundata"@ {
        Topic::SunData
    } else if t == "esp32/sendrelaystate"@ {
        Topic::RelayState
    } else if t == "esp32/sendlogdata"@ {
        Topic::LogData
    } else if t == "esp32/reboot"@ {
        Topic::Reboot
    } else {
        Topic::Other
    }
}

/// The topic that the name `topic` stands for.
pub fn classify_topic(topic: &str) -> (r: Topic)
    ensures
        r == topic_of(topic@),
{
    if same_text(topic, "esp32/sendsundata") {
        Topic::SunData
    } else if same_text(topic, "esp32/sendrelaystate") {
        Topic::RelayState
    } else if same_text(topic, "esp32/sendlogdata") {
        Topic::LogData
    } else if same_text(topic, "esp32/reboot") {
        Topic::Reboot
    } else {
        Topic::Other
    }
}

/// The text of a boolean, as `b.to_string()` writes it.
pub open spec fn bool_text(b: bool) -> Seq<char> {
    if b { "true"@ } else { "false"@ }
}

/// The text of a boolean, as `b.to_string()` writes it.
pub fn bool_to_text(b: bool) -> (r: String)
    ensures
        r@ == bool_text(b),
{
    if b { String::from_str("true") } else { String::from_str("false") }
}

/// The answer to a sun-data message: the current power is passed on when the
/// message has it, and then the energy of the day when it has that too.
pub open spec fn sun_data_answer(currentpw: Option<i64>, daypw: Option<i64>) -> Seq<EffectView> {
    match currentpw {
        None => seq![],
        Some(c) => match daypw {
            None => seq![EffectView::SendCurrentPw(c)],
            Some(d) => seq![EffectView::SendCurrentPw(c), EffectView::SendDayPw(d)],
        },
    }
}

/// What the server does with a sun-data message whose members read as given.
pub fn sun_data_effects(currentpw: Option<i64>, daypw: Option<i64>) -> (r: Vec<Effect>)
    ensures
        effects_view(r@) == sun_data_answer(currentpw, daypw),
{
    let mut r: Vec<Effect> = Vec::new();
    match currentpw {
        None => {},
        Some(c) => {
            r.push(Effect::SendCurrentPw(c));
            match daypw {
                None => {},
                Some(d) => {
                    r.push(Effect::SendDayPw(d));
                },
            }
        },
    }
    assert(effects_view(r@) =~= sun_data_answer(currentpw, daypw));
    r
}

/// The answer to a relay message: the relay state is stored when the message
/// has it; then, when it has the manual mode too, the mode is stored and both
/// are passed on.
pub open spec fn relay_state_answer(state: Option<bool>, mode: Option<bool>) -> Seq<EffectView> {
    match state {
        None => seq![],
        Some(st) => match mode {
            None => seq![EffectView::StoreState(st)],
            Some(m) => seq![
                EffectView::StoreState(st),
                EffectView::StoreMode(m),
                EffectView::SendRelay(RelayView { value: bool_text(st), mode: m }),
            ],
        },
    }
}

/// What the server does with a relay message whose members read as given.
pub fn relay_state_effects(state: Option<bool>, mode: Option<bool>) -> (r: Vec<Effect>)
    ensures
        effects_view(r@) == relay_state_answer(state, mode),
{
    let mut r: Vec<Effect> = Vec::new();
    match state {
        None => {},
        Some(st) => {
            r.push(Effect::StoreState(st));
            match mode {
                None => {},
                Some(m) => {
                    r.push(Effect::StoreMode(m));
                    r.push(Effect::SendRelay(RelayMqtt { value: bool_to_text(st), mode: m }));
                },
            }
        },
    }
    assert(effects_view(r@) =~= relay_state_answer(state, mode));
    r
}

/// The number that a text stands for, or 0 when it is not an `i64`
/// (`text.parse::<i64>().unwrap_or(0)`).
pub open spec fn number_or_zero(t: Seq<char>) -> i64 {
    match parse_i64_spec(t) {
        Some(v) => v,
        None => 0,
    }
}

fn parse_or_zero(t: &str) -> (r: i64)
    ensures
        r == number_or_zero(t@),
{
    match parse_i64(t) {
        Some(v) => v,
        None => 0,
    }
}

/// The hour that a reboot message carries, or the text that marks it missing.
pub open spec fn reboot_hour_text(hour: Option<Seq<char>>) -> Seq<char> {
    match hour {
        Some(t) => t,
        None => "error reboot time json parsing"@,
    }
}

/// The answer to a reboot message: its hour is stored as written and passed on
/// as a number (0 when it is not one).
pub open spec fn reboot_answer(hour: Option<Seq<char>>) -> Seq<EffectView> {
    seq![
        EffectView::StoreReboot(reboot_hour_text(hour)),
        EffectView::SendReboot(number_or_zero(reboot_hour_text(hour))),
    ]
}

/// What the server does with a reboot message whose `currenttimehours` reads as given.
pub fn reboot_effects(hour: Option<String>) -> (r: Vec<Effect>)
    ensures
        effects_view(r@) == reboot_answer(match hour {
            Some(h) => Some(h@),
            None => None,
        }),
{
    let time: String = match hour {
        Some(h) => h,
        None => String::from_str("error reboot time json parsing"),
    };
    let n = parse_or_zero(time.as_str());
    let mut r: Vec<Effect> = Vec::new();
    r.push(Effect::StoreReboot(time));
    r.push(Effect::SendReboot(n));
    assert(effects_view(r@) =~= reboot_answer(match hour {
        Some(h) => Some(h@),
        None => None,
    }));
    r
}

/// The text that stands in every field of a log record that could not be read.
pub open spec fn log_error_text() -> Seq<char> {
    "error parsing json"@
}

/// The log record that a log message yields: the one read from it together
/// with its day of the year, or, when either is missing, a record whose every
/// field is the error text.
pub open spec fn log_record(parsed: Option<LogDataView>, dayofyear: Option<Seq<char>>) -> (LogDataView, Seq<char>) {
    match (parsed, dayofyear) {
        (Some(l), Some(d)) => (l, d),
        _ => (LogDataView { timeon: log_error_text(), currenttimehours: log_error_text() }, log_error_text()),
    }
}

/// The answer to a log message: the record is stored, its hour and day read as
/// numbers (0 when they are not), and then passed on.
pub open spec fn log_data_answer(parsed: Option<LogDataView>, dayofyear: Option<Seq<char>>) -> Seq<EffectView> {
    let (rec, day) = log_record(parsed, dayofyear);
    seq![
        EffectView::StoreLog {
            timeon: rec.timeon,
            lasttime: number_or_zero(rec.currenttimehours),
            lastday: number_or_zero(day),
        },
        EffectView::SendLog(rec),
    ]
}

/// A copy of a log record.
pub fn copy_log(l: &LogData) -> (r: LogData)
    ensures
        r@ == l@,
{
    LogData { timeon: l.timeon.clone(), currenttimehours: l.currenttimehours.clone() }
}

/// What the server does with a log message, given the record read from it and
/// its `dayofyear` member.
pub fn log_data_effects(parsed: Option<LogData>, dayofyear: Option<String>) -> (r: Vec<Effect>)
    ensures
        effects_view(r@) == log_data_answer(
            match parsed {
                Some(l) => Some(l@),
                None => None,
            },
            match dayofyear {
                Some(d) => Some(d@),
                None => None,
            },
        ),
{
    let (rec, day): (LogData, String) = match (parsed, dayofyear) {
        (Some(l), Some(d)) => (l, d),
        _ => (
            LogData {
                timeon: String::from_str("error parsing json"),
                currenttimehours: String::from_str("error parsing json"),
            },
            String::from_str("error parsing json"),
        ),
    };
    let lasttime = parse_or_zero(rec.currenttimehours.as_str());
    let lastday = parse_or_zero(day.as_str());
    let mut r: Vec<Effect> = Vec::new();
    r.push(Effect::StoreLog { timeon: rec.timeon.clone(), lasttime, lastday });
    r.push(Effect::SendLog(rec));
    r
}

/// The answer to a message on topic `topic` with JSON text `payload`, given
/// the log record that the text reads as (used on the log topic only).
pub open spec fn message_answer(topic: Seq<char>, payload: Seq<u8>, parsed_log: Option<LogDataView>) -> Seq<EffectView> {
    match topic_of(topic) {
        Topic::SunData => sun_data_answer(
            json_i64_member(payload, "currentpw"@),
            json_i64_member(payload, "daypw"@),
        ),
        Topic::RelayState => relay_state_answer(
            json_bool_member(payload, "state"@),
            json_bool_member(payload, "mode"@),
        ),
        Topic::LogData => log_data_answer(parsed_log, json_str_member(payload, "dayofyear"@)),
        Topic::Reboot => reboot_answer(json_str_member(payload, "currenttimehours"@)),
        Topic::Other => seq![],
    }
}

/// What the server does with an MQTT message from the controller on `topic`
/// with JSON text `payload`; `parsed_log` is the log record that the text reads
/// as, if it reads as one.
pub fn message_effects(topic: &str, payload: &[u8], parsed_log: Option<LogData>) -> (r: Vec<Effect>)
    ensures
        effects_view(r@) == message_answer(topic@, payload@, match parsed_log {
            Some(l) => Some(l@),
            None => None,
        }),
{
    match classify_topic(topic) {
        Topic::SunData => {
            let c = read_i64_member(payload, "currentpw");
            let d = read_i64_member(payload, "daypw");
            sun_data_effects(c, d)
        },
        Topic::RelayState => {
            let st = read_bool_member(payload, "state");
            let m = read_bool_member(payload, "mode");
            relay_state_effects(st, m)
        },
        Topic::LogData => {
            let d = read_str_member(payload, "dayofyear");
            log_data_effects(parsed_log, d)
        },
        Topic::Reboot => {
            let h = read_str_member(payload, "currenttimehours");
            reboot_effects(h)
        },
        Topic::Other => Vec::new(),
    }
}

/// The JSON text that switches the relay or the manual mode on or off.
pub open spec fn switch_payload(on: bool) -> Seq<char> {
    if on { "{\"state\":\"on\"}"@ } else { "{\"state\":\"off\"}"@ }
}

/// The answer to a dashboard command: what is stored, and what is published
/// to the controller, on which topic, with which guarantee and retain flag.
pub open spec fn command_answer(action: ActionMqtt) -> Seq<EffectView> {
    match action {
        ActionMqtt::State(on) => seq![
            EffectView::StoreState(on),
            EffectView::Publish(PublicationView {
                topic: "esp32/relay"@,
                qos: QoS::ExactlyOnce,
                retain: false,
                payload: switch_payload(on),
            }),
        ],
        ActionMqtt::Get => seq![
            EffectView::Publish(PublicationView {
                topic: "esp32/get"@,
                qos: QoS::AtMostOnce,
                retain: false,
                payload: "uninportant message"@,
            }),
        ],
        ActionMqtt::setmanualmode(on) => seq![
            EffectView::StoreMode(on),
            EffectView::Publish(PublicationView {
                topic: "esp32/setmanualmode"@,
                qos: QoS::ExactlyOnce,
                retain: false,
                payload: switch_payload(on),
            }),
        ],
    }
}

fn switch_text(on: bool) -> (r: String)
    ensures
        r@ == switch_payload(on),
{
    if on {
        String::from_str("{\"state\":\"on\"}")
    } else {
        String::from_str("{\"state\":\"off\"}")
    }
}

/// What the server does with a command from the dashboard.
pub fn command_effects(action: ActionMqtt) -> (r: Vec<Effect>)
    ensures
        effects_view(r@) == command_answer(action),
{
    let mut r: Vec<Effect> = Vec::new();
    match action {
        ActionMqtt::State(on) => {
            r.push(Effect::StoreState(on));
            r.push(Effect::Publish(Publication {
                topic: String::from_str("esp32/relay"),
                qos: QoS::ExactlyOnce,
                retain: false,
                payload: switch_text(on),
            }));
        },
        ActionMqtt::Get => {
            r.push(Effect::Publish(Publication {
                topic: String::from_str("esp32/get"),
                qos: QoS::AtMostOnce,
                retain: false,
                payload: String::from_str("uninportant message"),
            }));
        },
        ActionMqtt::setmanualmode(on) => {
            r.push(Effect::StoreMode(on));
            r.push(Effect::Publish(Publication {
                topic: String::from_str("esp32/setmanualmode"),
                qos: QoS::ExactlyOnce,
                retain: false,
                payload: switch_text(on),
            }));
        },
    }
    assert(effects_view(r@) =~= command_answer(action));
    r
}

/// The answer to new settings, given their JSON text: it is published, retained,
/// on `esp32/settings`.
pub open spec fn settings_answer(json: Seq<char>) -> Seq<EffectView> {
    seq![
        EffectView::Publish(PublicationView {
            topic: "esp32/settings"@,
            qos: QoS::ExactlyOnce,
            retain: true,
            payload: json,
        }),
    ]
}

/// What the server does with new settings, given their JSON text.
pub fn settings_effects(json: String) -> (r: Vec<Effect>)
    ensures
        effects_view(r@) == settings_answer(json@),
{
    let mut r: Vec<Effect> = Vec::new();
    r.push(Effect::Publish(Publication {
        topic: String::from_str("esp32/settings"),
        qos: QoS::ExactlyOnce,
        retain: true,
        payload: json,
    }));
    assert(effects_view(r@) =~= settings_answer(json@));
    r
}

/// The dashboard signal for a current power reading: its decimal text.
pub fn current_pw_signal(reading: i64) -> (r: CurrentPw)
    ensures
        r.value@ == decimal_text(reading as int),
{
    CurrentPw { value: i64_to_decimal(reading) }
}

/// The dashboard signal for the energy of the day: its decimal text.
pub fn day_pw_signal(reading: i64) -> (r: DayPw)
    ensures
        r.value@ == decimal_text(reading as int),
{
    DayPw { value: i64_to_decimal(reading) }
}

/// The dashboard signal for a relay report: the same state text and mode.
pub fn relay_signal(report: &RelayMqtt) -> (r: RelayMqtt)
    ensures
        r@ == report@,
{
    RelayMqtt { value: report.value.clone(), mode: report.mode }
}

/// The dashboard signal for the hour of the last reboot.
pub fn reboot_signal(hour: i64) -> (r: RebootMqtt)
    ensures
        r.value == hour,
{
    RebootMqtt { value: hour }
}

/// The publication that an effect makes, if it is one.
pub open spec fn published(e: EffectView) -> Option<PublicationView> {
    match e {
        EffectView::Publish(p) => Some(p),
        _ => None,
    }
}

/// The last values survive the controller going offline: every command that
/// switches the relay or the manual mode is stored before it is published, and
/// the publication carries the same value; settings are published retained, so
/// that the broker hands them to the controller when it comes back.
pub proof fn law_commands_are_kept(action: ActionMqtt, json: Seq<char>)
    ensures
        match action {
            ActionMqtt::State(on) => command_answer(action)[0] == EffectView::StoreState(on)
                && published(command_answer(action)[1]) is Some
                && published(command_answer(action)[1])->0.payload == switch_payload(on),
            ActionMqtt::setmanualmode(on) => command_answer(action)[0] == EffectView::StoreMode(on)
                && published(command_answer(action)[1]) is Some
                && published(command_answer(action)[1])->0.payload == switch_payload(on),
            ActionMqtt::Get => command_answer(action).len() == 1,
        },
        settings_answer(json).len() == 1,
        published(settings_answer(json)[0]) == Some(PublicationView {
            topic: "esp32/settings"@,
            qos: QoS::ExactlyOnce,
            retain: true,
            payload: json,
        }),
{
}

/// What the dashboards are shown of the relay is what was stored: whenever a
/// relay report is passed on, the same state and mode were stored just before.
pub proof fn law_relay_report_is_stored(state: Option<bool>, mode: Option<bool>)
    ensures
        forall|i: int|
            0 <= i < relay_state_answer(state, mode).len() && (#[trigger] relay_state_answer(
                state,
                mode,
            )[i] is SendRelay) ==> {
                &&& i == 2
                &&& state is Some && mode is Some
                &&& relay_state_answer(state, mode)[0] == EffectView::StoreState(state->0)
                &&& relay_state_answer(state, mode)[1] == EffectView::StoreMode(mode->0)
                &&& relay_state_answer(state, mode)[2] == EffectView::SendRelay(
                    RelayView { value: bool_text(state->0), mode: mode->0 },
                )
            },
{
}

/// The reboot hour passed on to the dashboards is the number that the stored
/// text reads as, and a power reading reaches the dashboard as text that reads
/// back as the same reading.
pub proof fn law_dashboard_values_read_back(hour: Option<Seq<char>>, reading: i64)
    ensures
        reboot_answer(hour)[0] == EffectView::StoreReboot(reboot_hour_text(hour)),
        reboot_answer(hour)[1] == EffectView::SendReboot(number_or_zero(reboot_hour_text(hour))),
        parse_i64_spec(decimal_text(reading as int)) == Some(reading),
{
    crate::text::law_decimal_round_trip(reading);
}

/// Every sun-data reading is passed on as it came, zero and negative readings
/// included: the current power first, then the energy of the day when the
/// message has it; nothing when the current power is missing.
pub proof fn law_sun_data_passed_on(c: i64, d: i64, day: Option<i64>)
    ensures
        sun_data_answer(Some(c), Some(d)) == seq![EffectView::SendCurrentPw(c), EffectView::SendDayPw(d)],
        sun_data_answer(Some(c), None) == seq![EffectView::SendCurrentPw(c)],
        sun_data_answer(None, day).len() == 0,
{
}

/// A relay report with both members stores the state, then the mode, then
/// passes both on, the state written `"true"` or `"false"`, for every state and
/// mode; with the state alone only the state is stored; without the state
/// nothing happens.
pub proof fn law_relay_report_handled(st: bool, m: bool, mode: Option<bool>)
    ensures
        relay_state_answer(Some(st), Some(m)) == seq![
            EffectView::StoreState(st),
            EffectView::StoreMode(m),
            EffectView::SendRelay(RelayView { value: if st { "true"@ } else { "false"@ }, mode: m }),
        ],
        relay_state_answer(Some(st), None) == seq![EffectView::StoreState(st)],
        relay_state_answer(None, mode).len() == 0,
{
}

/// A log record with its day of the year is stored with the running time as
/// written and the hour and day as the integers their texts read as (0 when a
/// text is not an `i64`), then passed on unchanged; a day written as the
/// decimal text of `n` is stored as `n`.
pub proof fn law_log_record_stored(l: LogDataView, day: Seq<char>, n: i64)
    ensures
        log_data_answer(Some(l), Some(day)) == seq![
            EffectView::StoreLog {
                timeon: l.timeon,
                lasttime: match parse_i64_spec(l.currenttimehours) {
                    Some(v) => v,
                    None => 0,
                },
                lastday: match parse_i64_spec(day) {
                    Some(v) => v,
                    None => 0,
                },
            },
            EffectView::SendLog(l),
        ],
        log_data_answer(Some(l), Some(decimal_text(n as int)))[0] matches EffectView::StoreLog { lastday, .. }
            && lastday == n,
{
    crate::text::law_decimal_round_trip(n);
}

/// A log message that cannot be read in full is stored and passed on as the
/// record whose every field reads `error parsing json`, with hour and day 0.
pub proof fn law_log_record_unreadable(parsed: Option<LogDataView>, day: Option<Seq<char>>)
    requires
        parsed is None || day is None,
    ensures
        log_data_answer(parsed, day) == seq![
            EffectView::StoreLog { timeon: "error parsing json"@, lasttime: 0, lastday: 0 },
            EffectView::SendLog(
                LogDataView { timeon: "error parsing json"@, currenttimehours: "error parsing json"@ },
            ),
        ],
{
    lemma_error_text_is_no_number();
}

proof fn lemma_error_text_is_no_number()
    ensures
        parse_i64_spec("error parsing json"@) is None,
        parse_i64_spec("error reboot time json parsing"@) is None,
{
    reveal_strlit("error parsing json");
    reveal_strlit("error reboot time json parsing");
    assert(!crate::text::is_digit("error parsing json"@[0]));
    assert(!crate::text::is_digit("error reboot time json parsing"@[0]));
}

/// A reboot report is stored as written and passed on as the integer that its
/// hour reads as (0 when it is not one); without an hour, the error text is
/// stored and 0 passed on.
pub proof fn law_reboot_handled(t: Seq<char>)
    ensures
        reboot_answer(Some(t)) == seq![
            EffectView::StoreReboot(t),
            EffectView::SendReboot(match parse_i64_spec(t) {
                Some(v) => v,
                None => 0,
            }),
        ],
        reboot_answer(None) == seq![
            EffectView::StoreReboot("error reboot time json parsing"@),
            EffectView::SendReboot(0),
        ],
{
    lemma_error_text_is_no_number();
}

/// Each dashboard command goes to its own topic: switching the relay stores the
/// state and publishes on `esp32/relay`, switching the manual mode stores the
/// mode and publishes on `esp32/setmanualmode`, both exactly once and not
/// retained, with `{"state":"on"}` or `{"state":"off"}`; a refresh publishes on
/// `esp32/get` at most once; settings are published retained on `esp32/settings`.
pub proof fn law_command_topics(on: bool, json: Seq<char>)
    ensures
        command_answer(ActionMqtt::State(on)) == seq![
            EffectView::StoreState(on),
            EffectView::Publish(PublicationView {
                topic: "esp32/relay"@,
                qos: QoS::ExactlyOnce,
                retain: false,
                payload: if on { "{\"state\":\"on\"}"@ } else { "{\"state\":\"off\"}"@ },
            }),
        ],
        command_answer(ActionMqtt::setmanualmode(on)) == seq![
            EffectView::StoreMode(on),
            EffectView::Publish(PublicationView {
                topic: "esp32/setmanualmode"@,
                qos: QoS::ExactlyOnce,
                retain: false,
                payload: if on { "{\"state\":\"on\"}"@ } else { "{\"state\":\"off\"}"@ },
            }),
        ],
        command_answer(ActionMqtt::Get) == seq![
            EffectView::Publish(PublicationView {
                topic: "esp32/get"@,
                qos: QoS::AtMostOnce,
                retain: false,
                payload: "uninportant message"@,
            }),
        ],
        settings_answer(json) == seq![
            EffectView::Publish(PublicationView {
                topic: "esp32/settings"@,
                qos: QoS::ExactlyOnce,
                retain: true,
                payload: json,
            }),
        ],
{
}

/// Each controller topic is read for its own members: sun data for
/// `currentpw` and `daypw`, relay reports for `state` and `mode`, log records
/// with `dayofyear`, reboots for `currenttimehours`; any other topic does nothing.
pub proof fn law_message_routing(topic: Seq<char>, payload: Seq<u8>, parsed_log: Option<LogDataView>)
    ensures
        message_answer("esp32/sendsundata"@, payload, parsed_log) == sun_data_answer(
            json_i64_member(payload, "currentpw"@),
            json_i64_member(payload, "daypw"@),
        ),
        message_answer("esp32/sendrelaystate"@, payload, parsed_log) == relay_state_answer(
            json_bool_member(payload, "state"@),
            json_bool_member(payload, "mode"@),
        ),
        message_answer("esp32/sendlogdata"@, payload, parsed_log) == log_data_answer(
            parsed_log,
            json_str_member(payload, "dayofyear"@),
        ),
        message_answer("esp32/reboot"@, payload, parsed_log) == reboot_answer(
            json_str_member(payload, "currenttimehours"@),
        ),
        topic != "esp32/sendsundata"@ && topic != "esp32/sendrelaystate"@ && topic != "esp32/sendlogdata"@
            && topic != "esp32/reboot"@ ==> message_answer(topic, payload, parsed_log).len() == 0,
{
    reveal_strlit("esp32/sendsundata");
    reveal_strlit("esp32/sendrelaystate");
    reveal_strlit("esp32/sendlogdata");
    reveal_strlit("esp32/reboot");
    assert("esp32/sendrelaystate"@.len() != "esp32/sendsundata"@.len());
    assert("esp32/sendlogdata"@[10] != "esp32/sendsundata"@[10]);
    assert("esp32/sendlogdata"@.len() != "esp32/sendrelaystate"@.len());
    assert("esp32/reboot"@.len() != "esp32/sendsundata"@.len());
    assert("esp32/reboot"@.len() != "esp32/sendrelaystate"@.len());
    assert("esp32/reboot"@.len() != "esp32/sendlogdata"@.len());
}

} // verus!
