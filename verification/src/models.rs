use vstd::prelude::*;
use vstd::string::*;

verus! {

/// A command for the pool controller, sent by the dashboard.
#[allow(non_camel_case_types)]
#[derive(Clone, Copy, Debug, PartialEq, Eq, Structural)]
pub enum ActionMqtt {
    /// Switch the relay on (`true`) or off (`false`).
    State(bool),
    /// Ask the controller to publish its current readings.
    Get,
    /// Switch the manual mode on (`true`) or off (`false`).
    setmanualmode(bool),
}

/// A user, as carried in the session cookie.
#[derive(Clone, Debug, PartialEq, Eq)]
pub struct User {
    pub name: String,
    pub pass: String,
}

/// A user as text: its name and password.
pub struct UserView {
    pub name: Seq<char>,
    pub pass: Seq<char>,
}

impl View for User {
    type V = UserView;

    open spec fn view(&self) -> UserView {
        UserView { name: self.name@, pass: self.pass@ }
    }
}

/// The energy produced during the day, as shown on the dashboard.
#[derive(Clone, Default, Debug, PartialEq, Eq)]
pub struct DayPw {
    pub value: String,
}

/// The log record of the controller: how long the pool ran and its clock.
#[derive(Clone, Default, Debug, PartialEq, Eq)]
pub struct LogData {
    pub timeon: String,
    pub currenttimehours: String,
}

/// A log record as text.
pub struct LogDataView {
    pub timeon: Seq<char>,
    pub currenttimehours: Seq<char>,
}

impl View for LogData {
    type V = LogDataView;

    open spec fn view(&self) -> LogDataView {
        LogDataView { timeon: self.timeon@, currenttimehours: self.currenttimehours@ }
    }
}

/// The text of a log record, as the dashboard prints it.
pub open spec fn log_data_text(l: LogDataView) -> Seq<char> {
    "timeon: "@ + l.timeon + "\n \n current time: "@ + l.currenttimehours
}

/// The printed record shows the running time, then the hour, each after its label.
pub proof fn law_log_data_text(l: LogDataView)
    ensures
        log_data_text(l) == "timeon: "@ + l.timeon + "\n \n current time: "@ + l.currenttimehours,
{
}

impl LogData {
    /// The text of the record, as the dashboard prints it.
    pub fn display_text(&self) -> (r: String)
        ensures
            r@ == log_data_text(self@),
    {
        let mut r = String::from_str("timeon: ");
        r.append(self.timeon.as_str());
        r.append("\n \n current time: ");
        r.append(self.currenttimehours.as_str());
        r
    }
}

/// Settings for the automatic mode; a field left out keeps its previous value.
#[derive(Clone, Copy, Debug, PartialEq, Eq, Structural)]
pub struct ParamsJson {
    pub mininterval: Option<i32>,
    pub mintimeon: Option<i32>,
    pub minpw: Option<i32>,
}

/// The relay state (`"true"` or `"false"`) and whether manual mode is on.
#[derive(Clone, Default, Debug, PartialEq, Eq)]
pub struct RelayMqtt {
    pub value: String,
    pub mode: bool,
}

/// A relay report as text.
pub struct RelayView {
    pub value: Seq<char>,
    pub mode: bool,
}

impl View for RelayMqtt {
    type V = RelayView;

    open spec fn view(&self) -> RelayView {
        RelayView { value: self.value@, mode: self.mode }
    }
}

/// The hour of the last reboot of the controller.
#[derive(Clone, Copy, Default, Debug, PartialEq, Eq, Structural)]
pub struct RebootMqtt {
    pub value: i64,
}

/// The power produced right now, as shown on the dashboard.
#[derive(Clone, Default, Debug, PartialEq, Eq)]
pub struct CurrentPw {
    pub value: String,
}

} // verus!
