use crate::mqtt_settings::{MqttSettings, SettingsModel};
use vstd::prelude::*;

verus! {

/// The delivery guarantee that a message asks of the broker.
#[derive(Debug, Clone, Copy, PartialEq, Eq, Structural)]
pub enum Qos {
    AtMostOnce,
    AtLeastOnce,
    ExactlyOnce,
}

/// A message that is to be sent to the broker.
#[derive(Debug, Clone, PartialEq)]
pub struct Message {
    pub topic: String,
    pub payload: String,
    pub qos: Qos,
    pub retained: bool,
}

/// The mathematical content of a [`Message`].
pub struct MessageModel {
    pub topic: Seq<char>,
    pub payload: Seq<char>,
    pub qos: Qos,
    pub retained: bool,
}

impl View for Message {
    type V = MessageModel;

    open spec fn view(&self) -> MessageModel {
        MessageModel {
            topic: self.topic@,
            payload: self.payload@,
            qos: self.qos,
            retained: self.retained,
        }
    }
}

/// The message that carries `payload` on `topic`: acknowledged exactly once,
/// and retained by the broker for those who subscribe later.
pub open spec fn message_for(topic: Seq<char>, payload: Seq<char>) -> MessageModel {
    MessageModel { topic, payload, qos: Qos::ExactlyOnce, retained: true }
}

/// The decimal digit of a number below ten.
pub open spec fn digit(d: nat) -> char {
    seq!['0', '1', '2', '3', '4', '5', '6', '7', '8', '9'][d as int]
}

/// A number written in decimal, without leading zeros.
pub open spec fn decimal(n: nat) -> Seq<char>
    decreases n,
{
    if n < 10 {
        seq![digit(n)]
    } else {
        decimal(n / 10).push(digit(n % 10))
    }
}

/// The address of the broker: `tcp://`, the host, a colon, the port.
pub open spec fn server_uri(settings: SettingsModel) -> Seq<char> {
    "tcp://"@ + settings.ip + ":"@ + decimal(settings.port as nat)
}

/// How many seconds an attempt to connect may take.
pub const CONNECT_TIMEOUT_SECS: u64 = 5;

/// How many seconds lie between two attempts of the session to reconnect by
/// itself after the connection was lost.
pub const RETRY_INTERVAL_SECS: u64 = 1;

/// What has to be done to the broker connection after [`MqttClient::connect`].
#[derive(Debug, Clone, PartialEq)]
pub struct ConnectPlan {
    /// Close the session that was open; a failure to do so is ignored.
    pub disconnect_first: bool,
    /// Open a session to this address; `None` when no settings are known, in
    /// which case the client stays disconnected.
    pub server_uri: Option<String>,
    /// The bound on the time that opening the session may take.
    pub timeout_secs: u64,
    /// The fixed interval of the automatic reconnection of the new session.
    pub retry_interval_secs: u64,
}

/// How the attempt to open a session ended.
#[derive(Debug, Clone, Copy, PartialEq, Eq, Structural)]
pub enum ConnectOutcome {
    Connected,
    CreateFailed,
    ConnectFailed,
}

/// The state of the publishing client: the settings it connects with, and
/// whether it holds a session with the broker.
pub struct MqttClient {
    session: bool,
    settings: Option<MqttSettings>,
}

fn digit_str(d: u16) -> (s: &'static str)
    requires
        d < 10,
    ensures
        s@ == seq![digit(d as nat)],
{
    proof {
        reveal_strlit("0");
        reveal_strlit("1");
        reveal_strlit("2");
        reveal_strlit("3");
        reveal_strlit("4");
        reveal_strlit("5");
        reveal_strlit("6");
        reveal_strlit("7");
        reveal_strlit("8");
        reveal_strlit("9");
    }
    let s = if d == 0 {
        "0"
    } else if d == 1 {
        "1"
    } else if d == 2 {
        "2"
    } else if d == 3 {
        "3"
    } else if d == 4 {
        "4"
    } else if d == 5 {
        "5"
    } else if d == 6 {
        "6"
    } else if d == 7 {
        "7"
    } else if d == 8 {
        "8"
    } else {
        "9"
    };
    assert(s@ =~= seq![digit(d as nat)]);
    s
}

/// Writes a port number in decimal.
pub fn decimal_string(n: u16) -> (s: String)
    ensures
        s@ == decimal(n as nat),
    decreases n,
{
    if n < 10 {
        String::from_str(digit_str(n))
    } else {
        let mut s = decimal_string(n / 10);
        s.append(digit_str(n % 10));
        assert(s@ =~= decimal(n as nat));
        s
    }
}

/// Builds the address at which the broker of `settings` is reached.
pub fn server_uri_of(settings: &MqttSettings) -> (uri: String)
    ensures
        uri@ == server_uri(settings@),
{
    let mut uri = String::from_str("tcp://");
    uri.append(settings.ip.as_str());
    uri.append(":");
    let port = decimal_string(settings.port);
    uri.append(port.as_str());
    uri
}

impl MqttClient {
    /// Whether the client holds a session with the broker.
    pub closed spec fn has_session(&self) -> bool {
        self.session
    }

    /// The settings that the client connects with, if it has any.
    pub closed spec fn settings(&self) -> Option<SettingsModel> {
        match self.settings {
            Some(settings) => Some(settings@),
            None => None,
        }
    }

    /// A client without settings and without a session.
    pub fn new() -> (client: MqttClient)
        ensures
            !client.has_session(),
            client.settings() is None,
    {
        MqttClient { session: false, settings: None }
    }

    /// Whether the client holds a session with the broker.
    pub fn holds_session(&self) -> (held: bool)
        ensures
            held == self.has_session(),
    {
        self.session
    }

    /// Replaces the settings. A session that is open stays as it is until the
    /// next [`MqttClient::connect`].
    pub fn set_settings(&mut self, settings: MqttSettings)
        ensures
            final(self).settings() == Some(settings@),
            final(self).has_session() == old(self).has_session(),
    {
        self.settings = Some(settings);
    }

    /// A copy of the settings that the client connects with.
    pub fn current_settings(&self) -> (settings: Option<MqttSettings>)
        ensures
            settings is Some <==> self.settings() is Some,
            settings matches Some(s) ==> self.settings() == Some(s@),
    {
        match &self.settings {
            Some(settings) => Some(settings.duplicate()),
            None => None,
        }
    }

    /// Starts a fresh connection with the current settings. The session held so
    /// far, if any, is given up at once: the plan says to close it, and what to
    /// open in its place. The client counts as disconnected until
    /// [`MqttClient::connect_finished`] reports that the new session is open.
    pub fn connect(&mut self) -> (plan: ConnectPlan)
        ensures
            !final(self).has_session(),
            final(self).settings() == old(self).settings(),
            plan.disconnect_first == old(self).has_session(),
            match old(self).settings() {
                Some(settings) => plan.server_uri matches Some(uri) && uri@ == server_uri(
                    settings,
                ),
                None => plan.server_uri is None,
            },
            plan.timeout_secs == CONNECT_TIMEOUT_SECS,
            plan.retry_interval_secs == RETRY_INTERVAL_SECS,
    {
        let disconnect_first = self.session;
        self.session = false;
        let server_uri = match &self.settings {
            Some(settings) => Some(server_uri_of(settings)),
            None => None,
        };
        ConnectPlan {
            disconnect_first,
            server_uri,
            timeout_secs: CONNECT_TIMEOUT_SECS,
            retry_interval_secs: RETRY_INTERVAL_SECS,
        }
    }

    /// Records how carrying out a [`ConnectPlan`] ended. The client holds a
    /// session only if one was opened; after any failure it is disconnected.
    pub fn connect_finished(&mut self, outcome: ConnectOutcome)
        ensures
            final(self).has_session() == (outcome == ConnectOutcome::Connected && old(
                self,
            ).settings() is Some),
            final(self).settings() == old(self).settings(),
    {
        self.session = match outcome {
            ConnectOutcome::Connected => self.settings.is_some(),
            ConnectOutcome::CreateFailed => false,
            ConnectOutcome::ConnectFailed => false,
        };
    }

    /// The message to send for `value` on `topic`, or `None` while the client
    /// holds no session: what is published then is dropped, not queued.
    pub fn publish(&self, topic: &String, value: &String) -> (message: Option<Message>)
        ensures
            message is Some <==> self.has_session(),
            message matches Some(m) ==> m@ == message_for(topic@, value@),
    {
        if self.session {
            Some(
                Message {
                    topic: topic.clone(),
                    payload: value.clone(),
                    qos: Qos::ExactlyOnce,
                    retained: true,
                },
            )
        } else {
            None
        }
    }

    /// Whether the client counts as connected: it holds a session, and the
    /// session last reported its link as up (`link_up`, which is read from the
    /// session without asking the broker).
    pub fn is_connected(&self, link_up: bool) -> (connected: bool)
        ensures
            connected == (self.has_session() && link_up),
    {
        self.session && link_up
    }
}

} // verus!
