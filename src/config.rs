//! Connection settings that the services are configured with, and the
//! deployment environment that picks their configuration files.
use vstd::prelude::*;

use crate::text::{decimal, push_decimal};

verus! {

/// A host and port to connect to or listen on.
#[derive(Debug, Clone)]
pub struct Server {
    host: String,
    port: u16,
}

/// A broker to connect to, and the topic to use there.
#[derive(Debug, Clone)]
pub struct Mqtt {
    server: Server,
    topic: String,
}

impl Server {
    pub closed spec fn host_view(&self) -> Seq<char> {
        self.host@
    }

    pub closed spec fn port_view(&self) -> u16 {
        self.port
    }

    pub fn new(host: String, port: u16) -> (r: Server)
        ensures
            r.host_view() == host@,
            r.port_view() == port,
    {
        Server { host, port }
    }

    pub fn host(&self) -> (r: String)
        ensures
            r@ == self.host_view(),
    {
        self.host.clone()
    }

    pub fn port(&self) -> (r: u16)
        ensures
            r == self.port_view(),
    {
        self.port
    }
}

/// `tcp://<host>:<port>`.
pub open spec fn broker_address_spec(host: Seq<char>, port: u16) -> Seq<char> {
    "tcp://"@ + host + ":"@ + decimal(port as nat)
}

impl Mqtt {
    pub closed spec fn server_view(&self) -> Server {
        self.server
    }

    pub closed spec fn topic_view(&self) -> Seq<char> {
        self.topic@
    }

    pub fn new(server: Server, topic: String) -> (r: Mqtt)
        ensures
            r.server_view().host_view() == server.host_view(),
            r.server_view().port_view() == server.port_view(),
            r.topic_view() == topic@,
    {
        Mqtt { server, topic }
    }

    pub fn broker_host(&self) -> (r: String)
        ensures
            r@ == self.server_view().host_view(),
    {
        self.server.host()
    }

    pub fn broker_port(&self) -> (r: u16)
        ensures
            r == self.server_view().port_view(),
    {
        self.server.port
    }

    pub fn topic(&self) -> (r: String)
        ensures
            r@ == self.topic_view(),
    {
        self.topic.clone()
    }

    /// The broker's address as the MQTT client takes it.
    pub fn broker_address(&self) -> (r: String)
        ensures
            r@ == broker_address_spec(self.server_view().host_view(), self.server_view().port_view()),
    {
        let mut s = String::from_str("tcp://");
        s.append(self.server.host.as_str());
        s.append(":");
        push_decimal(&mut s, self.server.port as u64);
        s
    }
}

/// The deployment a service runs in; it names the configuration file that
/// is layered over the base one.
#[derive(Debug, Clone, Copy, PartialEq, Eq, Structural)]
pub enum Environment {
    Local,
    Production,
}

pub open spec fn environment_name(e: Environment) -> Seq<char> {
    match e {
        Environment::Local => "local"@,
        Environment::Production => "production"@,
    }
}

/// Whether two strings hold the same characters.
pub fn same_text(a: &str, b: &str) -> (r: bool)
    ensures
        r == (a@ == b@),
{
    let n = a.unicode_len();
    if n != b.unicode_len() {
        return false;
    }
    let mut i: usize = 0;
    while i < n
        invariant
            n == a@.len(),
            n == b@.len(),
            0 <= i <= n,
            forall|j: int| 0 <= j < i ==> a@[j] == b@[j],
        decreases n - i,
    {
        if a.get_char(i) != b.get_char(i) {
            return false;
        }
        i = i + 1;
    }
    proof {
        assert(a@ =~= b@);
    }
    true
}

impl Environment {
    pub fn as_str(&self) -> (r: &'static str)
        ensures
            r@ == environment_name(*self),
    {
        match self {
            Environment::Local => "local",
            Environment::Production => "production",
        }
    }

    /// Reads an environment name; anything but `local` or `production` is
    /// refused with a message that quotes it.
    pub fn parse(s: &str) -> (r: Result<Environment, String>)
        ensures
            r == Ok::<_, String>(Environment::Local) <==> s@ == "local"@,
            r == Ok::<_, String>(Environment::Production) <==> s@ == "production"@,
            r matches Err(m) ==> m@ == "Unknown environment: "@ + s@,
            r is Err <==> s@ != "local"@ && s@ != "production"@,
    {
        proof {
            reveal_strlit("local");
            reveal_strlit("production");
            assert("local"@.len() != "production"@.len());
        }
        if same_text(s, "local") {
            Ok(Environment::Local)
        } else if same_text(s, "production") {
            Ok(Environment::Production)
        } else {
            let mut m = String::from_str("Unknown environment: ");
            m.append(s);
            Err(m)
        }
    }
}

} // verus!
