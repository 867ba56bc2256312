//! The configuration of the server, and the rule that says which listeners it
//! asks for.

use crate::net::capabilities::{ConnType, Protocol};
use vstd::prelude::*;

verus! {

/// The address of each kind of listener, as `host:port`. Each one is optional.
#[derive(Debug, Clone)]
pub struct ListenerConfig {
    pub plain_telnet: Option<String>,
    pub tls_telnet: Option<String>,
    pub plain_websocket: Option<String>,
    pub tls_websocket: Option<String>,
    pub ssh: Option<String>,
}

/// Where the key and the certificate of the server are kept.
#[derive(Debug, Clone)]
pub struct TlsConfig {
    pub key: String,
    pub pem: String,
}

#[derive(Debug, Clone)]
pub struct NetConfig {
    pub listeners: Option<ListenerConfig>,
    pub tls: Option<TlsConfig>,
}

#[derive(Debug, Clone)]
pub struct Config {
    pub net: Option<NetConfig>,
}

/// Why a configuration cannot be started on.
#[derive(Debug, Clone, Copy, PartialEq, Eq, Structural)]
pub enum ConfigError {
    /// There is no network section.
    MissingNet,
    /// The network section names no listeners.
    MissingListeners,
    /// No listener has an address.
    NoListeners,
    /// A listener asks for TLS and there is no key or certificate.
    MissingTls,
}

/// A listener that is to be bound.
#[derive(Debug, Clone)]
pub struct ListenerPlan {
    pub address: String,
    pub protocol: Protocol,
    pub ctype: ConnType,
}

/// What a planned listener stands for.
pub open spec fn plan_view(plan: ListenerPlan) -> (Seq<char>, Protocol, ConnType) {
    (plan.address@, plan.protocol, plan.ctype)
}

/// The listener that an address asks for, if there is an address.
pub open spec fn planned_one(address: Option<String>, protocol: Protocol, ctype: ConnType) -> Seq<
    (Seq<char>, Protocol, ConnType),
> {
    match address {
        Some(a) => seq![(a@, protocol, ctype)],
        None => Seq::empty(),
    }
}

/// The listeners that a configuration asks for: plain Telnet, Telnet over
/// TLS, plain WebSocket, WebSocket over TLS, SSH, in this order, each where
/// it has an address.
pub open spec fn planned(listeners: ListenerConfig) -> Seq<(Seq<char>, Protocol, ConnType)> {
    planned_one(listeners.plain_telnet, Protocol::Telnet, ConnType::Plain) + planned_one(
        listeners.tls_telnet,
        Protocol::Telnet,
        ConnType::TLS,
    ) + planned_one(listeners.plain_websocket, Protocol::WebSocket, ConnType::Plain) + planned_one(
        listeners.tls_websocket,
        Protocol::WebSocket,
        ConnType::TLS,
    ) + planned_one(listeners.ssh, Protocol::SSH, ConnType::Plain)
}

/// Tells whether a listener of the configuration asks for TLS.
pub open spec fn wants_tls(listeners: ListenerConfig) -> bool {
    listeners.tls_telnet is Some || listeners.tls_websocket is Some
}

/// What starting on a configuration comes to: the listeners to bind, or the
/// reason why the server cannot start.
pub open spec fn plan_of(config: Config) -> Result<Seq<(Seq<char>, Protocol, ConnType)>, ConfigError> {
    match config.net {
        None => Err(ConfigError::MissingNet),
        Some(net) => match net.listeners {
            None => Err(ConfigError::MissingListeners),
            Some(listeners) => if planned(listeners).len() == 0 {
                Err(ConfigError::NoListeners)
            } else if wants_tls(listeners) && net.tls is None {
                Err(ConfigError::MissingTls)
            } else {
                Ok(planned(listeners))
            },
        },
    }
}

/// Adds the listener that an address asks for, if there is an address.
fn plan_one(
    plans: &mut Vec<ListenerPlan>,
    address: &Option<String>,
    protocol: Protocol,
    ctype: ConnType,
)
    ensures
        final(plans)@.map_values(|p: ListenerPlan| plan_view(p)) == old(plans)@.map_values(
            |p: ListenerPlan| plan_view(p),
        ) + planned_one(*address, protocol, ctype),
{
    match address {
        Some(a) => {
            plans.push(ListenerPlan { address: a.clone(), protocol, ctype });
            assert(plans@.map_values(|p: ListenerPlan| plan_view(p)) =~= old(plans)@.map_values(
                |p: ListenerPlan| plan_view(p),
            ) + planned_one(*address, protocol, ctype));
        },
        None => {
            assert(plans@.map_values(|p: ListenerPlan| plan_view(p)) =~= old(plans)@.map_values(
                |p: ListenerPlan| plan_view(p),
            ) + planned_one(*address, protocol, ctype));
        },
    }
}

impl ConfigError {
    /// The words that tell an operator what is wrong.
    pub fn message(&self) -> (out: String)
        ensures
            out@ == match *self {
                ConfigError::MissingNet => "Program requires Net configuration to be useful!"@,
                ConfigError::MissingListeners => "Program needs listeners to have meaning!"@,
                ConfigError::NoListeners => "Program has no listeners!"@,
                ConfigError::MissingTls => "A TLS listener needs a key and a certificate!"@,
            },
    {
        match self {
            ConfigError::MissingNet => "Program requires Net configuration to be useful!".to_owned(),
            ConfigError::MissingListeners => "Program needs listeners to have meaning!".to_owned(),
            ConfigError::NoListeners => "Program has no listeners!".to_owned(),
            ConfigError::MissingTls => "A TLS listener needs a key and a certificate!".to_owned(),
        }
    }
}

impl Config {
    /// The listeners that the server has to bind to start on this
    /// configuration. It cannot start without a network section, without
    /// listeners, or with a TLS listener and no key and certificate.
    pub fn listener_plan(&self) -> (r: Result<Vec<ListenerPlan>, ConfigError>)
        ensures
            match r {
                Ok(plans) => plan_of(*self) == Ok::<
                    Seq<(Seq<char>, Protocol, ConnType)>,
                    ConfigError,
                >(plans@.map_values(|p: ListenerPlan| plan_view(p))),
                Err(e) => plan_of(*self) == Err::<
                    Seq<(Seq<char>, Protocol, ConnType)>,
                    ConfigError,
                >(e),
            },
    {
        let net = match &self.net {
            Some(net) => net,
            None => {
                return Err(ConfigError::MissingNet);
            },
        };
        let listeners = match &net.listeners {
            Some(listeners) => listeners,
            None => {
                return Err(ConfigError::MissingListeners);
            },
        };
        let mut plans: Vec<ListenerPlan> = Vec::new();
        assert(plans@.map_values(|p: ListenerPlan| plan_view(p)) =~= Seq::empty());
        plan_one(&mut plans, &listeners.plain_telnet, Protocol::Telnet, ConnType::Plain);
        plan_one(&mut plans, &listeners.tls_telnet, Protocol::Telnet, ConnType::TLS);
        plan_one(&mut plans, &listeners.plain_websocket, Protocol::WebSocket, ConnType::Plain);
        plan_one(&mut plans, &listeners.tls_websocket, Protocol::WebSocket, ConnType::TLS);
        plan_one(&mut plans, &listeners.ssh, Protocol::SSH, ConnType::Plain);
        assert(plans@.map_values(|p: ListenerPlan| plan_view(p)) =~= planned(*listeners));
        if plans.len() == 0 {
            return Err(ConfigError::NoListeners);
        }
        let wants_tls: bool = listeners.tls_telnet.is_some() || listeners.tls_websocket.is_some();
        if wants_tls && net.tls.is_none() {
            return Err(ConfigError::MissingTls);
        }
        Ok(plans)
    }
}

} // verus!
