use vstd::prelude::*;
use vstd::string::*;
use crate::channel::EventReceiver;
use crate::primitives::{AccountInfo, Address, B256, U256};

verus! {

/// Defaults applied to the transactions that an agent issues.
#[derive(Clone, Copy, Debug, PartialEq, Eq, Structural)]
pub struct TransactSettings {
    pub gas_limit: u64,
    pub gas_price: U256,
}

impl TransactSettings {
    /// The settings every agent is activated with: the largest gas limit, and a gas price of zero.
    pub open spec fn placeholder() -> TransactSettings {
        TransactSettings { gas_limit: u64::MAX, gas_price: U256 { high: 0, low: 0 } }
    }

    pub fn new_placeholder() -> (settings: TransactSettings)
        ensures
            settings == TransactSettings::placeholder(),
    {
        TransactSettings { gas_limit: u64::MAX, gas_price: U256::zero() }
    }
}

/// The logs an agent wants to hear of: those of one emitter that carry one of the topics.
#[derive(Clone, Debug, PartialEq, Eq)]
pub struct SimulationEventFilter {
    pub address: Address,
    pub topics: Vec<B256>,
}

/// A price that an arbitrageur has observed on a market.
#[derive(Clone, Copy, Debug, PartialEq, Eq, Structural)]
pub struct ObservedPrice {
    pub market: Address,
    pub price: U256,
}

/// A passive agent that is not registered with a manager yet.
#[derive(Debug)]
pub struct User {
    pub name: String,
    pub event_filters: Vec<SimulationEventFilter>,
}

/// An agent that drives an arbitrage strategy and is not registered with a manager yet.
#[derive(Debug)]
pub struct SimpleArbitrageur {
    pub name: String,
    pub event_filters: Vec<SimulationEventFilter>,
    pub prices: Vec<ObservedPrice>,
}

/// An agent before activation.
#[derive(Debug)]
pub enum AgentType {
    User(User),
    SimpleArbitrageur(SimpleArbitrageur),
}

/// A passive agent that a manager has activated. Only activation makes one.
#[derive(Debug)]
#[non_exhaustive]
pub struct ActiveUser {
    pub name: String,
    pub address: Address,
    pub account_info: AccountInfo,
    pub transact_settings: TransactSettings,
    pub event_receiver: EventReceiver,
    pub event_filters: Vec<SimulationEventFilter>,
}

/// An arbitrageur that a manager has activated. Only activation makes one.
#[derive(Debug)]
#[non_exhaustive]
pub struct ActiveSimpleArbitrageur {
    pub name: String,
    pub address: Address,
    pub account_info: AccountInfo,
    pub transact_settings: TransactSettings,
    pub event_receiver: EventReceiver,
    pub event_filters: Vec<SimulationEventFilter>,
    pub prices: Vec<ObservedPrice>,
}

/// An agent after activation.
#[derive(Debug)]
pub enum ActiveAgent {
    User(ActiveUser),
    SimpleArbitrageur(ActiveSimpleArbitrageur),
}

/// The filters that `event_filters` stands for: none where it is `None`.
pub open spec fn filters_or_none(event_filters: Option<Vec<SimulationEventFilter>>) -> Seq<
    SimulationEventFilter,
> {
    match event_filters {
        Some(filters) => filters@,
        None => Seq::empty(),
    }
}

impl User {
    /// A user named `name` that listens with `event_filters`, or with no filter where it is `None`.
    pub fn new(name: &str, event_filters: Option<Vec<SimulationEventFilter>>) -> (user: User)
        ensures
            user.name@ == name@,
            user.event_filters@ == filters_or_none(event_filters),
    {
        let filters = match event_filters {
            Some(filters) => filters,
            None => Vec::new(),
        };
        User { name: String::from_str(name), event_filters: filters }
    }
}

impl SimpleArbitrageur {
    /// An arbitrageur named `name` that listens with `event_filters`, or with no filter where it
    /// is `None`, and has observed no price yet.
    pub fn new(name: &str, event_filters: Option<Vec<SimulationEventFilter>>) -> (agent:
        SimpleArbitrageur)
        ensures
            agent.name@ == name@,
            agent.event_filters@ == filters_or_none(event_filters),
            agent.prices@ == Seq::<ObservedPrice>::empty(),
    {
        let filters = match event_filters {
            Some(filters) => filters,
            None => Vec::new(),
        };
        SimpleArbitrageur { name: String::from_str(name), event_filters: filters, prices: Vec::new() }
    }
}

impl AgentType {
    /// The agent's name.
    pub open spec fn name(&self) -> Seq<char> {
        match self {
            AgentType::User(user) => user.name@,
            AgentType::SimpleArbitrageur(arbitrageur) => arbitrageur.name@,
        }
    }

    /// What becomes of this agent when it is activated at `address` with the receive-end
    /// `event_receiver`: the same kind, name, filters and prices, a fresh account record and the
    /// placeholder settings.
    pub open spec fn activated(self, address: Address, event_receiver: EventReceiver) -> ActiveAgent {
        match self {
            AgentType::User(user) => ActiveAgent::User(
                ActiveUser {
                    name: user.name,
                    address,
                    account_info: AccountInfo::fresh(),
                    transact_settings: TransactSettings::placeholder(),
                    event_receiver,
                    event_filters: user.event_filters,
                },
            ),
            AgentType::SimpleArbitrageur(arbitrageur) => ActiveAgent::SimpleArbitrageur(
                ActiveSimpleArbitrageur {
                    name: arbitrageur.name,
                    address,
                    account_info: AccountInfo::fresh(),
                    transact_settings: TransactSettings::placeholder(),
                    event_receiver,
                    event_filters: arbitrageur.event_filters,
                    prices: arbitrageur.prices,
                },
            ),
        }
    }

    /// The agent's name.
    pub fn agent_name(&self) -> (name: &String)
        ensures
            name@ == self.name(),
    {
        match self {
            AgentType::User(user) => &user.name,
            AgentType::SimpleArbitrageur(arbitrageur) => &arbitrageur.name,
        }
    }

    /// Turns the agent into its active counterpart. This is the one place where an active agent
    /// is made.
    pub(crate) fn activate(self, address: Address, event_receiver: EventReceiver) -> (active:
        ActiveAgent)
        ensures
            active == self.activated(address, event_receiver),
    {
        match self {
            AgentType::User(user) => ActiveAgent::User(
                ActiveUser {
                    name: user.name,
                    address,
                    account_info: AccountInfo::new_fresh(),
                    transact_settings: TransactSettings::new_placeholder(),
                    event_receiver,
                    event_filters: user.event_filters,
                },
            ),
            AgentType::SimpleArbitrageur(arbitrageur) => ActiveAgent::SimpleArbitrageur(
                ActiveSimpleArbitrageur {
                    name: arbitrageur.name,
                    address,
                    account_info: AccountInfo::new_fresh(),
                    transact_settings: TransactSettings::new_placeholder(),
                    event_receiver,
                    event_filters: arbitrageur.event_filters,
                    prices: arbitrageur.prices,
                },
            ),
        }
    }
}

impl ActiveAgent {
    /// The agent's name.
    pub open spec fn name(&self) -> Seq<char> {
        match self {
            ActiveAgent::User(user) => user.name@,
            ActiveAgent::SimpleArbitrageur(arbitrageur) => arbitrageur.name@,
        }
    }

    /// The address of the agent's account.
    pub open spec fn address(&self) -> Address {
        match self {
            ActiveAgent::User(user) => user.address,
            ActiveAgent::SimpleArbitrageur(arbitrageur) => arbitrageur.address,
        }
    }

    /// The receive-end of the agent's event channel.
    pub open spec fn event_receiver(&self) -> EventReceiver {
        match self {
            ActiveAgent::User(user) => user.event_receiver,
            ActiveAgent::SimpleArbitrageur(arbitrageur) => arbitrageur.event_receiver,
        }
    }

    /// The agent's name.
    pub fn agent_name(&self) -> (name: &String)
        ensures
            name@ == self.name(),
    {
        match self {
            ActiveAgent::User(user) => &user.name,
            ActiveAgent::SimpleArbitrageur(arbitrageur) => &arbitrageur.name,
        }
    }

    /// The address of the agent's account.
    pub fn agent_address(&self) -> (address: Address)
        ensures
            address == self.address(),
    {
        match self {
            ActiveAgent::User(user) => user.address,
            ActiveAgent::SimpleArbitrageur(arbitrageur) => arbitrageur.address,
        }
    }
}

} // verus!
