use arbiter::agent::{ActiveAgent, AgentType, SimpleArbitrageur, SimulationEventFilter, User};
use arbiter::environment::{event_channel, SimulationEnvironment};
use arbiter::manager::{ManagerErrorKind, SimulationManager};
use arbiter::primitives::{AccountInfo, Address, Log, B256, U256};

fn keccak_empty() -> B256 {
    let hash = revm::primitives::KECCAK_EMPTY.to_fixed_bytes();
    B256 {
        high: u128::from_be_bytes(hash[..16].try_into().unwrap()),
        low: u128::from_be_bytes(hash[16..].try_into().unwrap()),
    }
}

fn next_events(agent: &ActiveAgent) -> Option<Vec<Log>> {
    match agent {
        ActiveAgent::User(user) => user.event_receiver.try_recv().ok(),
        ActiveAgent::SimpleArbitrageur(arbitrageur) => arbitrageur.event_receiver.try_recv().ok(),
    }
}

fn sample_logs() -> Vec<Log> {
    vec![
        Log {
            address: Address::from_low_u64_be(7),
            topics: vec![B256 { high: 1, low: 2 }],
            data: vec![1, 2, 3],
        },
        Log { address: Address::from_low_u64_be(8), topics: vec![], data: vec![] },
    ]
}

#[test]
fn agent_address_collision() {
    let mut manager = SimulationManager::default();
    let alice = User::new("alice", None);
    let result = manager.activate_agent(AgentType::User(alice), Address::from_low_u64_be(1));
    assert!(result.is_err());
}

#[test]
fn construction_yields_only_the_admin() {
    let manager = SimulationManager::new();
    assert_eq!(manager.agents.len(), 1);
    assert_eq!(manager.environment.event_senders.len(), 1);
    match &manager.agents[0] {
        ActiveAgent::User(admin) => {
            assert_eq!(admin.name, "admin");
            assert_eq!(admin.address, Address { high: 0, low: 1 });
            assert_eq!(admin.transact_settings.gas_limit, u64::MAX);
            assert_eq!(admin.transact_settings.gas_price, U256 { high: 0, low: 0 });
            assert!(admin.event_filters.is_empty());
            assert_eq!(admin.account_info.nonce, 0);
            assert_eq!(admin.account_info.balance, U256::zero());
            assert_eq!(admin.account_info.code_hash, keccak_empty());
        }
        ActiveAgent::SimpleArbitrageur(_) => panic!("the admin is a user"),
    }
    assert!(manager.has_name(&"admin".to_string()));
    assert!(manager.has_address(Address::from_low_u64_be(1)));
    assert!(!manager.has_address(Address::from_low_u64_be(2)));
}

#[test]
fn activation_provisions_a_fresh_account_in_the_backend() {
    let mut manager = SimulationManager::new();
    let address = Address { high: 0xdead_beef, low: 0x0102_0304_0506_0708_090a_0b0c_0d0e_0f10 };
    assert_eq!(manager.environment.account_info(address), None);
    manager.activate_agent(AgentType::User(User::new("alice", None)), address).unwrap();
    let expected =
        AccountInfo { balance: U256::zero(), nonce: 0, code_hash: keccak_empty() };
    assert_eq!(manager.environment.account_info(address), Some(expected));
    assert_eq!(manager.environment.account_info(Address::from_low_u64_be(1)), Some(expected));

    let key = revm::primitives::B160::from_slice(&[
        0xde, 0xad, 0xbe, 0xef, 1, 2, 3, 4, 5, 6, 7, 8, 9, 10, 11, 12, 13, 14, 15, 16,
    ]);
    let db = manager.environment.backend.evm.db().unwrap();
    assert_eq!(db.accounts.len(), 2);
    assert_eq!(db.accounts.get(&key).unwrap().info, revm::primitives::AccountInfo::default());
    assert!(db.accounts.contains_key(&revm::primitives::B160::from_low_u64_be(1)));
}

#[test]
fn duplicate_name_and_address_are_refused_then_bob_joins() {
    let mut manager = SimulationManager::new();
    let a = Address::from_low_u64_be(0xa);
    let b = Address::from_low_u64_be(0xb);
    assert!(manager.activate_agent(AgentType::User(User::new("alice", None)), a).is_ok());
    assert_eq!(manager.agents.len(), 2);

    let second_alice = manager
        .activate_agent(AgentType::User(User::new("alice", None)), Address::from_low_u64_be(0xc))
        .unwrap_err();
    assert_eq!(second_alice.kind, ManagerErrorKind::DuplicateName);
    assert_eq!(
        second_alice.message,
        "Agent with that name already exists in the simulation environment."
    );
    assert_eq!(second_alice.to_string(), second_alice.message);
    assert_eq!(second_alice.output, None);

    let bob_at_a =
        manager.activate_agent(AgentType::User(User::new("bob", None)), a).unwrap_err();
    assert_eq!(bob_at_a.kind, ManagerErrorKind::DuplicateAddress);
    assert_eq!(
        bob_at_a.message,
        "Agent with that address already exists in the simulation environment."
    );
    assert_eq!(bob_at_a.output, None);
    assert_eq!(manager.agents.len(), 2);

    assert!(manager.activate_agent(AgentType::User(User::new("bob", None)), b).is_ok());
    assert_eq!(manager.agents.len(), 3);
    let names: Vec<String> = manager.run_agents();
    assert_eq!(names, vec!["admin".to_string(), "alice".to_string(), "bob".to_string()]);
}

#[test]
fn address_is_checked_before_name() {
    let mut manager = SimulationManager::new();
    let error = manager
        .activate_agent(AgentType::User(User::new("admin", None)), Address::from_low_u64_be(1))
        .unwrap_err();
    assert_eq!(error.kind, ManagerErrorKind::DuplicateAddress);
}

#[test]
fn refused_activation_changes_nothing() {
    let mut manager = SimulationManager::new();
    let a = Address::from_low_u64_be(0xa);
    manager.activate_agent(AgentType::User(User::new("alice", None)), a).unwrap();
    let accounts_before = manager.environment.backend.evm.db().unwrap().accounts.len();
    let senders_before = manager.environment.event_senders.len();
    let names_before = manager.run_agents();

    let fresh = Address::from_low_u64_be(0xf);
    assert!(manager.activate_agent(AgentType::User(User::new("alice", None)), fresh).is_err());
    assert!(manager
        .activate_agent(AgentType::SimpleArbitrageur(SimpleArbitrageur::new("carol", None)), a)
        .is_err());

    assert_eq!(manager.run_agents(), names_before);
    assert_eq!(manager.environment.event_senders.len(), senders_before);
    assert_eq!(manager.environment.backend.evm.db().unwrap().accounts.len(), accounts_before);
    assert_eq!(manager.environment.account_info(fresh), None);
    assert!(!manager.has_address(fresh));
    assert!(!manager.has_name(&"carol".to_string()));
    assert_eq!(manager.agents[1].agent_address(), a);
}

#[test]
fn activation_carries_the_candidate_over() {
    let mut manager = SimulationManager::new();
    let filter = SimulationEventFilter {
        address: Address::from_low_u64_be(9),
        topics: vec![B256 { high: 3, low: 4 }],
    };
    let candidate = SimpleArbitrageur::new("arb", Some(vec![filter.clone()]));
    assert_eq!(candidate.name, "arb");
    assert!(candidate.prices.is_empty());
    let address = Address::from_low_u64_be(0x55);
    manager.activate_agent(AgentType::SimpleArbitrageur(candidate), address).unwrap();
    match &manager.agents[1] {
        ActiveAgent::SimpleArbitrageur(agent) => {
            assert_eq!(agent.name, "arb");
            assert_eq!(agent.address, address);
            assert_eq!(agent.event_filters, vec![filter]);
            assert!(agent.prices.is_empty());
            assert_eq!(agent.transact_settings.gas_limit, u64::MAX);
            assert_eq!(agent.transact_settings.gas_price, U256::zero());
        }
        ActiveAgent::User(_) => panic!("the kind of the agent has to stay"),
    }
    assert_eq!(manager.agents[1].agent_name(), "arb");
    assert_eq!(manager.agents[1].agent_address(), address);
}

#[test]
fn every_agent_receives_the_whole_batch_in_order() {
    let mut manager = SimulationManager::new();
    manager
        .activate_agent(AgentType::User(User::new("alice", None)), Address::from_low_u64_be(2))
        .unwrap();
    manager
        .activate_agent(
            AgentType::SimpleArbitrageur(SimpleArbitrageur::new("bob", None)),
            Address::from_low_u64_be(3),
        )
        .unwrap();
    let batch = sample_logs();
    assert_eq!(manager.environment.echo_logs(batch.clone()), vec![true, true, true]);

    // alice drains her channel before bob looks at his
    assert_eq!(next_events(&manager.agents[1]), Some(batch.clone()));
    assert_eq!(next_events(&manager.agents[1]), None);
    assert_eq!(next_events(&manager.agents[2]), Some(batch.clone()));
    assert_eq!(next_events(&manager.agents[2]), None);
    assert_eq!(next_events(&manager.agents[0]), Some(batch));
}

#[test]
fn batches_queue_up_for_a_slow_agent() {
    let mut manager = SimulationManager::new();
    manager
        .activate_agent(AgentType::User(User::new("alice", None)), Address::from_low_u64_be(2))
        .unwrap();
    let first = sample_logs();
    let second = vec![Log { address: Address::zero(), topics: vec![], data: vec![9] }];
    manager.environment.echo_logs(first.clone());
    manager.environment.echo_logs(second.clone());
    assert_eq!(next_events(&manager.agents[1]), Some(first));
    assert_eq!(next_events(&manager.agents[1]), Some(second));
    assert_eq!(next_events(&manager.agents[1]), None);
}

#[test]
fn environment_counts_the_channels_that_took_the_batch() {
    let mut environment = SimulationEnvironment::new();
    assert_eq!(environment.echo_logs(sample_logs()), Vec::<bool>::new());
    let (kept_sender, kept_receiver) = event_channel();
    let (lost_sender, lost_receiver) = event_channel();
    environment.add_sender(kept_sender);
    environment.add_sender(lost_sender);
    drop(lost_receiver);
    assert_eq!(environment.echo_logs(sample_logs()), vec![true, false]);
    assert_eq!(kept_receiver.try_recv().unwrap(), sample_logs());
}

#[test]
fn environment_provisions_accounts() {
    let mut environment = SimulationEnvironment::new();
    let address = Address::from_low_u64_be(77);
    assert_eq!(environment.account_info(address), None);
    environment.provision_account(address);
    assert_eq!(
        environment.account_info(address),
        Some(AccountInfo { balance: U256::zero(), nonce: 0, code_hash: keccak_empty() })
    );
    assert_eq!(environment.account_info(Address::from_low_u64_be(78)), None);
}

#[test]
fn user_without_filters_has_none() {
    let user = User::new("u", None);
    assert_eq!(user.name, "u");
    assert!(user.event_filters.is_empty());
    let agent = AgentType::User(user);
    assert_eq!(agent.agent_name(), "u");
}
