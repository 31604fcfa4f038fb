use vstd::prelude::*;
use vstd::string::*;
use crate::agent::{ActiveAgent, AgentType, TransactSettings, User};
use crate::channel::EventReceiver;
use crate::environment::{event_channel, SimulationEnvironment};
use crate::outcome::{debug_payload, halt_text, payload_text, ExecutionResult, Halt, Output};
use crate::primitives::{AccountInfo, Address, Log};
use crate::text::{append_decimal, contains_text, decimal_text, lemma_middle_is_contained};

verus! {

/// The four ways in which the manager refuses or reports.
#[derive(Clone, Copy, Debug, PartialEq, Eq, Structural)]
pub enum ManagerErrorKind {
    /// An active agent already has the requested address.
    DuplicateAddress,
    /// An active agent already has the candidate's name.
    DuplicateName,
    /// The backend aborted the execution for a fault.
    ExecutionHalt,
    /// The execution aborted itself and returned data.
    ExecutionRevert,
}

/// Error type for the simulation manager.
#[derive(Debug)]
pub struct ManagerError {
    /// Which of the four errors this is.
    pub kind: ManagerErrorKind,
    /// Error message.
    pub message: String,
    /// Byte output of the error.
    pub output: Option<Vec<u8>>,
}

/// Manages simulations: owns the environment and the registry of active agents.
pub struct SimulationManager {
    /// The environment that the manager controls.
    pub environment: SimulationEnvironment,
    /// The agents that are active in the environment, in the order of their activation.
    pub agents: Vec<ActiveAgent>,
}

/// What the registry records of an agent for the uniqueness rules: its name and its address.
pub type Entry = (Seq<char>, Address);

/// The entries of the agents of `registry`, in the same order.
pub open spec fn entries_of(registry: Seq<ActiveAgent>) -> Seq<Entry> {
    Seq::new(registry.len(), |i: int| (registry[i].name(), registry[i].address()))
}

/// Whether an entry of `entries` has the address `address`.
pub open spec fn address_taken(entries: Seq<Entry>, address: Address) -> bool {
    exists|i: int| 0 <= i < entries.len() && (#[trigger] entries[i]).1 == address
}

/// Whether an entry of `entries` has the name `name`.
pub open spec fn name_taken(entries: Seq<Entry>, name: Seq<char>) -> bool {
    exists|i: int| 0 <= i < entries.len() && (#[trigger] entries[i]).0 == name
}

/// No two entries share a name, and no two share an address.
pub open spec fn entries_unique(entries: Seq<Entry>) -> bool {
    forall|i: int, j: int|
        0 <= i < j < entries.len() ==> (#[trigger] entries[i]).0 != (#[trigger] entries[j]).0
            && entries[i].1 != entries[j].1
}

/// The entries after one activation request: the request is added at the end unless its address
/// or its name is taken, and then nothing changes.
pub open spec fn after_request(entries: Seq<Entry>, request: Entry) -> Seq<Entry> {
    if address_taken(entries, request.1) || name_taken(entries, request.0) {
        entries
    } else {
        entries.push(request)
    }
}

/// The entries after a sequence of activation requests, made one after the other.
pub open spec fn after_requests(entries: Seq<Entry>, requests: Seq<Entry>) -> Seq<Entry>
    decreases requests.len(),
{
    if requests.len() == 0 {
        entries
    } else {
        after_request(after_requests(entries, requests.drop_last()), requests.last())
    }
}

/// The address reserved for the admin: the number one.
pub open spec fn admin_address() -> Address {
    Address { high: 0, low: 1 }
}

/// The text of the error for a taken address.
pub open spec fn duplicate_address_message() -> Seq<char> {
    "Agent with that address already exists in the simulation environment."@
}

/// The text of the error for a taken name.
pub open spec fn duplicate_name_message() -> Seq<char> {
    "Agent with that name already exists in the simulation environment."@
}

/// The text of the error for a halt: it names the reason and the gas used.
pub open spec fn halt_message(reason: Halt, gas_used: u64) -> Seq<char> {
    "This call halted for "@ + halt_text(reason) + " and used "@ + decimal_text(gas_used as nat)
        + " gas."@
}

/// The text of the error for a revert: it shows the returned data and the gas used.
pub open spec fn revert_message(payload: Seq<u8>, gas_used: u64) -> Seq<char> {
    "This call reverted with output "@ + payload_text(payload) + " and used "@ + decimal_text(
        gas_used as nat,
    ) + " gas."@
}

/// One activation request keeps names and addresses unique, and keeps every earlier entry in
/// its place.
pub proof fn lemma_request_keeps_unique(entries: Seq<Entry>, request: Entry)
    requires
        entries_unique(entries),
    ensures
        entries_unique(after_request(entries, request)),
        entries.len() <= after_request(entries, request).len(),
        after_request(entries, request).take(entries.len() as int) == entries,
{
    let after = after_request(entries, request);
    assert(after.take(entries.len() as int) =~= entries);
    if !(address_taken(entries, request.1) || name_taken(entries, request.0)) {
        assert forall|i: int, j: int| 0 <= i < j < after.len() implies (#[trigger] after[i]).0 != (
        #[trigger] after[j]).0 && after[i].1 != after[j].1 by {
            if j == entries.len() {
                assert(entries[i].1 != request.1);
                assert(entries[i].0 != request.0);
            } else {
                assert(after[i] == entries[i] && after[j] == entries[j]);
            }
        }
    }
}

/// Whatever activation requests are made, and in whatever order, no two entries of the registry
/// ever share a name or an address, and no entry is ever removed or moved.
pub proof fn lemma_requests_keep_unique(entries: Seq<Entry>, requests: Seq<Entry>)
    requires
        entries_unique(entries),
    ensures
        entries_unique(after_requests(entries, requests)),
        entries.len() <= after_requests(entries, requests).len(),
        after_requests(entries, requests).take(entries.len() as int) == entries,
    decreases requests.len(),
{
    if requests.len() == 0 {
        assert(entries.take(entries.len() as int) =~= entries);
    } else {
        let before = after_requests(entries, requests.drop_last());
        lemma_requests_keep_unique(entries, requests.drop_last());
        lemma_request_keeps_unique(before, requests.last());
        let after = after_request(before, requests.last());
        assert(after.take(entries.len() as int) =~= before.take(entries.len() as int)) by {
            assert(after.take(before.len() as int) == before);
        }
    }
}

/// A request whose address or name is taken is refused: the entries stay as they are. Any other
/// request is accepted and becomes the last entry.
pub proof fn lemma_duplicate_request_refused(entries: Seq<Entry>, request: Entry)
    ensures
        address_taken(entries, request.1) || name_taken(entries, request.0) ==> after_request(
            entries,
            request,
        ) == entries,
        !address_taken(entries, request.1) && !name_taken(entries, request.0) ==> after_request(
            entries,
            request,
        ) == entries.push(request),
{
}

/// In a well-formed manager, no two agents share a name and no two share an address.
pub proof fn lemma_registry_unique(manager: SimulationManager)
    requires
        manager.wf(),
    ensures
        forall|i: int, j: int|
            0 <= i < j < manager.registry().len() ==> (#[trigger] manager.registry()[i]).name() != (
            #[trigger] manager.registry()[j]).name() && manager.registry()[i].address()
                != manager.registry()[j].address(),
{
    let entries = manager.entries();
    assert forall|i: int, j: int| 0 <= i < j < manager.registry().len() implies (
    #[trigger] manager.registry()[i]).name() != (#[trigger] manager.registry()[j]).name()
        && manager.registry()[i].address() != manager.registry()[j].address() by {
        assert(entries[i].0 == manager.registry()[i].name());
        assert(entries[j].0 == manager.registry()[j].name());
    }
}

/// A success gives the same payload whether a call or a creation returned it, with or without
/// the address of a created contract.
pub proof fn lemma_payload_of_call_and_creation(payload: Vec<u8>, created: Option<Address>)
    ensures
        Output::Call(payload).data() == payload,
        Output::Create(payload, created).data() == payload,
{
}

/// The message of a halt contains the halt reason and the decimal numeral of the gas used.
pub proof fn lemma_halt_message_names_reason_and_gas(reason: Halt, gas_used: u64)
    ensures
        contains_text(halt_message(reason, gas_used), halt_text(reason)),
        contains_text(halt_message(reason, gas_used), decimal_text(gas_used as nat)),
{
    let a = "This call halted for "@;
    let b = halt_text(reason);
    let c = " and used "@;
    let d = decimal_text(gas_used as nat);
    let e = " gas."@;
    lemma_middle_is_contained(a, b, c + d + e);
    assert(a + b + (c + d + e) =~= halt_message(reason, gas_used));
    lemma_middle_is_contained(a + b + c, d, e);
    assert((a + b + c) + d + e =~= halt_message(reason, gas_used));
}

/// The message of a revert contains the returned data, written as a byte-string literal, and
/// the decimal numeral of the gas used.
pub proof fn lemma_revert_message_shows_payload_and_gas(payload: Seq<u8>, gas_used: u64)
    ensures
        contains_text(revert_message(payload, gas_used), payload_text(payload)),
        contains_text(revert_message(payload, gas_used), decimal_text(gas_used as nat)),
{
    let a = "This call reverted with output "@;
    let b = payload_text(payload);
    let c = " and used "@;
    let d = decimal_text(gas_used as nat);
    let e = " gas."@;
    lemma_middle_is_contained(a, b, c + d + e);
    assert(a + b + (c + d + e) =~= revert_message(payload, gas_used));
    lemma_middle_is_contained(a + b + c, d, e);
    assert((a + b + c) + d + e =~= revert_message(payload, gas_used));
}

impl ManagerError {
    /// The error message.
    pub fn to_string(&self) -> (text: String)
        ensures
            text@ == self.message@,
    {
        self.message.clone()
    }
}

impl SimulationManager {
    /// The active agents, in the order of their activation.
    pub open spec fn registry(&self) -> Seq<ActiveAgent> {
        self.agents@
    }

    /// The names and addresses of the active agents, in the order of their activation.
    pub open spec fn entries(&self) -> Seq<Entry> {
        entries_of(self.registry())
    }

    /// The manager's invariant: the environment is well formed and has one channel for each
    /// agent, which ends in that agent's receive-end, no two agents share a name or an address,
    /// and the backend holds an account for each agent.
    pub open spec fn wf(&self) -> bool {
        &&& self.environment.wf()
        &&& self.environment.event_senders@.len() == self.registry().len()
        &&& forall|i: int|
            0 <= i < self.registry().len() ==> self.environment.feeds(
                i,
                (#[trigger] self.registry()[i]).event_receiver(),
            )
        &&& entries_unique(self.entries())
        &&& forall|i: int|
            0 <= i < self.registry().len() ==> self.environment.accounts().dom().contains(
                (#[trigger] self.registry()[i]).address(),
            )
    }

    /// The first agent is the user named "admin" at the reserved address.
    pub open spec fn admin_present(&self) -> bool {
        &&& self.registry().len() >= 1
        &&& self.registry()[0] is User
        &&& self.registry()[0].name() == "admin"@
        &&& self.registry()[0].address() == admin_address()
    }

    /// A manager over an empty backend whose one agent is the admin, a user without filters at
    /// the reserved address. Construction cannot fail: the activation of the admin is accepted.
    pub fn new() -> (manager: SimulationManager)
        ensures
            manager.wf(),
            manager.admin_present(),
            manager.registry().len() == 1,
            manager.registry()[0] matches ActiveAgent::User(admin) && admin.event_filters@.len()
                == 0 && admin.account_info == AccountInfo::fresh() && admin.transact_settings
                == TransactSettings::placeholder(),
            manager.environment.event_senders@.len() == 1,
            manager.environment.history(0) == Seq::<Seq<Log>>::empty(),
            manager.environment.accounts() == Map::<Address, AccountInfo>::empty().insert(
                admin_address(),
                AccountInfo::fresh(),
            ),
    {
        let mut manager = SimulationManager {
            environment: SimulationEnvironment::new(),
            agents: Vec::new(),
        };
        let admin = AgentType::User(User::new("admin", None));
        manager.activate_agent(admin, Address::from_low_u64_be(1)).unwrap();
        manager
    }

    /// Tells whether an active agent has the address `address`.
    pub fn has_address(&self, address: Address) -> (taken: bool)
        ensures
            taken == address_taken(self.entries(), address),
    {
        let mut i: usize = 0;
        while i < self.agents.len()
            invariant
                i <= self.agents@.len(),
                forall|k: int| 0 <= k < i ==> (#[trigger] self.entries()[k]).1 != address,
            decreases self.agents@.len() - i,
        {
            if self.agents[i].agent_address() == address {
                assert(self.entries()[i as int].1 == address);
                return true;
            }
            i = i + 1;
        }
        false
    }

    /// Tells whether an active agent has the name `name`.
    pub fn has_name(&self, name: &String) -> (taken: bool)
        ensures
            taken == name_taken(self.entries(), name@),
    {
        let mut i: usize = 0;
        while i < self.agents.len()
            invariant
                i <= self.agents@.len(),
                forall|k: int| 0 <= k < i ==> (#[trigger] self.entries()[k]).0 != name@,
            decreases self.agents@.len() - i,
        {
            if *self.agents[i].agent_name() == *name {
                assert(self.entries()[i as int].0 == name@);
                return true;
            }
            i = i + 1;
        }
        false
    }

    /// The order in which the agents take their turns: one round, each agent once, in the order
    /// of activation. The caller runs the agents' strategies in this order.
    pub fn run_agents(&self) -> (turns: Vec<String>)
        ensures
            turns@.len() == self.registry().len(),
            forall|i: int| 0 <= i < turns@.len() ==> (#[trigger] turns@[i])@ == self.registry()[i].name(),
    {
        let mut turns: Vec<String> = Vec::new();
        let mut i: usize = 0;
        while i < self.agents.len()
            invariant
                i <= self.agents@.len(),
                turns@.len() == i,
                forall|k: int| 0 <= k < i ==> (#[trigger] turns@[k])@ == self.agents@[k].name(),
            decreases self.agents@.len() - i,
        {
            turns.push(self.agents[i].agent_name().clone());
            i = i + 1;
        }
        turns
    }

    /// Adds and activates an agent at `new_agent_address`.
    ///
    /// The address is checked first, then the name; a taken one is refused and nothing changes.
    /// Otherwise the backend gets a fresh account at the address, a new channel is made whose
    /// send-end goes to the environment and whose receive-end goes to the agent, and the agent
    /// becomes the last of the registry.
    pub fn activate_agent(&mut self, new_agent: AgentType, new_agent_address: Address) -> (result:
        Result<(), ManagerError>)
        requires
            old(self).wf(),
        ensures
            final(self).wf(),
            final(self).entries() == after_request(
                old(self).entries(),
                (new_agent.name(), new_agent_address),
            ),
            old(self).admin_present() ==> final(self).admin_present(),
            match result {
                Ok(_) => {
                    &&& !address_taken(old(self).entries(), new_agent_address)
                    &&& !name_taken(old(self).entries(), new_agent.name())
                    &&& exists|event_receiver: EventReceiver|
                        final(self).registry() == old(self).registry().push(
                            #[trigger] new_agent.activated(new_agent_address, event_receiver),
                        )
                    &&& final(self).environment.accounts() == old(self).environment.accounts().insert(
                        new_agent_address,
                        AccountInfo::fresh(),
                    )
                    &&& final(self).environment.event_senders@.len() == old(
                        self,
                    ).environment.event_senders@.len() + 1
                    &&& final(self).environment.event_senders@.drop_last() == old(
                        self,
                    ).environment.event_senders@
                    &&& final(self).environment.history(old(self).registry().len() as int)
                        == Seq::<Seq<Log>>::empty()
                },
                Err(error) => {
                    &&& *final(self) == *old(self)
                    &&& error.output is None
                    &&& address_taken(old(self).entries(), new_agent_address) ==> error.kind
                        == ManagerErrorKind::DuplicateAddress && error.message@
                        == duplicate_address_message()
                    &&& !address_taken(old(self).entries(), new_agent_address) ==> name_taken(
                        old(self).entries(),
                        new_agent.name(),
                    ) && error.kind == ManagerErrorKind::DuplicateName && error.message@
                        == duplicate_name_message()
                },
            },
    {
        if self.has_address(new_agent_address) {
            return Err(
                ManagerError {
                    kind: ManagerErrorKind::DuplicateAddress,
                    message: String::from_str(
                        "Agent with that address already exists in the simulation environment.",
                    ),
                    output: None,
                },
            );
        }
        if self.has_name(new_agent.agent_name()) {
            return Err(
                ManagerError {
                    kind: ManagerErrorKind::DuplicateName,
                    message: String::from_str(
                        "Agent with that name already exists in the simulation environment.",
                    ),
                    output: None,
                },
            );
        }
        self.environment.provision_account(new_agent_address);
        let (event_sender, event_receiver) = event_channel();
        let ghost receiver = event_receiver;
        let active = new_agent.activate(new_agent_address, event_receiver);
        self.agents.push(active);
        self.environment.add_sender(event_sender);
        proof {
            let before = old(self).entries();
            let after = self.entries();
            assert(self.registry() == old(self).registry().push(
                new_agent.activated(new_agent_address, receiver),
            ));
            assert(after =~= before.push((new_agent.name(), new_agent_address)));
            lemma_request_keeps_unique(before, (new_agent.name(), new_agent_address));
            assert(self.environment.event_senders@.drop_last() =~= old(
                self,
            ).environment.event_senders@);
            assert forall|i: int| 0 <= i < self.registry().len() implies self.environment.accounts().dom().contains(
                (#[trigger] self.registry()[i]).address(),
            ) by {
                if i < old(self).registry().len() {
                    assert(self.registry()[i] == old(self).registry()[i]);
                }
            }
            assert forall|i: int| 0 <= i < self.registry().len() implies self.environment.feeds(
                i,
                (#[trigger] self.registry()[i]).event_receiver(),
            ) by {
                if i < old(self).registry().len() {
                    assert(self.registry()[i] == old(self).registry()[i]);
                    assert(self.environment.event_senders@[i] == old(
                        self,
                    ).environment.event_senders@[i]);
                    assert(old(self).environment.feeds(
                        i,
                        old(self).registry()[i].event_receiver(),
                    ));
                }
            }
        }
        Ok(())
    }

    /// Takes the outcome of an execution and gives the bytes that it returned.
    ///
    /// A success gives its returned data, whether from a call or from a creation. A halt gives an
    /// error whose message names the reason and the gas used. A revert gives an error whose
    /// message shows the returned data and the gas used, and which carries that data.
    pub fn unpack_execution(&self, execution_result: ExecutionResult) -> (result: Result<
        Vec<u8>,
        ManagerError,
    >)
        ensures
            match execution_result {
                ExecutionResult::Success { output, .. } => result == Ok::<Vec<u8>, ManagerError>(
                    output.data(),
                ),
                ExecutionResult::Halt { reason, gas_used } => {
                    &&& result matches Err(error)
                    &&& error.kind == ManagerErrorKind::ExecutionHalt
                    &&& error.message@ == halt_message(reason, gas_used)
                    &&& error.output is None
                },
                ExecutionResult::Revert { output, gas_used } => {
                    &&& result matches Err(error)
                    &&& error.kind == ManagerErrorKind::ExecutionRevert
                    &&& error.message@ == revert_message(output@, gas_used)
                    &&& error.output == Some(output)
                },
            },
    {
        match execution_result {
            ExecutionResult::Success { output, .. } => Ok(output.into_data()),
            ExecutionResult::Halt { reason, gas_used } => {
                let mut message = String::from_str("This call halted for ");
                reason.append_to(&mut message);
                message.append(" and used ");
                append_decimal(&mut message, gas_used);
                message.append(" gas.");
                Err(ManagerError { kind: ManagerErrorKind::ExecutionHalt, message, output: None })
            },
            ExecutionResult::Revert { output, gas_used } => {
                let mut message = String::from_str("This call reverted with output ");
                let payload = debug_payload(&output);
                message.append(payload.as_str());
                message.append(" and used ");
                append_decimal(&mut message, gas_used);
                message.append(" gas.");
                Err(
                    ManagerError {
                        kind: ManagerErrorKind::ExecutionRevert,
                        message,
                        output: Some(output),
                    },
                )
            },
        }
    }
}

impl Default for SimulationManager {
    /// A manager over an empty backend whose one agent is the admin.
    fn default() -> (manager: SimulationManager)
        ensures
            manager.wf(),
            manager.admin_present(),
            manager.registry().len() == 1,
    {
        SimulationManager::new()
    }
}

} // verus!
