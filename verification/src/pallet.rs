//! The storage of the token mining execution pallet and its calls.
use vstd::prelude::*;
use std::collections::BTreeMap;
use crate::configuration::{ConfigurationsView, TokenMiningConfigurations};
use crate::types::{
    ensure_signed, spec_ensure_signed, AccountId, BlockNumber, ConfigurationIndex, Error, Event,
    ExecutionIndex, ExecutionResult, MiningSpeedBoostExecutionTokenMining,
    MiningSpeedBoostExecutionTokenMiningExecutionResult, Origin,
};
use crate::unique_id::{random_value, spec_random_value};

verus! {

/// The storage of the pallet.
pub struct Module {
    executions: BTreeMap<ExecutionIndex, MiningSpeedBoostExecutionTokenMining>,
    count: ExecutionIndex,
    owners: BTreeMap<ExecutionIndex, AccountId>,
    execution_results: BTreeMap<(ConfigurationIndex, ExecutionIndex), ExecutionResult>,
    execution_configuration: BTreeMap<ExecutionIndex, ConfigurationIndex>,
    configuration_executions: BTreeMap<ConfigurationIndex, Vec<ExecutionIndex>>,
}

/// The mathematical model of the storage.
#[verifier::ext_equal]
pub struct ModuleView {
    /// The unique id of each execution, by execution index.
    pub executions: Map<ExecutionIndex, Seq<u8>>,
    /// The next execution index to hand out.
    pub count: ExecutionIndex,
    /// The owner of each execution.
    pub owners: Map<ExecutionIndex, AccountId>,
    /// The execution results, by (configuration index, execution index).
    pub execution_results: Map<(ConfigurationIndex, ExecutionIndex), ExecutionResult>,
    /// The configuration that each execution was assigned to.
    pub execution_configuration: Map<ExecutionIndex, ConfigurationIndex>,
    /// The executions associated with each configuration, in the order in
    /// which they were associated.
    pub configuration_executions: Map<ConfigurationIndex, Seq<ExecutionIndex>>,
}

/// The unique id held by an execution.
pub open spec fn unique_id_of(token: MiningSpeedBoostExecutionTokenMining) -> Seq<u8> {
    token.0@
}

/// The elements of a vector.
pub open spec fn vec_elements(v: Vec<ExecutionIndex>) -> Seq<ExecutionIndex> {
    v@
}

impl View for Module {
    type V = ModuleView;

    closed spec fn view(&self) -> ModuleView {
        ModuleView {
            executions: self.executions@.map_values(|t: MiningSpeedBoostExecutionTokenMining| unique_id_of(t)),
            count: self.count,
            owners: self.owners@,
            execution_results: self.execution_results@,
            execution_configuration: self.execution_configuration@,
            configuration_executions: self.configuration_executions@.map_values(
                |v: Vec<ExecutionIndex>| vec_elements(v),
            ),
        }
    }
}

/// The execution result recorded for `executor` between two blocks.
pub open spec fn make_result(executor: AccountId, started: BlockNumber, ended: BlockNumber) -> ExecutionResult {
    MiningSpeedBoostExecutionTokenMiningExecutionResult {
        token_execution_executor_account_id: executor,
        token_execution_started_block: started,
        token_execution_ended_block: ended,
    }
}

/// Whether the current block is past the start block of the lock period of
/// the configuration `c`.
pub open spec fn spec_started_block_check(
    configs: ConfigurationsView,
    c: ConfigurationIndex,
    current_block: BlockNumber,
) -> Result<(), Error> {
    if !configs.token_configs.contains_key(c) {
        Err(Error::TokenConfigNotFound)
    } else if current_block > configs.token_configs[c].token_lock_start_block {
        Ok(())
    } else {
        Err(Error::BeforeLockStartBlock)
    }
}

/// Whether the lock period of the configuration `c` is longer than the
/// minimum lock period of its cooldown config.
pub open spec fn spec_lock_interval_check(configs: ConfigurationsView, c: ConfigurationIndex) -> Result<(), Error> {
    if !configs.token_configs.contains_key(c) {
        Err(Error::TokenConfigNotFound)
    } else if !configs.cooldown_configs.contains_key(c) {
        Err(Error::CooldownConfigNotFound)
    } else if configs.token_configs[c].token_lock_interval_blocks
        > configs.cooldown_configs[c].token_lock_min_blocks {
        Ok(())
    } else {
        Err(Error::LockIntervalNotLongerThanMinimum)
    }
}

/// Whether the locked amount of the configuration `c` is larger than the
/// minimum locked amount of its cooldown config.
pub open spec fn spec_lock_amount_check(configs: ConfigurationsView, c: ConfigurationIndex) -> Result<(), Error> {
    if !configs.token_configs.contains_key(c) {
        Err(Error::TokenConfigNotFound)
    } else if !configs.cooldown_configs.contains_key(c) {
        Err(Error::CooldownConfigNotFound)
    } else if configs.token_configs[c].token_lock_amount
        > configs.cooldown_configs[c].token_lock_min_amount {
        Ok(())
    } else {
        Err(Error::LockAmountNotLargerThanMinimum)
    }
}

impl ModuleView {
    /// The storage of a pallet that has done nothing yet.
    pub open spec fn empty() -> ModuleView {
        ModuleView {
            executions: Map::empty(),
            count: 0,
            owners: Map::empty(),
            execution_results: Map::empty(),
            execution_configuration: Map::empty(),
            configuration_executions: Map::empty(),
        }
    }

    /// `who` owns the execution `e`.
    pub open spec fn owned_by(self, e: ExecutionIndex, who: AccountId) -> bool {
        self.owners.contains_key(e) && self.owners[e] == who
    }

    /// What the storage keeps true: every execution has an owner and only
    /// executions have one, an execution is stored under exactly the indices
    /// below the count, and no configuration lists an execution twice.
    pub open spec fn wf(self) -> bool {
        &&& self.owners.dom() == self.executions.dom()
        &&& forall|e: ExecutionIndex| #[trigger] self.executions.contains_key(e) <==> e < self.count
        &&& forall|c: ConfigurationIndex| #[trigger] self.configuration_executions.contains_key(c)
            ==> self.configuration_executions[c].no_duplicates()
    }

    /// The index that the next execution gets.
    pub open spec fn next_id(self) -> Result<ExecutionIndex, Error> {
        if self.count == u64::MAX {
            Err(Error::ExecutionCountOverflow)
        } else {
            Ok(self.count)
        }
    }

    /// Stores the execution `id` with its unique id and owner, and counts it.
    pub open spec fn insert_execution(self, owner: AccountId, id: ExecutionIndex, unique: Seq<u8>) -> ModuleView
        recommends
            id < u64::MAX,
    {
        ModuleView {
            executions: self.executions.insert(id, unique),
            count: (id + 1) as u64,
            owners: self.owners.insert(id, owner),
            ..self
        }
    }

    /// Makes `to` the owner of each execution of `updates` in turn.
    pub open spec fn update_owners(self, updates: Seq<(AccountId, ExecutionIndex)>) -> ModuleView
        decreases updates.len(),
    {
        if updates.len() == 0 {
            self
        } else {
            self.update_owner(updates[0].0, updates[0].1).update_owners(updates.drop_first())
        }
    }

    /// Makes `to` the owner of the execution `id`.
    pub open spec fn update_owner(self, to: AccountId, id: ExecutionIndex) -> ModuleView {
        ModuleView { owners: self.owners.insert(id, to), ..self }
    }

    /// Adds the execution `e` at the end of the list of the configuration
    /// `c`, unless the list holds it already.
    pub open spec fn associate(self, e: ExecutionIndex, c: ConfigurationIndex) -> (ModuleView, Result<(), Error>) {
        if self.configuration_executions.contains_key(c) {
            if self.configuration_executions[c].contains(e) {
                (self, Err(Error::ConfigurationAlreadyContainsExecution))
            } else {
                (
                    ModuleView {
                        configuration_executions: self.configuration_executions.insert(
                            c,
                            self.configuration_executions[c].push(e),
                        ),
                        ..self
                    },
                    Ok(()),
                )
            }
        } else {
            (
                ModuleView {
                    configuration_executions: self.configuration_executions.insert(c, seq![e]),
                    ..self
                },
                Ok(()),
            )
        }
    }

    /// A signed call creates an execution with the unique id `unique` under
    /// the next index, owned by the sender.
    pub open spec fn create(self, origin: Origin, unique: Seq<u8>) -> (ModuleView, Result<Event, Error>) {
        match spec_ensure_signed(origin) {
            Err(err) => (self, Err(err)),
            Ok(sender) => match self.next_id() {
                Err(err) => (self, Err(err)),
                Ok(id) => (self.insert_execution(sender, id, unique), Ok(Event::Created(sender, id))),
            },
        }
    }

    /// The owner of the execution `e` gives it to `to`.
    pub open spec fn transfer(self, origin: Origin, to: AccountId, e: ExecutionIndex) -> (ModuleView, Result<Event, Error>) {
        match spec_ensure_signed(origin) {
            Err(err) => (self, Err(err)),
            Ok(sender) => if self.owned_by(e, sender) {
                (self.update_owner(to, e), Ok(Event::Transferred(sender, to, e)))
            } else {
                (self, Err(Error::OnlyOwnerCanTransfer))
            },
        }
    }

    /// The checks of a call that sets an execution result that come before
    /// its default blocks are worked out: it gives the sender when they pass.
    pub open spec fn set_result_precheck(
        self,
        configs: ConfigurationsView,
        origin: Origin,
        c: ConfigurationIndex,
        e: ExecutionIndex,
    ) -> Result<AccountId, Error> {
        match spec_ensure_signed(origin) {
            Err(err) => Err(err),
            Ok(sender) => if !self.executions.contains_key(e) {
                Err(Error::ExecutionDoesNotExist)
            } else if !self.owned_by(e, sender) {
                Err(Error::OnlyOwnerCanSetExecutionResult)
            } else if !configs.owned_by(c, sender) {
                Err(Error::OnlyConfigurationOwnerCanExecute)
            } else {
                Ok(sender)
            },
        }
    }

    /// The owner of the execution `e`, who also owns the configuration `c`,
    /// records that they ran it from `started` (by default the current block)
    /// to `ended` (by default the block after it), provided the configuration
    /// locks more than its minimum amount.
    pub open spec fn set_execution_result(
        self,
        configs: ConfigurationsView,
        origin: Origin,
        c: ConfigurationIndex,
        e: ExecutionIndex,
        started: Option<BlockNumber>,
        ended: Option<BlockNumber>,
        current_block: BlockNumber,
    ) -> (ModuleView, Result<Event, Error>) {
        match self.set_result_precheck(configs, origin, c, e) {
            Err(err) => (self, Err(err)),
            Ok(sender) => {
                let started_block = match started {
                    Some(b) => b,
                    None => current_block,
                };
                let ended_block = match ended {
                    Some(b) => b,
                    None => (current_block + 1) as u64,
                };
                match spec_lock_amount_check(configs, c) {
                    Err(_) => (self, Err(Error::TokenLockAmountCheckFailed)),
                    Ok(_) => (
                        ModuleView {
                            execution_results: self.execution_results.insert(
                                (c, e),
                                make_result(sender, started_block, ended_block),
                            ),
                            ..self
                        },
                        Ok(
                            Event::MiningSpeedBoostExecutionTokenMiningExecutionResultSet(
                                sender,
                                c,
                                e,
                                sender,
                                started_block,
                                ended_block,
                            ),
                        ),
                    ),
                }
            },
        }
    }

    /// The checks of a call that assigns an execution to a configuration that
    /// come before anything is stored: it gives the sender when they pass.
    pub open spec fn assign_precheck(
        self,
        configs: ConfigurationsView,
        origin: Origin,
        c: ConfigurationIndex,
    ) -> Result<AccountId, Error> {
        match spec_ensure_signed(origin) {
            Err(err) => Err(err),
            Ok(sender) => if !configs.configurations.contains(c) {
                Err(Error::ConfigurationDoesNotExist)
            } else if !configs.owned_by(c, sender) {
                Err(Error::OnlyConfigurationOwnerCanAssign)
            } else {
                Ok(sender)
            },
        }
    }

    /// The owner of the configuration `c` associates the execution `e` with
    /// it and, where the execution exists, assigns it to the configuration.
    /// The association stays stored when the execution does not exist.
    pub open spec fn assign(
        self,
        configs: ConfigurationsView,
        origin: Origin,
        e: ExecutionIndex,
        c: ConfigurationIndex,
    ) -> (ModuleView, Result<Event, Error>) {
        match self.assign_precheck(configs, origin, c) {
            Err(err) => (self, Err(err)),
            Ok(sender) => {
                let associated = self.associate(e, c).0;
                if !associated.executions.contains_key(e) {
                    (associated, Err(Error::InvalidExecutionId))
                } else {
                    (
                        ModuleView {
                            execution_configuration: associated.execution_configuration.insert(e, c),
                            ..associated
                        },
                        Ok(Event::AssignedTokenMiningExecutionToConfiguration(sender, e, c)),
                    )
                }
            },
        }
    }
}

/// Whether `v` holds `x`.
fn vec_contains(v: &Vec<ExecutionIndex>, x: ExecutionIndex) -> (r: bool)
    ensures
        r == v@.contains(x),
{
    let mut i: usize = 0;
    while i < v.len()
        invariant
            i <= v.len(),
            forall|j: int| 0 <= j < i ==> v@[j] != x,
        decreases v.len() - i,
    {
        if v[i] == x {
            assert(v@[i as int] == x);
            return true;
        }
        i = i + 1;
    }
    false
}

impl Module {
    /// A pallet that has done nothing yet.
    pub fn new() -> (r: Self)
        ensures
            r@ == ModuleView::empty(),
    {
        let r = Module {
            executions: BTreeMap::new(),
            count: 0,
            owners: BTreeMap::new(),
            execution_results: BTreeMap::new(),
            execution_configuration: BTreeMap::new(),
            configuration_executions: BTreeMap::new(),
        };
        assert(r@.executions =~= Map::empty());
        assert(r@.configuration_executions =~= Map::empty());
        r
    }

    /// Whether `sender` owns the execution `e`.
    pub fn is_mining_execution_token_mining_owner(
        &self,
        mining_execution_token_mining_id: ExecutionIndex,
        sender: AccountId,
    ) -> (r: Result<(), Error>)
        ensures
            r == (if self@.owned_by(mining_execution_token_mining_id, sender) {
                Ok(())
            } else {
                Err(Error::NotExecutionOwner)
            }),
    {
        match self.owners.get(&mining_execution_token_mining_id) {
            Some(owner) => if *owner == sender {
                Ok(())
            } else {
                Err(Error::NotExecutionOwner)
            },
            None => Err(Error::NotExecutionOwner),
        }
    }

    /// The execution stored under `e`.
    pub fn exists_mining_execution_token_mining(
        &self,
        mining_execution_token_mining_id: ExecutionIndex,
    ) -> (r: Result<MiningSpeedBoostExecutionTokenMining, Error>)
        ensures
            self@.executions.contains_key(mining_execution_token_mining_id) <==> r is Ok,
            r matches Ok(token) ==> unique_id_of(token) == self@.executions[mining_execution_token_mining_id],
            r matches Err(err) ==> err == Error::ExecutionDoesNotExist,
    {
        match self.executions.get(&mining_execution_token_mining_id) {
            Some(token) => Ok(*token),
            None => Err(Error::ExecutionDoesNotExist),
        }
    }

    /// Whether an execution result is stored under (`c`, `e`).
    pub fn exists_mining_execution_token_mining_execution_result(
        &self,
        mining_configuration_token_mining_id: ConfigurationIndex,
        mining_execution_token_mining_id: ExecutionIndex,
    ) -> (r: Result<(), Error>)
        ensures
            r == (if self@.execution_results.contains_key(
                (mining_configuration_token_mining_id, mining_execution_token_mining_id),
            ) {
                Ok(())
            } else {
                Err(Error::ExecutionResultDoesNotExist)
            }),
    {
        match self.execution_results.get(
            &(mining_configuration_token_mining_id, mining_execution_token_mining_id),
        ) {
            Some(_value) => Ok(()),
            None => Err(Error::ExecutionResultDoesNotExist),
        }
    }

    /// Whether the current block is past the start block of the lock period
    /// of the configuration `c`.
    pub fn token_execution_started_block_greater_than_current_block(
        _mining_execution_token_mining_id: ExecutionIndex,
        mining_configuration_token_mining_id: ConfigurationIndex,
        current_block: BlockNumber,
        configurations: &TokenMiningConfigurations,
    ) -> (r: Result<(), Error>)
        ensures
            r == spec_started_block_check(
                configurations@,
                mining_configuration_token_mining_id,
                current_block,
            ),
            configurations@.token_configs.contains_key(mining_configuration_token_mining_id) ==> (r is Ok
                <==> current_block
                > configurations@.token_configs[mining_configuration_token_mining_id].token_lock_start_block),
    {
        match configurations.token_config(mining_configuration_token_mining_id) {
            Some(config) => if current_block > config.token_lock_start_block {
                Ok(())
            } else {
                Err(Error::BeforeLockStartBlock)
            },
            None => Err(Error::TokenConfigNotFound),
        }
    }

    /// Whether the lock period of the configuration `c` is longer than the
    /// minimum lock period of its cooldown config.
    pub fn token_lock_interval_blocks_greater_than_token_lock_min_blocks(
        _mining_execution_token_mining_id: ExecutionIndex,
        mining_configuration_token_mining_id: ConfigurationIndex,
        configurations: &TokenMiningConfigurations,
    ) -> (r: Result<(), Error>)
        ensures
            r == spec_lock_interval_check(configurations@, mining_configuration_token_mining_id),
            r is Ok <==> (configurations@.token_configs.contains_key(mining_configuration_token_mining_id)
                && configurations@.cooldown_configs.contains_key(mining_configuration_token_mining_id)
                && configurations@.token_configs[mining_configuration_token_mining_id].token_lock_interval_blocks
                > configurations@.cooldown_configs[mining_configuration_token_mining_id].token_lock_min_blocks),
    {
        match configurations.token_config(mining_configuration_token_mining_id) {
            Some(config) => match configurations.cooldown_config(
                mining_configuration_token_mining_id,
            ) {
                Some(cooldown) => if config.token_lock_interval_blocks
                    > cooldown.token_lock_min_blocks {
                    Ok(())
                } else {
                    Err(Error::LockIntervalNotLongerThanMinimum)
                },
                None => Err(Error::CooldownConfigNotFound),
            },
            None => Err(Error::TokenConfigNotFound),
        }
    }

    /// Whether the locked amount of the configuration `c` is larger than the
    /// minimum locked amount of its cooldown config.
    pub fn token_lock_amount_greater_than_token_lock_min_amount(
        _mining_execution_token_mining_id: ExecutionIndex,
        mining_configuration_token_mining_id: ConfigurationIndex,
        configurations: &TokenMiningConfigurations,
    ) -> (r: Result<(), Error>)
        ensures
            r == spec_lock_amount_check(configurations@, mining_configuration_token_mining_id),
            r is Ok <==> (configurations@.token_configs.contains_key(mining_configuration_token_mining_id)
                && configurations@.cooldown_configs.contains_key(mining_configuration_token_mining_id)
                && configurations@.token_configs[mining_configuration_token_mining_id].token_lock_amount
                > configurations@.cooldown_configs[mining_configuration_token_mining_id].token_lock_min_amount),
    {
        match configurations.token_config(mining_configuration_token_mining_id) {
            Some(config) => match configurations.cooldown_config(
                mining_configuration_token_mining_id,
            ) {
                Some(cooldown) => if config.token_lock_amount > cooldown.token_lock_min_amount {
                    Ok(())
                } else {
                    Err(Error::LockAmountNotLargerThanMinimum)
                },
                None => Err(Error::CooldownConfigNotFound),
            },
            None => Err(Error::TokenConfigNotFound),
        }
    }

    /// Runs an execution whose result was just set; it does nothing yet and
    /// always succeeds.
    pub fn execution(
        _sender: AccountId,
        _mining_configuration_token_mining_id: ConfigurationIndex,
        _mining_execution_token_mining_id: ExecutionIndex,
        _token_execution_executor_account_id: AccountId,
        _token_execution_started_block: BlockNumber,
        _token_execution_ended_block: BlockNumber,
    ) -> (r: Result<(), Error>)
        ensures
            r == Ok::<(), Error>(()),
    {
        Ok(())
    }

    /// Whether an execution result is stored under (`c`, `e`).
    pub fn has_value_for_mining_execution_token_mining_execution_result_index(
        &self,
        mining_configuration_token_mining_id: ConfigurationIndex,
        mining_execution_token_mining_id: ExecutionIndex,
    ) -> (r: Result<(), Error>)
        ensures
            r == (if self@.execution_results.contains_key(
                (mining_configuration_token_mining_id, mining_execution_token_mining_id),
            ) {
                Ok(())
            } else {
                Err(Error::NoExecutionResultValue)
            }),
    {
        match self.execution_results.get(
            &(mining_configuration_token_mining_id, mining_execution_token_mining_id),
        ) {
            Some(_value) => Ok(()),
            None => Err(Error::NoExecutionResultValue),
        }
    }

    /// The index that the next execution gets, unless every index has been
    /// handed out.
    fn next_mining_execution_token_mining_id(&self) -> (r: Result<ExecutionIndex, Error>)
        ensures
            r == self@.next_id(),
    {
        if self.count == u64::MAX {
            return Err(Error::ExecutionCountOverflow);
        }
        Ok(self.count)
    }

    /// Stores the execution `id`, owned by `owner`, and makes the count one
    /// more than `id`.
    fn insert_mining_execution_token_mining(
        &mut self,
        owner: AccountId,
        mining_execution_token_mining_id: ExecutionIndex,
        mining_execution_token_mining: MiningSpeedBoostExecutionTokenMining,
    )
        requires
            mining_execution_token_mining_id < u64::MAX,
        ensures
            final(self)@ == old(self)@.insert_execution(
                owner,
                mining_execution_token_mining_id,
                unique_id_of(mining_execution_token_mining),
            ),
    {
        let ghost before = self.executions@;
        self.executions.insert(mining_execution_token_mining_id, mining_execution_token_mining);
        self.count = mining_execution_token_mining_id + 1;
        self.owners.insert(mining_execution_token_mining_id, owner);
        assert(self.executions@.map_values(|t: MiningSpeedBoostExecutionTokenMining| unique_id_of(t))
            =~= before.map_values(|t: MiningSpeedBoostExecutionTokenMining| unique_id_of(t)).insert(
            mining_execution_token_mining_id,
            unique_id_of(mining_execution_token_mining),
        ));
    }

    /// Makes `to` the owner of the execution `id`.
    fn update_owner(&mut self, to: AccountId, mining_execution_token_mining_id: ExecutionIndex)
        ensures
            final(self)@ == old(self)@.update_owner(to, mining_execution_token_mining_id),
    {
        self.owners.insert(mining_execution_token_mining_id, to);
    }

    /// Adds the execution `e` at the end of the list of executions of the
    /// configuration `c`, unless the list holds it already.
    pub fn associate_token_execution_with_configuration(
        &mut self,
        mining_execution_token_mining_id: ExecutionIndex,
        mining_configuration_token_mining_id: ConfigurationIndex,
    ) -> (r: Result<(), Error>)
        ensures
            final(self)@ == old(self)@.associate(
                mining_execution_token_mining_id,
                mining_configuration_token_mining_id,
            ).0,
            r == old(self)@.associate(
                mining_execution_token_mining_id,
                mining_configuration_token_mining_id,
            ).1,
            r is Err <==> (old(self)@.configuration_executions.contains_key(
                mining_configuration_token_mining_id,
            ) && old(self)@.configuration_executions[mining_configuration_token_mining_id].contains(
                mining_execution_token_mining_id,
            )),
    {
        let e = mining_execution_token_mining_id;
        let c = mining_configuration_token_mining_id;
        let ghost before = self.configuration_executions@;
        match self.configuration_executions.remove(&c) {
            Some(mut list) => {
                assert(before.contains_key(c) && before[c] == list);
                if vec_contains(&list, e) {
                    self.configuration_executions.insert(c, list);
                    assert(self.configuration_executions@ =~= before);
                    Err(Error::ConfigurationAlreadyContainsExecution)
                } else {
                    list.push(e);
                    self.configuration_executions.insert(c, list);
                    assert(self.configuration_executions@.map_values(|v: Vec<ExecutionIndex>| vec_elements(v))
                        =~= before.map_values(|v: Vec<ExecutionIndex>| vec_elements(v)).insert(
                        c,
                        before[c]@.push(e),
                    ));
                    Ok(())
                }
            },
            None => {
                let mut list: Vec<ExecutionIndex> = Vec::new();
                list.push(e);
                self.configuration_executions.insert(c, list);
                assert(self.configuration_executions@.map_values(|v: Vec<ExecutionIndex>| vec_elements(v))
                    =~= before.map_values(|v: Vec<ExecutionIndex>| vec_elements(v)).insert(c, seq![e]));
                Ok(())
            },
        }
    }
    /// Creates an execution owned by the signer of the call, under the next
    /// index, with the unique id `unique_id`; gives the `Created` event.
    pub fn create_with_unique_id(&mut self, origin: Origin, unique_id: [u8; 16]) -> (r: Result<Event, Error>)
        ensures
            final(self)@ == old(self)@.create(origin, unique_id@).0,
            r == old(self)@.create(origin, unique_id@).1,
    {
        let sender = match ensure_signed(origin) {
            Ok(sender) => sender,
            Err(err) => return Err(err),
        };
        let id = match self.next_mining_execution_token_mining_id() {
            Ok(id) => id,
            Err(err) => return Err(err),
        };
        let token = MiningSpeedBoostExecutionTokenMining(unique_id);
        self.insert_mining_execution_token_mining(sender, id, token);
        Ok(Event::Created(sender, id))
    }

    /// Creates an execution owned by the signer of the call, under the next
    /// index; its unique id is the hash of the chain's random seed, the
    /// sender, the index of the extrinsic and the block number.
    pub fn create(
        &mut self,
        origin: Origin,
        random_seed: [u8; 32],
        extrinsic_index: Option<u32>,
        block_number: BlockNumber,
    ) -> (r: Result<Event, Error>)
        ensures
            origin matches Origin::Signed(sender) ==> {
                let unique = spec_random_value(sender, random_seed@, extrinsic_index, block_number);
                &&& final(self)@ == old(self)@.create(origin, unique).0
                &&& r == old(self)@.create(origin, unique).1
            },
            !(origin is Signed) ==> final(self)@ == old(self)@ && r == Err::<Event, Error>(
                Error::BadOrigin,
            ),
    {
        let sender = match ensure_signed(origin) {
            Ok(sender) => sender,
            Err(err) => return Err(err),
        };
        let unique_id = random_value(sender, random_seed, extrinsic_index, block_number);
        self.create_with_unique_id(origin, unique_id)
    }

    /// The owner of the execution `e` gives it to `to`; gives the
    /// `Transferred` event.
    pub fn transfer(
        &mut self,
        origin: Origin,
        to: AccountId,
        mining_execution_token_mining_id: ExecutionIndex,
    ) -> (r: Result<Event, Error>)
        ensures
            final(self)@ == old(self)@.transfer(origin, to, mining_execution_token_mining_id).0,
            r == old(self)@.transfer(origin, to, mining_execution_token_mining_id).1,
    {
        let sender = match ensure_signed(origin) {
            Ok(sender) => sender,
            Err(err) => return Err(err),
        };
        let owned = match self.owners.get(&mining_execution_token_mining_id) {
            Some(owner) => *owner == sender,
            None => false,
        };
        if !owned {
            return Err(Error::OnlyOwnerCanTransfer);
        }
        self.update_owner(to, mining_execution_token_mining_id);
        Ok(Event::Transferred(sender, to, mining_execution_token_mining_id))
    }

    /// The owner of the execution `e`, who also owns the configuration `c`,
    /// records that they ran it from `started` (by default the current block)
    /// to `ended` (by default the block after the current one), provided the
    /// configuration locks more than its minimum amount; gives the
    /// `MiningSpeedBoostExecutionTokenMiningExecutionResultSet` event.
    pub fn set_mining_execution_token_mining_execution_result(
        &mut self,
        origin: Origin,
        mining_configuration_token_mining_id: ConfigurationIndex,
        mining_execution_token_mining_id: ExecutionIndex,
        token_execution_started_block: Option<BlockNumber>,
        token_execution_ended_block: Option<BlockNumber>,
        current_block: BlockNumber,
        configurations: &TokenMiningConfigurations,
    ) -> (r: Result<Event, Error>)
        requires
            old(self)@.set_result_precheck(
                configurations@,
                origin,
                mining_configuration_token_mining_id,
                mining_execution_token_mining_id,
            ) is Ok && token_execution_ended_block is None ==> current_block < u64::MAX,
        ensures
            final(self)@ == old(self)@.set_execution_result(
                configurations@,
                origin,
                mining_configuration_token_mining_id,
                mining_execution_token_mining_id,
                token_execution_started_block,
                token_execution_ended_block,
                current_block,
            ).0,
            r == old(self)@.set_execution_result(
                configurations@,
                origin,
                mining_configuration_token_mining_id,
                mining_execution_token_mining_id,
                token_execution_started_block,
                token_execution_ended_block,
                current_block,
            ).1,
            r is Ok ==> {
                &&& configurations@.token_configs.contains_key(mining_configuration_token_mining_id)
                &&& configurations@.cooldown_configs.contains_key(mining_configuration_token_mining_id)
                &&& configurations@.token_configs[mining_configuration_token_mining_id].token_lock_amount
                    > configurations@.cooldown_configs[mining_configuration_token_mining_id].token_lock_min_amount
            },
    {
        let c = mining_configuration_token_mining_id;
        let e = mining_execution_token_mining_id;
        let sender = match ensure_signed(origin) {
            Ok(sender) => sender,
            Err(err) => return Err(err),
        };
        if self.exists_mining_execution_token_mining(e).is_err() {
            return Err(Error::ExecutionDoesNotExist);
        }
        if self.is_mining_execution_token_mining_owner(e, sender).is_err() {
            return Err(Error::OnlyOwnerCanSetExecutionResult);
        }
        if !configurations.is_configuration_owner(c, sender) {
            return Err(Error::OnlyConfigurationOwnerCanExecute);
        }
        let token_execution_executor_account_id = sender;
        let started_block = match token_execution_started_block {
            Some(value) => value,
            None => current_block,
        };
        let ended_block = match token_execution_ended_block {
            Some(value) => value,
            None => current_block + 1,
        };
        if Self::token_lock_amount_greater_than_token_lock_min_amount(e, c, configurations).is_err() {
            return Err(Error::TokenLockAmountCheckFailed);
        }
        let record = MiningSpeedBoostExecutionTokenMiningExecutionResult {
            token_execution_executor_account_id,
            token_execution_started_block: started_block,
            token_execution_ended_block: ended_block,
        };
        // Whether a result is stored already or not, every field of the
        // record under (c, e) becomes the new value.
        self.execution_results.insert((c, e), record);
        let _executed = Self::execution(
            sender,
            c,
            e,
            token_execution_executor_account_id,
            started_block,
            ended_block,
        );
        Ok(
            Event::MiningSpeedBoostExecutionTokenMiningExecutionResultSet(
                sender,
                c,
                e,
                token_execution_executor_account_id,
                started_block,
                ended_block,
            ),
        )
    }

    /// The owner of the configuration `c` associates the execution `e` with
    /// it and, where the execution exists, assigns it to the configuration;
    /// gives the `AssignedTokenMiningExecutionToConfiguration` event. The
    /// association stays stored when the execution does not exist.
    pub fn assign_execution_to_configuration(
        &mut self,
        origin: Origin,
        mining_execution_token_mining_id: ExecutionIndex,
        mining_configuration_token_mining_id: ConfigurationIndex,
        configurations: &TokenMiningConfigurations,
    ) -> (r: Result<Event, Error>)
        requires
            old(self)@.assign_precheck(configurations@, origin, mining_configuration_token_mining_id)
                is Ok ==> old(self)@.associate(
                mining_execution_token_mining_id,
                mining_configuration_token_mining_id,
            ).1 is Ok,
        ensures
            final(self)@ == old(self)@.assign(
                configurations@,
                origin,
                mining_execution_token_mining_id,
                mining_configuration_token_mining_id,
            ).0,
            r == old(self)@.assign(
                configurations@,
                origin,
                mining_execution_token_mining_id,
                mining_configuration_token_mining_id,
            ).1,
            origin matches Origin::Signed(sender) ==> (configurations@.configurations.contains(
                mining_configuration_token_mining_id,
            ) && configurations@.owned_by(mining_configuration_token_mining_id, sender)
                && old(self)@.executions.contains_key(mining_execution_token_mining_id) ==> {
                &&& r == Ok::<Event, Error>(
                    Event::AssignedTokenMiningExecutionToConfiguration(
                        sender,
                        mining_execution_token_mining_id,
                        mining_configuration_token_mining_id,
                    ),
                )
                &&& final(self)@.execution_configuration.contains_key(mining_execution_token_mining_id)
                &&& final(self)@.execution_configuration[mining_execution_token_mining_id]
                    == mining_configuration_token_mining_id
            }),
    {
        let e = mining_execution_token_mining_id;
        let c = mining_configuration_token_mining_id;
        let sender = match ensure_signed(origin) {
            Ok(sender) => sender,
            Err(err) => return Err(err),
        };
        if !configurations.exists_configuration(c) {
            return Err(Error::ConfigurationDoesNotExist);
        }
        if !configurations.is_configuration_owner(c, sender) {
            return Err(Error::OnlyConfigurationOwnerCanAssign);
        }
        let associated = self.associate_token_execution_with_configuration(e, c);
        assert(associated is Ok);
        if self.exists_mining_execution_token_mining(e).is_err() {
            return Err(Error::InvalidExecutionId);
        }
        self.execution_configuration.insert(e, c);
        Ok(Event::AssignedTokenMiningExecutionToConfiguration(sender, e, c))
    }

    /// The execution stored under `e`, if any.
    pub fn mining_execution_token_mining(
        &self,
        mining_execution_token_mining_id: ExecutionIndex,
    ) -> (r: Option<MiningSpeedBoostExecutionTokenMining>)
        ensures
            r is Some <==> self@.executions.contains_key(mining_execution_token_mining_id),
            r matches Some(token) ==> unique_id_of(token) == self@.executions[mining_execution_token_mining_id],
    {
        match self.executions.get(&mining_execution_token_mining_id) {
            Some(token) => Some(*token),
            None => None,
        }
    }

    /// The number of executions created, which is the next index to hand out.
    pub fn mining_execution_token_mining_count(&self) -> (r: ExecutionIndex)
        ensures
            r == self@.count,
    {
        self.count
    }

    /// The owner of the execution `e`, if any.
    pub fn mining_execution_token_mining_owner(
        &self,
        mining_execution_token_mining_id: ExecutionIndex,
    ) -> (r: Option<AccountId>)
        ensures
            r == (if self@.owners.contains_key(mining_execution_token_mining_id) {
                Some(self@.owners[mining_execution_token_mining_id])
            } else {
                None
            }),
    {
        match self.owners.get(&mining_execution_token_mining_id) {
            Some(owner) => Some(*owner),
            None => None,
        }
    }

    /// The execution result stored under (`c`, `e`), if any.
    pub fn mining_execution_token_mining_execution_results(
        &self,
        key: (ConfigurationIndex, ExecutionIndex),
    ) -> (r: Option<ExecutionResult>)
        ensures
            r == (if self@.execution_results.contains_key(key) {
                Some(self@.execution_results[key])
            } else {
                None
            }),
    {
        match self.execution_results.get(&key) {
            Some(result) => Some(*result),
            None => None,
        }
    }

    /// The configuration that the execution `e` was assigned to, if any.
    pub fn token_mining_execution_configuration(
        &self,
        mining_execution_token_mining_id: ExecutionIndex,
    ) -> (r: Option<ConfigurationIndex>)
        ensures
            r == (if self@.execution_configuration.contains_key(mining_execution_token_mining_id) {
                Some(self@.execution_configuration[mining_execution_token_mining_id])
            } else {
                None
            }),
    {
        match self.execution_configuration.get(&mining_execution_token_mining_id) {
            Some(c) => Some(*c),
            None => None,
        }
    }

    /// The executions associated with the configuration `c`, in the order in
    /// which they were associated, if any.
    pub fn token_mining_configuration_execution(
        &self,
        mining_configuration_token_mining_id: ConfigurationIndex,
    ) -> (r: Option<Vec<ExecutionIndex>>)
        ensures
            r is Some <==> self@.configuration_executions.contains_key(mining_configuration_token_mining_id),
            r matches Some(list) ==> list@ == self@.configuration_executions[mining_configuration_token_mining_id],
    {
        match self.configuration_executions.get(&mining_configuration_token_mining_id) {
            Some(list) => {
                let mut copy: Vec<ExecutionIndex> = Vec::new();
                let mut i: usize = 0;
                while i < list.len()
                    invariant
                        i <= list.len(),
                        copy@ == list@.subrange(0, i as int),
                    decreases list.len() - i,
                {
                    copy.push(list[i]);
                    i = i + 1;
                }
                assert(list@.subrange(0, list.len() as int) =~= list@);
                Some(copy)
            },
            None => None,
        }
    }

}

} // verus!
