//! What the execution pallet reads of the token mining configuration pallet:
//! which configurations exist, who owns them, and their token and cooldown
//! settings.
use vstd::prelude::*;
use std::collections::BTreeMap;
use crate::types::{AccountId, Balance, BlockNumber, ConfigurationIndex};

verus! {

/// The settings of a configuration that the execution pallet reads.
#[derive(Clone, Copy, Debug, PartialEq, Eq, Structural)]
pub struct TokenConfig {
    /// Amount of tokens locked.
    pub token_lock_amount: Balance,
    /// Block at which the lock period starts.
    pub token_lock_start_block: BlockNumber,
    /// Length of the lock period, in blocks.
    pub token_lock_interval_blocks: BlockNumber,
}

/// The cooldown settings of a configuration that the execution pallet reads.
#[derive(Clone, Copy, Debug, PartialEq, Eq, Structural)]
pub struct CooldownConfig {
    /// Shortest lock period allowed, in blocks.
    pub token_lock_min_blocks: BlockNumber,
    /// Smallest locked amount allowed.
    pub token_lock_min_amount: Balance,
}

/// The configurations, as the configuration pallet stores them.
pub struct TokenMiningConfigurations {
    configurations: BTreeMap<ConfigurationIndex, ()>,
    owners: BTreeMap<ConfigurationIndex, AccountId>,
    token_configs: BTreeMap<ConfigurationIndex, TokenConfig>,
    cooldown_configs: BTreeMap<ConfigurationIndex, CooldownConfig>,
}

/// The mathematical model of the configurations.
pub struct ConfigurationsView {
    pub configurations: Set<ConfigurationIndex>,
    pub owners: Map<ConfigurationIndex, AccountId>,
    pub token_configs: Map<ConfigurationIndex, TokenConfig>,
    pub cooldown_configs: Map<ConfigurationIndex, CooldownConfig>,
}

impl ConfigurationsView {
    /// `who` owns the configuration `id`.
    pub open spec fn owned_by(self, id: ConfigurationIndex, who: AccountId) -> bool {
        self.owners.contains_key(id) && self.owners[id] == who
    }
}

impl View for TokenMiningConfigurations {
    type V = ConfigurationsView;

    closed spec fn view(&self) -> ConfigurationsView {
        ConfigurationsView {
            configurations: self.configurations@.dom(),
            owners: self.owners@,
            token_configs: self.token_configs@,
            cooldown_configs: self.cooldown_configs@,
        }
    }
}

impl TokenMiningConfigurations {
    /// No configuration at all.
    pub fn new() -> (r: Self)
        ensures
            r@.configurations == Set::<ConfigurationIndex>::empty(),
            r@.owners == Map::<ConfigurationIndex, AccountId>::empty(),
            r@.token_configs == Map::<ConfigurationIndex, TokenConfig>::empty(),
            r@.cooldown_configs == Map::<ConfigurationIndex, CooldownConfig>::empty(),
    {
        TokenMiningConfigurations {
            configurations: BTreeMap::new(),
            owners: BTreeMap::new(),
            token_configs: BTreeMap::new(),
            cooldown_configs: BTreeMap::new(),
        }
    }

    /// Records that the configuration `id` exists and is owned by `owner`.
    pub fn insert_configuration(&mut self, id: ConfigurationIndex, owner: AccountId)
        ensures
            final(self)@.configurations == old(self)@.configurations.insert(id),
            final(self)@.owners == old(self)@.owners.insert(id, owner),
            final(self)@.token_configs == old(self)@.token_configs,
            final(self)@.cooldown_configs == old(self)@.cooldown_configs,
    {
        self.configurations.insert(id, ());
        self.owners.insert(id, owner);
    }

    /// Sets the token config of the configuration `id`.
    pub fn set_token_config(&mut self, id: ConfigurationIndex, config: TokenConfig)
        ensures
            final(self)@.configurations == old(self)@.configurations,
            final(self)@.owners == old(self)@.owners,
            final(self)@.token_configs == old(self)@.token_configs.insert(id, config),
            final(self)@.cooldown_configs == old(self)@.cooldown_configs,
    {
        self.token_configs.insert(id, config);
    }

    /// Sets the cooldown config of the configuration `id`.
    pub fn set_cooldown_config(&mut self, id: ConfigurationIndex, config: CooldownConfig)
        ensures
            final(self)@.configurations == old(self)@.configurations,
            final(self)@.owners == old(self)@.owners,
            final(self)@.token_configs == old(self)@.token_configs,
            final(self)@.cooldown_configs == old(self)@.cooldown_configs.insert(id, config),
    {
        self.cooldown_configs.insert(id, config);
    }

    /// Whether the configuration `id` exists.
    pub fn exists_configuration(&self, id: ConfigurationIndex) -> (r: bool)
        ensures
            r == self@.configurations.contains(id),
    {
        self.configurations.contains_key(&id)
    }

    /// Whether `who` owns the configuration `id`.
    pub fn is_configuration_owner(&self, id: ConfigurationIndex, who: AccountId) -> (r: bool)
        ensures
            r == self@.owned_by(id, who),
    {
        match self.owners.get(&id) {
            Some(owner) => *owner == who,
            None => false,
        }
    }

    /// The token config of the configuration `id`, if it has one.
    pub fn token_config(&self, id: ConfigurationIndex) -> (r: Option<TokenConfig>)
        ensures
            r == (if self@.token_configs.contains_key(id) {
                Some(self@.token_configs[id])
            } else {
                None
            }),
    {
        match self.token_configs.get(&id) {
            Some(config) => Some(*config),
            None => None,
        }
    }

    /// The cooldown config of the configuration `id`, if it has one.
    pub fn cooldown_config(&self, id: ConfigurationIndex) -> (r: Option<CooldownConfig>)
        ensures
            r == (if self@.cooldown_configs.contains_key(id) {
                Some(self@.cooldown_configs[id])
            } else {
                None
            }),
    {
        match self.cooldown_configs.get(&id) {
            Some(config) => Some(*config),
            None => None,
        }
    }
}

} // verus!
