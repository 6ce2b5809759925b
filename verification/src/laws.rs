//! What holds of the pallet's calls over all inputs and across calls.
use vstd::prelude::*;
use crate::configuration::ConfigurationsView;
use crate::pallet::{
    make_result, spec_lock_amount_check, spec_lock_interval_check, spec_started_block_check, ModuleView,
};
use crate::types::{AccountId, BlockNumber, ConfigurationIndex, Error, Event, ExecutionIndex, Origin};

verus! {

/// A pallet that has done nothing yet keeps what the storage keeps true.
pub proof fn law_empty_is_wf()
    ensures
        ModuleView::empty().wf(),
{
    assert(ModuleView::empty().owners.dom() =~= ModuleView::empty().executions.dom());
}

/// Every call keeps what the storage keeps true: each execution has an owner
/// and nothing else has one, every execution index is below the count, and
/// no configuration lists an execution twice.
pub proof fn law_calls_preserve_wf(
    s: ModuleView,
    configs: ConfigurationsView,
    origin: Origin,
    unique: Seq<u8>,
    to: AccountId,
    e: ExecutionIndex,
    c: ConfigurationIndex,
    started: Option<BlockNumber>,
    ended: Option<BlockNumber>,
    current_block: BlockNumber,
)
    requires
        s.wf(),
    ensures
        s.create(origin, unique).0.wf(),
        s.transfer(origin, to, e).0.wf(),
        s.set_execution_result(configs, origin, c, e, started, ended, current_block).0.wf(),
        s.associate(e, c).0.wf(),
        s.assign(configs, origin, e, c).0.wf(),
{
    let created = s.create(origin, unique).0;
    assert(created.owners.dom() =~= created.executions.dom());
    let transferred = s.transfer(origin, to, e).0;
    assert(transferred.owners.dom() =~= transferred.executions.dom());
    lemma_associate_preserves_wf(s, e, c);
}

proof fn lemma_associate_preserves_wf(s: ModuleView, e: ExecutionIndex, c: ConfigurationIndex)
    requires
        s.wf(),
    ensures
        s.associate(e, c).0.wf(),
{
    let post = s.associate(e, c).0;
    if s.configuration_executions.contains_key(c) && !s.configuration_executions[c].contains(e) {
        let old_list = s.configuration_executions[c];
        let new_list = old_list.push(e);
        assert forall|i: int, j: int| 0 <= i < j < new_list.len() implies new_list[i] != new_list[j] by {
            if j == new_list.len() - 1 {
                assert(old_list[i] == new_list[i]);
                assert(old_list.contains(old_list[i]));
            } else {
                assert(old_list[i] == new_list[i] && old_list[j] == new_list[j]);
            }
        }
        assert(new_list.no_duplicates());
    }
    if !s.configuration_executions.contains_key(c) {
        assert(seq![e].no_duplicates());
    }
    assert forall|k: ConfigurationIndex| #[trigger] post.configuration_executions.contains_key(k)
        implies post.configuration_executions[k].no_duplicates() by {
        if k != c {
            assert(post.configuration_executions[k] == s.configuration_executions[k]);
        }
    }
}

/// A signed create stores the given unique id under the index that the count
/// held, which no execution had before; the sender owns it, the count grows
/// by one, and no other execution or owner changes.
pub proof fn law_create_stores_new_execution(s: ModuleView, sender: AccountId, unique: Seq<u8>)
    requires
        s.wf(),
        s.count < u64::MAX,
    ensures
        !s.executions.contains_key(s.count),
        s.create(Origin::Signed(sender), unique).1 == Ok::<Event, Error>(
            Event::Created(sender, s.count),
        ),
        s.create(Origin::Signed(sender), unique).0.executions == s.executions.insert(s.count, unique),
        s.create(Origin::Signed(sender), unique).0.owned_by(s.count, sender),
        s.create(Origin::Signed(sender), unique).0.count == s.count + 1,
        forall|other: ExecutionIndex|
            other != s.count ==> #[trigger] s.create(Origin::Signed(sender), unique).0.owners.contains_key(other)
                == s.owners.contains_key(other) && s.create(Origin::Signed(sender), unique).0.owners[other]
                == s.owners[other],
{
}

/// Two creates in a row hand out two different indices, one after the
/// other.
pub proof fn law_successive_creates_get_distinct_indices(
    s: ModuleView,
    first: Origin,
    second: Origin,
    unique_first: Seq<u8>,
    unique_second: Seq<u8>,
)
    requires
        s.create(first, unique_first).1 is Ok,
        s.create(first, unique_first).0.create(second, unique_second).1 is Ok,
    ensures
        ({
            let (mid, r1) = s.create(first, unique_first);
            let r2 = mid.create(second, unique_second).1;
            match (r1, r2) {
                (Ok(Event::Created(_, a)), Ok(Event::Created(_, b))) => b == a + 1 && a != b,
                _ => false,
            }
        }),
{
}

/// Only the owner of an execution can transfer it; afterwards the receiver
/// owns it and the sender no longer does, unless they are the same account.
pub proof fn law_transfer_moves_ownership(
    s: ModuleView,
    sender: AccountId,
    to: AccountId,
    e: ExecutionIndex,
)
    ensures
        s.owned_by(e, sender) ==> {
            &&& s.transfer(Origin::Signed(sender), to, e).1 == Ok::<Event, Error>(
                Event::Transferred(sender, to, e),
            )
            &&& s.transfer(Origin::Signed(sender), to, e).0.owned_by(e, to)
            &&& (sender != to ==> !s.transfer(Origin::Signed(sender), to, e).0.owned_by(e, sender))
        },
        !s.owned_by(e, sender) ==> s.transfer(Origin::Signed(sender), to, e) == (
            s,
            Err::<Event, Error>(Error::OnlyOwnerCanTransfer),
        ),
{
}

/// A refused create, transfer or execution result leaves the storage as it
/// was; a refused assignment does too, except when the execution does not
/// exist, where the association with the configuration stays stored.
pub proof fn law_refused_calls_change_nothing(
    s: ModuleView,
    configs: ConfigurationsView,
    origin: Origin,
    unique: Seq<u8>,
    to: AccountId,
    e: ExecutionIndex,
    c: ConfigurationIndex,
    started: Option<BlockNumber>,
    ended: Option<BlockNumber>,
    current_block: BlockNumber,
)
    ensures
        s.create(origin, unique).1 is Err ==> s.create(origin, unique).0 == s,
        s.transfer(origin, to, e).1 is Err ==> s.transfer(origin, to, e).0 == s,
        s.set_execution_result(configs, origin, c, e, started, ended, current_block).1 is Err
            ==> s.set_execution_result(configs, origin, c, e, started, ended, current_block).0 == s,
        s.associate(e, c).1 is Err ==> s.associate(e, c).0 == s,
        s.assign(configs, origin, e, c).1 is Err && s.assign(configs, origin, e, c).1 != Err::<
            Event,
            Error,
        >(Error::InvalidExecutionId) ==> s.assign(configs, origin, e, c).0 == s,
        s.assign(configs, origin, e, c).1 == Err::<Event, Error>(Error::InvalidExecutionId)
            ==> s.assign(configs, origin, e, c).0 == s.associate(e, c).0,
{
}

/// After an execution result was set for (`c`, `e`), one is stored there: it
/// names the sender as executor and holds the blocks that the event reports.
pub proof fn law_execution_result_is_readable(
    s: ModuleView,
    configs: ConfigurationsView,
    origin: Origin,
    c: ConfigurationIndex,
    e: ExecutionIndex,
    started: Option<BlockNumber>,
    ended: Option<BlockNumber>,
    current_block: BlockNumber,
)
    requires
        s.set_execution_result(configs, origin, c, e, started, ended, current_block).1 is Ok,
        ended is None ==> current_block < u64::MAX,
    ensures
        ({
            let (post, r) = s.set_execution_result(configs, origin, c, e, started, ended, current_block);
            match r {
                Ok(
                    Event::MiningSpeedBoostExecutionTokenMiningExecutionResultSet(
                        sender,
                        c2,
                        e2,
                        executor,
                        started_block,
                        ended_block,
                    ),
                ) => {
                    &&& origin == Origin::Signed(sender)
                    &&& sender == executor && c2 == c && e2 == e
                    &&& post.execution_results.contains_key((c, e))
                    &&& post.execution_results[(c, e)] == make_result(sender, started_block, ended_block)
                    &&& started_block == (match started {
                        Some(b) => b,
                        None => current_block,
                    })
                    &&& ended is Some ==> ended_block == ended->0
                    &&& ended is None ==> ended_block == current_block + 1
                    &&& s.owned_by(e, sender) && configs.owned_by(c, sender)
                },
                _ => false,
            }
        }),
{
}

/// Associating an execution with a configuration adds it at the end of the
/// configuration's list; associating it again is refused.
pub proof fn law_associate_appends_once(s: ModuleView, e: ExecutionIndex, c: ConfigurationIndex)
    requires
        s.associate(e, c).1 is Ok,
    ensures
        s.associate(e, c).0.configuration_executions[c] == (if s.configuration_executions.contains_key(c) {
            s.configuration_executions[c].push(e)
        } else {
            seq![e]
        }),
        s.associate(e, c).0.associate(e, c) == (
            s.associate(e, c).0,
            Err::<(), Error>(Error::ConfigurationAlreadyContainsExecution),
        ),
{
    let post = s.associate(e, c).0;
    let list = post.configuration_executions[c];
    assert(list[list.len() - 1] == e);
}

/// After a successful assignment the execution is assigned to the
/// configuration, and the configuration's list ends with it.
pub proof fn law_assignment_is_readable(
    s: ModuleView,
    configs: ConfigurationsView,
    origin: Origin,
    e: ExecutionIndex,
    c: ConfigurationIndex,
)
    requires
        s.assign(configs, origin, e, c).1 is Ok,
        s.associate(e, c).1 is Ok,
    ensures
        ({
            let post = s.assign(configs, origin, e, c).0;
            &&& post.execution_configuration.contains_key(e)
            &&& post.execution_configuration[e] == c
            &&& post.configuration_executions.contains_key(c)
            &&& post.configuration_executions[c].last() == e
            &&& post.executions.contains_key(e)
        }),
{
    law_associate_appends_once(s, e, c);
}

/// Storing an execution under the index that the next-index query handed
/// out keeps the storage's invariant, and the count grows by one.
pub proof fn law_insert_at_next_index_keeps_wf(
    s: ModuleView,
    owner: AccountId,
    id: ExecutionIndex,
    unique: Seq<u8>,
)
    requires
        s.wf(),
        s.next_id() == Ok::<ExecutionIndex, Error>(id),
    ensures
        s.insert_execution(owner, id, unique).wf(),
        s.insert_execution(owner, id, unique).count == s.count + 1,
        forall|i: ExecutionIndex|
            #[trigger] s.insert_execution(owner, id, unique).executions.contains_key(i) <==> i < s.count + 1,
{
    let post = s.insert_execution(owner, id, unique);
    assert(post.owners.dom() =~= post.executions.dom());
}

/// After an execution was stored under the index that the next-index query
/// handed out, the query hands out the index after it, or refuses when that
/// index is the largest; so no index is handed out twice.
pub proof fn law_next_index_follows_insert(
    s: ModuleView,
    owner: AccountId,
    id: ExecutionIndex,
    unique: Seq<u8>,
)
    requires
        s.next_id() == Ok::<ExecutionIndex, Error>(id),
    ensures
        s.insert_execution(owner, id, unique).next_id() == (if id + 1 == u64::MAX {
            Err::<ExecutionIndex, Error>(Error::ExecutionCountOverflow)
        } else {
            Ok::<ExecutionIndex, Error>((id + 1) as u64)
        }),
        s.insert_execution(owner, id, unique).next_id() matches Ok(next) ==> next > id,
{
}

/// Changes of owner leave every stored execution as it was.
pub proof fn law_owner_updates_keep_executions(s: ModuleView, updates: Seq<(AccountId, ExecutionIndex)>)
    ensures
        s.update_owners(updates).executions == s.executions,
        s.update_owners(updates).count == s.count,
    decreases updates.len(),
{
    if updates.len() > 0 {
        law_owner_updates_keep_executions(
            s.update_owner(updates[0].0, updates[0].1),
            updates.drop_first(),
        );
    }
}

/// An execution stored under an index is found there unchanged after any
/// number of changes of owner.
pub proof fn law_stored_execution_survives_owner_updates(
    s: ModuleView,
    owner: AccountId,
    id: ExecutionIndex,
    unique: Seq<u8>,
    updates: Seq<(AccountId, ExecutionIndex)>,
)
    ensures
        s.insert_execution(owner, id, unique).update_owners(updates).executions.contains_key(id),
        s.insert_execution(owner, id, unique).update_owners(updates).executions[id] == unique,
{
    law_owner_updates_keep_executions(s.insert_execution(owner, id, unique), updates);
}

/// An execution result is only ever set when the configuration has a token
/// config and a cooldown config and locks more than its minimum amount,
/// whatever start and end blocks are given; when every other check passes
/// and the locked amount is not larger, the call is refused and nothing is
/// stored.
pub proof fn law_execution_result_needs_lock_amount(
    s: ModuleView,
    configs: ConfigurationsView,
    origin: Origin,
    c: ConfigurationIndex,
    e: ExecutionIndex,
    started: Option<BlockNumber>,
    ended: Option<BlockNumber>,
    current_block: BlockNumber,
)
    ensures
        s.set_execution_result(configs, origin, c, e, started, ended, current_block).1 is Ok ==> {
            &&& configs.token_configs.contains_key(c)
            &&& configs.cooldown_configs.contains_key(c)
            &&& configs.token_configs[c].token_lock_amount > configs.cooldown_configs[c].token_lock_min_amount
        },
        (origin matches Origin::Signed(sender) && s.executions.contains_key(e) && s.owned_by(e, sender)
            && configs.owned_by(c, sender) && !(configs.token_configs.contains_key(c)
            && configs.cooldown_configs.contains_key(c) && configs.token_configs[c].token_lock_amount
            > configs.cooldown_configs[c].token_lock_min_amount)) ==> s.set_execution_result(
            configs,
            origin,
            c,
            e,
            started,
            ended,
            current_block,
        ) == (s, Err::<Event, Error>(Error::TokenLockAmountCheckFailed)),
{
}

/// The owner of an existing configuration can assign to it any existing
/// execution that its list does not hold yet, whatever other executions the
/// list holds: the call succeeds, the execution is assigned to the
/// configuration, and the list gains the execution at its end.
pub proof fn law_owner_can_assign_any_new_execution(
    s: ModuleView,
    configs: ConfigurationsView,
    sender: AccountId,
    e: ExecutionIndex,
    c: ConfigurationIndex,
)
    requires
        configs.configurations.contains(c),
        configs.owned_by(c, sender),
        s.executions.contains_key(e),
        !(s.configuration_executions.contains_key(c) && s.configuration_executions[c].contains(e)),
    ensures
        s.assign(configs, Origin::Signed(sender), e, c).1 == Ok::<Event, Error>(
            Event::AssignedTokenMiningExecutionToConfiguration(sender, e, c),
        ),
        s.assign(configs, Origin::Signed(sender), e, c).0.execution_configuration.contains_key(e),
        s.assign(configs, Origin::Signed(sender), e, c).0.execution_configuration[e] == c,
        s.assign(configs, Origin::Signed(sender), e, c).0.configuration_executions[c] == (
        if s.configuration_executions.contains_key(c) {
            s.configuration_executions[c].push(e)
        } else {
            seq![e]
        }),
        s.assign(configs, Origin::Signed(sender), e, c).0.executions == s.executions,
        s.assign(configs, Origin::Signed(sender), e, c).0.owners == s.owners,
{
}

/// Associating an execution with a configuration is refused exactly when the
/// configuration's list already holds it, however long the list is;
/// otherwise the list gains the execution at its end and nothing else
/// changes.
pub proof fn law_associate_refused_only_for_listed(s: ModuleView, e: ExecutionIndex, c: ConfigurationIndex)
    ensures
        s.associate(e, c).1 is Err <==> (s.configuration_executions.contains_key(c)
            && s.configuration_executions[c].contains(e)),
        s.associate(e, c).1 is Err ==> s.associate(e, c).1 == Err::<(), Error>(
            Error::ConfigurationAlreadyContainsExecution,
        ),
        s.associate(e, c).1 is Ok ==> {
            &&& s.associate(e, c).0.configuration_executions == s.configuration_executions.insert(
                c,
                if s.configuration_executions.contains_key(c) {
                    s.configuration_executions[c].push(e)
                } else {
                    seq![e]
                },
            )
            &&& s.associate(e, c).0.executions == s.executions
            &&& s.associate(e, c).0.owners == s.owners
            &&& s.associate(e, c).0.count == s.count
            &&& s.associate(e, c).0.execution_results == s.execution_results
            &&& s.associate(e, c).0.execution_configuration == s.execution_configuration
        },
{
}

/// The start-block check passes exactly when the current block is past the
/// start block of the configuration's lock period, whatever its other
/// settings; a configuration without a token config fails it.
pub proof fn law_started_block_check(configs: ConfigurationsView, c: ConfigurationIndex, current_block: BlockNumber)
    ensures
        !configs.token_configs.contains_key(c) ==> spec_started_block_check(configs, c, current_block)
            == Err::<(), Error>(Error::TokenConfigNotFound),
        configs.token_configs.contains_key(c) ==> (spec_started_block_check(configs, c, current_block) is Ok
            <==> current_block > configs.token_configs[c].token_lock_start_block),
        configs.token_configs.contains_key(c) && current_block <= configs.token_configs[c].token_lock_start_block
            ==> spec_started_block_check(configs, c, current_block) == Err::<(), Error>(
            Error::BeforeLockStartBlock,
        ),
{
}

/// The lock-period check passes exactly when the lock period of the
/// configuration is longer than the minimum of its cooldown config, whatever
/// its other settings; missing configs fail it.
pub proof fn law_lock_interval_check(configs: ConfigurationsView, c: ConfigurationIndex)
    ensures
        !configs.token_configs.contains_key(c) ==> spec_lock_interval_check(configs, c) == Err::<(), Error>(
            Error::TokenConfigNotFound,
        ),
        configs.token_configs.contains_key(c) && !configs.cooldown_configs.contains_key(c)
            ==> spec_lock_interval_check(configs, c) == Err::<(), Error>(Error::CooldownConfigNotFound),
        configs.token_configs.contains_key(c) && configs.cooldown_configs.contains_key(c) ==> (
        spec_lock_interval_check(configs, c) is Ok <==> configs.token_configs[c].token_lock_interval_blocks
            > configs.cooldown_configs[c].token_lock_min_blocks),
        spec_lock_interval_check(configs, c) is Err && configs.token_configs.contains_key(c)
            && configs.cooldown_configs.contains_key(c) ==> spec_lock_interval_check(configs, c) == Err::<
            (),
            Error,
        >(Error::LockIntervalNotLongerThanMinimum),
{
}

/// The locked-amount check passes exactly when the configuration locks more
/// than the minimum amount of its cooldown config, whatever its other
/// settings; missing configs fail it.
pub proof fn law_lock_amount_check(configs: ConfigurationsView, c: ConfigurationIndex)
    ensures
        !configs.token_configs.contains_key(c) ==> spec_lock_amount_check(configs, c) == Err::<(), Error>(
            Error::TokenConfigNotFound,
        ),
        configs.token_configs.contains_key(c) && !configs.cooldown_configs.contains_key(c)
            ==> spec_lock_amount_check(configs, c) == Err::<(), Error>(Error::CooldownConfigNotFound),
        configs.token_configs.contains_key(c) && configs.cooldown_configs.contains_key(c) ==> (
        spec_lock_amount_check(configs, c) is Ok <==> configs.token_configs[c].token_lock_amount
            > configs.cooldown_configs[c].token_lock_min_amount),
        spec_lock_amount_check(configs, c) is Err && configs.token_configs.contains_key(c)
            && configs.cooldown_configs.contains_key(c) ==> spec_lock_amount_check(configs, c) == Err::<
            (),
            Error,
        >(Error::LockAmountNotLargerThanMinimum),
{
}

} // verus!
