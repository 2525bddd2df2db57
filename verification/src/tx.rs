//! Tenant-scoped transactions: every data operation of a tenant runs inside
//! one transaction that first sets the tenant for the row-level security
//! policies, then runs the operation's statements, then commits.
//!
//! The tenant id is bound as a parameter of `set_config(.., .., true)`,
//! whose third argument makes the setting local to the transaction (as
//! `SET LOCAL` would; `SET` itself takes no parameters), so it cannot leak
//! to another tenant's work on the same connection.

use vstd::prelude::*;
use vstd::string::*;
use crate::error::ApiError;
use crate::ids::{uuid_string, uuid_text};

verus! {

/// The statement that sets the tenant of the current transaction.
pub open spec fn set_tenant_sql() -> Seq<char> {
    "SELECT set_config('app.current_tenant', $1, true)"@
}

/// Where a tenant transaction stands.
#[derive(Debug, Clone, Copy, PartialEq, Eq)]
pub enum TxStage {
    /// Waiting for the transaction to open.
    Beginning,
    /// Waiting for the tenant setting.
    SettingTenant,
    /// Waiting for the operation's own statements.
    RunningBody,
    /// Waiting for the commit.
    Committing,
    /// The transaction is over.
    Done,
}

/// What the caller does next for a tenant transaction.
#[derive(Debug)]
pub enum TxAction {
    /// Open a transaction.
    Begin,
    /// Execute `sql` in the transaction with `value` bound to `$1`.
    SetTenant { sql: String, value: String },
    /// Run the operation's statements in the transaction.
    RunBody,
    /// Commit the transaction.
    Commit,
    /// Answer with the operation's result.
    Succeed,
    /// Drop the transaction (rolling it back) and answer with the error.
    Fail(ApiError),
}

/// What came of the last action of a tenant transaction.
#[derive(Debug)]
pub enum TxEvent {
    Begun(Result<(), ApiError>),
    TenantSet(Result<(), ApiError>),
    BodyDone(Result<(), ApiError>),
    Committed(Result<(), ApiError>),
}

/// The mathematical form of a transaction action.
pub enum TxActionSpec {
    Begin,
    SetTenant { sql: Seq<char>, value: Seq<char> },
    RunBody,
    Commit,
    Succeed,
    Fail(ApiError),
}

impl View for TxAction {
    type V = TxActionSpec;

    open spec fn view(&self) -> TxActionSpec {
        match self {
            TxAction::Begin => TxActionSpec::Begin,
            TxAction::SetTenant { sql, value } => TxActionSpec::SetTenant { sql: sql@, value: value@ },
            TxAction::RunBody => TxActionSpec::RunBody,
            TxAction::Commit => TxActionSpec::Commit,
            TxAction::Succeed => TxActionSpec::Succeed,
            TxAction::Fail(e) => TxActionSpec::Fail(*e),
        }
    }
}

/// The event a tenant transaction waits for in each stage.
pub open spec fn tx_expects(stage: TxStage, event: TxEvent) -> bool {
    match stage {
        TxStage::Beginning => event is Begun,
        TxStage::SettingTenant => event is TenantSet,
        TxStage::RunningBody => event is BodyDone,
        TxStage::Committing => event is Committed,
        TxStage::Done => false,
    }
}

/// One transition of a tenant transaction: the next stage and action.
pub open spec fn tx_next(tenant_id: u128, event: TxEvent) -> (TxStage, TxActionSpec) {
    match event {
        TxEvent::Begun(Ok(())) => (
            TxStage::SettingTenant,
            TxActionSpec::SetTenant { sql: set_tenant_sql(), value: uuid_text(tenant_id) },
        ),
        TxEvent::TenantSet(Ok(())) => (TxStage::RunningBody, TxActionSpec::RunBody),
        TxEvent::BodyDone(Ok(())) => (TxStage::Committing, TxActionSpec::Commit),
        TxEvent::Committed(Ok(())) => (TxStage::Done, TxActionSpec::Succeed),
        TxEvent::Begun(Err(e)) => (TxStage::Done, TxActionSpec::Fail(e)),
        TxEvent::TenantSet(Err(e)) => (TxStage::Done, TxActionSpec::Fail(e)),
        TxEvent::BodyDone(Err(e)) => (TxStage::Done, TxActionSpec::Fail(e)),
        TxEvent::Committed(Err(e)) => (TxStage::Done, TxActionSpec::Fail(e)),
    }
}

/// One operation of one tenant, run in its own transaction.
pub struct TenantTransaction {
    tenant_id: u128,
    stage: TxStage,
}

impl TenantTransaction {
    pub closed spec fn tenant(&self) -> u128 {
        self.tenant_id
    }

    pub closed spec fn stage(&self) -> TxStage {
        self.stage
    }

    /// Starts a transaction for a tenant: the first action opens it.
    pub fn start(tenant_id: u128) -> (r: (TenantTransaction, TxAction))
        ensures
            r.0.tenant() == tenant_id,
            r.0.stage() == TxStage::Beginning,
            r.1@ == TxActionSpec::Begin,
    {
        (TenantTransaction { tenant_id, stage: TxStage::Beginning }, TxAction::Begin)
    }

    /// Takes what came of the last action and says what to do next.
    pub fn step(&mut self, event: TxEvent) -> (action: TxAction)
        requires
            tx_expects(old(self).stage(), event),
        ensures
            final(self).tenant() == old(self).tenant(),
            (final(self).stage(), action@) == tx_next(old(self).tenant(), event),
    {
        match event {
            TxEvent::Begun(Ok(())) => {
                self.stage = TxStage::SettingTenant;
                let value = uuid_string(self.tenant_id);
                TxAction::SetTenant { sql: String::from_str("SELECT set_config('app.current_tenant', $1, true)"), value }
            },
            TxEvent::TenantSet(Ok(())) => {
                self.stage = TxStage::RunningBody;
                TxAction::RunBody
            },
            TxEvent::BodyDone(Ok(())) => {
                self.stage = TxStage::Committing;
                TxAction::Commit
            },
            TxEvent::Committed(Ok(())) => {
                self.stage = TxStage::Done;
                TxAction::Succeed
            },
            TxEvent::Begun(Err(e)) => {
                self.stage = TxStage::Done;
                TxAction::Fail(e)
            },
            TxEvent::TenantSet(Err(e)) => {
                self.stage = TxStage::Done;
                TxAction::Fail(e)
            },
            TxEvent::BodyDone(Err(e)) => {
                self.stage = TxStage::Done;
                TxAction::Fail(e)
            },
            TxEvent::Committed(Err(e)) => {
                self.stage = TxStage::Done;
                TxAction::Fail(e)
            },
        }
    }
}

// ---------------------------------------------------------------------------
// Laws of the protocol.

/// The actions of a transaction in which everything succeeds.
pub open spec fn nominal_actions(tenant_id: u128) -> Seq<TxActionSpec> {
    seq![
        TxActionSpec::Begin,
        TxActionSpec::SetTenant { sql: set_tenant_sql(), value: uuid_text(tenant_id) },
        TxActionSpec::RunBody,
        TxActionSpec::Commit,
        TxActionSpec::Succeed,
    ]
}

/// The actions a transaction issues after `stage` for a sequence of events,
/// stopping at the first event it does not wait for.
pub open spec fn tx_run(tenant_id: u128, stage: TxStage, events: Seq<TxEvent>) -> Seq<TxActionSpec>
    decreases events.len(),
{
    if events.len() == 0 || !tx_expects(stage, events[0]) {
        seq![]
    } else {
        let (next, action) = tx_next(tenant_id, events[0]);
        seq![action] + tx_run(tenant_id, next, events.drop_first())
    }
}

/// A sequence of actions follows the protocol: it is a prefix of the
/// successful path, except that its last action may be a failure.
pub open spec fn follows_protocol(tenant_id: u128, actions: Seq<TxActionSpec>) -> bool {
    &&& actions.len() <= 5
    &&& forall|i: int|
        0 <= i < actions.len() ==> (#[trigger] actions[i] == nominal_actions(tenant_id)[i]
            || (actions[i] is Fail && i == actions.len() - 1))
}

/// How many actions of the successful path precede a stage.
pub open spec fn stage_index(stage: TxStage) -> int {
    match stage {
        TxStage::Beginning => 1,
        TxStage::SettingTenant => 2,
        TxStage::RunningBody => 3,
        TxStage::Committing => 4,
        TxStage::Done => 5,
    }
}

proof fn lemma_run_follows(tenant_id: u128, stage: TxStage, events: Seq<TxEvent>)
    requires
        stage != TxStage::Done,
    ensures
        follows_protocol(
            tenant_id,
            nominal_actions(tenant_id).take(stage_index(stage)) + tx_run(tenant_id, stage, events),
        ),
    decreases events.len(),
{
    let n = nominal_actions(tenant_id);
    let k = stage_index(stage);
    if events.len() == 0 || !tx_expects(stage, events[0]) {
        assert(n.take(k) + tx_run(tenant_id, stage, events) =~= n.take(k));
    } else {
        let e = events[0];
        let (next, action) = tx_next(tenant_id, e);
        let rest = events.drop_first();
        if action is Fail {
            assert(next == TxStage::Done);
            assert(tx_run(tenant_id, next, rest) =~= seq![]);
            assert(n.take(k) + tx_run(tenant_id, stage, events) =~= n.take(k).push(action));
        } else {
            assert(action == n[k]);
            assert(n.take(k).push(action) =~= n.take(k + 1));
            if next == TxStage::Done {
                assert(k == 4);
                assert(tx_run(tenant_id, next, rest) =~= seq![]);
                assert(n.take(k) + tx_run(tenant_id, stage, events) =~= n.take(k + 1));
            } else {
                assert(stage_index(next) == k + 1);
                lemma_run_follows(tenant_id, next, rest);
                assert(n.take(k) + tx_run(tenant_id, stage, events) =~= n.take(k + 1) + tx_run(tenant_id, next, rest));
            }
        }
    }
}

/// Whatever the store answers, a tenant transaction opens, sets the
/// tenant's id, runs the operation, commits and succeeds, in that order;
/// it stops with a failure at the first step that fails, and does nothing
/// after it. In particular the operation never runs before the tenant is set.
pub proof fn lemma_transaction_follows_protocol(tenant_id: u128, events: Seq<TxEvent>)
    ensures
        follows_protocol(tenant_id, seq![TxActionSpec::Begin] + tx_run(tenant_id, TxStage::Beginning, events)),
{
    lemma_run_follows(tenant_id, TxStage::Beginning, events);
    assert(nominal_actions(tenant_id).take(1) =~= seq![TxActionSpec::Begin]);
}

/// The operation runs only once the tenant setting has succeeded, and the
/// transaction answers with success only once the commit has succeeded.
pub proof fn lemma_body_and_success_are_guarded(tenant_id: u128, event: TxEvent)
    ensures
        tx_next(tenant_id, event).1 is RunBody <==> event matches TxEvent::TenantSet(Ok(_)),
        tx_next(tenant_id, event).1 is Succeed <==> event matches TxEvent::Committed(Ok(_)),
        tx_next(tenant_id, event).1 is SetTenant ==> tx_next(tenant_id, event).1 == (TxActionSpec::SetTenant {
            sql: set_tenant_sql(),
            value: uuid_text(tenant_id),
        }),
{
}

/// The tenant is set by `set_config` with its third argument `true`, which
/// scopes the setting to the current transaction, and with the tenant's id
/// as the value of its one placeholder.
pub proof fn lemma_tenant_setting_statement()
    ensures
        set_tenant_sql() == "SELECT set_config('app.current_tenant', $1, true)"@,
{
}

} // verus!
