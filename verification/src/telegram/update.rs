//! The client module executor: the dispatcher that distributes updates to modules.
//!
//! The executor decides, and the host acts. For one update, [`ClientModuleExecutor::handle`]
//! gives the deliveries to make, one for each module, and
//! [`ClientModuleExecutor::conclude`] turns what the modules answered into the
//! failures to put on record. For a batch, a [`BatchRun`] takes the updates in
//! the order of arrival and starts the fan-out of one only when the fan-out of
//! the one before is complete.

use vstd::prelude::*;
use std::sync::Arc;
use crate::modules::base::{ActivatedModuleInfo, ModuleError, ModuleMessage};
use crate::utils::share;
use crate::telegram::types::{Message, Update};

verus! {

/// The message for the executor: one update to distribute.
#[derive(Debug, PartialEq, Eq)]
pub struct ClientModuleMessage {
    /// The update event.
    pub update: Update,
}

/// Why an update was not distributed.
#[derive(Debug, PartialEq, Eq)]
pub enum DispatchError {
    /// The update is of a kind that no module takes.
    Unhandled,
}

/// One message to deliver to one module.
#[derive(Debug, PartialEq, Eq)]
pub struct Delivery<H> {
    /// The position of the module in the registry.
    pub module: usize,
    /// The name of the module.
    pub name: &'static str,
    /// What the module receives.
    pub envelope: ModuleMessage<H>,
}

/// The failure of one module on one update.
#[derive(Debug, PartialEq, Eq)]
pub struct Failure {
    /// The position of the module in the registry.
    pub module: usize,
    /// The name of the module.
    pub name: &'static str,
    /// What the module reported.
    pub error: ModuleError,
}

/// The executor that will distribute messages to modules.
pub struct ClientModuleExecutor<H, R> {
    /// The handle of the one connection, which every delivery carries.
    pub client: Arc<H>,
    /// The modules that will be executed, in the order of the registry.
    pub modules: Vec<ActivatedModuleInfo<R>>,
}

/// The message in an update that carries a new message; any other update is
/// unhandled.
pub open spec fn classified(update: Update) -> Result<Message, DispatchError> {
    match update {
        Update::NewMessage(message) => Ok(message),
        Update::Other => Err(DispatchError::Unhandled),
    }
}

/// Classifies an update: only a new message is distributed.
pub fn classify(update: Update) -> (message: Result<Message, DispatchError>)
    ensures
        message == classified(update),
{
    match update {
        Update::NewMessage(message) => Ok(message),
        Update::Other => Err(DispatchError::Unhandled),
    }
}

impl<H, R> ClientModuleExecutor<H, R> {
    /// The delivery of `message` to the module at position `module`.
    pub open spec fn delivery(self, module: int, message: Message) -> Delivery<H> {
        Delivery {
            module: module as usize,
            name: self.modules@[module].name,
            envelope: ModuleMessage { handle: self.client, message: Arc::new(message) },
        }
    }

    /// The deliveries of `message`: one to every module, in the order of the
    /// registry.
    pub open spec fn deliveries(self, message: Message) -> Seq<Delivery<H>> {
        Seq::new(self.modules@.len(), |module: int| self.delivery(module, message))
    }

    /// What the executor does with an update: it delivers a new message to
    /// every module, and rejects anything else without a delivery.
    pub open spec fn fan_out(self, update: Update) -> Result<Seq<Delivery<H>>, DispatchError> {
        match classified(update) {
            Ok(message) => Ok(self.deliveries(message)),
            Err(error) => Err(error),
        }
    }

    /// The failures among the first `upto` of `outcomes`, each under the
    /// module at its position, in the order of the registry. An outcome
    /// without a module at its position counts for nothing.
    pub open spec fn failures_in(
        self,
        outcomes: Seq<Result<(), ModuleError>>,
        upto: int,
    ) -> Seq<Failure>
        decreases upto,
    {
        if upto <= 0 {
            Seq::empty()
        } else {
            let before = self.failures_in(outcomes, upto - 1);
            match outcomes[upto - 1] {
                Err(error) => before.push(
                    Failure {
                        module: (upto - 1) as usize,
                        name: self.modules@[upto - 1].name,
                        error,
                    },
                ),
                Ok(_) => before,
            }
        }
    }

    /// How many of the `outcomes` have a module: all of them, or as many as
    /// there are modules.
    pub open spec fn answered(self, outcomes: Seq<Result<(), ModuleError>>) -> int {
        if outcomes.len() <= self.modules@.len() {
            outcomes.len() as int
        } else {
            self.modules@.len() as int
        }
    }

    /// The failures to put on record when the modules answered with `outcomes`.
    pub open spec fn failures(self, outcomes: Seq<Result<(), ModuleError>>) -> Seq<Failure> {
        self.failures_in(outcomes, self.answered(outcomes))
    }

    /// Takes one update and gives the deliveries to make: a copy of the message
    /// for every module. An update that is no new message is rejected, and
    /// nothing is delivered.
    pub fn handle(&self, msg: ClientModuleMessage) -> (plan: Result<Vec<Delivery<H>>, DispatchError>)
        ensures
            match plan {
                Ok(deliveries) => self.fan_out(msg.update) == Ok::<Seq<Delivery<H>>, DispatchError>(
                    deliveries@,
                ),
                Err(error) => self.fan_out(msg.update) == Err::<Seq<Delivery<H>>, DispatchError>(
                    error,
                ),
            },
    {
        match classify(msg.update) {
            Ok(message) => Ok(self.deliver(&Arc::new(message))),
            Err(error) => Err(error),
        }
    }

    /// Gives the deliveries of `message`: one to every module, in the order of
    /// the registry.
    pub fn deliver(&self, message: &Arc<Message>) -> (deliveries: Vec<Delivery<H>>)
        ensures
            deliveries@ == self.deliveries(**message),
    {
        let mut deliveries: Vec<Delivery<H>> = Vec::new();
        let mut position: usize = 0;
        while position < self.modules.len()
            invariant
                position <= self.modules@.len(),
                deliveries@.len() == position,
                forall|module: int|
                    0 <= module < position ==> deliveries@[module] == self.delivery(
                        module,
                        **message,
                    ),
            decreases self.modules@.len() - position,
        {
            deliveries.push(
                Delivery {
                    module: position,
                    name: self.modules[position].name,
                    envelope: ModuleMessage { handle: share(&self.client), message: share(message) },
                },
            );
            position = position + 1;
        }
        assert(deliveries@ =~= self.deliveries(**message));
        deliveries
    }

    /// Takes what the modules answered to one update, the outcome of each at
    /// the position of its module, and gives the failures to put on record.
    /// The failure of a module changes nothing for the others, and none of
    /// them fails the dispatch.
    pub fn conclude(&self, outcomes: &Vec<Result<(), ModuleError>>) -> (failures: Vec<Failure>)
        ensures
            failures@ == self.failures(outcomes@),
    {
        let mut failures: Vec<Failure> = Vec::new();
        let answered: usize = if outcomes.len() <= self.modules.len() {
            outcomes.len()
        } else {
            self.modules.len()
        };
        let mut position: usize = 0;
        while position < answered
            invariant
                position <= answered,
                answered == self.answered(outcomes@),
                failures@ == self.failures_in(outcomes@, position as int),
            decreases answered - position,
        {
            if let Err(error) = &outcomes[position] {
                failures.push(
                    Failure {
                        module: position,
                        name: self.modules[position].name,
                        error: error.clone(),
                    },
                );
            }
            position = position + 1;
        }
        failures
    }
}

/// How many of the first `upto` updates are new messages: the fan-outs that
/// they ask for.
pub open spec fn fan_outs(updates: Seq<Update>, upto: int) -> int
    decreases upto,
{
    if upto <= 0 {
        0
    } else if updates[upto - 1] is NewMessage {
        fan_outs(updates, upto - 1) + 1
    } else {
        fan_outs(updates, upto - 1)
    }
}

/// How many of the first `upto` updates are rejected.
pub open spec fn rejections(updates: Seq<Update>, upto: int) -> int
    decreases upto,
{
    if upto <= 0 {
        0
    } else if updates[upto - 1] is NewMessage {
        rejections(updates, upto - 1)
    } else {
        rejections(updates, upto - 1) + 1
    }
}

/// A batch of updates on its way through the executor.
#[derive(Debug, PartialEq, Eq)]
pub struct BatchRun {
    /// The updates, in the order of arrival.
    pub updates: Vec<Update>,
    /// How many updates are done with: the position of the next one.
    pub cursor: usize,
    /// Whether the fan-out of the update at `cursor` is under way.
    pub in_flight: bool,
}

/// What the host can do with a batch on its way: ask for the next decision, or
/// report that the deliveries of the fan-out under way are complete.
pub enum HostMove {
    /// A call of [`ClientModuleExecutor::advance`].
    Advance,
    /// A call of [`ClientModuleExecutor::complete`].
    Complete,
}

/// What the executor does next with a batch.
#[derive(Debug, PartialEq, Eq)]
pub enum BatchStep<H> {
    /// The host makes the deliveries for the update at `event`, awaits all of
    /// them, and reports with [`ClientModuleExecutor::complete`].
    FanOut {
        /// The position of the update in the batch.
        event: usize,
        /// The deliveries to make.
        deliveries: Vec<Delivery<H>>,
    },
    /// The update at `event` was rejected; no module is invoked for it.
    Rejected {
        /// The position of the update in the batch.
        event: usize,
        /// Why it was rejected.
        error: DispatchError,
    },
    /// A fan-out is under way; nothing starts before it is complete.
    Busy,
    /// Every update of the batch is done with. The dispatch succeeded.
    Finished,
}

impl BatchRun {
    /// The state is sound: the cursor lies within the batch, and a fan-out can
    /// be under way only for a new message.
    pub open spec fn wf(self) -> bool {
        &&& self.cursor <= self.updates@.len()
        &&& self.in_flight ==> self.cursor < self.updates@.len()
            && self.updates@[self.cursor as int] is NewMessage
    }

    /// Whether every update is done with.
    pub open spec fn finished(self) -> bool {
        self.cursor == self.updates@.len() && !self.in_flight
    }

    /// Whether the next decision starts a fan-out: none is under way, and the
    /// update at the cursor is a new message.
    pub open spec fn starts_fan_out(self) -> bool {
        &&& !self.in_flight
        &&& self.cursor < self.updates@.len()
        &&& self.updates@[self.cursor as int] is NewMessage
    }

    /// The state after the next decision.
    pub open spec fn advanced(self) -> BatchRun {
        if self.in_flight || self.cursor >= self.updates@.len() {
            self
        } else if self.updates@[self.cursor as int] is NewMessage {
            BatchRun { in_flight: true, ..self }
        } else {
            BatchRun { cursor: (self.cursor + 1) as usize, ..self }
        }
    }

    /// The state after the fan-out under way, if there is one, is reported
    /// complete.
    pub open spec fn concluded(self) -> BatchRun {
        if self.in_flight {
            BatchRun { cursor: (self.cursor + 1) as usize, in_flight: false, ..self }
        } else {
            self
        }
    }

    /// The state after a move of the host.
    pub open spec fn after(self, host: HostMove) -> BatchRun {
        match host {
            HostMove::Advance => self.advanced(),
            HostMove::Complete => self.concluded(),
        }
    }

    /// The positions of the updates whose fan-out starts while the host makes
    /// `moves`, in the order in which they start.
    pub open spec fn fan_out_events(self, moves: Seq<HostMove>) -> Seq<int>
        decreases moves.len(),
    {
        if moves.len() == 0 {
            Seq::empty()
        } else {
            let later = self.after(moves[0]).fan_out_events(moves.drop_first());
            if moves[0] is Advance && self.starts_fan_out() {
                seq![self.cursor as int] + later
            } else {
                later
            }
        }
    }

    /// The position of the first update whose fan-out has not started yet.
    pub open spec fn frontier(self) -> int {
        self.cursor + if self.in_flight {
            1int
        } else {
            0int
        }
    }

    /// How many fan-outs have been started.
    pub open spec fn started(self) -> int {
        fan_outs(self.updates@, self.cursor + if self.in_flight { 1int } else { 0int })
    }

    /// How many fan-outs are complete.
    pub open spec fn completed(self) -> int {
        fan_outs(self.updates@, self.cursor as int)
    }

    /// How many updates have been rejected.
    pub open spec fn rejected(self) -> int {
        rejections(self.updates@, self.cursor as int)
    }

    /// A batch of which nothing has been dispatched yet.
    pub fn new(updates: Vec<Update>) -> (run: BatchRun)
        ensures
            run.wf(),
            run.updates == updates,
            run.cursor == 0,
            !run.in_flight,
    {
        BatchRun { updates, cursor: 0, in_flight: false }
    }

    /// Tells whether the state is sound.
    pub fn is_valid(&self) -> (valid: bool)
        ensures
            valid == self.wf(),
    {
        if self.cursor > self.updates.len() {
            return false;
        }
        if !self.in_flight {
            return true;
        }
        if self.cursor == self.updates.len() {
            return false;
        }
        match &self.updates[self.cursor] {
            Update::NewMessage(_) => true,
            Update::Other => false,
        }
    }
}

impl<H, R> ClientModuleExecutor<H, R> {
    /// Takes the next decision on a batch. While a fan-out is under way the
    /// answer is [`BatchStep::Busy`] and nothing changes. Else the update at the
    /// cursor is classified: a new message starts its fan-out, anything else is
    /// rejected and passed over.
    pub fn advance(&self, run: &mut BatchRun) -> (step: BatchStep<H>)
        requires
            old(run).wf(),
        ensures
            final(run).wf(),
            *final(run) == old(run).advanced(),
            step is FanOut <==> old(run).starts_fan_out(),
            match step {
                BatchStep::Busy => old(run).in_flight && *final(run) == *old(run),
                BatchStep::Finished => old(run).finished() && *final(run) == *old(run),
                BatchStep::Rejected { event, error } => {
                    &&& !old(run).in_flight
                    &&& event == old(run).cursor
                    &&& event < old(run).updates@.len()
                    &&& self.fan_out(old(run).updates@[event as int]) == Err::<
                        Seq<Delivery<H>>,
                        DispatchError,
                    >(error)
                    &&& final(run).cursor == event + 1
                    &&& !final(run).in_flight
                    &&& final(run).rejected() == old(run).rejected() + 1
                    &&& final(run).started() == old(run).started()
                },
                BatchStep::FanOut { event, deliveries } => {
                    &&& !old(run).in_flight
                    &&& event == old(run).cursor
                    &&& event < old(run).updates@.len()
                    &&& self.fan_out(old(run).updates@[event as int]) == Ok::<
                        Seq<Delivery<H>>,
                        DispatchError,
                    >(deliveries@)
                    &&& final(run).cursor == event
                    &&& final(run).in_flight
                    &&& final(run).rejected() == old(run).rejected()
                    &&& final(run).started() == old(run).started() + 1
                },
            },
    {
        if run.in_flight {
            return BatchStep::Busy;
        }
        if run.cursor >= run.updates.len() {
            return BatchStep::Finished;
        }
        let event: usize = run.cursor;
        match &run.updates[event] {
            Update::NewMessage(message) => {
                let deliveries = self.deliver(&Arc::new(message.clone()));
                run.in_flight = true;
                BatchStep::FanOut { event, deliveries }
            },
            Update::Other => {
                run.cursor = event + 1;
                BatchStep::Rejected { event, error: DispatchError::Unhandled }
            },
        }
    }

    /// Takes what the modules answered to the fan-out that is under way, and
    /// gives the failures to put on record. The update is then done with,
    /// whatever the modules answered. Without a fan-out under way nothing
    /// changes and nothing is on record.
    pub fn complete(&self, run: &mut BatchRun, outcomes: &Vec<Result<(), ModuleError>>) -> (failures:
        Vec<Failure>)
        requires
            old(run).wf(),
        ensures
            final(run).wf(),
            *final(run) == old(run).concluded(),
            old(run).in_flight ==> {
                &&& final(run).cursor == old(run).cursor + 1
                &&& failures@ == self.failures(outcomes@)
                &&& final(run).completed() == old(run).completed() + 1
                &&& final(run).started() == old(run).started()
                &&& final(run).rejected() == old(run).rejected()
            },
            !old(run).in_flight ==> *final(run) == *old(run) && failures@.len() == 0,
    {
        if !run.in_flight {
            return Vec::new();
        }
        assert(run.cursor < run.updates.len());
        run.in_flight = false;
        run.cursor = run.cursor + 1;
        self.conclude(outcomes)
    }
}

/// Of the first `upto` updates of a batch, each is either fanned out or
/// rejected: the two counts add up to `upto`, so a batch of N updates asks for
/// at most N fan-outs.
pub proof fn law_fan_outs_are_bounded(updates: Seq<Update>, upto: int)
    requires
        0 <= upto <= updates.len(),
    ensures
        0 <= fan_outs(updates, upto) <= upto,
        fan_outs(updates, upto) + rejections(updates, upto) == upto,
    decreases upto,
{
    if upto > 0 {
        law_fan_outs_are_bounded(updates, upto - 1);
    }
}

/// The order of a batch. At any moment of a run at most one fan-out is under
/// way: as many are complete as were started, or one less. The fan-out that is
/// under way, or the next to start, is that of the update at the cursor, and
/// every update before the cursor is done with: fanned out and complete, or
/// rejected. No more fan-outs are started than the batch has updates.
pub proof fn law_fan_outs_are_sequential(run: BatchRun)
    requires
        run.wf(),
    ensures
        run.completed() <= run.started() <= run.completed() + 1,
        run.started() == run.completed() + 1 <==> run.in_flight,
        run.completed() + run.rejected() == run.cursor,
        run.started() <= run.updates@.len(),
{
    law_fan_outs_are_bounded(run.updates@, run.cursor as int);
    if run.in_flight {
        law_fan_outs_are_bounded(run.updates@, run.cursor + 1);
    }
}

/// Fan-outs start in the order of arrival, whatever the host does. From a
/// sound state and under any moves of the host, each fan-out that starts is
/// that of an update that has not been fanned out before, each starts at a
/// later position than the one before it, and so no more start than updates
/// are left: for a fresh batch of N updates, at most N.
pub proof fn law_fan_outs_start_in_order(run: BatchRun, moves: Seq<HostMove>)
    requires
        run.wf(),
    ensures
        run.fan_out_events(moves).len() <= run.updates@.len() - run.frontier(),
        forall|k: int|
            0 <= k < run.fan_out_events(moves).len() ==> run.frontier() <= (
            #[trigger] run.fan_out_events(moves)[k]) < run.updates@.len(),
        forall|j: int, k: int|
            0 <= j < k < run.fan_out_events(moves).len() ==> run.fan_out_events(moves)[j]
                < run.fan_out_events(moves)[k],
    decreases moves.len(),
{
    if moves.len() > 0 {
        assert(run.updates.len() == run.updates@.len());
        let next = run.after(moves[0]);
        let later = next.fan_out_events(moves.drop_first());
        let events = run.fan_out_events(moves);
        assert(next.wf() && next.updates == run.updates);
        assert(run.frontier() <= next.frontier());
        law_fan_outs_start_in_order(next, moves.drop_first());
        if moves[0] is Advance && run.starts_fan_out() {
            assert(events =~= seq![run.cursor as int] + later);
            assert(next.frontier() == run.cursor + 1);
            assert forall|k: int| 0 < k < events.len() implies events[k] == later[k - 1] by {}
        } else {
            assert(events == later);
        }
    }
}

/// No fan-out starts while one is under way: as long as the host does not
/// report the one under way complete, asking again starts nothing.
pub proof fn law_fan_out_waits_for_completion(run: BatchRun, moves: Seq<HostMove>)
    requires
        run.wf(),
        run.in_flight,
        forall|k: int| 0 <= k < moves.len() ==> moves[k] is Advance,
    ensures
        run.fan_out_events(moves).len() == 0,
    decreases moves.len(),
{
    if moves.len() > 0 {
        let rest = moves.drop_first();
        assert(moves[0] is Advance);
        assert forall|k: int| 0 <= k < rest.len() implies rest[k] is Advance by {
            assert(rest[k] == moves[k + 1]);
        }
        law_fan_out_waits_for_completion(run.after(moves[0]), rest);
    }
}

/// An update that is no new message reaches no module: it is rejected as
/// unhandled, whatever the registry holds.
pub proof fn law_unhandled_update_reaches_no_module<H, R>(
    executor: ClientModuleExecutor<H, R>,
    update: Update,
)
    requires
        !(update is NewMessage),
    ensures
        executor.fan_out(update) == Err::<Seq<Delivery<H>>, DispatchError>(DispatchError::Unhandled),
{
}

/// Every module receives a new message: the fan-out holds one delivery for
/// each module of the registry, at the module's position, with the message
/// itself and with the one handle of the connection. The deliveries are fixed before any module has answered, so no
/// failure of one module can keep the message from another.
pub proof fn law_every_module_receives<H, R>(executor: ClientModuleExecutor<H, R>, message: Message)
    ensures
        executor.fan_out(Update::NewMessage(message)) == Ok::<Seq<Delivery<H>>, DispatchError>(
            executor.deliveries(message),
        ),
        executor.deliveries(message).len() == executor.modules@.len(),
        forall|module: int|
            0 <= module < executor.modules@.len() ==> {
                let delivery = #[trigger] executor.deliveries(message)[module];
                &&& delivery.module == module
                &&& delivery.name == executor.modules@[module].name
                &&& *delivery.envelope.message == message
                &&& delivery.envelope.handle == executor.client
            },
{
    assert(executor.modules.len() == executor.modules@.len());
}

/// Each failure on record is true: it belongs to a module of the registry
/// that answered with that error, and it carries that module's name.
pub proof fn law_failure_on_record_is_true<H, R>(
    executor: ClientModuleExecutor<H, R>,
    outcomes: Seq<Result<(), ModuleError>>,
    upto: int,
    k: int,
)
    requires
        0 <= upto <= executor.answered(outcomes),
        0 <= k < executor.failures_in(outcomes, upto).len(),
    ensures
        ({
            let failure = executor.failures_in(outcomes, upto)[k];
            &&& 0 <= failure.module < upto
            &&& outcomes[failure.module as int] == Err::<(), ModuleError>(failure.error)
            &&& failure.name == executor.modules@[failure.module as int].name
        }),
    decreases upto,
{
    assert(executor.modules.len() == executor.modules@.len());
    if upto > 0 {
        let before = executor.failures_in(outcomes, upto - 1);
        if k < before.len() {
            law_failure_on_record_is_true(executor, outcomes, upto - 1, k);
        }
    }
}

/// The failure of a module is on record whatever the other modules answered:
/// a module that answered with an error has a failure under its position.
pub proof fn law_failing_module_is_on_record<H, R>(
    executor: ClientModuleExecutor<H, R>,
    outcomes: Seq<Result<(), ModuleError>>,
    upto: int,
    module: int,
)
    requires
        0 <= module < upto <= executor.answered(outcomes),
        outcomes[module] is Err,
    ensures
        exists|k: int|
            0 <= k < executor.failures_in(outcomes, upto).len() && (
            #[trigger] executor.failures_in(outcomes, upto)[k]).module == module,
    decreases upto,
{
    assert(executor.modules.len() == executor.modules@.len());
    let before = executor.failures_in(outcomes, upto - 1);
    let all = executor.failures_in(outcomes, upto);
    if module == upto - 1 {
        assert(all[all.len() - 1].module == module);
    } else {
        law_failing_module_is_on_record(executor, outcomes, upto - 1, module);
        let k = choose|k: int| 0 <= k < before.len() && (#[trigger] before[k]).module == module;
        assert(all[k] == before[k]);
    }
}

/// The failures on record stand in the order of the registry, and no module
/// has more than one.
pub proof fn law_failures_keep_the_order<H, R>(
    executor: ClientModuleExecutor<H, R>,
    outcomes: Seq<Result<(), ModuleError>>,
    upto: int,
    j: int,
    k: int,
)
    requires
        0 <= upto <= executor.answered(outcomes),
        0 <= j < k < executor.failures_in(outcomes, upto).len(),
    ensures
        executor.failures_in(outcomes, upto)[j].module < executor.failures_in(
            outcomes,
            upto,
        )[k].module,
    decreases upto,
{
    assert(executor.modules.len() == executor.modules@.len());
    if upto > 0 {
        let before = executor.failures_in(outcomes, upto - 1);
        if k < before.len() {
            law_failures_keep_the_order(executor, outcomes, upto - 1, j, k);
        } else {
            law_failure_on_record_is_true(executor, outcomes, upto - 1, j);
        }
    }
}

/// What the main loop does after it has waited for the next batch.
#[derive(Debug, PartialEq, Eq)]
pub enum LoopAction {
    /// Neither a batch nor a cancellation has come: go on waiting.
    Wait,
    /// Dispatch the batch, then wait for the next.
    Dispatch(BatchRun),
    /// Leave the loop; the process ends in good order.
    Stop,
    /// The next batch could not be had; the process cannot go on.
    Abort(String),
}

/// Decides what the main loop does. `cancelled` says whether the operator has
/// interrupted; `polled` is what the wait for the next batch gave, if it has
/// given anything: a batch, the end of the stream, or a failure. Cancellation
/// comes first: a batch that arrived together with it is not dispatched.
pub fn next_action(cancelled: bool, polled: Option<Result<Option<Vec<Update>>, String>>) -> (action:
    LoopAction)
    ensures
        cancelled ==> action == LoopAction::Stop,
        !cancelled ==> match polled {
            None => action == LoopAction::Wait,
            Some(Ok(Some(updates))) => action == LoopAction::Dispatch(
                BatchRun { updates, cursor: 0, in_flight: false },
            ),
            Some(Ok(None)) => action == LoopAction::Stop,
            Some(Err(reason)) => action == LoopAction::Abort(reason),
        },
{
    if cancelled {
        return LoopAction::Stop;
    }
    match polled {
        None => LoopAction::Wait,
        Some(Ok(Some(updates))) => LoopAction::Dispatch(BatchRun::new(updates)),
        Some(Ok(None)) => LoopAction::Stop,
        Some(Err(reason)) => LoopAction::Abort(reason),
    }
}

} // verus!
