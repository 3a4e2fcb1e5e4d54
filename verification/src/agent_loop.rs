//! The agent loop: one turn per request.
//!
//! A [`Turn`] decides what happens next. Each decision is handed to the driver
//! as a [`TurnAction`]; the driver performs it and reports back through the
//! method that the action names. [`Core`] holds the loop's settings.

use vstd::prelude::*;

use crate::callbacks::{CompletionSummary, GateOutcome};
use crate::consts::{
    AbortReason, AgentLoopPhase, CompletionType, ResponseStatus, DEFAULT_REQUEST_Q, DEFAULT_RESPONSE_Q,
    DEFAULT_STACK_SIZE, DEFAULT_TOOL_ITERATIONS, INSERT_QUEUE_LEN, MAX_COMPLETION_OBSERVERS,
    REQUEST_FLAG_SKIP_RESPONSE_QUEUE,
};
use crate::core_state::{
    first_answer, input_texts, law_leading_inputs_are_of_the_session, law_leading_inputs_stop, leading_inputs, CoreState,
};
use crate::errname::{
    esp_err_to_name, esp_name_of, EspErr, ESP_ERR_INVALID_STATE, ESP_ERR_NO_MEM, ESP_FAIL, ESP_OK,
};
use crate::error::{chat_code, chat_error_code, ChatError, CoreError};
use crate::events::{out_message, out_message_if_requested, ClawEvent};
use crate::json::{
    items_view, law_message_has_role_and_content, make_text_message, member, text_message, Json, JsonV,
};
use crate::llm::types::{calls_view, LlmResponse, ToolCallV};
use crate::request::{RequestItem, ResponseItem};
use crate::text::{clone_opt, decimal, decimal_u64, join, joined, opt_view, views};

verus! {

/// Which of the optional parts of the loop are there.
#[derive(Clone, Copy, Debug, PartialEq, Eq, Structural)]
pub struct TurnHooks {
    pub gate: bool,
    pub start: bool,
    pub persist: bool,
    pub stage_note: bool,
    pub call_cap: bool,
}

/// What a turn waits for.
#[derive(Clone, Copy, Debug, PartialEq, Eq, Structural)]
pub enum TurnPoint {
    New,
    Gate,
    Start,
    UserPersist,
    StartContexts,
    InputPersist,
    Context,
    Chat,
    StageNote,
    AssistantMessage,
    Tools,
    ToolPersist,
    Over,
    Concluded,
}

/// What the driver is to do next, and where it reports the result.
#[derive(Debug, PartialEq, Eq)]
pub enum TurnAction {
    /// Ask the request gate; then [`Turn::on_gate`].
    AskGate,
    /// Tell that the request starts; then [`Turn::on_started`].
    NotifyStart,
    /// Persist user messages; then [`Turn::on_user_persisted`] or [`Turn::on_inputs_persisted`].
    PersistUser(Vec<String>),
    /// Collect the contexts that are collected once; then [`Turn::on_start_contexts`].
    CollectStartContexts,
    /// Build the context of an iteration; then [`Turn::on_context`].
    BuildContext { inject_active_user: bool },
    /// Ask the model with that context; then [`Turn::on_chat`].
    Chat,
    /// Collect the note of a round; then [`Turn::on_stage_note`].
    CollectStageNote { round: u32 },
    /// Make the message that carries the model's tool calls; then [`Turn::on_assistant_message`].
    MakeAssistantMessage,
    /// Run the tools that the model asked for; then [`Turn::on_tools`].
    RunTools,
    /// Persist a tool round; then [`Turn::on_tools_persisted`].
    PersistToolRound { raw: String, results: String },
    /// The turn is decided; then [`Turn::conclude`] and [`Turn::finish`].
    Finish,
}

/// What the tools of a round gave: the messages to add, and them printed.
pub struct ToolRound {
    pub messages: Vec<Json>,
    pub results_json: String,
}

/// A turn: a request on its way to a response.
pub struct Turn {
    pub request: RequestItem,
    pub response: ResponseItem,
    pub hooks: TurnHooks,
    pub point: TurnPoint,
    pub user_persisted: bool,
    pub inject_active_user: bool,
    /// Messages that the turn added to the conversation.
    pub messages: Vec<Json>,
    pub iteration: u32,
    pub max_tool_iterations: u32,
    /// Names of the tools that were asked for, in order.
    pub tool_names: Vec<String>,
    /// The last answer of the model as it came.
    pub last_raw: Option<String>,
    /// The text of the last answer of the model.
    pub last_text: Option<String>,
    /// How the turn ended: with a code, and completed or broken off.
    pub err: EspErr,
    pub completed: bool,
}

/// What is left to do at the end of a turn.
pub struct TurnFinish {
    /// The event to publish.
    pub event: Option<ClawEvent>,
    /// Whether the failure is to be persisted.
    pub persist_failure: bool,
    /// Whether the response goes into the response queue.
    pub push_response: bool,
}

/// User messages of some texts.
pub open spec fn user_messages(texts: Seq<Seq<char>>) -> Seq<JsonV> {
    texts.map_values(|t: Seq<char>| text_message("user"@, t))
}

/// The names of tool calls.
pub open spec fn call_names(calls: Seq<ToolCallV>) -> Seq<Seq<char>> {
    calls.map_values(|c: ToolCallV| c.name)
}

impl Turn {
    /// How many user inputs wait for this turn.
    pub open spec fn waiting(self, core: CoreState) -> nat {
        if self.request.session().len() == 0 {
            0
        } else {
            leading_inputs(core.inflight.insert_queue@, self.request.session(), INSERT_QUEUE_LEN as nat)
        }
    }

    /// The texts of the inputs that wait for this turn.
    pub open spec fn waiting_texts(self, core: CoreState) -> Seq<Seq<char>> {
        input_texts(core.inflight.insert_queue@.take(self.waiting(core) as int))
    }

    /// Whether the response answers the request: under its id, where it asks for it.
    pub open spec fn addressed(self) -> bool {
        &&& self.response.request_id == self.request.request_id
        &&& self.response.target_channel == self.request.target_channel
        &&& self.response.target_chat_id == self.request.target_chat_id
    }

    /// Whether the turn has come to its end.
    pub open spec fn over(self) -> bool {
        self.point == TurnPoint::Over || self.point == TurnPoint::Concluded
    }

    /// There is a tool round left, the response answers the request, and until the
    /// turn is over it holds nothing.
    pub open spec fn valid(self) -> bool {
        &&& self.iteration < self.max_tool_iterations
        &&& self.addressed()
        &&& !self.over() ==> {
            &&& self.response.status == ResponseStatus::Error
            &&& self.response.text is None
            &&& self.response.error_message is None
        }
    }

    /// Whether nothing but the messages and what is waited for differs.
    pub open spec fn same_but_messages(self, other: Turn) -> bool {
        self == (Turn { messages: self.messages, point: self.point, ..other })
    }

    /// The turn `new` and the core `core` after the inputs that waited were taken
    /// in: their texts are user messages, and an abort made for them is over.
    pub open spec fn inputs_taken(self, before: CoreState, new: Turn, core: CoreState) -> bool {
        let k = self.waiting(before);
        &&& core.coherent()
        &&& core.same_but_turn(before)
        &&& core.inflight.request_id == before.inflight.request_id
        &&& core.inflight.session_id == before.inflight.session_id
        &&& k <= before.inflight.insert_queue@.len()
        &&& core.inflight.insert_queue@ == before.inflight.insert_queue@.skip(k as int)
        &&& if k > 0 && before.interrupted(self.request.request_id) {
            core.not_aborted()
        } else {
            core.same_abort(before)
        }
        &&& new.same_but_messages(self)
        &&& items_view(new.messages@) == items_view(self.messages@) + user_messages(self.waiting_texts(before))
        &&& k == 0 ==> new.messages == self.messages && core == before.at_phase(core.inflight.phase)
    }

    /// What follows once inputs joined: they are persisted where something
    /// persists, and then, or else at once, a new context is built. Until then the
    /// turn stays in `phase`.
    pub open spec fn restarted(
        self,
        before: CoreState,
        phase: AgentLoopPhase,
        new: Turn,
        core: CoreState,
        action: TurnAction,
    ) -> bool {
        &&& self.inputs_taken(before, new, core)
        &&& if self.waiting(before) > 0 && self.hooks.persist {
            &&& new.point == TurnPoint::InputPersist
            &&& core.inflight.phase == phase
            &&& action matches TurnAction::PersistUser(texts) && views(texts@) == self.waiting_texts(before)
        } else {
            &&& new.point == TurnPoint::Context
            &&& core.inflight.phase == AgentLoopPhase::BuildingIterationContext
            &&& action == (TurnAction::BuildContext { inject_active_user: self.inject_active_user })
        }
    }

    /// The turn is broken off with a code and a message.
    pub open spec fn failed(self, new: Turn, action: TurnAction, err: EspErr, message: Seq<char>) -> bool {
        &&& new == (Turn { response: new.response, point: TurnPoint::Over, err, completed: false, ..self })
        &&& new.response == (ResponseItem { error_message: new.response.error_message, ..self.response })
        &&& opt_view(new.response.error_message) == Some(message)
        &&& action == TurnAction::Finish
    }

    /// The turn is completed with a text.
    pub open spec fn done(self, new: Turn, action: TurnAction, text: Seq<char>) -> bool {
        &&& new == (Turn { response: new.response, point: TurnPoint::Over, err: ESP_OK, completed: true, ..self })
        &&& new.response == (ResponseItem {
            completion_type: CompletionType::Done,
            text: new.response.text,
            error_message: None,
            ..self.response
        })
        &&& opt_view(new.response.text) == Some(text)
        &&& action == TurnAction::Finish
    }

    /// The request gate turned the request away with a text.
    pub open spec fn rejected(self, new: Turn, action: TurnAction, message: Seq<char>) -> bool {
        &&& new == (Turn { response: new.response, point: TurnPoint::Over, err: ESP_OK, completed: false, ..self })
        &&& new.response == (ResponseItem {
            status: ResponseStatus::Success,
            text: new.response.text,
            ..self.response
        })
        &&& opt_view(new.response.text) == Some(message)
        &&& action == TurnAction::Finish
    }

    /// Whether the turn ended with an answer.
    pub open spec fn answered(self) -> bool {
        self.completed && self.response.text is Some
    }

    /// The response is settled.
    pub open spec fn concluded(self, new: Turn) -> bool {
        &&& new == (Turn { response: new.response, point: TurnPoint::Concluded, ..self })
        &&& new.response == (ResponseItem {
            status: if self.answered() {
                ResponseStatus::Success
            } else {
                self.response.status
            },
            error_message: new.response.error_message,
            ..self.response
        })
        &&& opt_view(new.response.error_message) == (if self.completed && !self.answered()
            && self.response.error_message is None {
            Some("ESP_OK"@)
        } else {
            opt_view(self.response.error_message)
        })
    }

    /// The response is given out.
    pub open spec fn finished(self, new: Turn, cancelled: bool) -> bool {
        &&& new == (Turn { response: new.response, ..self })
        &&& new.response == (ResponseItem { error_message: new.response.error_message, ..self.response })
        &&& opt_view(new.response.error_message) == (if cancelled && self.err != ESP_OK
            && self.response.error_message is Some {
            Some("request cancelled"@)
        } else {
            opt_view(self.response.error_message)
        })
    }

    /// A turn for a request.
    pub fn new(request: RequestItem, hooks: TurnHooks, max_tool_iterations: u32) -> (r: Turn)
        requires
            max_tool_iterations > 0,
        ensures
            r.valid(),
            r.request == request,
            r.hooks == hooks,
            r.point == TurnPoint::New,
            r.response.request_id == request.request_id,
            r.response.status == ResponseStatus::Error,
            r.response.target_channel == request.target_channel,
            r.response.target_chat_id == request.target_chat_id,
            r.response.text is None,
            r.response.error_message is None,
            r.inject_active_user,
            !r.user_persisted,
            r.messages@.len() == 0,
            r.tool_names@.len() == 0,
            r.iteration == 0,
            r.max_tool_iterations == max_tool_iterations,
            r.last_raw is None,
            r.last_text is None,
            r.err == ESP_OK,
            !r.completed,
    {
        let response = ResponseItem::pending(&request);
        Turn {
            request,
            response,
            hooks,
            point: TurnPoint::New,
            user_persisted: false,
            inject_active_user: true,
            messages: Vec::new(),
            iteration: 0,
            max_tool_iterations,
            tool_names: Vec::new(),
            last_raw: None,
            last_text: None,
            err: ESP_OK,
            completed: false,
        }
    }

    fn fail(&mut self, err: EspErr, message: String) -> (a: TurnAction)
        ensures
            old(self).failed(*final(self), a, err, message@),
    {
        self.response.error_message = Some(message);
        self.err = err;
        self.completed = false;
        self.point = TurnPoint::Over;
        TurnAction::Finish
    }

    fn fail_with_name(&mut self, err: EspErr) -> (a: TurnAction)
        ensures
            old(self).failed(*final(self), a, err, esp_name_of(err as int)),
    {
        let name = esp_err_to_name(err);
        self.fail(err, name.to_owned())
    }

    fn complete(&mut self) -> (a: TurnAction)
        ensures
            old(self).done(
                *final(self),
                a,
                match old(self).last_text {
                    Some(t) => t@,
                    None => Seq::empty(),
                },
            ),
    {
        let text = match &self.last_text {
            Some(t) => t.clone(),
            None => String::new(),
        };
        self.response.completion_type = CompletionType::Done;
        self.response.error_message = None;
        self.response.text = Some(text);
        self.err = ESP_OK;
        self.completed = true;
        self.point = TurnPoint::Over;
        TurnAction::Finish
    }

    /// Takes in the inputs that wait.
    fn take_inputs(&mut self, core: &mut CoreState) -> (r: Vec<String>)
        requires
            old(core).coherent(),
        ensures
            old(self).inputs_taken(*old(core), *final(self), *final(core)),
            final(core).inflight.phase == old(core).inflight.phase,
            final(self).point == old(self).point,
            views(r@) == old(self).waiting_texts(*old(core)),
            r@.len() == old(self).waiting(*old(core)),
    {
        let ghost q = core.inflight.insert_queue@;
        let texts = core.dequeue_inserted_user_inputs(self.request.session_id_str(), INSERT_QUEUE_LEN);
        proof {
            assert(views(texts@).len() == texts@.len());
        }
        let ghost before = items_view(self.messages@);
        if texts.len() == 0 {
            proof {
                assert(user_messages(views(texts@)) =~= Seq::<JsonV>::empty());
                assert(before + Seq::<JsonV>::empty() =~= before);
            }
            return texts;
        }
        core.clear_user_interrupt_abort(self.request.request_id);
        let ghost start = *self;
        let mut i: usize = 0;
        assert(before + user_messages(views(texts@).take(0)) =~= before);
        while i < texts.len()
            invariant
                i <= texts@.len(),
                self.same_but_messages(start),
                self.point == start.point,
                before == items_view(start.messages@),
                items_view(self.messages@) == before + user_messages(views(texts@).take(i as int)),
            decreases texts@.len() - i,
        {
            let ghost so_far = self.messages@;
            let message = make_text_message("user", texts[i].as_str());
            self.messages.push(message);
            proof {
                let t = views(texts@);
                assert(items_view(self.messages@) =~= items_view(so_far).push(message@));
                assert(t.take(i + 1) =~= t.take(i as int).push(t[i as int]));
                assert(user_messages(t.take(i + 1)) =~= user_messages(t.take(i as int)).push(message@));
                assert((before + user_messages(t.take(i as int))).push(message@) =~= before + user_messages(
                    t.take(i + 1),
                ));
            }
            i = i + 1;
        }
        assert(views(texts@).take(texts@.len() as int) =~= views(texts@));
        texts
    }

    /// Asks for a new context.
    fn build_context(&mut self, core: &mut CoreState) -> (a: TurnAction)
        requires
            old(core).coherent(),
        ensures
            final(core).coherent(),
            *final(core) == old(core).at_phase(AgentLoopPhase::BuildingIterationContext),
            final(self).same_but_messages(*old(self)),
            final(self).messages == old(self).messages,
            final(self).point == TurnPoint::Context,
            a == (TurnAction::BuildContext { inject_active_user: old(self).inject_active_user }),
    {
        core.set_phase(AgentLoopPhase::BuildingIterationContext);
        self.point = TurnPoint::Context;
        TurnAction::BuildContext { inject_active_user: self.inject_active_user }
    }

    /// Goes on once inputs were taken in.
    fn after_inputs(&mut self, core: &mut CoreState, texts: Vec<String>) -> (a: TurnAction)
        requires
            old(core).coherent(),
        ensures
            final(core).coherent(),
            final(self).same_but_messages(*old(self)),
            final(self).messages == old(self).messages,
            if texts@.len() > 0 && old(self).hooks.persist {
                &&& *final(core) == *old(core)
                &&& final(self).point == TurnPoint::InputPersist
                &&& a matches TurnAction::PersistUser(t) && t@ == texts@
            } else {
                &&& *final(core) == old(core).at_phase(AgentLoopPhase::BuildingIterationContext)
                &&& final(self).point == TurnPoint::Context
                &&& a == (TurnAction::BuildContext { inject_active_user: old(self).inject_active_user })
            },
    {
        if texts.len() > 0 && self.hooks.persist {
            self.point = TurnPoint::InputPersist;
            return TurnAction::PersistUser(texts);
        }
        self.build_context(core)
    }

    /// The top of the loop.
    fn iterate(&mut self, core: &mut CoreState) -> (a: TurnAction)
        requires
            old(core).coherent(),
        ensures
            old(self).restarted(
                *old(core),
                AgentLoopPhase::BeforeBuildIterationContext,
                *final(self),
                *final(core),
                a,
            ),
    {
        core.set_phase(AgentLoopPhase::BeforeBuildIterationContext);
        let texts = self.take_inputs(core);
        self.after_inputs(core, texts)
    }

    /// Begins the turn.
    pub fn begin(&mut self, core: &mut CoreState) -> (a: TurnAction)
        requires
            old(self).point == TurnPoint::New,
            old(self).valid(),
            old(core).coherent(),
        ensures
            final(core).coherent(),
            final(core).same_but_turn(*old(core)),
            final(core).inflight.request_id == old(self).request.request_id,
            crate::core_state::kept_session(final(core).inflight.session_id@, old(self).request.session()),
            final(core).inflight.phase == AgentLoopPhase::BeforeBuildIterationContext,
            final(core).inflight.insert_queue@.len() == 0,
            final(core).not_aborted(),
            final(self).valid(),
            final(self).same_but_messages(*old(self)),
            final(self).messages == old(self).messages,
            if old(self).hooks.gate {
                final(self).point == TurnPoint::Gate && a == TurnAction::AskGate
            } else {
                old(self).passed_gate(*final(self), a)
            },
    {
        core.begin_turn(self.request.request_id, self.request.session_id_str());
        if self.hooks.gate {
            self.point = TurnPoint::Gate;
            return TurnAction::AskGate;
        }
        self.pass_gate()
    }

    /// What follows the request gate: the start is told, the user's message persisted and
    /// the contexts collected, as far as there is someone to do it.
    pub open spec fn passed_gate(self, new: Turn, action: TurnAction) -> bool {
        if self.hooks.start {
            new.point == TurnPoint::Start && action == TurnAction::NotifyStart
        } else {
            self.passed_start(new, action)
        }
    }

    /// What follows the start.
    pub open spec fn passed_start(self, new: Turn, action: TurnAction) -> bool {
        if self.hooks.persist {
            &&& new.point == TurnPoint::UserPersist
            &&& action matches TurnAction::PersistUser(texts) && views(texts@) == seq![self.request.user_text@]
        } else {
            new.point == TurnPoint::StartContexts && action == TurnAction::CollectStartContexts
        }
    }

    fn pass_gate(&mut self) -> (a: TurnAction)
        ensures
            old(self).passed_gate(*final(self), a),
            final(self).same_but_messages(*old(self)),
            final(self).messages == old(self).messages,
    {
        if self.hooks.start {
            self.point = TurnPoint::Start;
            return TurnAction::NotifyStart;
        }
        self.pass_start()
    }

    fn pass_start(&mut self) -> (a: TurnAction)
        ensures
            old(self).passed_start(*final(self), a),
            final(self).same_but_messages(*old(self)),
            final(self).messages == old(self).messages,
    {
        if self.hooks.persist {
            let mut texts: Vec<String> = Vec::new();
            texts.push(self.request.user_text.clone());
            assert(views(texts@) =~= seq![self.request.user_text@]);
            self.point = TurnPoint::UserPersist;
            return TurnAction::PersistUser(texts);
        }
        self.point = TurnPoint::StartContexts;
        TurnAction::CollectStartContexts
    }

    /// The request gate has spoken. A rejection is a success with the request gate's text.
    pub fn on_gate(&mut self, outcome: GateOutcome) -> (a: TurnAction)
        requires
            old(self).point == TurnPoint::Gate,
            old(self).valid(),
        ensures
            final(self).valid(),
            match outcome {
                GateOutcome::Allow => old(self).passed_gate(*final(self), a) && final(self).same_but_messages(
                    *old(self),
                ) && final(self).messages == old(self).messages,
                GateOutcome::Reject(message) => old(self).rejected(*final(self), a, message@),
                GateOutcome::Error(err) => old(self).failed(*final(self), a, err, esp_name_of(err as int)),
            },
    {
        match outcome {
            GateOutcome::Allow => self.pass_gate(),
            GateOutcome::Reject(message) => {
                self.response.status = ResponseStatus::Success;
                self.response.text = Some(message);
                self.err = ESP_OK;
                self.completed = false;
                self.point = TurnPoint::Over;
                TurnAction::Finish
            },
            GateOutcome::Error(err) => self.fail_with_name(err),
        }
    }

    /// The start was told; a failure there stops nothing.
    pub fn on_started(&mut self, err: EspErr) -> (a: TurnAction)
        requires
            old(self).point == TurnPoint::Start,
            old(self).valid(),
        ensures
            final(self).valid(),
            old(self).passed_start(*final(self), a),
            final(self).same_but_messages(*old(self)),
            final(self).messages == old(self).messages,
    {
        self.pass_start()
    }

    /// The user's message was persisted, or not; a failure there stops nothing.
    pub fn on_user_persisted(&mut self, result: Result<bool, EspErr>) -> (a: TurnAction)
        requires
            old(self).point == TurnPoint::UserPersist,
            old(self).valid(),
        ensures
            final(self).valid(),
            *final(self) == (Turn {
                point: TurnPoint::StartContexts,
                user_persisted: result == Ok::<bool, EspErr>(true),
                ..*old(self)
            }),
            a == TurnAction::CollectStartContexts,
    {
        self.user_persisted = match result {
            Ok(persisted) => persisted,
            Err(_) => false,
        };
        self.point = TurnPoint::StartContexts;
        TurnAction::CollectStartContexts
    }

    /// The contexts were collected. `have_messages` tells whether they hold
    /// messages; where they do and the user's message was persisted, that message
    /// is among them and is not added again.
    pub fn on_start_contexts(&mut self, core: &mut CoreState, have_messages: Result<bool, EspErr>) -> (a: TurnAction)
        requires
            old(self).point == TurnPoint::StartContexts,
            old(self).valid(),
            old(core).coherent(),
        ensures
            final(self).valid(),
            match have_messages {
                Ok(have) => {
                    let turn = Turn {
                        inject_active_user: old(self).inject_active_user && !(old(self).user_persisted && have),
                        ..*old(self)
                    };
                    turn.restarted(
                        *old(core),
                        AgentLoopPhase::BeforeBuildIterationContext,
                        *final(self),
                        *final(core),
                        a,
                    )
                },
                Err(err) => *final(core) == *old(core) && old(self).failed(
                    *final(self),
                    a,
                    err,
                    esp_name_of(err as int),
                ),
            },
    {
        match have_messages {
            Ok(have) => {
                if self.user_persisted && have {
                    self.inject_active_user = false;
                }
                self.iterate(core)
            },
            Err(err) => self.fail_with_name(err),
        }
    }

    /// Inputs that joined were persisted, or not; a failure there stops nothing.
    pub fn on_inputs_persisted(&mut self, core: &mut CoreState) -> (a: TurnAction)
        requires
            old(self).point == TurnPoint::InputPersist,
            old(self).valid(),
            old(core).coherent(),
        ensures
            final(self).valid(),
            old(self).restarted(
                *old(core),
                AgentLoopPhase::BeforeBuildIterationContext,
                *final(self),
                *final(core),
                a,
            ),
    {
        self.iterate(core)
    }

    /// The context is built. Inputs that joined meanwhile ask for a new one; else
    /// the model is asked.
    pub fn on_context(&mut self, core: &mut CoreState, built: Result<(), EspErr>) -> (a: TurnAction)
        requires
            old(self).point == TurnPoint::Context,
            old(self).valid(),
            old(core).coherent(),
        ensures
            final(self).valid(),
            match built {
                Err(err) => *final(core) == *old(core) && old(self).failed(
                    *final(self),
                    a,
                    err,
                    esp_name_of(err as int),
                ),
                Ok(_) => if old(self).waiting(*old(core)) > 0 {
                    old(self).restarted(*old(core), AgentLoopPhase::BeforeLlmHttp, *final(self), *final(core), a)
                } else {
                    &&& *final(core) == old(core).at_phase(AgentLoopPhase::InLlmHttp)
                    &&& *final(self) == (Turn { point: TurnPoint::Chat, ..*old(self) })
                    &&& a == TurnAction::Chat
                },
            },
    {
        match built {
            Err(err) => self.fail_with_name(err),
            Ok(_) => {
                core.set_phase(AgentLoopPhase::BeforeLlmHttp);
                let texts = self.take_inputs(core);
                if texts.len() > 0 {
                    return self.after_inputs(core, texts);
                }
                core.set_phase(AgentLoopPhase::InLlmHttp);
                self.point = TurnPoint::Chat;
                TurnAction::Chat
            },
        }
    }

    /// The model was asked. A call that was aborted for a user input starts over
    /// with it; another failure ends the turn. An answer without tool calls
    /// completes it. Before tools run, inputs that joined start over.
    pub fn on_chat(&mut self, core: &mut CoreState, reply: Result<LlmResponse, ChatError>) -> (a: TurnAction)
        requires
            old(self).point == TurnPoint::Chat,
            old(self).valid(),
            old(core).coherent(),
        ensures
            final(self).valid(),
            final(core).coherent(),
            match reply {
                Err(e) => if old(core).interrupted(old(self).request.request_id) && old(self).waiting(*old(core))
                    > 0 {
                    old(self).restarted(
                        CoreState {
                            inflight: crate::core_state::Inflight {
                                abort: false,
                                abort_reason: AbortReason::NotAborted,
                                ..old(core).inflight
                            },
                            abort_flag: false,
                            ..*old(core)
                        },
                        old(core).inflight.phase,
                        *final(self),
                        *final(core),
                        a,
                    )
                } else {
                    &&& old(self).failed(*final(self), a, chat_code(e.kind) as i32, e.message@)
                    &&& final(core).same_turn(*old(core))
                    &&& final(core).inflight.insert_queue == old(core).inflight.insert_queue
                    &&& if old(core).interrupted(old(self).request.request_id) {
                        final(core).not_aborted()
                    } else {
                        final(core).same_abort(*old(core))
                    }
                },
                Ok(resp) => {
                    let heard = Turn { last_raw: resp.raw_message_json, last_text: resp.text, ..*old(self) };
                    if resp.tool_calls@.len() == 0 {
                        &&& *final(core) == old(core).at_phase(AgentLoopPhase::Finalizing)
                        &&& if old(self).hooks.stage_note {
                            &&& *final(self) == (Turn { point: TurnPoint::StageNote, ..heard })
                            &&& a == (TurnAction::CollectStageNote { round: old(self).iteration })
                        } else {
                            heard.done(
                                *final(self),
                                a,
                                match resp.text {
                                    Some(t) => t@,
                                    None => Seq::empty(),
                                },
                            )
                        }
                    } else if old(self).waiting(*old(core)) > 0 {
                        heard.restarted(
                            *old(core),
                            AgentLoopPhase::AfterLlmBeforeTool,
                            *final(self),
                            *final(core),
                            a,
                        )
                    } else {
                        &&& *final(core) == old(core).at_phase(AgentLoopPhase::RunningTool)
                        &&& *final(self) == (Turn {
                            tool_names: final(self).tool_names,
                            point: TurnPoint::AssistantMessage,
                            ..heard
                        })
                        &&& views(final(self).tool_names@) == views(old(self).tool_names@) + call_names(
                            calls_view(resp.tool_calls@),
                        )
                        &&& a == TurnAction::MakeAssistantMessage
                    }
                },
            },
    {
        let resp = match reply {
            Ok(resp) => resp,
            Err(e) => {
                if core.take_user_interrupt_http_abort(self.request.request_id) {
                    let texts = self.take_inputs(core);
                    if texts.len() > 0 {
                        return self.after_inputs(core, texts);
                    }
                }
                return self.fail(chat_error_code(e.kind), e.message);
            },
        };
        self.last_raw = resp.raw_message_json;
        self.last_text = resp.text;
        let calls = resp.tool_calls;
        if calls.len() == 0 {
            core.set_phase(AgentLoopPhase::Finalizing);
            if self.hooks.stage_note {
                self.point = TurnPoint::StageNote;
                return TurnAction::CollectStageNote { round: self.iteration };
            }
            return self.complete();
        }
        core.set_phase(AgentLoopPhase::AfterLlmBeforeTool);
        let texts = self.take_inputs(core);
        if texts.len() > 0 {
            return self.after_inputs(core, texts);
        }
        core.set_phase(AgentLoopPhase::RunningTool);
        let ghost names = views(self.tool_names@);
        let ghost before = *self;
        let mut i: usize = 0;
        assert(names + call_names(calls_view(calls@)).take(0) =~= names);
        while i < calls.len()
            invariant
                i <= calls@.len(),
                *self == (Turn { tool_names: self.tool_names, ..before }),
                views(self.tool_names@) == names + call_names(calls_view(calls@)).take(i as int),
            decreases calls@.len() - i,
        {
            let ghost so_far = self.tool_names@;
            let name = calls[i].name.clone();
            self.tool_names.push(name);
            proof {
                let all = call_names(calls_view(calls@));
                assert(views(self.tool_names@) =~= views(so_far).push(name@));
                assert(all.take(i + 1) =~= all.take(i as int).push(all[i as int]));
                assert((names + all.take(i as int)).push(name@) =~= names + all.take(i + 1));
            }
            i = i + 1;
        }
        assert(call_names(calls_view(calls@)).take(calls@.len() as int) =~= call_names(calls_view(calls@)));
        self.point = TurnPoint::AssistantMessage;
        TurnAction::MakeAssistantMessage
    }

    /// The note of the last round was collected, or not; the turn is completed.
    pub fn on_stage_note(&mut self) -> (a: TurnAction)
        requires
            old(self).point == TurnPoint::StageNote,
            old(self).valid(),
        ensures
            final(self).valid(),
            old(self).done(
                *final(self),
                a,
                match old(self).last_text {
                    Some(t) => t@,
                    None => Seq::empty(),
                },
            ),
    {
        self.complete()
    }

    /// The message that carries the tool calls is made and added; then the tools
    /// run, if there is something to run them.
    pub fn on_assistant_message(&mut self, message: Result<Json, EspErr>) -> (a: TurnAction)
        requires
            old(self).point == TurnPoint::AssistantMessage,
            old(self).valid(),
        ensures
            final(self).valid(),
            match message {
                Err(err) => old(self).failed(*final(self), a, err, esp_name_of(err as int)),
                Ok(m) => {
                    let told = Turn { messages: final(self).messages, ..*old(self) };
                    &&& items_view(told.messages@) == items_view(old(self).messages@).push(m@)
                    &&& if old(self).hooks.call_cap {
                        &&& *final(self) == (Turn { point: TurnPoint::Tools, ..told })
                        &&& a == TurnAction::RunTools
                    } else {
                        told.failed(*final(self), a, ESP_ERR_INVALID_STATE, "ESP_ERR_INVALID_STATE"@)
                    }
                },
            },
    {
        match message {
            Err(err) => self.fail_with_name(err),
            Ok(m) => {
                let ghost before = self.messages@;
                self.messages.push(m);
                assert(items_view(self.messages@) =~= items_view(before).push(m@));
                if !self.hooks.call_cap {
                    return self.fail_with_name(ESP_ERR_INVALID_STATE);
                }
                self.point = TurnPoint::Tools;
                TurnAction::RunTools
            },
        }
    }

    /// The next round, if there is one left.
    pub open spec fn next_round(self, before: CoreState, new: Turn, core: CoreState, action: TurnAction) -> bool {
        if self.iteration + 1 >= self.max_tool_iterations {
            &&& core == before
            &&& self.failed(new, action, ESP_ERR_INVALID_STATE, "cap tool iteration limit reached"@)
        } else {
            (Turn { iteration: (self.iteration + 1) as u32, ..self }).restarted(
                before,
                AgentLoopPhase::BeforeBuildIterationContext,
                new,
                core,
                action,
            )
        }
    }

    fn end_round(&mut self, core: &mut CoreState) -> (a: TurnAction)
        requires
            old(self).valid(),
            !old(self).over(),
            old(core).coherent(),
        ensures
            old(self).next_round(*old(core), *final(self), *final(core), a),
            final(self).valid(),
            final(core).coherent(),
    {
        if self.iteration + 1 >= self.max_tool_iterations {
            return self.fail(ESP_ERR_INVALID_STATE, "cap tool iteration limit reached".to_owned());
        }
        self.iteration = self.iteration + 1;
        self.iterate(core)
    }

    /// The tools have run. Their messages are added, and the round is persisted
    /// where something persists and there is something to persist.
    pub fn on_tools(&mut self, core: &mut CoreState, round: Result<ToolRound, EspErr>) -> (a: TurnAction)
        requires
            old(self).point == TurnPoint::Tools,
            old(self).valid(),
            old(core).coherent(),
        ensures
            final(core).coherent(),
            final(self).valid(),
            match round {
                Err(err) => *final(core) == *old(core) && old(self).failed(
                    *final(self),
                    a,
                    err,
                    esp_name_of(err as int),
                ),
                Ok(r) => if old(self).hooks.persist && r.results_json@.len() > 0 && old(self).last_raw is Some {
                    &&& *final(core) == *old(core)
                    &&& *final(self) == (Turn {
                        messages: final(self).messages,
                        point: TurnPoint::ToolPersist,
                        ..*old(self)
                    })
                    &&& items_view(final(self).messages@) == items_view(old(self).messages@) + items_view(
                        r.messages@,
                    )
                    &&& a matches TurnAction::PersistToolRound { raw, results } && Some(raw@) == opt_view(
                        old(self).last_raw,
                    ) && results@ == r.results_json@
                } else {
                    exists|turn: Turn|
                        {
                            &&& turn == (Turn { messages: turn.messages, ..*old(self) })
                            &&& items_view(turn.messages@) == items_view(old(self).messages@) + items_view(
                                r.messages@,
                            )
                            &&& #[trigger] turn.next_round(*old(core), *final(self), *final(core), a)
                        }
                },
            },
    {
        match round {
            Err(err) => self.fail_with_name(err),
            Ok(r) => {
                let ghost before = items_view(self.messages@);
                let ghost added = r.messages@;
                let ghost start = *self;
                let mut messages = r.messages;
                let ghost own = self.messages@;
                self.messages.append(&mut messages);
                assert(items_view(self.messages@) =~= before + items_view(added));
                if self.hooks.persist && !r.results_json.as_str().is_empty() {
                    if let Some(raw) = &self.last_raw {
                        let raw = raw.clone();
                        self.point = TurnPoint::ToolPersist;
                        return TurnAction::PersistToolRound { raw, results: r.results_json };
                    }
                }
                let ghost turn = *self;
                let a = self.end_round(core);
                assert(turn.next_round(*old(core), *self, *core, a));
                a
            },
        }
    }

    /// The round was persisted, or not; a failure there stops nothing.
    pub fn on_tools_persisted(&mut self, core: &mut CoreState) -> (a: TurnAction)
        requires
            old(self).point == TurnPoint::ToolPersist,
            old(self).valid(),
            old(core).coherent(),
        ensures
            old(self).next_round(*old(core), *final(self), *final(core), a),
            final(self).valid(),
            final(core).coherent(),
    {
        self.end_round(core)
    }

    /// Settles the response. A completed turn with a text is a success; tells
    /// whether it is one, so that the answer is persisted and observers are told.
    pub fn conclude(&mut self) -> (r: bool)
        requires
            old(self).point == TurnPoint::Over,
            old(self).valid(),
        ensures
            final(self).valid(),
            r == old(self).answered(),
            old(self).concluded(*final(self)),
    {
        self.point = TurnPoint::Concluded;
        if !self.completed {
            return false;
        }
        if self.response.text.is_some() {
            self.response.status = ResponseStatus::Success;
            return true;
        }
        if self.response.error_message.is_none() {
            self.response.error_message = Some(esp_err_to_name(ESP_OK).to_owned());
        }
        false
    }

    /// Ends the turn. A cancelled turn that failed says so.
    pub fn finish(&mut self, core: &mut CoreState, now: i64, publish: bool) -> (r: TurnFinish)
        requires
            old(self).point == TurnPoint::Concluded,
            old(self).valid(),
            old(core).coherent(),
        ensures
            final(self).valid(),
            final(core).coherent(),
            final(core).same_but_turn(*old(core)),
            final(core).inflight.request_id == 0,
            final(core).inflight.session_id@.len() == 0,
            final(core).inflight.phase == AgentLoopPhase::Idle,
            final(core).inflight.insert_queue@.len() == 0,
            final(core).not_aborted(),
            old(self).finished(*final(self), old(core).inflight.abort_reason == AbortReason::Cancel),
            r.persist_failure == (old(self).err != ESP_OK && old(self).hooks.persist && old(
                self,
            ).request.session().len() > 0 && old(self).request.user_text@.len() > 0),
            r.push_response == (old(self).request.flags & REQUEST_FLAG_SKIP_RESPONSE_QUEUE == 0),
            match r.event {
                Some(e) => publish && out_message(old(self).request, final(self).response, now as int) == Some(e@),
                None => !publish || out_message(old(self).request, final(self).response, now as int) is None,
            },
    {
        core.set_phase(AgentLoopPhase::Finalizing);
        let was_cancelled = core.end_turn();
        if was_cancelled && self.err != ESP_OK && self.response.error_message.is_some() {
            self.response.error_message = Some("request cancelled".to_owned());
        }
        let persist_failure = self.err != ESP_OK && self.hooks.persist && !self.request.session_id_str().is_empty()
            && !self.request.user_text.as_str().is_empty();
        let event = if publish {
            out_message_if_requested(&self.request, &self.response, now)
        } else {
            None
        };
        let push_response = self.request.flags & REQUEST_FLAG_SKIP_RESPONSE_QUEUE == 0;
        TurnFinish { event, persist_failure, push_response }
    }

    /// What observers are told of a completed turn.
    pub fn completion_summary(&self, context_providers_csv: &str) -> (r: CompletionSummary)
        ensures
            r.request_id == self.request.request_id,
            opt_view(r.session_id) == (if self.request.session().len() > 0 {
                Some(self.request.session())
            } else {
                None
            }),
            opt_view(r.final_text) == opt_view(self.response.text),
            r.context_providers_csv@ == context_providers_csv@,
            r.tool_calls_csv@ == joined(views(self.tool_names@), ","@),
    {
        let session = self.request.session_id_str();
        CompletionSummary {
            request_id: self.request.request_id,
            session_id: if session.is_empty() {
                None
            } else {
                Some(session.to_owned())
            },
            final_text: clone_opt(&self.response.text),
            context_providers_csv: context_providers_csv.to_owned(),
            tool_calls_csv: join(&self.tool_names, ","),
        }
    }
}

/// A request that the request gate turned away is answered, under its own id and where
/// it asks for it, with success and the request gate's text, even where the turn was
/// cancelled meanwhile.
pub proof fn law_rejection_is_answered(
    turn: Turn,
    action: TurnAction,
    message: Seq<char>,
    over: Turn,
    settled: Turn,
    given: Turn,
    cancelled: bool,
)
    requires
        turn.valid(),
        !turn.over(),
        turn.rejected(over, action, message),
        over.concluded(settled),
        settled.finished(given, cancelled),
    ensures
        given.response.request_id == turn.request.request_id,
        given.response.target_channel == turn.request.target_channel,
        given.response.target_chat_id == turn.request.target_chat_id,
        given.response.status == ResponseStatus::Success,
        opt_view(given.response.text) == Some(message),
        given.response.error_message is None,
{
}

/// A turn that the model completed is answered, under its own id and where it asks for
/// it, with success and its text.
pub proof fn law_completion_is_answered(
    turn: Turn,
    action: TurnAction,
    text: Seq<char>,
    over: Turn,
    settled: Turn,
    given: Turn,
    cancelled: bool,
)
    requires
        turn.valid(),
        !turn.over(),
        turn.done(over, action, text),
        over.concluded(settled),
        settled.finished(given, cancelled),
    ensures
        given.response.request_id == turn.request.request_id,
        given.response.target_channel == turn.request.target_channel,
        given.response.target_chat_id == turn.request.target_chat_id,
        given.response.status == ResponseStatus::Success,
        opt_view(given.response.text) == Some(text),
        given.response.error_message is None,
{
}

/// A turn that failed, whatever it failed at, is answered under its own id and where
/// it asks for it, with an error and no text: that it was cancelled where it was, and
/// else what went wrong.
pub proof fn law_failure_is_answered(
    turn: Turn,
    action: TurnAction,
    err: EspErr,
    message: Seq<char>,
    over: Turn,
    settled: Turn,
    given: Turn,
    cancelled: bool,
)
    requires
        turn.valid(),
        !turn.over(),
        err != ESP_OK,
        turn.failed(over, action, err, message),
        over.concluded(settled),
        settled.finished(given, cancelled),
    ensures
        given.response.request_id == turn.request.request_id,
        given.response.target_channel == turn.request.target_channel,
        given.response.target_chat_id == turn.request.target_chat_id,
        given.response.status == ResponseStatus::Error,
        given.response.text is None,
        opt_view(given.response.error_message) == Some(
            if cancelled {
                "request cancelled"@
            } else {
                message
            },
        ),
{
}

/// A turn never takes more tool rounds than it may: a round that follows leaves
/// rounds to spend, and after the last one the turn is over.
pub proof fn law_tool_rounds_are_bounded(turn: Turn, before: CoreState, new: Turn, core: CoreState, action: TurnAction)
    requires
        turn.valid(),
        !turn.over(),
        turn.next_round(before, new, core, action),
    ensures
        new.point == TurnPoint::Over || (new.valid() && new.iteration == turn.iteration + 1
            && new.max_tool_iterations == turn.max_tool_iterations),
        turn.iteration + 1 == turn.max_tool_iterations ==> new.point == TurnPoint::Over,
{
}

/// What a turn persists first, where something persists, is one text: the words of its
/// own request. That holds wherever the turn comes to it: at its beginning where nothing
/// decides on it and nothing hears of its start, once it is let in, and once its start
/// was told.
pub proof fn law_own_words_are_persisted(turn: Turn, passed: Turn, action: TurnAction)
    requires
        turn.hooks.persist,
        turn.passed_start(passed, action) || (!turn.hooks.start && turn.passed_gate(passed, action)),
    ensures
        action matches TurnAction::PersistUser(texts) && texts@.len() == 1 && texts@[0]@ == turn.request.user_text@,
        passed.point == TurnPoint::UserPersist,
{
    assert(action is PersistUser);
    let texts = action->PersistUser_0;
    assert(views(texts@).len() == 1);
    assert(views(texts@)[0] == turn.request.user_text@);
    assert(texts@[0]@ == views(texts@)[0]);
}

/// The start of a turn is told, before anything is persisted, exactly where something
/// hears of it; where nothing persists, the contexts of the start are collected next.
pub proof fn law_start_is_told_first(turn: Turn, passed: Turn, action: TurnAction)
    requires
        turn.passed_gate(passed, action),
    ensures
        turn.hooks.start <==> action == TurnAction::NotifyStart,
        turn.hooks.start ==> passed.point == TurnPoint::Start,
        !turn.hooks.start && !turn.hooks.persist ==> action == TurnAction::CollectStartContexts && passed.point
            == TurnPoint::StartContexts,
        !turn.hooks.start ==> (turn.hooks.persist <==> action is PersistUser),
{
}

/// Inputs that waited for a turn join it as user messages, each with its own words and
/// in the order in which they came, behind the messages that the turn had. They are of
/// the turn's own session and no longer wait; what waits behind them still does.
pub proof fn law_waiting_inputs_join_in_order(turn: Turn, before: CoreState, new: Turn, core: CoreState, i: int)
    requires
        turn.inputs_taken(before, new, core),
        0 <= i < turn.waiting(before),
    ensures
        turn.request.session().len() > 0,
        before.inflight.insert_queue@[i].session() == turn.request.session(),
        new.messages@.len() == turn.messages@.len() + turn.waiting(before),
        member(new.messages@[turn.messages@.len() + i]@, "role"@) == Some(JsonV::Str("user"@)),
        member(new.messages@[turn.messages@.len() + i]@, "content"@) == Some(
            JsonV::Str(before.inflight.insert_queue@[i].user_text@),
        ),
        forall|j: int|
            0 <= j < turn.messages@.len() ==> (#[trigger] new.messages@[j])@ == turn.messages@[j]@,
        core.inflight.insert_queue@.len() == before.inflight.insert_queue@.len() - turn.waiting(before),
        forall|j: int|
            0 <= j < core.inflight.insert_queue@.len() ==> #[trigger] core.inflight.insert_queue@[j]
                == before.inflight.insert_queue@[turn.waiting(before) + j],
{
    let queue = before.inflight.insert_queue@;
    let k = turn.waiting(before);
    law_leading_inputs_are_of_the_session(queue, turn.request.session(), INSERT_QUEUE_LEN as nat, i);
    law_message_has_role_and_content("user"@, queue[i].user_text@, "role"@);
    let had = items_view(turn.messages@);
    let came = user_messages(turn.waiting_texts(before));
    assert(turn.waiting_texts(before)[i] == queue[i].user_text@);
    assert(came[i] == text_message("user"@, queue[i].user_text@));
    assert(items_view(new.messages@).len() == new.messages@.len());
    assert(items_view(new.messages@)[had.len() + i] == came[i]);
    assert(new.messages@[had.len() + i]@ == came[i]);
    assert forall|j: int| 0 <= j < turn.messages@.len() implies (#[trigger] new.messages@[j])@
        == turn.messages@[j]@ by {
        assert(items_view(new.messages@)[j] == had[j]);
    }
}

/// Inputs join a turn until none of them is left that came right behind the others for
/// the same session: only room for more ends it earlier.
pub proof fn law_no_input_is_left_behind(turn: Turn, before: CoreState, new: Turn, core: CoreState)
    requires
        turn.inputs_taken(before, new, core),
        turn.request.session().len() > 0,
        core.inflight.insert_queue@.len() > 0,
        core.inflight.insert_queue@[0].session() == turn.request.session(),
    ensures
        turn.waiting(before) == INSERT_QUEUE_LEN,
{
    law_leading_inputs_stop(before.inflight.insert_queue@, turn.request.session(), INSERT_QUEUE_LEN as nat);
}

/// Inputs that joined are persisted, each with its own words and in order, where
/// something persists; else the next context is built. It is built with the user's
/// words where the turn puts them in.
pub proof fn law_joined_inputs_are_persisted(
    turn: Turn,
    before: CoreState,
    phase: AgentLoopPhase,
    new: Turn,
    core: CoreState,
    action: TurnAction,
)
    requires
        turn.restarted(before, phase, new, core, action),
    ensures
        turn.waiting(before) > 0 && turn.hooks.persist <==> action is PersistUser,
        action matches TurnAction::PersistUser(texts) ==> {
            &&& texts@.len() == turn.waiting(before)
            &&& forall|i: int|
                0 <= i < texts@.len() ==> (#[trigger] texts@[i])@ == before.inflight.insert_queue@[i].user_text@
        },
        action !is PersistUser ==> action == (TurnAction::BuildContext {
            inject_active_user: turn.inject_active_user,
        }) && core.inflight.phase == AgentLoopPhase::BuildingIterationContext,
{
    if turn.waiting(before) > 0 && turn.hooks.persist {
        let texts = action->PersistUser_0;
        let queue = before.inflight.insert_queue@;
        assert(views(texts@).len() == texts@.len());
        assert forall|i: int| 0 <= i < texts@.len() implies (#[trigger] texts@[i])@ == queue[i].user_text@ by {
            assert(views(texts@)[i] == turn.waiting_texts(before)[i]);
            assert(queue.take(turn.waiting(before) as int)[i] == queue[i]);
        }
    }
}

/// An answer that arrives with a response says what the turn ended with, and whether it
/// came to its end with an answer: success goes with a text, and an error with none but
/// with what went wrong.
pub proof fn law_turn_ends_in_one_way(turn: Turn, action: TurnAction, over: Turn, err: EspErr, text: Seq<char>)
    requires
        turn.valid(),
        !turn.over(),
    ensures
        turn.failed(over, action, err, text) ==> {
            &&& over.response.status == ResponseStatus::Error
            &&& over.response.text is None
            &&& over.response.error_message is Some
            &&& over.response.error_message->Some_0@ == text
            &&& over.err == err
            &&& !over.completed
            &&& over.point == TurnPoint::Over
            &&& action == TurnAction::Finish
        },
        turn.done(over, action, text) ==> {
            &&& over.response.text is Some
            &&& over.response.text->Some_0@ == text
            &&& over.response.error_message is None
            &&& over.response.completion_type == CompletionType::Done
            &&& over.err == ESP_OK
            &&& over.completed
            &&& over.point == TurnPoint::Over
            &&& action == TurnAction::Finish
        },
        turn.rejected(over, action, text) ==> {
            &&& over.response.status == ResponseStatus::Success
            &&& over.response.text is Some
            &&& over.response.text->Some_0@ == text
            &&& over.response.error_message is None
            &&& over.err == ESP_OK
            &&& !over.completed
            &&& over.point == TurnPoint::Over
            &&& action == TurnAction::Finish
        },
{
}

/// After the last tool round that a turn may take it fails, and says so; before that
/// the next round follows with a new context.
pub proof fn law_last_tool_round_fails_the_turn(
    turn: Turn,
    before: CoreState,
    new: Turn,
    core: CoreState,
    action: TurnAction,
)
    requires
        turn.valid(),
        !turn.over(),
        turn.next_round(before, new, core, action),
    ensures
        turn.iteration + 1 == turn.max_tool_iterations ==> {
            &&& action == TurnAction::Finish
            &&& new.err == ESP_ERR_INVALID_STATE
            &&& new.response.error_message is Some
            &&& new.response.error_message->Some_0@ == "cap tool iteration limit reached"@
            &&& core == before
        },
        turn.iteration + 1 < turn.max_tool_iterations ==> {
            &&& action is BuildContext || action is PersistUser
            &&& new.iteration == turn.iteration + 1
            &&& new.point == TurnPoint::Context || new.point == TurnPoint::InputPersist
        },
{
}

/// The names of the tools that a model asked for are those of its calls, in order.
pub proof fn law_call_names_are_in_order(calls: Seq<ToolCallV>, i: int)
    requires
        0 <= i < calls.len(),
    ensures
        call_names(calls).len() == calls.len(),
        call_names(calls)[i] == calls[i].name,
{
}

/// Settings of the loop as they are asked for; zero asks for the default.
pub struct CoreConfig {
    pub instance_id: u32,
    pub system_prompt: String,
    pub max_tool_iterations: u32,
    pub request_queue_len: u32,
    pub response_queue_len: u32,
    pub max_context_providers: usize,
    pub task_stack_size: u32,
    pub task_priority: u32,
    pub task_core: i32,
}

/// The agent loop: its state, its settings, and who provides contexts and observes completions.
pub struct Core<P, O> {
    pub state: CoreState,
    pub log_tag: String,
    pub system_prompt: String,
    pub providers: Vec<P>,
    pub provider_capacity: usize,
    pub observers: Vec<O>,
    pub task_stack_size: u32,
    pub task_priority: u32,
    pub task_core: i32,
}

/// What starting or stopping the loop asks of the driver.
#[derive(Clone, Copy, Debug, PartialEq, Eq, Structural)]
pub enum LoopControl {
    /// Nothing; this is the result.
    Done(EspErr),
    /// Start the worker.
    Spawn,
    /// Wait for the worker to end.
    Join,
}

impl CoreState {
    /// Whether a loop is told to stop: the turn in flight is cancelled, and where there
    /// is room an empty request wakes the worker.
    pub open spec fn stopping(self, after: CoreState) -> bool {
        let (q, q2) = (self.request_queue, after.request_queue);
        let told = CoreState { stop_requested: true, ..self };
        &&& exists|mid: CoreState, c: Result<(), CoreError>| #[trigger]
            told.cancelled(mid, 0, c) && after == (CoreState { request_queue: q2, ..mid })
        &&& q2.capacity() == q.capacity()
        &&& q2@.len() > 0
        &&& if q.full() {
            q2@ == q@
        } else {
            &&& q2@.len() == q@.len() + 1
            &&& q2@.drop_last() == q@
            &&& q2@.last().user_text@.len() == 0
        }
    }
}

/// A setting, or its default where it is zero.
pub open spec fn or_default(value: u32, default: u32) -> u32 {
    if value > 0 {
        value
    } else {
        default
    }
}

impl<P, O> Core<P, O> {
    /// Whether all but the state is the same.
    pub open spec fn same_setup(self, other: Core<P, O>) -> bool {
        self == (Core { state: self.state, ..other })
    }

    /// A loop with the given settings.
    pub fn create(config: CoreConfig) -> (r: Core<P, O>)
        ensures
            r.state.coherent(),
            r.state.initialized,
            !r.state.started,
            r.state.instance_id == config.instance_id,
            r.state.max_tool_iterations == or_default(config.max_tool_iterations, DEFAULT_TOOL_ITERATIONS),
            r.state.max_tool_iterations > 0,
            r.state.request_queue.capacity() == or_default(config.request_queue_len, DEFAULT_REQUEST_Q),
            r.state.request_queue@.len() == 0,
            r.state.response_queue.capacity() == or_default(config.response_queue_len, DEFAULT_RESPONSE_Q),
            r.state.response_queue@.len() == 0,
            r.log_tag@ == "claw_core_agent_"@ + decimal(config.instance_id as nat),
            r.system_prompt@ == config.system_prompt@,
            r.providers@.len() == 0,
            r.provider_capacity == config.max_context_providers,
            r.observers@.len() == 0,
            r.task_stack_size == or_default(config.task_stack_size, DEFAULT_STACK_SIZE),
            r.task_priority == config.task_priority,
            r.task_core == config.task_core,
    {
        let request_q: u32 = if config.request_queue_len > 0 {
            config.request_queue_len
        } else {
            DEFAULT_REQUEST_Q
        };
        let response_q: u32 = if config.response_queue_len > 0 {
            config.response_queue_len
        } else {
            DEFAULT_RESPONSE_Q
        };
        let max_iter: u32 = if config.max_tool_iterations > 0 {
            config.max_tool_iterations
        } else {
            DEFAULT_TOOL_ITERATIONS
        };
        let mut log_tag = "claw_core_agent_".to_owned();
        log_tag.append(decimal_u64(config.instance_id as u64).as_str());
        Core {
            state: CoreState::new(config.instance_id, request_q as usize, response_q as usize, max_iter),
            log_tag,
            system_prompt: config.system_prompt,
            providers: Vec::new(),
            provider_capacity: config.max_context_providers,
            observers: Vec::new(),
            task_stack_size: if config.task_stack_size > 0 {
                config.task_stack_size
            } else {
                DEFAULT_STACK_SIZE
            },
            task_priority: config.task_priority,
            task_core: config.task_core,
        }
    }

    /// Adds a context provider; only before the loop starts, and only up to the limit.
    pub fn add_context_provider(&mut self, provider: P) -> (r: EspErr)
        ensures
            *final(self) == (Core { providers: final(self).providers, ..*old(self) }),
            r == (if !old(self).state.initialized || old(self).state.started {
                ESP_ERR_INVALID_STATE
            } else if old(self).providers@.len() >= old(self).provider_capacity {
                ESP_ERR_NO_MEM
            } else {
                ESP_OK
            }),
            final(self).providers@ == (if r == ESP_OK {
                old(self).providers@.push(provider)
            } else {
                old(self).providers@
            }),
    {
        if !self.state.initialized || self.state.started {
            return ESP_ERR_INVALID_STATE;
        }
        if self.providers.len() >= self.provider_capacity {
            return ESP_ERR_NO_MEM;
        }
        self.providers.push(provider);
        ESP_OK
    }

    /// Adds a completion observer, up to the limit.
    pub fn add_completion_observer(&mut self, observer: O) -> (r: EspErr)
        ensures
            *final(self) == (Core { observers: final(self).observers, ..*old(self) }),
            r == (if !old(self).state.initialized {
                ESP_ERR_INVALID_STATE
            } else if old(self).observers@.len() >= MAX_COMPLETION_OBSERVERS {
                ESP_ERR_NO_MEM
            } else {
                ESP_OK
            }),
            final(self).observers@ == (if r == ESP_OK {
                old(self).observers@.push(observer)
            } else {
                old(self).observers@
            }),
    {
        if !self.state.initialized {
            return ESP_ERR_INVALID_STATE;
        }
        if self.observers.len() >= MAX_COMPLETION_OBSERVERS {
            return ESP_ERR_NO_MEM;
        }
        self.observers.push(observer);
        ESP_OK
    }

    /// Starts the loop: a loop that runs already is left alone.
    pub fn start(&mut self) -> (r: LoopControl)
        requires
            old(self).state.coherent(),
        ensures
            final(self).state.coherent(),
            final(self).same_setup(*old(self)),
            r == (if !old(self).state.initialized {
                LoopControl::Done(ESP_ERR_INVALID_STATE)
            } else if old(self).state.started {
                LoopControl::Done(ESP_OK)
            } else {
                LoopControl::Spawn
            }),
            final(self).state == (if r == LoopControl::Spawn {
                CoreState { started: true, stop_requested: false, ..old(self).state }
            } else {
                old(self).state
            }),
    {
        if !self.state.initialized {
            return LoopControl::Done(ESP_ERR_INVALID_STATE);
        }
        if self.state.started {
            return LoopControl::Done(ESP_OK);
        }
        self.state.started = true;
        self.state.stop_requested = false;
        LoopControl::Spawn
    }

    /// The worker could not be started.
    pub fn start_failed(&mut self) -> (r: EspErr)
        requires
            old(self).state.coherent(),
        ensures
            final(self).state.coherent(),
            final(self).same_setup(*old(self)),
            final(self).state == (CoreState { started: false, ..old(self).state }),
            r == ESP_FAIL,
    {
        self.state.started = false;
        ESP_FAIL
    }

    /// Stops the loop: the turn in flight is cancelled, and an empty request wakes
    /// a worker that waits for one.
    pub fn stop(&mut self) -> (r: LoopControl)
        requires
            old(self).state.coherent(),
        ensures
            final(self).state.coherent(),
            final(self).same_setup(*old(self)),
            r == (if !old(self).state.initialized {
                LoopControl::Done(ESP_ERR_INVALID_STATE)
            } else if !old(self).state.started {
                LoopControl::Done(ESP_OK)
            } else {
                LoopControl::Join
            }),
            if r == LoopControl::Join {
                old(self).state.stopping(final(self).state)
            } else {
                final(self).state == old(self).state
            },
    {
        if !self.state.initialized {
            return LoopControl::Done(ESP_ERR_INVALID_STATE);
        }
        if !self.state.started {
            return LoopControl::Done(ESP_OK);
        }
        self.state.stop_requested = true;
        let ghost told = self.state;
        let c = self.state.cancel_request(0);
        let ghost mid = self.state;
        let _ = self.state.request_queue.send_timeout(RequestItem::default(), Some(0));
        proof {
            assert(told.cancelled(mid, 0, c));
            if !old(self).state.request_queue.full() {
                assert(self.state.request_queue@.drop_last() =~= old(self).state.request_queue@);
            }
        }
        LoopControl::Join
    }

    /// Whether the worker takes another request.
    pub fn keeps_running(&self) -> (r: bool)
        ensures
            r == !self.state.stop_requested,
    {
        !self.state.stop_requested
    }

    /// The worker has ended.
    pub fn worker_ended(&mut self)
        requires
            old(self).state.coherent(),
        ensures
            final(self).state.coherent(),
            final(self).same_setup(*old(self)),
            final(self).state == (CoreState { started: false, ..old(self).state }),
    {
        self.state.started = false;
    }

    /// Takes a request; see [`CoreState::ingress_submit`].
    pub fn submit(&mut self, request: RequestItem, timeout_ms: u32) -> (r: Result<(), CoreError>)
        requires
            old(self).state.coherent(),
            timeout_ms == u32::MAX && old(self).state.queues(request) ==> !old(self).state.request_queue.full(),
        ensures
            final(self).state.coherent(),
            final(self).same_setup(*old(self)),
            old(self).state.submitted(final(self).state, request, r),
    {
        self.state.ingress_submit(request, timeout_ms)
    }

    /// Takes a response; see [`CoreState::response_receive_for`].
    pub fn receive_for(&mut self, request_id: u32, timeout_ms: u32) -> (r: Result<ResponseItem, EspErr>)
        requires
            old(self).state.coherent(),
            timeout_ms == u32::MAX && old(self).state.started ==> first_answer(
                old(self).state.responses(),
                request_id,
                0,
            ) < old(self).state.responses().len(),
        ensures
            final(self).state.coherent(),
            final(self).same_setup(*old(self)),
            old(self).state.received(final(self).state, request_id, timeout_ms, r),
    {
        self.state.response_receive_for(request_id, timeout_ms)
    }

    /// Cancels a turn; see [`CoreState::cancel_request`].
    pub fn cancel_request(&mut self, request_id: u32) -> (r: Result<(), CoreError>)
        requires
            old(self).state.coherent(),
        ensures
            final(self).state.coherent(),
            final(self).same_setup(*old(self)),
            old(self).state.cancelled(final(self).state, request_id, r),
    {
        self.state.cancel_request(request_id)
    }

    /// The phase of the turn in flight.
    pub fn get_agent_loop_phase(&self) -> (r: AgentLoopPhase)
        ensures
            r == (if self.state.initialized {
                self.state.inflight.phase
            } else {
                AgentLoopPhase::Idle
            }),
    {
        self.state.get_phase()
    }

    /// Whether the worker runs.
    pub fn is_started(&self) -> (r: bool)
        ensures
            r == self.state.started,
    {
        self.state.started
    }
}

/// A loop that is told to stop cancels the turn in flight, if there is one, and is woken:
/// an empty request waits behind the others, unless there is no room, and then one waits
/// already. The others are kept.
pub proof fn law_stopping_cancels_and_wakes(before: CoreState, after: CoreState)
    requires
        before.stopping(after),
        before.initialized,
    ensures
        after.stop_requested,
        after.started == before.started,
        before.inflight.request_id != 0 ==> after.inflight.abort_reason == AbortReason::Cancel && after.abort_flag,
        before.inflight.request_id == 0 ==> after.inflight == before.inflight && after.abort_flag == before.abort_flag,
        after.inflight.request_id == before.inflight.request_id,
        after.request_queue@.len() > 0,
        before.request_queue@.is_prefix_of(after.request_queue@),
        before.request_queue@.len() < before.request_queue.capacity() ==> after.request_queue@.len()
            == before.request_queue@.len() + 1 && after.request_queue@.last().user_text@.len() == 0,
        before.request_queue@.len() >= before.request_queue.capacity() ==> after.request_queue@
            == before.request_queue@,
        after.response_queue == before.response_queue,
{
    let told = CoreState { stop_requested: true, ..before };
    let (mid, c) = choose|mid: CoreState, c: Result<(), CoreError>| #[trigger]
        told.cancelled(mid, 0, c) && after == (CoreState { request_queue: after.request_queue, ..mid });
    assert(told.cancelled(mid, 0, c));
    let (q, q2) = (before.request_queue@, after.request_queue@);
    if before.request_queue@.len() < before.request_queue.capacity() {
        assert(q2 =~= q2.drop_last().push(q2.last()));
    }
}

/// A setting that is given counts, and zero stands for the default.
pub proof fn law_zero_asks_for_the_default(value: u32, default: u32)
    ensures
        value == 0 ==> or_default(value, default) == default,
        value > 0 ==> or_default(value, default) == value,
{
}

/// A response goes where its request wants it, and answers that request.
pub proof fn law_response_is_addressed_like_its_request(turn: Turn)
    requires
        turn.valid(),
    ensures
        turn.response.request_id == turn.request.request_id,
        turn.response.target_channel == turn.request.target_channel,
        turn.response.target_chat_id == turn.request.target_chat_id,
        turn.iteration < turn.max_tool_iterations,
{
}

/// A turn that ends well is a success exactly where there is a text; one that completed
/// without any says so, and nothing else of the response changes.
pub proof fn law_concluding_settles_the_status(turn: Turn, settled: Turn)
    requires
        turn.concluded(settled),
    ensures
        turn.completed && turn.response.text is Some ==> settled.response.status == ResponseStatus::Success,
        !turn.completed || turn.response.text is None ==> settled.response.status == turn.response.status,
        turn.completed && turn.response.text is None && turn.response.error_message is None
            ==> settled.response.error_message is Some && settled.response.error_message->Some_0@ == "ESP_OK"@,
        !turn.completed || turn.response.text is Some ==> opt_view(settled.response.error_message) == opt_view(
            turn.response.error_message,
        ),
        settled.response.text == turn.response.text,
        settled.err == turn.err,
        settled.completed == turn.completed,
        settled.point == TurnPoint::Concluded,
{
}

/// Finishing changes nothing of a turn but what its response says went wrong: that it was
/// cancelled, where it failed and was.
pub proof fn law_finishing_changes_the_error_alone(turn: Turn, given: Turn, cancelled: bool)
    requires
        turn.finished(given, cancelled),
    ensures
        given.request == turn.request,
        given.hooks == turn.hooks,
        given.messages == turn.messages,
        given.err == turn.err,
        given.completed == turn.completed,
        given.point == turn.point,
        given.response.status == turn.response.status,
        given.response.text == turn.response.text,
        given.response.request_id == turn.response.request_id,
        given.response.target_channel == turn.response.target_channel,
        given.response.target_chat_id == turn.response.target_chat_id,
        cancelled && turn.err != ESP_OK && turn.response.error_message is Some
            ==> given.response.error_message is Some && given.response.error_message->Some_0@
            == "request cancelled"@,
        !cancelled || turn.err == ESP_OK || turn.response.error_message is None ==> opt_view(
            given.response.error_message,
        ) == opt_view(turn.response.error_message),
{
}

/// A turn is over where it ended or was concluded, and nowhere else.
pub proof fn law_turn_is_over_at_its_end(turn: Turn)
    ensures
        turn.over() <==> turn.point == TurnPoint::Over || turn.point == TurnPoint::Concluded,
{
}

/// A loop with the same setup has the same prompt, providers, observers and settings.
pub proof fn law_same_setup_keeps_the_settings<P, O>(a: Core<P, O>, b: Core<P, O>)
    requires
        a.same_setup(b),
    ensures
        a.log_tag == b.log_tag,
        a.system_prompt == b.system_prompt,
        a.providers == b.providers,
        a.provider_capacity == b.provider_capacity,
        a.observers == b.observers,
        a.task_stack_size == b.task_stack_size,
        a.task_priority == b.task_priority,
        a.task_core == b.task_core,
{
}

/// A turn that differs in its messages and its point alone has the same request, answer
/// and settings.
pub proof fn law_messages_change_alone(a: Turn, b: Turn)
    requires
        a.same_but_messages(b),
    ensures
        a.request == b.request,
        a.hooks == b.hooks,
        a.response == b.response,
        a.inject_active_user == b.inject_active_user,
        a.user_persisted == b.user_persisted,
        a.tool_names == b.tool_names,
        a.iteration == b.iteration,
        a.max_tool_iterations == b.max_tool_iterations,
        a.last_raw == b.last_raw,
        a.last_text == b.last_text,
        a.err == b.err,
        a.completed == b.completed,
{
}

} // verus!
