//! The pipeline of one run as a state machine: load the recipients, read
//! the template, ask for the ranking, look up as many items as the largest
//! quota asks for, open the mail session, hand each recipient's digest to
//! the transport, close the session. The machine decides; whoever drives
//! it performs each action and reports what came of it.

use crate::config::{AppConfig, AppConfigView};
use crate::fetch::{
    first, gathered, get_postlist, get_posts, lemma_gathered_none_empty, lookup_views, Listing,
    ListingView, Lookup, LookupView,
};
use crate::mail::{
    accepts_address, address_accepted, lemma_prepared, prepare_news, prepared, Envelope,
    EnvelopeView, SendFailure,
};
use crate::post::{post_views, Post, PostView};
use crate::render::{digest, top_posts};
use crate::store::{highest_count, highest_of, lemma_highest_covers, user_views, User, UserView};
use vstd::prelude::*;
use vstd::utf8::encode_utf8;

verus! {

/// How a run ended.
#[derive(Clone, Copy, Debug, PartialEq, Eq, Structural)]
pub enum Terminal {
    /// There are no recipients: nothing to do.
    NoOp,
    /// The recipients could not be read.
    StoreUnreadable,
    /// The template could not be read.
    TemplateUnreadable,
    /// No item could be fetched: nothing to send.
    NoContent,
    /// The sender's address is no mail address: nothing can be sent.
    SenderRejected,
    /// The mail session could not be opened.
    SessionRefused,
    /// Every recipient was attended to.
    Completed,
}

impl Terminal {
    /// Whether the run failed as a whole.
    pub open spec fn is_fatal(self) -> bool {
        self != Terminal::NoOp && self != Terminal::Completed
    }

    /// Whether the run failed as a whole.
    pub fn fatal(&self) -> (fatal: bool)
        ensures
            fatal == self.is_fatal(),
    {
        match self {
            Terminal::NoOp => false,
            Terminal::Completed => false,
            _ => true,
        }
    }
}

/// Where a run stands: what the machine waits for.
#[derive(Clone, Copy, Debug, PartialEq, Eq, Structural)]
pub enum Stage {
    LoadRecipients,
    ReadTemplate,
    ListItems,
    LookUp,
    OpenSession,
    Dispatch,
    CloseSession,
    Finished(Terminal),
}

/// What came of one recipient's digest.
#[derive(Clone, Copy, Debug, PartialEq, Eq, Structural)]
pub enum Outcome {
    /// The transport took the message.
    Sent,
    /// The message was not sent, or the transport did not take it.
    Failed(SendFailure),
}

/// What the driver reports to the machine.
#[derive(Clone, Debug, PartialEq, Eq)]
pub enum Event {
    /// The recipients, in the order of the store.
    RecipientsLoaded(Vec<User>),
    /// The recipients could not be read.
    StoreFailed,
    /// The template's text.
    TemplateRead(String),
    /// The template could not be read.
    TemplateMissing,
    /// The answer of the ranking endpoint.
    Listed(Listing),
    /// The answers of the item endpoint, one for each identifier that was
    /// to be looked up and in the same order.
    LookedUp(Vec<Lookup>),
    /// The mail session is open.
    SessionOpened,
    /// The mail session could not be opened.
    SessionRefused,
    /// The transport took the message.
    Delivered,
    /// The transport did not take the message.
    Refused,
    /// The recipient was passed over, as asked.
    Skipped,
    /// The mail session was closed, or closing it was given up.
    SessionClosed,
}

/// An [`Event`] as contracts see it.
pub enum EventView {
    RecipientsLoaded(Seq<UserView>),
    StoreFailed,
    TemplateRead(Seq<char>),
    TemplateMissing,
    Listed(ListingView),
    LookedUp(Seq<LookupView>),
    SessionOpened,
    SessionRefused,
    Delivered,
    Refused,
    Skipped,
    SessionClosed,
}

impl View for Event {
    type V = EventView;

    open spec fn view(&self) -> EventView {
        match self {
            Event::RecipientsLoaded(users) => EventView::RecipientsLoaded(user_views(users@)),
            Event::StoreFailed => EventView::StoreFailed,
            Event::TemplateRead(template) => EventView::TemplateRead(template@),
            Event::TemplateMissing => EventView::TemplateMissing,
            Event::Listed(listing) => EventView::Listed(listing@),
            Event::LookedUp(lookups) => EventView::LookedUp(lookup_views(lookups@)),
            Event::SessionOpened => EventView::SessionOpened,
            Event::SessionRefused => EventView::SessionRefused,
            Event::Delivered => EventView::Delivered,
            Event::Refused => EventView::Refused,
            Event::Skipped => EventView::Skipped,
            Event::SessionClosed => EventView::SessionClosed,
        }
    }
}

/// What the machine asks the driver to do.
#[derive(Clone, Debug, PartialEq, Eq)]
pub enum Action {
    /// Read the recipients from the store.
    LoadRecipients,
    /// Read the template.
    ReadTemplate,
    /// Ask the ranking endpoint for the ranked identifiers.
    ListItems,
    /// Look up the record of each of these items, in this order.
    LookUp(Vec<u32>),
    /// Open the mail session.
    OpenSession,
    /// Hand this envelope to the transport.
    Deliver(Envelope),
    /// Pass this recipient over: no message can be made for it.
    Skip { recipient: String, failure: SendFailure },
    /// Close the mail session.
    CloseSession,
    /// Stop: the run has ended.
    Finish(Terminal),
}

/// An [`Action`] as contracts see it.
pub enum ActionView {
    LoadRecipients,
    ReadTemplate,
    ListItems,
    LookUp(Seq<u32>),
    OpenSession,
    Deliver(EnvelopeView),
    Skip { recipient: Seq<char>, failure: SendFailure },
    CloseSession,
    Finish(Terminal),
}

impl View for Action {
    type V = ActionView;

    open spec fn view(&self) -> ActionView {
        match self {
            Action::LoadRecipients => ActionView::LoadRecipients,
            Action::ReadTemplate => ActionView::ReadTemplate,
            Action::ListItems => ActionView::ListItems,
            Action::LookUp(ids) => ActionView::LookUp(ids@),
            Action::OpenSession => ActionView::OpenSession,
            Action::Deliver(envelope) => ActionView::Deliver(envelope@),
            Action::Skip { recipient, failure } => ActionView::Skip {
                recipient: recipient@,
                failure: *failure,
            },
            Action::CloseSession => ActionView::CloseSession,
            Action::Finish(terminal) => ActionView::Finish(*terminal),
        }
    }
}

/// The state of one run. Only [`Pipeline::new`] and [`Pipeline::step`]
/// make one, so every state is one that a run reaches.
#[derive(Debug, PartialEq, Eq)]
pub struct Pipeline {
    /// The settings of the run.
    cfg: AppConfig,
    /// What the machine waits for.
    stage: Stage,
    /// The recipients, in the order of the store.
    users: Vec<User>,
    /// The template's text.
    template: String,
    /// The identifiers that are looked up, in ranking order.
    ids: Vec<u32>,
    /// The items of the fetch, in ranking order.
    posts: Vec<Post>,
    /// What came of the recipients attended to so far, in their order.
    outcomes: Vec<Outcome>,
}

/// A [`Pipeline`] as contracts see it.
pub struct PipelineView {
    /// The settings of the run.
    pub cfg: AppConfigView,
    /// What the machine waits for.
    pub stage: Stage,
    /// The recipients, in the order of the store.
    pub users: Seq<UserView>,
    /// The template's text.
    pub template: Seq<char>,
    /// The identifiers that are looked up, in ranking order.
    pub ids: Seq<u32>,
    /// The items of the fetch, in ranking order.
    pub posts: Seq<PostView>,
    /// What came of the recipients attended to so far, in their order.
    pub outcomes: Seq<Outcome>,
}

impl View for Pipeline {
    type V = PipelineView;

    closed spec fn view(&self) -> PipelineView {
        PipelineView {
            cfg: self.cfg@,
            stage: self.stage,
            users: user_views(self.users@),
            template: self.template@,
            ids: self.ids@,
            posts: post_views(self.posts@),
            outcomes: self.outcomes@,
        }
    }
}

impl PipelineView {
    /// The state of a run that has not begun.
    pub open spec fn start(cfg: AppConfigView) -> PipelineView {
        PipelineView {
            cfg,
            stage: Stage::LoadRecipients,
            users: Seq::empty(),
            template: Seq::empty(),
            ids: Seq::empty(),
            posts: Seq::empty(),
            outcomes: Seq::empty(),
        }
    }

    /// The items of the recipient `i`: the first ones of the fetch, as many
    /// as the recipient's quota says, or all where there are fewer.
    pub open spec fn items_of(self, i: int) -> Seq<PostView> {
        first(self.posts, self.users[i].count)
    }

    /// What is asked for the recipient `i`: to deliver the envelope with
    /// the recipient's digest, or to pass the recipient over.
    pub open spec fn dispatch(self, i: int) -> ActionView {
        match prepared(self.users[i].email, self.items_of(i), self.template, self.cfg) {
            Ok(envelope) => ActionView::Deliver(envelope),
            Err(failure) => ActionView::Skip { recipient: self.users[i].email, failure },
        }
    }

    /// What is asked for the recipient in turn.
    pub open spec fn pending(self) -> ActionView {
        self.dispatch(self.outcomes.len() as int)
    }

    /// The recorded outcomes fit the recipients: a recipient was passed
    /// over exactly if its address is no mail address, and no outcome
    /// blames the sender.
    pub open spec fn outcomes_fit(self) -> bool {
        &&& self.outcomes.len() <= self.users.len()
        &&& forall|i: int|
            0 <= i < self.outcomes.len() ==> {
                &&& (#[trigger] self.outcomes[i] == Outcome::Failed(SendFailure::InvalidRecipient))
                    == !address_accepted(self.users[i].email)
                &&& self.outcomes[i] != Outcome::Failed(SendFailure::InvalidSender)
            }
    }

    /// The fetch is over and brought something to send: at least one item
    /// and none that is empty, no more items than identifiers were looked
    /// up, and no more of these than the largest quota.
    pub open spec fn fetched(self) -> bool {
        &&& self.users.len() > 0
        &&& 0 < self.posts.len() <= self.ids.len() <= highest_of(self.users)
        &&& forall|i: int| 0 <= i < self.posts.len() ==> !(#[trigger] self.posts[i]).is_empty()
        &&& address_accepted(self.cfg.email_user)
    }

    /// What holds of every state that a run reaches.
    pub open spec fn wf(self) -> bool {
        match self.stage {
            Stage::LoadRecipients => {
                &&& self.users.len() == 0
                &&& self.ids.len() == 0
                &&& self.posts.len() == 0
                &&& self.outcomes.len() == 0
            },
            Stage::ReadTemplate | Stage::ListItems => {
                &&& self.users.len() > 0
                &&& self.ids.len() == 0
                &&& self.posts.len() == 0
                &&& self.outcomes.len() == 0
            },
            Stage::LookUp => {
                &&& self.users.len() > 0
                &&& 0 < self.ids.len() <= highest_of(self.users)
                &&& self.posts.len() == 0
                &&& self.outcomes.len() == 0
            },
            Stage::OpenSession => self.fetched() && self.outcomes.len() == 0,
            Stage::Dispatch => {
                &&& self.fetched()
                &&& self.outcomes.len() < self.users.len()
                &&& self.outcomes_fit()
            },
            Stage::CloseSession | Stage::Finished(Terminal::Completed) => {
                &&& self.fetched()
                &&& self.outcomes.len() == self.users.len()
                &&& self.outcomes_fit()
            },
            Stage::Finished(_) => self.outcomes.len() == 0,
        }
    }

    /// What the machine asks for in this state.
    pub open spec fn request(self) -> ActionView {
        match self.stage {
            Stage::LoadRecipients => ActionView::LoadRecipients,
            Stage::ReadTemplate => ActionView::ReadTemplate,
            Stage::ListItems => ActionView::ListItems,
            Stage::LookUp => ActionView::LookUp(self.ids),
            Stage::OpenSession => ActionView::OpenSession,
            Stage::Dispatch => self.pending(),
            Stage::CloseSession => ActionView::CloseSession,
            Stage::Finished(terminal) => ActionView::Finish(terminal),
        }
    }

    /// Whether `event` answers what the machine asks for.
    pub open spec fn accepts(self, event: EventView) -> bool {
        match self.stage {
            Stage::LoadRecipients => event is RecipientsLoaded || event is StoreFailed,
            Stage::ReadTemplate => event is TemplateRead || event is TemplateMissing,
            Stage::ListItems => event is Listed,
            Stage::LookUp => event is LookedUp && event->LookedUp_0.len() == self.ids.len(),
            Stage::OpenSession => event is SessionOpened || event is SessionRefused,
            Stage::Dispatch => if self.pending() is Deliver {
                event is Delivered || event is Refused
            } else {
                event is Skipped
            },
            Stage::CloseSession => event is SessionClosed,
            Stage::Finished(_) => false,
        }
    }

    /// This state at another stage.
    pub open spec fn at(self, stage: Stage) -> PipelineView {
        PipelineView { stage, ..self }
    }

    /// The state after the ranking endpoint answered: the first
    /// identifiers of the ranking are to be looked up, as many as the
    /// largest quota says; without any, the run has nothing to send.
    pub open spec fn listed(self, listing: ListingView) -> PipelineView {
        let ids = first(listing.ids(), highest_of(self.users));
        if ids.len() == 0 {
            self.at(Stage::Finished(Terminal::NoContent))
        } else {
            PipelineView { stage: Stage::LookUp, ids, ..self }
        }
    }

    /// The state after the items were looked up: without any item the run
    /// has nothing to send, and without a sender it cannot send.
    pub open spec fn looked_up(self, lookups: Seq<LookupView>) -> PipelineView {
        let posts = gathered(lookups);
        if posts.len() == 0 {
            self.at(Stage::Finished(Terminal::NoContent))
        } else if !address_accepted(self.cfg.email_user) {
            self.at(Stage::Finished(Terminal::SenderRejected))
        } else {
            PipelineView { stage: Stage::OpenSession, posts, ..self }
        }
    }

    /// The state after the recipient in turn was attended to with
    /// `outcome`: the next recipient's turn, or the end of the session
    /// after the last one.
    pub open spec fn attended(self, outcome: Outcome) -> PipelineView {
        let outcomes = self.outcomes.push(outcome);
        if outcomes.len() < self.users.len() {
            PipelineView { outcomes, ..self }
        } else {
            PipelineView { stage: Stage::CloseSession, outcomes, ..self }
        }
    }

    /// The state after `event`. An event that does not answer what the
    /// machine asks for leaves the state as it is.
    pub open spec fn after(self, event: EventView) -> PipelineView {
        if !self.accepts(event) {
            self
        } else {
            match (self.stage, event) {
                (Stage::LoadRecipients, EventView::RecipientsLoaded(users)) => if users.len() == 0 {
                    self.at(Stage::Finished(Terminal::NoOp))
                } else {
                    PipelineView { stage: Stage::ReadTemplate, users, ..self }
                },
                (Stage::LoadRecipients, _) => self.at(Stage::Finished(Terminal::StoreUnreadable)),
                (Stage::ReadTemplate, EventView::TemplateRead(template)) => PipelineView {
                    stage: Stage::ListItems,
                    template,
                    ..self
                },
                (Stage::ReadTemplate, _) => self.at(Stage::Finished(Terminal::TemplateUnreadable)),
                (Stage::ListItems, EventView::Listed(listing)) => self.listed(listing),
                (Stage::LookUp, EventView::LookedUp(lookups)) => self.looked_up(lookups),
                (Stage::OpenSession, EventView::SessionOpened) => self.at(Stage::Dispatch),
                (Stage::OpenSession, _) => self.at(Stage::Finished(Terminal::SessionRefused)),
                (Stage::Dispatch, EventView::Delivered) => self.attended(Outcome::Sent),
                (Stage::Dispatch, EventView::Refused) => self.attended(
                    Outcome::Failed(SendFailure::Transport),
                ),
                (Stage::Dispatch, _) => self.attended(
                    Outcome::Failed(SendFailure::InvalidRecipient),
                ),
                (Stage::CloseSession, _) => self.at(Stage::Finished(Terminal::Completed)),
                (_, _) => self,
            }
        }
    }
}

impl Pipeline {
    /// Every state is one that a run reaches.
    #[verifier::type_invariant]
    closed spec fn reached(self) -> bool {
        self@.wf()
    }

    /// A run that has not begun.
    pub fn new(cfg: AppConfig) -> (pipeline: Pipeline)
        ensures
            pipeline@ == PipelineView::start(cfg@),
            pipeline@.wf(),
    {
        let users: Vec<User> = Vec::new();
        let posts: Vec<Post> = Vec::new();
        proof {
            assert(user_views(users@) =~= Seq::<UserView>::empty());
            assert(post_views(posts@) =~= Seq::<PostView>::empty());
        }
        Pipeline {
            cfg,
            stage: Stage::LoadRecipients,
            users,
            template: String::new(),
            ids: Vec::new(),
            posts,
            outcomes: Vec::new(),
        }
    }

    /// What the machine waits for.
    pub fn stage(&self) -> (stage: Stage)
        ensures
            stage == self@.stage,
    {
        self.stage
    }

    /// The recipients, in the order of the store.
    pub fn users(&self) -> (users: &Vec<User>)
        ensures
            user_views(users@) == self@.users,
    {
        &self.users
    }

    /// The identifiers that are looked up, in ranking order.
    pub fn ids(&self) -> (ids: &Vec<u32>)
        ensures
            ids@ == self@.ids,
    {
        &self.ids
    }

    /// The items of the fetch, in ranking order.
    pub fn posts(&self) -> (posts: &Vec<Post>)
        ensures
            post_views(posts@) == self@.posts,
    {
        &self.posts
    }

    /// What came of the recipients attended to so far, in their order.
    pub fn outcomes(&self) -> (outcomes: &Vec<Outcome>)
        ensures
            outcomes@ == self@.outcomes,
    {
        &self.outcomes
    }

    /// What is asked for the recipient in turn.
    fn turn(&self) -> (action: Action)
        requires
            self.outcomes@.len() < self.users@.len(),
        ensures
            action@ == self@.pending(),
    {
        let user = &self.users[self.outcomes.len()];
        let top = top_posts(&self.posts, user.count);
        match prepare_news(user.email.as_str(), top, self.template.as_str(), &self.cfg) {
            Ok(envelope) => Action::Deliver(envelope),
            Err(failure) => Action::Skip { recipient: user.email.clone(), failure },
        }
    }

    /// What the machine asks for in this state.
    pub fn request(&self) -> (action: Action)
        ensures
            action@ == self@.request(),
    {
        proof {
            use_type_invariant(self);
        }
        match self.stage {
            Stage::LoadRecipients => Action::LoadRecipients,
            Stage::ReadTemplate => Action::ReadTemplate,
            Stage::ListItems => Action::ListItems,
            Stage::LookUp => {
                let ids = self.ids.clone();
                assert(ids@ =~= self.ids@);
                Action::LookUp(ids)
            },
            Stage::OpenSession => Action::OpenSession,
            Stage::Dispatch => self.turn(),
            Stage::CloseSession => Action::CloseSession,
            Stage::Finished(terminal) => Action::Finish(terminal),
        }
    }

    /// Whether the recipient in turn gets a message.
    fn delivers(&self) -> (delivers: bool)
        requires
            self.stage == Stage::Dispatch,
        ensures
            delivers == self@.pending() is Deliver,
    {
        proof {
            use_type_invariant(self);
            let i = self.outcomes@.len() as int;
            lemma_prepared(self@.users[i].email, self@.items_of(i), self@.template, self@.cfg);
        }
        accepts_address(self.users[self.outcomes.len()].email.as_str())
    }

    /// The outcome that `event` reports of the recipient in turn, if it
    /// answers what was asked for.
    fn outcome_of(&self, event: &Event) -> (outcome: Option<Outcome>)
        requires
            self.stage == Stage::Dispatch,
        ensures
            outcome is Some == self@.accepts(event@),
            outcome is Some ==> self@.after(event@) == self@.attended(outcome->0),
    {
        let delivers = self.delivers();
        match event {
            Event::Delivered => if delivers {
                Some(Outcome::Sent)
            } else {
                None
            },
            Event::Refused => if delivers {
                Some(Outcome::Failed(SendFailure::Transport))
            } else {
                None
            },
            Event::Skipped => if delivers {
                None
            } else {
                Some(Outcome::Failed(SendFailure::InvalidRecipient))
            },
            _ => None,
        }
    }

    /// The state after the driver's report, and what to do next. A report
    /// that does not answer what was asked for changes nothing, and the
    /// machine asks again.
    pub fn step(self, event: Event) -> (res: (Pipeline, Action))
        ensures
            res.0@ == self@.after(event@),
            res.0@.wf(),
            res.1@ == res.0@.request(),
    {
        proof {
            use_type_invariant(&self);
            lemma_after_wf(self@, event@);
        }
        let next = match self.stage {
            Stage::LoadRecipients => match event {
                Event::RecipientsLoaded(users) => {
                    if users.len() == 0 {
                        Pipeline { stage: Stage::Finished(Terminal::NoOp), ..self }
                    } else {
                        Pipeline { stage: Stage::ReadTemplate, users, ..self }
                    }
                },
                Event::StoreFailed => Pipeline {
                    stage: Stage::Finished(Terminal::StoreUnreadable),
                    ..self
                },
                _ => self,
            },
            Stage::ReadTemplate => match event {
                Event::TemplateRead(template) => Pipeline {
                    stage: Stage::ListItems,
                    template,
                    ..self
                },
                Event::TemplateMissing => Pipeline {
                    stage: Stage::Finished(Terminal::TemplateUnreadable),
                    ..self
                },
                _ => self,
            },
            Stage::ListItems => match event {
                Event::Listed(listing) => {
                    let ids = get_postlist(listing, highest_count(&self.users));
                    if ids.len() == 0 {
                        Pipeline { stage: Stage::Finished(Terminal::NoContent), ..self }
                    } else {
                        Pipeline { stage: Stage::LookUp, ids, ..self }
                    }
                },
                _ => self,
            },
            Stage::LookUp => match event {
                Event::LookedUp(lookups) => {
                    if lookups.len() != self.ids.len() {
                        self
                    } else {
                        let posts = get_posts(lookups);
                        if posts.len() == 0 {
                            Pipeline { stage: Stage::Finished(Terminal::NoContent), ..self }
                        } else if !accepts_address(self.cfg.email_user.as_str()) {
                            Pipeline { stage: Stage::Finished(Terminal::SenderRejected), ..self }
                        } else {
                            Pipeline { stage: Stage::OpenSession, posts, ..self }
                        }
                    }
                },
                _ => self,
            },
            Stage::OpenSession => match event {
                Event::SessionOpened => Pipeline { stage: Stage::Dispatch, ..self },
                Event::SessionRefused => Pipeline {
                    stage: Stage::Finished(Terminal::SessionRefused),
                    ..self
                },
                _ => self,
            },
            Stage::Dispatch => match self.outcome_of(&event) {
                Some(outcome) => {
                    let total = self.users.len();
                    let more = self.outcomes.len() + 1 < total;
                    let mut outcomes = self.outcomes;
                    outcomes.push(outcome);
                    let stage = if more {
                        Stage::Dispatch
                    } else {
                        Stage::CloseSession
                    };
                    Pipeline { stage, outcomes, ..self }
                },
                None => self,
            },
            Stage::CloseSession => match event {
                Event::SessionClosed => Pipeline {
                    stage: Stage::Finished(Terminal::Completed),
                    ..self
                },
                _ => self,
            },
            Stage::Finished(_) => self,
        };
        let action = next.request();
        (next, action)
    }
}

/// Every step of a run keeps what holds of every state.
pub proof fn lemma_after_wf(state: PipelineView, event: EventView)
    requires
        state.wf(),
    ensures
        state.after(event).wf(),
{
    if state.accepts(event) {
        match state.stage {
            Stage::LookUp => {
                lemma_gathered_none_empty(event->LookedUp_0);
            },
            Stage::Dispatch => {
                let i = state.outcomes.len() as int;
                let outcome = match event {
                    EventView::Delivered => Outcome::Sent,
                    EventView::Refused => Outcome::Failed(SendFailure::Transport),
                    _ => Outcome::Failed(SendFailure::InvalidRecipient),
                };
                let next = state.attended(outcome);
                assert(state.after(event) == next);
                assert(next.outcomes == state.outcomes.push(outcome));
                assert(next.users == state.users);
                lemma_prepared(state.users[i].email, state.items_of(i), state.template, state.cfg);
                assert((outcome == Outcome::Failed(SendFailure::InvalidRecipient))
                    == !address_accepted(state.users[i].email));
                assert forall|k: int| 0 <= k < next.outcomes.len() implies {
                    &&& (#[trigger] next.outcomes[k] == Outcome::Failed(
                        SendFailure::InvalidRecipient,
                    )) == !address_accepted(next.users[k].email)
                    &&& next.outcomes[k] != Outcome::Failed(SendFailure::InvalidSender)
                } by {
                    if k < i {
                        assert(next.outcomes[k] == state.outcomes[k]);
                    } else {
                        assert(next.outcomes[k] == outcome);
                    }
                }
                assert(next.outcomes_fit());
            },
            _ => {},
        }
    }
}

/// The state of a run with the settings `cfg` after the driver made the
/// reports `events`, in this order.
pub open spec fn run(cfg: AppConfigView, events: Seq<EventView>) -> PipelineView
    decreases events.len(),
{
    if events.len() == 0 {
        PipelineView::start(cfg)
    } else {
        run(cfg, events.drop_last()).after(events.last())
    }
}

/// Whatever the driver reports, and in whatever order, the run stays in a
/// state of which [`PipelineView::wf`] holds.
pub proof fn lemma_run_wf(cfg: AppConfigView, events: Seq<EventView>)
    ensures
        run(cfg, events).wf(),
    decreases events.len(),
{
    if events.len() > 0 {
        lemma_run_wf(cfg, events.drop_last());
        lemma_after_wf(run(cfg, events.drop_last()), events.last());
    }
}

/// A run that has ended stays as it is, whatever is reported, and asks
/// for nothing but to stop. Unless it ended with every recipient attended
/// to, no recipient was attended to at all.
pub proof fn lemma_finished_is_final(state: PipelineView, event: EventView)
    requires
        state.wf(),
        state.stage is Finished,
    ensures
        state.after(event) == state,
        state.request() == ActionView::Finish(state.stage->Finished_0),
        state.stage != Stage::Finished(Terminal::Completed) ==> state.outcomes.len() == 0,
{
}

/// A message is asked for only while the recipients are attended to, and
/// then only one that is fit for the transport.
pub proof fn lemma_deliver_only_in_dispatch(state: PipelineView)
    requires
        state.wf(),
        state.request() is Deliver,
    ensures
        state.stage == Stage::Dispatch,
        state.request()->Deliver_0.wf(),
{
    let i = state.outcomes.len() as int;
    lemma_prepared(state.users[i].email, state.items_of(i), state.template, state.cfg);
}

/// A ranking without identifiers ends the run at once, as a failure: no
/// item is looked up, no message was asked for before, and none is asked
/// for afterwards.
pub proof fn lemma_no_ranking_no_mail(state: PipelineView, listing: ListingView)
    requires
        state.wf(),
        state.stage == Stage::ListItems,
        listing.ids().len() == 0,
    ensures
        state.after(EventView::Listed(listing)).stage == Stage::Finished(Terminal::NoContent),
        state.after(EventView::Listed(listing)).request() == ActionView::Finish(
            Terminal::NoContent,
        ),
        state.after(EventView::Listed(listing)).outcomes.len() == 0,
        Terminal::NoContent.is_fatal(),
        forall|event: EventView|
            (#[trigger] state.after(EventView::Listed(listing)).after(event)) == state.after(
                EventView::Listed(listing),
            ),
{
    assert(first(listing.ids(), highest_of(state.users)).len() == 0);
}

/// Lookups that bring no item end the run at once, as a failure: no
/// message was asked for before, and none is asked for afterwards.
pub proof fn lemma_no_content(state: PipelineView, lookups: Seq<LookupView>)
    requires
        state.wf(),
        state.stage == Stage::LookUp,
        lookups.len() == state.ids.len(),
        gathered(lookups).len() == 0,
    ensures
        state.after(EventView::LookedUp(lookups)).stage == Stage::Finished(Terminal::NoContent),
        state.after(EventView::LookedUp(lookups)).request() == ActionView::Finish(
            Terminal::NoContent,
        ),
        state.after(EventView::LookedUp(lookups)).outcomes.len() == 0,
        forall|event: EventView|
            (#[trigger] state.after(EventView::LookedUp(lookups)).after(event)) == state.after(
                EventView::LookedUp(lookups),
            ),
{
}

/// The one fetch of a run looks up the first identifiers of the ranking,
/// as many as the largest quota among the recipients says: enough for
/// every recipient, and no more than one of them wants.
pub proof fn lemma_fetch_covers_quotas(state: PipelineView, listing: ListingView)
    requires
        state.wf(),
        state.stage == Stage::ListItems,
        listing.ids().len() > 0,
        highest_of(state.users) > 0,
    ensures
        state.after(EventView::Listed(listing)).request() == ActionView::LookUp(
            first(listing.ids(), highest_of(state.users)),
        ),
        first(listing.ids(), highest_of(state.users)).len() == if highest_of(state.users)
            <= listing.ids().len() {
            highest_of(state.users) as int
        } else {
            listing.ids().len() as int
        },
        forall|i: int|
            0 <= i < state.users.len() ==> (#[trigger] state.users[i]).count <= highest_of(
                state.users,
            ),
        exists|i: int| 0 <= i < state.users.len() && state.users[i].count == highest_of(state.users),
{
    lemma_highest_covers(state.users);
}

/// Once the fetch is over, its items are at most as many as the largest
/// quota, and none of them is the empty item.
pub proof fn lemma_items_within_quota(state: PipelineView)
    requires
        state.wf(),
        state.stage == Stage::OpenSession || state.stage == Stage::Dispatch || state.stage
            == Stage::CloseSession || state.stage == Stage::Finished(Terminal::Completed),
    ensures
        0 < state.posts.len() <= highest_of(state.users),
        forall|i: int| 0 <= i < state.posts.len() ==> !(#[trigger] state.posts[i]).is_empty(),
{
}

/// What is asked for one recipient depends on this recipient alone, next
/// to the items, the template and the settings that all share: a message
/// exactly if the recipient's address is a mail address, and then with the
/// digest of the first items of the fetch, as many as the recipient's
/// quota says or all where there are fewer. The addresses of the other
/// recipients play no part.
pub proof fn lemma_recipient_alone(state: PipelineView, i: int)
    requires
        state.wf(),
        state.stage == Stage::Dispatch,
        0 <= i < state.users.len(),
    ensures
        state.dispatch(i) is Deliver <==> address_accepted(state.users[i].email),
        state.dispatch(i) is Deliver ==> {
            let envelope = state.dispatch(i)->Deliver_0;
            &&& envelope.sender == state.cfg.email_user
            &&& envelope.recipient == state.users[i].email
            &&& envelope.message == encode_utf8(
                digest(
                    first(state.posts, state.users[i].count),
                    state.users[i].email,
                    state.template,
                    state.cfg.unsubscribe_url,
                ),
            )
        },
        !address_accepted(state.users[i].email) ==> state.dispatch(i) == (ActionView::Skip {
            recipient: state.users[i].email,
            failure: SendFailure::InvalidRecipient,
        }),
{
    lemma_prepared(state.users[i].email, state.items_of(i), state.template, state.cfg);
}

/// Whatever comes of one recipient, the run goes on with the next one in
/// the order of the store, and closes the session after the last: no
/// recipient's failure ends the run.
pub proof fn lemma_dispatch_goes_on(state: PipelineView, event: EventView)
    requires
        state.wf(),
        state.stage == Stage::Dispatch,
        state.accepts(event),
    ensures
        ({
            let next = state.after(event);
            &&& next.users == state.users
            &&& next.posts == state.posts
            &&& next.outcomes.len() == state.outcomes.len() + 1
            &&& next.outcomes.take(state.outcomes.len() as int) == state.outcomes
            &&& next.outcomes.len() < next.users.len() ==> next.stage == Stage::Dispatch
                && next.request() == state.dispatch(next.outcomes.len() as int)
            &&& next.outcomes.len() == next.users.len() ==> next.stage == Stage::CloseSession
                && next.request() == ActionView::CloseSession
        }),
{
    let next = state.after(event);
    assert(next.outcomes.take(state.outcomes.len() as int) =~= state.outcomes);
}

/// When a run has attended to every recipient, each of them has an
/// outcome, and was passed over exactly if its address is no mail address:
/// every other recipient's message went to the transport.
pub proof fn lemma_completed(state: PipelineView)
    requires
        state.wf(),
        state.stage == Stage::Finished(Terminal::Completed),
    ensures
        state.outcomes.len() == state.users.len(),
        forall|i: int|
            0 <= i < state.users.len() ==> (address_accepted(state.users[i].email) <==> (
            #[trigger] state.outcomes[i]) == Outcome::Sent || state.outcomes[i] == Outcome::Failed(
                SendFailure::Transport,
            )),
{
    assert forall|i: int| 0 <= i < state.users.len() implies (address_accepted(
        state.users[i].email,
    ) <==> (#[trigger] state.outcomes[i]) == Outcome::Sent || state.outcomes[i] == Outcome::Failed(
        SendFailure::Transport,
    )) by {
        let outcome = state.outcomes[i];
        assert((outcome == Outcome::Failed(SendFailure::InvalidRecipient)) == !address_accepted(
            state.users[i].email,
        ));
        assert(outcome != Outcome::Failed(SendFailure::InvalidSender));
        match outcome {
            Outcome::Sent => {},
            Outcome::Failed(SendFailure::InvalidSender) => {},
            Outcome::Failed(SendFailure::InvalidRecipient) => {},
            Outcome::Failed(SendFailure::Transport) => {},
        }
    }
}

} // verus!
