//! Publishing the reply of a shared turn in the channel that asked.
use vstd::prelude::*;

use crate::ids::event_id_from_hex;
use crate::ids::event_id_hex;
use crate::ids::hex_bytes;
use crate::ids::hex_of_len;
use crate::ids::hex_text;
use crate::ids::hex_text_round_trip;
use crate::outcome::Outcome;
use crate::outcome::TurnOutcome;
use crate::shared_gateway::BatchEvent;
use crate::shared_gateway::FlushBatch;
use crate::text::cat2;
use crate::text::texts;
use crate::text::trim;
use crate::text::trimmed;

verus! {

/// How long a publication may take, in milliseconds.
pub const PUBLISH_TIMEOUT_MS: u64 = 5000;

/// A reply to build: its text as the agent gave it, in the thread of a root event,
/// as an answer to that event. Nobody is mentioned, it is not broadcast, and nothing
/// is attached.
#[derive(Debug, PartialEq)]
pub struct Message {
    pub channel_id: u128,
    pub content: String,
    pub root: [u8; 32],
    pub parent: [u8; 32],
    pub mentions: Vec<String>,
    pub broadcast: bool,
    pub attachments: Vec<String>,
    pub tags: Vec<String>,
}

/// What a [`Message`] says.
pub struct Draft {
    pub channel_id: u128,
    pub content: Seq<char>,
    pub root: Seq<u8>,
    pub parent: Seq<u8>,
    pub mentions: Seq<Seq<char>>,
    pub broadcast: bool,
    pub attachments: Seq<Seq<char>>,
    pub tags: Seq<Seq<char>>,
}

impl View for Message {
    type V = Draft;

    open spec fn view(&self) -> Draft {
        Draft {
            channel_id: self.channel_id,
            content: self.content@,
            root: self.root@,
            parent: self.parent@,
            mentions: texts(self.mentions@),
            broadcast: self.broadcast,
            attachments: texts(self.attachments@),
            tags: texts(self.tags@),
        }
    }
}

/// A reply in the thread of a root event, as an answer to that event.
pub open spec fn draft(channel_id: u128, content: Seq<char>, root: Seq<u8>) -> Draft {
    Draft {
        channel_id,
        content,
        root,
        parent: root,
        mentions: Seq::empty(),
        broadcast: false,
        attachments: Seq::empty(),
        tags: Seq::empty(),
    }
}

/// What becomes of a reply before it is sent.
#[derive(Debug, PartialEq)]
pub enum ReplyPlan {
    /// There is nothing to send.
    Settled(TurnOutcome),
    Send(Message),
}

/// What a [`ReplyPlan`] says.
pub enum Plan {
    Settled(Outcome),
    Send(Draft),
}

impl View for ReplyPlan {
    type V = Plan;

    open spec fn view(&self) -> Plan {
        match self {
            ReplyPlan::Settled(outcome) => Plan::Settled(outcome@),
            ReplyPlan::Send(message) => Plan::Send(message@),
        }
    }
}

/// The text of the thread root of an event: what its tags name, else the event.
pub open spec fn root_text(event: BatchEvent) -> Seq<char> {
    match event.root_event_id {
        Some(root) => root@,
        None => hex_text(event.id@),
    }
}

/// What becomes of a reply to a batch.
pub open spec fn plan_of(batch: FlushBatch, content: Seq<char>) -> Plan {
    if trimmed(content).len() == 0 {
        Plan::Settled(Outcome::Completed("shared turn returned no reply text"@))
    } else if batch.events@.len() == 0 {
        Plan::Settled(Outcome::Failed("empty Buzz batch"@))
    } else {
        let root = root_text(batch.events@.last());
        if hex_of_len(root, 32) {
            Plan::Send(draft(batch.channel_id, content, hex_bytes(root)))
        } else {
            Plan::Settled(Outcome::Failed("invalid Buzz reply root"@))
        }
    }
}

/// Decides whether a reply is sent, and in which thread: that of the last event of
/// the batch. The text that is sent is not trimmed.
pub fn plan_reply(batch: &FlushBatch, content: &str) -> (r: ReplyPlan)
    ensures
        r@ == plan_of(*batch, content@),
{
    let text = trim(content);
    if text.as_str().is_empty() {
        return ReplyPlan::Settled(TurnOutcome::completed("shared turn returned no reply text"));
    }
    let count: usize = batch.events.len();
    if count == 0 {
        return ReplyPlan::Settled(TurnOutcome::failed("empty Buzz batch"));
    }
    let last = &batch.events[count - 1];
    let root = match &last.root_event_id {
        Some(root) => event_id_from_hex(root.as_str()),
        None => event_id_from_hex(event_id_hex(last.id).as_str()),
    };
    match root {
        Some(root) => {
            let message = Message {
                channel_id: batch.channel_id,
                content: content.to_owned(),
                root,
                parent: root,
                mentions: Vec::new(),
                broadcast: false,
                attachments: Vec::new(),
                tags: Vec::new(),
            };
            assert(texts(message.mentions@) =~= Seq::<Seq<char>>::empty());
            assert(texts(message.attachments@) =~= Seq::<Seq<char>>::empty());
            assert(texts(message.tags@) =~= Seq::<Seq<char>>::empty());
            ReplyPlan::Send(message)
        },
        None => ReplyPlan::Settled(TurnOutcome::failed("invalid Buzz reply root")),
    }
}

/// What came of sending a reply, with the error where there was one.
#[derive(Debug, PartialEq)]
pub enum Publication {
    NotBuilt(String),
    NotSigned(String),
    Accepted,
    /// The relay did not confirm it.
    Unconfirmed(String),
    TimedOut,
}

/// What a [`Publication`] says.
pub enum PublicationView {
    NotBuilt(Seq<char>),
    NotSigned(Seq<char>),
    Accepted,
    Unconfirmed(Seq<char>),
    TimedOut,
}

impl View for Publication {
    type V = PublicationView;

    open spec fn view(&self) -> PublicationView {
        match self {
            Publication::NotBuilt(error) => PublicationView::NotBuilt(error@),
            Publication::NotSigned(error) => PublicationView::NotSigned(error@),
            Publication::Accepted => PublicationView::Accepted,
            Publication::Unconfirmed(error) => PublicationView::Unconfirmed(error@),
            Publication::TimedOut => PublicationView::TimedOut,
        }
    }
}

/// How the turn ends after its reply was sent.
pub open spec fn ending(publication: PublicationView) -> Outcome {
    match publication {
        PublicationView::NotBuilt(error) => Outcome::Failed(
            "could not build Buzz reply: "@ + error,
        ),
        PublicationView::NotSigned(error) => Outcome::Failed(
            "could not sign Buzz reply: "@ + error,
        ),
        PublicationView::Accepted => Outcome::Completed("shared reply published"@),
        PublicationView::Unconfirmed(error) => Outcome::Unknown(
            "Buzz reply publication outcome uncertain: "@ + error,
        ),
        PublicationView::TimedOut => Outcome::Unknown(
            "Buzz reply publication timed out; inspect channel before re-asking"@,
        ),
    }
}

/// How the turn ends after its reply was sent.
pub fn publication_outcome(publication: &Publication) -> (r: TurnOutcome)
    ensures
        r@ == ending(publication@),
{
    match publication {
        Publication::NotBuilt(error) => TurnOutcome::Failed {
            reason: cat2("could not build Buzz reply: ", error.as_str()),
        },
        Publication::NotSigned(error) => TurnOutcome::Failed {
            reason: cat2("could not sign Buzz reply: ", error.as_str()),
        },
        Publication::Accepted => TurnOutcome::completed("shared reply published"),
        Publication::Unconfirmed(error) => TurnOutcome::UnknownOutcome {
            reason: cat2("Buzz reply publication outcome uncertain: ", error.as_str()),
        },
        Publication::TimedOut => TurnOutcome::unknown(
            "Buzz reply publication timed out; inspect channel before re-asking",
        ),
    }
}

/// What publishing a reply waits for.
#[derive(Debug, PartialEq, Eq, Clone, Copy, Structural)]
pub enum ReplyStage {
    Building,
    Signing,
    Submitting,
    Over,
}

/// What to do next about a reply.
#[derive(Debug, PartialEq)]
pub enum ReplyAction {
    /// Build the event of this message.
    Build(Message),
    /// Sign the event.
    Sign,
    /// Submit the event, and wait no longer than this for the relay.
    Submit { limit_ms: u64 },
    Finish(TurnOutcome),
}

/// What a [`ReplyAction`] says.
pub enum ReplyMove {
    Build(Draft),
    Sign,
    Submit { limit_ms: u64 },
    Finish(Outcome),
}

impl View for ReplyAction {
    type V = ReplyMove;

    open spec fn view(&self) -> ReplyMove {
        match self {
            ReplyAction::Build(message) => ReplyMove::Build(message@),
            ReplyAction::Sign => ReplyMove::Sign,
            ReplyAction::Submit { limit_ms } => ReplyMove::Submit { limit_ms: *limit_ms },
            ReplyAction::Finish(outcome) => ReplyMove::Finish(outcome@),
        }
    }
}

/// What came of an action.
#[derive(Debug, PartialEq)]
pub enum ReplyEvent {
    Done,
    Failed(String),
    /// The relay was waited for as long as it may be.
    TimedOut,
}

/// What a [`ReplyEvent`] says.
pub enum ReplyNews {
    Done,
    Failed(Seq<char>),
    TimedOut,
}

impl View for ReplyEvent {
    type V = ReplyNews;

    open spec fn view(&self) -> ReplyNews {
        match self {
            ReplyEvent::Done => ReplyNews::Done,
            ReplyEvent::Failed(error) => ReplyNews::Failed(error@),
            ReplyEvent::TimedOut => ReplyNews::TimedOut,
        }
    }
}

/// News that answers what publishing waits for: only the relay is waited for with a
/// limit.
pub open spec fn reply_answers(stage: ReplyStage, news: ReplyNews) -> bool {
    match stage {
        ReplyStage::Building | ReplyStage::Signing => !(news is TimedOut),
        ReplyStage::Submitting => true,
        ReplyStage::Over => false,
    }
}

/// What is done first about a reply.
pub open spec fn reply_begun(plan: Plan) -> (ReplyStage, ReplyMove) {
    match plan {
        Plan::Settled(outcome) => (ReplyStage::Over, ReplyMove::Finish(outcome)),
        Plan::Send(draft) => (ReplyStage::Building, ReplyMove::Build(draft)),
    }
}

/// The end of a publication.
pub open spec fn reply_over(publication: PublicationView) -> (ReplyStage, ReplyMove) {
    (ReplyStage::Over, ReplyMove::Finish(ending(publication)))
}

/// What is done about a reply after what came of the last action.
pub open spec fn reply_next(stage: ReplyStage, news: ReplyNews) -> (ReplyStage, ReplyMove) {
    match (stage, news) {
        (ReplyStage::Building, ReplyNews::Failed(error)) => reply_over(
            PublicationView::NotBuilt(error),
        ),
        (ReplyStage::Building, _) => (ReplyStage::Signing, ReplyMove::Sign),
        (ReplyStage::Signing, ReplyNews::Failed(error)) => reply_over(
            PublicationView::NotSigned(error),
        ),
        (ReplyStage::Signing, _) => (
            ReplyStage::Submitting,
            ReplyMove::Submit { limit_ms: PUBLISH_TIMEOUT_MS },
        ),
        (_, ReplyNews::Done) => reply_over(PublicationView::Accepted),
        (_, ReplyNews::Failed(error)) => reply_over(PublicationView::Unconfirmed(error)),
        (_, ReplyNews::TimedOut) => reply_over(PublicationView::TimedOut),
    }
}

/// A reply that is being published.
pub struct Reply {
    stage: ReplyStage,
}

impl Reply {
    pub closed spec fn stage(self) -> ReplyStage {
        self.stage
    }

    /// Takes up the reply to a batch, and says what to do first.
    pub fn begin(batch: &FlushBatch, content: &str) -> (r: (Reply, ReplyAction))
        ensures
            (r.0.stage(), r.1@) == reply_begun(plan_of(*batch, content@)),
    {
        match plan_reply(batch, content) {
            ReplyPlan::Settled(outcome) => (
                Reply { stage: ReplyStage::Over },
                ReplyAction::Finish(outcome),
            ),
            ReplyPlan::Send(message) => (
                Reply { stage: ReplyStage::Building },
                ReplyAction::Build(message),
            ),
        }
    }

    /// Whether an event answers what publishing waits for.
    pub fn awaits(&self, event: &ReplyEvent) -> (r: bool)
        ensures
            r == reply_answers(self.stage(), event@),
    {
        match self.stage {
            ReplyStage::Building | ReplyStage::Signing => !matches!(event, ReplyEvent::TimedOut),
            ReplyStage::Submitting => true,
            ReplyStage::Over => false,
        }
    }

    fn over(&mut self, publication: Publication) -> (r: ReplyAction)
        ensures
            (final(self).stage(), r@) == reply_over(publication@),
    {
        self.stage = ReplyStage::Over;
        ReplyAction::Finish(publication_outcome(&publication))
    }

    /// Goes on after what came of the last action, and says what to do next.
    pub fn step(&mut self, event: ReplyEvent) -> (r: ReplyAction)
        requires
            reply_answers(old(self).stage(), event@),
        ensures
            (final(self).stage(), r@) == reply_next(old(self).stage(), event@),
    {
        match (self.stage, event) {
            (ReplyStage::Building, ReplyEvent::Failed(error)) => self.over(
                Publication::NotBuilt(error),
            ),
            (ReplyStage::Building, _) => {
                self.stage = ReplyStage::Signing;
                ReplyAction::Sign
            },
            (ReplyStage::Signing, ReplyEvent::Failed(error)) => self.over(
                Publication::NotSigned(error),
            ),
            (ReplyStage::Signing, _) => {
                self.stage = ReplyStage::Submitting;
                ReplyAction::Submit { limit_ms: PUBLISH_TIMEOUT_MS }
            },
            (_, ReplyEvent::Done) => self.over(Publication::Accepted),
            (_, ReplyEvent::Failed(error)) => self.over(Publication::Unconfirmed(error)),
            (_, ReplyEvent::TimedOut) => self.over(Publication::TimedOut),
        }
    }
}

/// The publication of a reply from its beginning, and what came of its actions.
pub struct ReplyHistory {
    pub plan: Plan,
    pub news: Seq<ReplyNews>,
}

impl ReplyHistory {
    /// The history without its last news.
    pub open spec fn before(self) -> ReplyHistory {
        ReplyHistory { news: self.news.drop_last(), ..self }
    }

    /// How far the publication has got, and what it last did.
    pub open spec fn now(self) -> (ReplyStage, ReplyMove)
        decreases self.news.len(),
    {
        if self.news.len() == 0 {
            reply_begun(self.plan)
        } else {
            reply_next(self.before().now().0, self.news.last())
        }
    }

    /// All news came in answer to what was waited for.
    pub open spec fn valid(self) -> bool
        decreases self.news.len(),
    {
        self.news.len() > 0 ==> {
            &&& self.before().valid()
            &&& reply_answers(self.before().now().0, self.news.last())
        }
    }

    /// How often an event was submitted.
    pub open spec fn submits(self) -> nat
        decreases self.news.len(),
    {
        if self.news.len() == 0 {
            0
        } else {
            self.before().submits() + if self.now().1 is Submit {
                1nat
            } else {
                0nat
            }
        }
    }
}

/// How often an event was submitted, by how far the publication has got.
proof fn submits_by_stage(h: ReplyHistory)
    requires
        h.valid(),
    ensures
        h.now().0 is Building || h.now().0 is Signing ==> h.submits() == 0,
        h.now().0 is Submitting ==> h.submits() == 1,
        h.submits() <= 1,
        h.now().0 is Over <==> h.now().1 is Finish,
        h.plan is Settled ==> h.news.len() == 0,
    decreases h.news.len(),
{
    if h.news.len() > 0 {
        submits_by_stage(h.before());
    }
}

/// A reply to send is submitted at most once and never again. It is completed just
/// where the relay accepted it, unknown where the relay refused or took too long, and
/// failed just where nothing was submitted.
pub proof fn reply_is_submitted_at_most_once(h: ReplyHistory)
    requires
        h.valid(),
        h.plan is Send,
    ensures
        h.submits() <= 1,
        h.now().1 matches ReplyMove::Finish(outcome) ==> {
            &&& outcome is Failed <==> h.submits() == 0
            &&& outcome == Outcome::Completed("shared reply published"@) <==> h.submits() == 1
                && h.news.last() is Done
            &&& outcome is Unknown <==> h.submits() == 1 && !(h.news.last() is Done)
        },
{
    submits_by_stage(h);
    if h.news.len() > 0 {
        submits_by_stage(h.before());
    }
}

/// A reply with text to a batch with events is built at most once, from the text as it
/// stands, with the thread's root as its parent too.
pub proof fn reply_is_built_untrimmed(batch: FlushBatch, content: Seq<char>)
    requires
        trimmed(content).len() > 0,
        batch.events@.len() > 0,
        hex_of_len(root_text(batch.events@.last()), 32),
    ensures
        reply_begun(plan_of(batch, content)).1 matches ReplyMove::Build(built) && {
            &&& built.content == content
            &&& built.channel_id == batch.channel_id
            &&& built.root == hex_bytes(root_text(batch.events@.last()))
            &&& built.parent == built.root
        },
        forall|stage: ReplyStage, news: ReplyNews|
            !((#[trigger] reply_next(stage, news)).1 is Build),
{
}

/// A reply to an event outside any thread starts a thread under that event.
pub proof fn reply_starts_a_thread(batch: FlushBatch, content: Seq<char>)
    requires
        trimmed(content).len() > 0,
        batch.events@.len() > 0,
        batch.events@.last().root_event_id is None,
    ensures
        plan_of(batch, content) == Plan::Send(
            draft(batch.channel_id, content, batch.events@.last().id@),
        ),
{
    hex_text_round_trip(batch.events@.last().id@);
}

/// A reply that may have left is never reported as failed: it is completed where
/// the relay accepted it, and unknown otherwise. One that never left is failed.
pub proof fn sent_reply_never_fails(publication: PublicationView)
    ensures
        ending(publication) is Failed <==> (publication is NotBuilt || publication is NotSigned),
        ending(publication) is Completed <==> publication is Accepted,
        ending(publication) is Unknown <==> (publication is Unconfirmed
            || publication is TimedOut),
{
}

/// What becomes of a reply. Without text the turn is completed, and nothing is sent. Without
/// an event there is nothing to answer. Else the reply goes to the thread of the last event:
/// its root, where its tags name one, which must be 64 hexadecimal digits, and else the
/// event itself. It says just what the agent said, mentions nobody, is not broadcast, and
/// carries nothing else.
pub proof fn reply_answers_the_last_event(batch: FlushBatch, content: Seq<char>)
    ensures
        ({
            let plan = plan_of(batch, content);
            let last = batch.events@[batch.events@.len() - 1];
            if trimmed(content).len() == 0 {
                plan == Plan::Settled(Outcome::Completed("shared turn returned no reply text"@))
            } else if batch.events@.len() == 0 {
                plan == Plan::Settled(Outcome::Failed("empty Buzz batch"@))
            } else if last.root_event_id is Some && !hex_of_len(last.root_event_id->0@, 32) {
                plan == Plan::Settled(Outcome::Failed("invalid Buzz reply root"@))
            } else {
                plan matches Plan::Send(message) && {
                    &&& message.channel_id == batch.channel_id
                    &&& message.content == content
                    &&& message.root == match last.root_event_id {
                        Some(root) => hex_bytes(root@),
                        None => last.id@,
                    }
                    &&& message.parent == message.root
                    &&& message.mentions.len() == 0
                    &&& !message.broadcast
                    &&& message.attachments.len() == 0
                    &&& message.tags.len() == 0
                }
            }
        }),
{
    if batch.events@.len() > 0 {
        hex_text_round_trip(batch.events@.last().id@);
    }
}

/// A reply that is to be sent is built, signed and submitted, each after the one before it
/// was done, and the relay is waited for five seconds. A reply that could not be built or
/// signed has failed; one that the relay did not confirm is of unknown outcome. Both say
/// why.
pub proof fn reply_is_built_signed_and_submitted(h: ReplyHistory)
    requires
        h.valid(),
        h.plan is Send,
    ensures
        h.news.len() == 0 ==> h.now().1 == ReplyMove::Build(h.plan->Send_0),
        h.news.len() > 0 ==> h.now().1 == match (h.before().now().1, h.news.last()) {
            (ReplyMove::Build(_), ReplyNews::Done) => ReplyMove::Sign,
            (ReplyMove::Build(_), ReplyNews::Failed(error)) => ReplyMove::Finish(
                Outcome::Failed("could not build Buzz reply: "@ + error),
            ),
            (ReplyMove::Sign, ReplyNews::Done) => ReplyMove::Submit { limit_ms: 5000 },
            (ReplyMove::Sign, ReplyNews::Failed(error)) => ReplyMove::Finish(
                Outcome::Failed("could not sign Buzz reply: "@ + error),
            ),
            (ReplyMove::Submit { .. }, ReplyNews::Done) => ReplyMove::Finish(
                Outcome::Completed("shared reply published"@),
            ),
            (ReplyMove::Submit { .. }, ReplyNews::Failed(error)) => ReplyMove::Finish(
                Outcome::Unknown("Buzz reply publication outcome uncertain: "@ + error),
            ),
            _ => ReplyMove::Finish(
                Outcome::Unknown(
                    "Buzz reply publication timed out; inspect channel before re-asking"@,
                ),
            ),
        },
        h.news.len() > 0 && h.news.last() is TimedOut ==> h.before().now().1 is Submit,
    decreases h.news.len(),
{
    stage_follows_the_move(h);
    if h.news.len() > 0 {
        stage_follows_the_move(h.before());
    }
}

proof fn stage_follows_the_move(h: ReplyHistory)
    requires
        h.valid(),
    ensures
        h.now().0 is Building <==> h.now().1 is Build,
        h.now().0 is Signing <==> h.now().1 is Sign,
        h.now().0 is Submitting <==> h.now().1 is Submit,
        h.now().0 is Over <==> h.now().1 is Finish,
{
}

/// A reply that is settled without being sent ends so, and nothing is done about it.
pub proof fn settled_reply_is_not_sent(plan: Plan)
    requires
        plan is Settled,
    ensures
        reply_begun(plan) == (ReplyStage::Over, ReplyMove::Finish(plan->Settled_0)),
{
}

/// What becomes of a reply is seen as it is: the message, what to do and what came of it.
pub proof fn replies_are_seen_as_they_are(
    message: Message,
    plan: ReplyPlan,
    action: ReplyAction,
    event: ReplyEvent,
    publication: Publication,
)
    ensures
        message@.channel_id == message.channel_id,
        message@.content == message.content@,
        message@.root == message.root@,
        message@.parent == message.parent@,
        message@.mentions == texts(message.mentions@),
        message@.broadcast == message.broadcast,
        message@.attachments == texts(message.attachments@),
        message@.tags == texts(message.tags@),
        match plan {
            ReplyPlan::Settled(outcome) => plan@ == Plan::Settled(outcome@),
            ReplyPlan::Send(message) => plan@ == Plan::Send(message@),
        },
        match action {
            ReplyAction::Build(message) => action@ == ReplyMove::Build(message@),
            ReplyAction::Sign => action@ is Sign,
            ReplyAction::Submit { limit_ms } => action@ == (ReplyMove::Submit { limit_ms }),
            ReplyAction::Finish(outcome) => action@ == ReplyMove::Finish(outcome@),
        },
        match event {
            ReplyEvent::Done => event@ is Done,
            ReplyEvent::Failed(error) => event@ == ReplyNews::Failed(error@),
            ReplyEvent::TimedOut => event@ is TimedOut,
        },
        match publication {
            Publication::NotBuilt(error) => publication@ == PublicationView::NotBuilt(error@),
            Publication::NotSigned(error) => publication@ == PublicationView::NotSigned(error@),
            Publication::Accepted => publication@ is Accepted,
            Publication::Unconfirmed(error) => publication@ == PublicationView::Unconfirmed(
                error@,
            ),
            Publication::TimedOut => publication@ is TimedOut,
        },
{
}

/// Publishing hears of what it asked for that it was done or failed, and of a submission
/// also that it took too long. After its end it hears nothing.
pub proof fn publishing_hears_what_it_asked_for(h: ReplyHistory, news: ReplyNews)
    requires
        h.valid(),
    ensures
        reply_answers(h.now().0, news) <==> match h.now().1 {
            ReplyMove::Build(_) | ReplyMove::Sign => news is Done || news is Failed,
            ReplyMove::Submit { .. } => true,
            ReplyMove::Finish(_) => false,
        },
{
    stage_follows_the_move(h);
}

/// What is first done about the reply to a batch is what its plan says: it is built, or it is
/// settled.
pub proof fn replies_begin_with_their_plan(
    batch: &FlushBatch,
    content: &str,
    r: (Reply, ReplyAction),
)
    requires
        call_ensures(Reply::begin, (batch, content), r),
    ensures
        match plan_of(*batch, content@) {
            Plan::Send(message) => r.1@ == ReplyMove::Build(message) && r.0.stage() is Building,
            Plan::Settled(outcome) => r.1@ == ReplyMove::Finish(outcome) && r.0.stage() is Over,
        },
{
}

/// A step of publishing is the one that its stage calls for after what came of the last.
pub proof fn steps_are_what_the_reply_calls_for(
    reply: &mut Reply,
    event: ReplyEvent,
    r: ReplyAction,
)
    requires
        call_ensures(Reply::step, (reply, event), r),
    ensures
        (final(reply).stage(), r@) == reply_next(old(reply).stage(), event@),
{
}

} // verus!
