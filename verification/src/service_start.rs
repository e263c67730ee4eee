//! Starting the desktop control service, as a machine: it listens on a port of the
//! loopback address, publishes its descriptor, and only then serves.
use vstd::prelude::*;

use crate::control_client::loopback_url;
use crate::control_client::sound_descriptor;
use crate::local_control::describe;
use crate::local_control::description;
use crate::local_control::issue_token;
use crate::local_control::issued_tokens_are_accepted;
use crate::local_control::token_of;
use crate::local_control::version_four;
use crate::local_control::ControlDescriptor;
use crate::local_control::DescriptorView;
use crate::text::cat2;
use crate::text::decimal;

verus! {

/// What the start waits for.
#[derive(Debug, PartialEq, Eq, Clone, Copy, Structural)]
pub enum StartPhase {
    Binding,
    ReadingAddress,
    /// Where the descriptor goes.
    Locating,
    Publishing,
    Serving,
    Over,
}

/// What to do next.
#[derive(Debug, PartialEq)]
pub enum StartAction {
    /// Listen on this address.
    Bind(String),
    /// Tell the address that is listened on.
    ReadAddress,
    /// Find where the descriptor goes.
    Locate,
    /// Write the descriptor there.
    Publish(ControlDescriptor),
    /// Answer calls that present this token, until that ends.
    Serve(String),
    /// The service is over, with an error where something went wrong.
    End(Option<String>),
}

/// What a [`StartAction`] says.
pub enum StartMove {
    Bind(Seq<char>),
    ReadAddress,
    Locate,
    Publish(DescriptorView),
    Serve(Seq<char>),
    End(Option<Seq<char>>),
}

impl View for StartAction {
    type V = StartMove;

    open spec fn view(&self) -> StartMove {
        match self {
            StartAction::Bind(address) => StartMove::Bind(address@),
            StartAction::ReadAddress => StartMove::ReadAddress,
            StartAction::Locate => StartMove::Locate,
            StartAction::Publish(descriptor) => StartMove::Publish(descriptor@),
            StartAction::Serve(token) => StartMove::Serve(token@),
            StartAction::End(error) => StartMove::End(crate::text::opt_text(*error)),
        }
    }
}

/// The view of what came of an action: a text, which counts where an address was
/// asked for, or the error.
pub open spec fn done_view(done: Result<String, String>) -> Result<Seq<char>, Seq<char>> {
    match done {
        Ok(text) => Ok(text@),
        Err(error) => Err(error@),
    }
}

/// What a start has come to.
pub struct StartState {
    pub token: Seq<char>,
    pub pid: u32,
    /// The address that is listened on, once it is known.
    pub address: Seq<char>,
    pub phase: StartPhase,
}

impl StartState {
    pub open spec fn at(self, phase: StartPhase) -> StartState {
        StartState { phase, ..self }
    }

    pub open spec fn end(self, error: Option<Seq<char>>) -> (StartState, StartMove) {
        (self.at(StartPhase::Over), StartMove::End(error))
    }

    /// The start after what came of its last action, and what it then does.
    pub open spec fn next(self, done: Result<Seq<char>, Seq<char>>) -> (StartState, StartMove) {
        match (self.phase, done) {
            (StartPhase::Binding, Ok(_)) => (
                self.at(StartPhase::ReadingAddress),
                StartMove::ReadAddress,
            ),
            (StartPhase::Binding, Err(error)) => self.end(
                Some("bind desktop control service: "@ + error),
            ),
            (StartPhase::ReadingAddress, Ok(address)) => (
                StartState { address, ..self }.at(StartPhase::Locating),
                StartMove::Locate,
            ),
            (StartPhase::ReadingAddress, Err(error)) => self.end(
                Some("read desktop control address: "@ + error),
            ),
            (StartPhase::Locating, Ok(_)) => (
                self.at(StartPhase::Publishing),
                StartMove::Publish(description(self.address, self.token, self.pid)),
            ),
            (StartPhase::Locating, Err(error)) => self.end(
                Some("resolve desktop control descriptor path: "@ + error),
            ),
            (StartPhase::Publishing, Ok(_)) => (
                self.at(StartPhase::Serving),
                StartMove::Serve(self.token),
            ),
            (StartPhase::Publishing, Err(error)) => self.end(Some(error)),
            (_, Ok(_)) => self.end(None),
            (_, Err(error)) => self.end(Some("desktop control service stopped: "@ + error)),
        }
    }
}

/// A start that has asked for the address to listen on.
pub open spec fn started(token: Seq<char>, pid: u32) -> StartState {
    StartState { token, pid, address: Seq::empty(), phase: StartPhase::Binding }
}

/// The address that is asked for: a port of the loopback address that the system
/// assigns.
pub open spec fn any_port() -> Seq<char> {
    "127.0.0.1:0"@
}

/// The start of a service.
pub struct ServiceStart {
    token: String,
    pid: u32,
    address: String,
    phase: StartPhase,
}

impl View for ServiceStart {
    type V = StartState;

    closed spec fn view(&self) -> StartState {
        StartState {
            token: self.token@,
            pid: self.pid,
            address: self.address@,
            phase: self.phase,
        }
    }
}

impl ServiceStart {
    /// The start of a service with a new token, in the process of that id, and the
    /// first thing that it does.
    pub fn begin(pid: u32) -> (r: (ServiceStart, StartAction))
        ensures
            exists|a: u128, b: u128|
                version_four(a) && version_four(b) && r.0@ == started(
                    #[trigger] token_of(a, b),
                    pid,
                ),
            r.1@ == StartMove::Bind(any_port()),
    {
        ServiceStart::with_token(issue_token(), pid)
    }

    /// The start of a service with the given token, and the first thing that it does.
    pub fn with_token(token: String, pid: u32) -> (r: (ServiceStart, StartAction))
        ensures
            r.0@ == started(token@, pid),
            r.1@ == StartMove::Bind(any_port()),
    {
        let address = String::new();
        assert(address@ =~= Seq::<char>::empty());
        (
            ServiceStart { token, pid, address, phase: StartPhase::Binding },
            StartAction::Bind("127.0.0.1:0".to_owned()),
        )
    }

    fn end(&mut self, error: Option<String>) -> (r: StartAction)
        ensures
            (final(self)@, r@) == old(self)@.end(crate::text::opt_text(error)),
    {
        self.phase = StartPhase::Over;
        StartAction::End(error)
    }

    /// Goes on after what came of the last action, and says what to do next.
    pub fn step(&mut self, done: Result<String, String>) -> (r: StartAction)
        ensures
            (final(self)@, r@) == old(self)@.next(done_view(done)),
    {
        match (self.phase, done) {
            (StartPhase::Binding, Ok(_)) => {
                self.phase = StartPhase::ReadingAddress;
                StartAction::ReadAddress
            },
            (StartPhase::Binding, Err(error)) => self.end(
                Some(cat2("bind desktop control service: ", error.as_str())),
            ),
            (StartPhase::ReadingAddress, Ok(address)) => {
                self.address = address;
                self.phase = StartPhase::Locating;
                StartAction::Locate
            },
            (StartPhase::ReadingAddress, Err(error)) => self.end(
                Some(cat2("read desktop control address: ", error.as_str())),
            ),
            (StartPhase::Locating, Ok(_)) => {
                self.phase = StartPhase::Publishing;
                let token = self.token.clone();
                StartAction::Publish(describe(self.address.as_str(), token, self.pid))
            },
            (StartPhase::Locating, Err(error)) => self.end(
                Some(cat2("resolve desktop control descriptor path: ", error.as_str())),
            ),
            (StartPhase::Publishing, Ok(_)) => {
                self.phase = StartPhase::Serving;
                StartAction::Serve(self.token.clone())
            },
            (StartPhase::Publishing, Err(error)) => self.end(Some(error)),
            (_, Ok(_)) => self.end(None),
            (_, Err(error)) => self.end(
                Some(cat2("desktop control service stopped: ", error.as_str())),
            ),
        }
    }
}

/// A start from its beginning, and what came of its actions.
pub struct StartHistory {
    pub token: Seq<char>,
    pub pid: u32,
    pub news: Seq<Result<Seq<char>, Seq<char>>>,
}

impl StartHistory {
    /// The history without its last news.
    pub open spec fn before(self) -> StartHistory {
        StartHistory { news: self.news.drop_last(), ..self }
    }

    /// What the start has come to.
    pub open spec fn state(self) -> StartState
        decreases self.news.len(),
    {
        if self.news.len() == 0 {
            started(self.token, self.pid)
        } else {
            self.before().state().next(self.news.last()).0
        }
    }

    /// What the start last did.
    pub open spec fn last_move(self) -> StartMove {
        if self.news.len() == 0 {
            StartMove::Bind(any_port())
        } else {
            self.before().state().next(self.news.last()).1
        }
    }

    /// Nothing came after the end.
    pub open spec fn valid(self) -> bool
        decreases self.news.len(),
    {
        self.news.len() > 0 ==> {
            &&& self.before().valid()
            &&& !(self.before().state().phase is Over)
        }
    }
}

/// How many actions lie behind a start that waits.
pub open spec fn actions_behind(phase: StartPhase) -> nat {
    match phase {
        StartPhase::Binding => 0,
        StartPhase::ReadingAddress => 1,
        StartPhase::Locating => 2,
        StartPhase::Publishing => 3,
        StartPhase::Serving => 4,
        StartPhase::Over => 5,
    }
}

/// A start that goes on has had everything done that it asked for.
proof fn going_on_means_done(h: StartHistory)
    requires
        h.valid(),
    ensures
        h.state().token == h.token,
        h.state().pid == h.pid,
        !(h.state().phase is Over) ==> {
            &&& h.news.len() == actions_behind(h.state().phase)
            &&& forall|i: int| 0 <= i < h.news.len() ==> #[trigger] h.news[i] is Ok
            &&& h.news.len() >= 2 ==> h.news[1] == Ok::<Seq<char>, Seq<char>>(h.state().address)
        },
    decreases h.news.len(),
{
    if h.news.len() > 0 {
        going_on_means_done(h.before());
        assert forall|i: int|
            !(h.state().phase is Over) && 0 <= i < h.news.len() implies #[trigger] h.news[i]
            is Ok by {
            if i < h.news.len() - 1 {
                assert(h.news[i] == h.before().news[i]);
            }
        }
        if h.news.len() >= 3 {
            assert(h.news[1] == h.before().news[1]);
        }
    }
}

/// A service is served only after its descriptor was written, and everything before
/// that done. What was written names the address that is listened on, the version,
/// and the very token that calls have to present.
pub proof fn serves_only_what_it_published(h: StartHistory)
    requires
        h.valid(),
        h.last_move() is Serve,
    ensures
        h.last_move() == StartMove::Serve(h.token),
        h.news.len() == 4,
        forall|i: int| 0 <= i < 4 ==> #[trigger] h.news[i] is Ok,
        h.before().last_move() == StartMove::Publish(
            description(h.news[1]->Ok_0, h.token, h.pid),
        ),
{
    going_on_means_done(h);
    going_on_means_done(h.before());
    assert(h.before().valid());
    assert(h.before().before().valid());
    going_on_means_done(h.before().before());
    assert(h.before().news[1] == h.news[1]);
    assert(h.before().before().news[1] == h.news[1]);
}

/// A start ends at its first failure, with an error: what fails before the service is
/// served keeps it from being served at all.
pub proof fn failed_start_serves_nothing(h: StartHistory, i: int)
    requires
        h.valid(),
        0 <= i < h.news.len(),
        h.news[i] is Err,
    ensures
        h.news.len() == i + 1,
        h.last_move() matches StartMove::End(error) && error is Some,
{
    going_on_means_done(h.before());
    if i < h.news.len() - 1 {
        assert(h.before().news[i] == h.news[i]);
    }
}

/// The client trusts the descriptor of a service that is served on a port of the
/// loopback address: read back as it was written, it is sound, and carries a token of
/// 64 lower-case hexadecimal digits.
pub proof fn served_service_is_trusted(
    h: StartHistory,
    read: crate::control_client::ControlDescriptor,
    port: u16,
    a: u128,
    b: u128,
)
    requires
        h.valid(),
        h.last_move() is Serve,
        h.token == token_of(a, b),
        h.news[1] == Ok::<Seq<char>, Seq<char>>("127.0.0.1:"@ + decimal(port as nat)),
        h.before().last_move() matches StartMove::Publish(published) && {
            &&& read.schema_version == published.schema_version
            &&& read.url@ == published.url
            &&& read.token@ == published.token
        },
    ensures
        sound_descriptor(read),
        read.url@ == loopback_url(port),
        read.token@ == h.token,
        read.token@.len() == 64,
{
    serves_only_what_it_published(h);
    issued_tokens_are_accepted(a, b);
    assert(read.url@ == loopback_url(port));
}

/// A start does one thing after the other: it listens on a port of the loopback address that
/// the system assigns, reads which, finds where its descriptor goes, writes that, and serves.
/// What fails is told. The descriptor has the address that was read.
pub proof fn start_goes_step_by_step(h: StartHistory)
    requires
        h.valid(),
    ensures
        h.news.len() == 0 ==> h.last_move() == StartMove::Bind("127.0.0.1:0"@),
        h.news.len() > 0 ==> h.last_move() == match (h.before().last_move(), h.news.last()) {
            (StartMove::Bind(_), Ok(_)) => StartMove::ReadAddress,
            (StartMove::Bind(_), Err(error)) => StartMove::End(
                Some("bind desktop control service: "@ + error),
            ),
            (StartMove::ReadAddress, Ok(_)) => StartMove::Locate,
            (StartMove::ReadAddress, Err(error)) => StartMove::End(
                Some("read desktop control address: "@ + error),
            ),
            (StartMove::Locate, Ok(_)) => StartMove::Publish(
                DescriptorView {
                    schema_version: 1,
                    url: "http://"@ + h.news[1]->Ok_0,
                    token: h.token,
                    pid: h.pid,
                },
            ),
            (StartMove::Locate, Err(error)) => StartMove::End(
                Some("resolve desktop control descriptor path: "@ + error),
            ),
            (StartMove::Publish(_), Ok(_)) => StartMove::Serve(h.token),
            (StartMove::Publish(_), Err(error)) => StartMove::End(Some(error)),
            (_, Ok(_)) => StartMove::End(None),
            (_, Err(error)) => StartMove::End(
                Some("desktop control service stopped: "@ + error),
            ),
        },
{
    if h.news.len() > 0 {
        going_on_means_done(h.before());
        phase_follows_the_move(h.before());
        if h.news.len() >= 3 {
            assert(h.news[1] == h.before().news[1]);
        }
    }
}

proof fn phase_follows_the_move(h: StartHistory)
    requires
        h.valid(),
    ensures
        h.state().phase is Binding <==> h.last_move() is Bind,
        h.state().phase is ReadingAddress <==> h.last_move() is ReadAddress,
        h.state().phase is Locating <==> h.last_move() is Locate,
        h.state().phase is Publishing <==> h.last_move() is Publish,
        h.state().phase is Serving <==> h.last_move() is Serve,
        h.state().phase is Over <==> h.last_move() is End,
{
}

/// What a start does and hears is seen as it is.
pub proof fn starts_are_seen_as_they_are(action: StartAction, done: Result<String, String>)
    ensures
        match action {
            StartAction::Bind(address) => action@ == StartMove::Bind(address@),
            StartAction::ReadAddress => action@ is ReadAddress,
            StartAction::Locate => action@ is Locate,
            StartAction::Publish(descriptor) => action@ == StartMove::Publish(descriptor@),
            StartAction::Serve(token) => action@ == StartMove::Serve(token@),
            StartAction::End(error) => action@ == StartMove::End(crate::text::opt_text(error)),
        },
        match done {
            Ok(text) => done_view(done) == Ok::<Seq<char>, Seq<char>>(text@),
            Err(error) => done_view(done) == Err::<Seq<char>, Seq<char>>(error@),
        },
{
}

/// A step of a start is the one that its state calls for after what came of the last.
pub proof fn steps_are_what_the_start_calls_for(
    start: &mut ServiceStart,
    done: Result<String, String>,
    r: StartAction,
)
    requires
        call_ensures(ServiceStart::step, (start, done), r),
    ensures
        r@ == old(start)@.next(done_view(done)).1,
        final(start)@ == old(start)@.next(done_view(done)).0,
{
}

} // verus!
