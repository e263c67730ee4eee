//! Turns run as jobs of a host agent gateway.
//!
//! A turn is submitted as one job and polled until the job's journaled state is
//! terminal. The turn id is the job's idempotency key, so that submitting a turn
//! again finds the same job instead of running it twice.
use vstd::prelude::*;

use crate::gateway_api::CallError;
use crate::gateway_api::ClientError;
use crate::gateway_api::JobView;
use crate::gateway_api::RouteView;
use crate::gateway_api::SubmitJobRequest;
use crate::ids::hyphenated_uuid;
use crate::ids::parse_uuid;
use crate::ids::uuid_parsed;
use crate::ids::uuid_text;
use crate::json::encode;
use crate::json::json_text;
use crate::json::Json;
use crate::outcome::opt_outcome;
use crate::outcome::Outcome;
use crate::outcome::TurnOutcome;
use crate::text::cat2;
use crate::text::cat3;
use crate::text::cat4;
use crate::text::opt_str;
use crate::text::opt_text;
use crate::text::same_text;
use crate::text::split_once;
use crate::text::split_pair;
use crate::text::texts;

verus! {

/// Consecutive poll failures after which a turn's outcome is unknown. The job may
/// still be running on the gateway.
pub const MAX_CONSECUTIVE_POLL_FAILURES: u32 = 20;

/// How long to wait before each poll of a job, in milliseconds.
pub const POLL_INTERVAL_MS: u64 = 250;

/// What a job's state means for the turn; nothing, while it is not terminal.
pub open spec fn job_outcome(
    state: Seq<char>,
    reason: Option<Seq<char>>,
    summary: Option<Seq<char>>,
) -> Option<Outcome> {
    if state == "completed"@ {
        Some(
            Outcome::Completed(
                match summary {
                    Some(summary) => summary,
                    None => Seq::empty(),
                },
            ),
        )
    } else if state == "failed"@ || state == "rejected"@ {
        Some(
            Outcome::Failed(
                match summary {
                    Some(summary) if summary.len() > 0 => summary,
                    _ => match reason {
                        Some(reason) => reason,
                        None => "gateway job failed"@,
                    },
                },
            ),
        )
    } else if state == "canceled"@ {
        Some(Outcome::Canceled)
    } else if state == "unknown_outcome"@ || state == "reconciling"@ {
        Some(
            Outcome::Unknown(
                match reason {
                    Some(reason) => reason,
                    None => "gateway reported unknown outcome"@,
                },
            ),
        )
    } else {
        None
    }
}

/// Maps a gateway job state to a turn outcome. `None` = not terminal yet.
pub fn map_job_state(state: &str, reason: Option<&str>, summary: Option<&str>) -> (r: Option<
    TurnOutcome,
>)
    ensures
        opt_outcome(r) == job_outcome(state@, opt_str(reason), opt_str(summary)),
{
    if same_text(state, "completed") {
        match summary {
            Some(summary) => Some(TurnOutcome::completed(summary)),
            None => Some(TurnOutcome::Completed { summary: String::new() }),
        }
    } else if same_text(state, "failed") || same_text(state, "rejected") {
        match summary {
            Some(summary) if !summary.is_empty() => Some(TurnOutcome::failed(summary)),
            _ => match reason {
                Some(reason) => Some(TurnOutcome::failed(reason)),
                None => Some(TurnOutcome::failed("gateway job failed")),
            },
        }
    } else if same_text(state, "canceled") {
        Some(TurnOutcome::Canceled)
    } else if same_text(state, "unknown_outcome") || same_text(state, "reconciling") {
        match reason {
            Some(reason) => Some(TurnOutcome::unknown(reason)),
            None => Some(TurnOutcome::unknown("gateway reported unknown outcome")),
        }
    } else {
        None
    }
}

/// A channel whose turns may write to a repository, and the route that runs them.
#[derive(Debug, PartialEq)]
pub struct WriteRoute {
    pub channel_id: u128,
    pub route_id: String,
}

/// The mapping that `<channel-uuid>=<route-id>` spells.
pub open spec fn write_route_spelled(entry: Seq<char>) -> Option<(u128, Seq<char>)> {
    match split_pair(entry, '=') {
        Some(pair) => match uuid_parsed(pair.0) {
            Some(channel) => Some((channel, pair.1)),
            None => None,
        },
        None => None,
    }
}

/// Makes a mapping of its two halves: the channel, if it is a UUID, and the route.
pub fn write_route(channel: Option<u128>, route_id: String) -> (r: Option<WriteRoute>)
    ensures
        match channel {
            Some(id) => r is Some && r->0.channel_id == id && r->0.route_id@ == route_id@,
            None => r is None,
        },
{
    match channel {
        Some(channel_id) => Some(WriteRoute { channel_id, route_id }),
        None => None,
    }
}

/// Reads one `<channel-uuid>=<route-id>`.
pub fn parse_write_route(entry: &str) -> (r: Option<WriteRoute>)
    ensures
        match r {
            Some(route) => write_route_spelled(entry@) == Some(
                (route.channel_id, route.route_id@),
            ),
            None => write_route_spelled(entry@) is None,
        },
{
    match split_once(entry, '=') {
        Some(pair) => write_route(parse_uuid(pair.0.as_str()), pair.1),
        None => None,
    }
}

/// The mappings that a list spells, or the first entry that is none.
pub open spec fn write_routes_spelled(entries: Seq<Seq<char>>) -> Result<
    Seq<(u128, Seq<char>)>,
    Seq<char>,
>
    decreases entries.len(),
{
    if entries.len() == 0 {
        Ok(Seq::empty())
    } else {
        match write_routes_spelled(entries.drop_last()) {
            Err(entry) => Err(entry),
            Ok(routes) => match write_route_spelled(entries.last()) {
                Some(route) => Ok(routes.push(route)),
                None => Err(entries.last()),
            },
        }
    }
}

/// What mappings say.
pub open spec fn write_routes_view(routes: Seq<WriteRoute>) -> Seq<(u128, Seq<char>)> {
    routes.map_values(|route: WriteRoute| (route.channel_id, route.route_id@))
}

/// A bad entry among the first of a list is that of the whole list.
proof fn first_bad_entry_stays(entries: Seq<Seq<char>>, n: int)
    requires
        0 <= n <= entries.len(),
        write_routes_spelled(entries.take(n)) is Err,
    ensures
        write_routes_spelled(entries) == write_routes_spelled(entries.take(n)),
    decreases entries.len(),
{
    if n == entries.len() {
        assert(entries.take(n) =~= entries);
    } else {
        assert(entries.drop_last().take(n) =~= entries.take(n));
        first_bad_entry_stays(entries.drop_last(), n);
    }
}

/// Reads a list of `<channel-uuid>=<route-id>`; the error is the first entry that is
/// none.
pub fn parse_write_routes(entries: &Vec<String>) -> (r: Result<Vec<WriteRoute>, String>)
    ensures
        match r {
            Ok(routes) => write_routes_spelled(texts(entries@)) == Ok::<
                Seq<(u128, Seq<char>)>,
                Seq<char>,
            >(write_routes_view(routes@)),
            Err(entry) => write_routes_spelled(texts(entries@)) == Err::<
                Seq<(u128, Seq<char>)>,
                Seq<char>,
            >(entry@),
        },
{
    let mut routes: Vec<WriteRoute> = Vec::new();
    let ghost all = texts(entries@);
    let mut i: usize = 0;
    assert(write_routes_view(routes@) =~= Seq::empty());
    while i < entries.len()
        invariant
            i <= entries@.len(),
            all == texts(entries@),
            write_routes_spelled(all.take(i as int)) == Ok::<
                Seq<(u128, Seq<char>)>,
                Seq<char>,
            >(write_routes_view(routes@)),
        decreases entries@.len() - i,
    {
        let ghost before = routes@;
        let ghost upto = all.take(i + 1);
        assert(upto.drop_last() =~= all.take(i as int));
        assert(upto.last() == entries@[i as int]@);
        match parse_write_route(entries[i].as_str()) {
            Some(route) => {
                routes.push(route);
                assert(write_routes_view(routes@) =~= write_routes_view(before).push(
                    (route.channel_id, route.route_id@),
                ));
            },
            None => {
                proof {
                    first_bad_entry_stays(all, i + 1);
                }
                return Err(entries[i].clone());
            },
        }
        i = i + 1;
    }
    assert(all.take(all.len() as int) =~= all);
    Ok(routes)
}

/// Why an executor could not be set up.
#[derive(Debug, PartialEq)]
pub enum GatewayExecutorError {
    Connect(ClientError),
    RouteMissing(String),
    /// A route that is to run write turns does not have the write profile.
    NotAWriteRoute(String),
    /// A route that is to run write turns is not bound to the channel.
    ChannelUnbound(String),
}

/// What a [`GatewayExecutorError`] says.
pub enum SetupError {
    Connect(CallError),
    RouteMissing(Seq<char>),
    NotAWriteRoute(Seq<char>),
    ChannelUnbound(Seq<char>),
}

impl View for GatewayExecutorError {
    type V = SetupError;

    open spec fn view(&self) -> SetupError {
        match self {
            GatewayExecutorError::Connect(error) => SetupError::Connect(error@),
            GatewayExecutorError::RouteMissing(id) => SetupError::RouteMissing(id@),
            GatewayExecutorError::NotAWriteRoute(id) => SetupError::NotAWriteRoute(id@),
            GatewayExecutorError::ChannelUnbound(id) => SetupError::ChannelUnbound(id@),
        }
    }
}

impl SetupError {
    pub open spec fn message(self) -> Seq<char> {
        match self {
            SetupError::Connect(error) => "gateway connection failed: "@ + error.message(),
            SetupError::RouteMissing(id) => "gateway has no route '"@ + id
                + "' — create it with `agent-gateway routes set` first"@,
            SetupError::NotAWriteRoute(id) => "gateway route '"@ + id
                + "' does not use the repository_write profile"@,
            SetupError::ChannelUnbound(id) => "gateway route '"@ + id
                + "' does not bind the channel that is mapped to it"@,
        }
    }
}

impl GatewayExecutorError {
    /// The error in words.
    pub fn message(&self) -> (r: String)
        ensures
            r@ == self@.message(),
    {
        match self {
            GatewayExecutorError::Connect(error) => cat2(
                "gateway connection failed: ",
                error.message().as_str(),
            ),
            GatewayExecutorError::RouteMissing(id) => cat3(
                "gateway has no route '",
                id.as_str(),
                "' — create it with `agent-gateway routes set` first",
            ),
            GatewayExecutorError::NotAWriteRoute(id) => cat3(
                "gateway route '",
                id.as_str(),
                "' does not use the repository_write profile",
            ),
            GatewayExecutorError::ChannelUnbound(id) => cat3(
                "gateway route '",
                id.as_str(),
                "' does not bind the channel that is mapped to it",
            ),
        }
    }
}

/// The first route of that id, if there is one at or after `from`.
pub open spec fn route_at(routes: Seq<RouteView>, id: Seq<char>, from: int) -> Option<int>
    decreases routes.len() - from,
{
    if from < 0 || from >= routes.len() {
        None
    } else if routes[from].id@ == id {
        Some(from)
    } else {
        route_at(routes, id, from + 1)
    }
}

/// What is wrong with a write mapping, given the routes of the gateway.
pub open spec fn write_route_fault(mapping: WriteRoute, routes: Seq<RouteView>) -> Option<
    SetupError,
> {
    let id = mapping.route_id@;
    match route_at(routes, id, 0) {
        None => Some(SetupError::RouteMissing(id)),
        Some(at) => if routes[at].permission_profile@ != "repository_write"@ {
            Some(SetupError::NotAWriteRoute(id))
        } else if !texts(routes[at].contexts@).contains(hyphenated_uuid(mapping.channel_id)) {
            Some(SetupError::ChannelUnbound(id))
        } else {
            None
        },
    }
}

/// The first fault among the write mappings at or after `from`.
pub open spec fn first_fault(mappings: Seq<WriteRoute>, routes: Seq<RouteView>, from: int) -> Option<
    SetupError,
>
    decreases mappings.len() - from,
{
    if from < 0 || from >= mappings.len() {
        None
    } else {
        match write_route_fault(mappings[from], routes) {
            Some(fault) => Some(fault),
            None => first_fault(mappings, routes, from + 1),
        }
    }
}

fn find_route(routes: &Vec<RouteView>, id: &str) -> (r: Option<usize>)
    ensures
        match r {
            Some(at) => route_at(routes@, id@, 0) == Some(at as int) && at < routes@.len(),
            None => route_at(routes@, id@, 0) is None,
        },
{
    let mut i: usize = 0;
    while i < routes.len()
        invariant
            i <= routes@.len(),
            route_at(routes@, id@, 0) == route_at(routes@, id@, i as int),
        decreases routes@.len() - i,
    {
        if same_text(routes[i].id.as_str(), id) {
            return Some(i);
        }
        i = i + 1;
    }
    None
}

fn has_text(all: &Vec<String>, text: &str) -> (r: bool)
    ensures
        r == texts(all@).contains(text@),
{
    let mut i: usize = 0;
    while i < all.len()
        invariant
            i <= all@.len(),
            forall|j: int| 0 <= j < i ==> (#[trigger] all@[j])@ != text@,
        decreases all@.len() - i,
    {
        if same_text(all[i].as_str(), text) {
            assert(texts(all@)[i as int] == text@);
            return true;
        }
        i = i + 1;
    }
    proof {
        if texts(all@).contains(text@) {
            let j = choose|j: int| 0 <= j < texts(all@).len() && texts(all@)[j] == text@;
            assert(all@[j]@ == text@);
        }
    }
    false
}

fn check_write_route(mapping: &WriteRoute, routes: &Vec<RouteView>) -> (r: Option<
    GatewayExecutorError,
>)
    ensures
        match r {
            Some(error) => write_route_fault(*mapping, routes@) == Some(error@),
            None => write_route_fault(*mapping, routes@) is None,
        },
{
    match find_route(routes, mapping.route_id.as_str()) {
        None => Some(GatewayExecutorError::RouteMissing(mapping.route_id.clone())),
        Some(at) => {
            if !same_text(routes[at].permission_profile.as_str(), "repository_write") {
                Some(GatewayExecutorError::NotAWriteRoute(mapping.route_id.clone()))
            } else if !has_text(&routes[at].contexts, uuid_text(mapping.channel_id).as_str()) {
                Some(GatewayExecutorError::ChannelUnbound(mapping.route_id.clone()))
            } else {
                None
            }
        },
    }
}

/// The jobs of the turns that are under way: turn id to job id.
pub struct JobTable {
    entries: Vec<(String, String)>,
}

impl JobTable {
    /// No turn occurs twice.
    pub closed spec fn wf(self) -> bool {
        forall|i: int, j: int|
            0 <= i < j < self.entries@.len() ==> (#[trigger] self.entries@[i]).0@ != (
            #[trigger] self.entries@[j]).0@
    }

    /// The job of a turn.
    pub closed spec fn job(self, turn: Seq<char>) -> Option<Seq<char>> {
        if exists|i: int| 0 <= i < self.entries@.len() && (#[trigger] self.entries@[i]).0@ == turn {
            let i = choose|i: int|
                0 <= i < self.entries@.len() && (#[trigger] self.entries@[i]).0@ == turn;
            Some(self.entries@[i].1@)
        } else {
            None
        }
    }

    /// The table without turns.
    pub fn new() -> (r: JobTable)
        ensures
            r.wf(),
            forall|turn: Seq<char>| #[trigger] r.job(turn) is None,
    {
        JobTable { entries: Vec::new() }
    }

    proof fn lemma_job_at(self, i: int)
        requires
            self.wf(),
            0 <= i < self.entries@.len(),
        ensures
            self.job(self.entries@[i].0@) == Some(self.entries@[i].1@),
    {
        let turn = self.entries@[i].0@;
        let k = choose|k: int|
            0 <= k < self.entries@.len() && (#[trigger] self.entries@[k]).0@ == turn;
        assert(0 <= k < self.entries@.len() && self.entries@[k].0@ == turn);
        if k < i {
            assert(self.entries@[k].0@ != self.entries@[i].0@);
        } else if i < k {
            assert(self.entries@[i].0@ != self.entries@[k].0@);
        }
    }

    fn find(&self, turn: &str) -> (r: Option<usize>)
        requires
            self.wf(),
        ensures
            match r {
                Some(i) => i < self.entries@.len() && self.entries@[i as int].0@ == turn@
                    && self.job(turn@) == Some(self.entries@[i as int].1@),
                None => self.job(turn@) is None && forall|i: int|
                    0 <= i < self.entries@.len() ==> (#[trigger] self.entries@[i]).0@ != turn@,
            },
    {
        let mut i: usize = 0;
        while i < self.entries.len()
            invariant
                self.wf(),
                i <= self.entries@.len(),
                forall|j: int| 0 <= j < i ==> (#[trigger] self.entries@[j]).0@ != turn@,
            decreases self.entries@.len() - i,
        {
            if same_text(self.entries[i].0.as_str(), turn) {
                proof {
                    self.lemma_job_at(i as int);
                }
                return Some(i);
            }
            i = i + 1;
        }
        None
    }

    /// The job of a turn.
    pub fn get(&self, turn: &str) -> (r: Option<String>)
        requires
            self.wf(),
        ensures
            opt_text(r) == self.job(turn@),
    {
        match self.find(turn) {
            Some(i) => Some(self.entries[i].1.clone()),
            None => None,
        }
    }

    /// Forgets a turn.
    pub fn remove(&mut self, turn: &str)
        requires
            old(self).wf(),
        ensures
            final(self).wf(),
            final(self).job(turn@) is None,
            forall|other: Seq<char>|
                other != turn@ ==> #[trigger] final(self).job(other) == old(self).job(other),
    {
        let found: Option<usize> = self.find(turn);
        let ghost before = *self;
        if let Some(i) = found {
            self.entries.remove(i);
            proof {
                let after = *self;
                assert forall|j: int, k: int|
                    0 <= j < k < after.entries@.len() implies (#[trigger] after.entries@[j]).0@
                    != (#[trigger] after.entries@[k]).0@ by {
                    let x = if j < i { j } else { j + 1 };
                    let y = if k < i { k } else { k + 1 };
                    assert(before.entries@[x].0@ != before.entries@[y].0@);
                }
                assert(after.wf());
                assert forall|j: int| 0 <= j < after.entries@.len() implies (
                #[trigger] after.entries@[j]).0@ != turn@ by {
                    let x = if j < i { j } else { j + 1 };
                    if x < i {
                        assert(before.entries@[x].0@ != before.entries@[i as int].0@);
                    } else {
                        assert(before.entries@[i as int].0@ != before.entries@[x].0@);
                    }
                    assert(after.entries@[j] == before.entries@[x]);
                }
                assert forall|other: Seq<char>| other != turn@ implies #[trigger] after.job(other)
                    == before.job(other) by {
                    if exists|j: int|
                        0 <= j < before.entries@.len() && (#[trigger] before.entries@[j]).0@
                            == other {
                        let x = choose|j: int|
                            0 <= j < before.entries@.len() && (#[trigger] before.entries@[j]).0@
                                == other;
                        let j = if x < i { x } else { x - 1 };
                        assert(after.entries@[j] == before.entries@[x]);
                        after.lemma_job_at(j);
                        before.lemma_job_at(x);
                    } else {
                        assert forall|j: int| 0 <= j < after.entries@.len() implies (
                        #[trigger] after.entries@[j]).0@ != other by {
                            let x = if j < i { j } else { j + 1 };
                            assert(after.entries@[j] == before.entries@[x]);
                            assert(before.entries@[x].0@ != other);
                        }
                    }
                }
            }
        }
    }

    /// Records the job of a turn.
    pub fn insert(&mut self, turn: &str, job: &str)
        requires
            old(self).wf(),
        ensures
            final(self).wf(),
            final(self).job(turn@) == Some(job@),
            forall|other: Seq<char>|
                other != turn@ ==> #[trigger] final(self).job(other) == old(self).job(other),
    {
        self.remove(turn);
        let ghost between = *self;
        assert(forall|i: int|
            0 <= i < between.entries@.len() ==> (#[trigger] between.entries@[i]).0@ != turn@);
        self.entries.push((turn.to_owned(), job.to_owned()));
        proof {
            let after = *self;
            let last = after.entries@.len() - 1;
            assert forall|j: int, k: int|
                0 <= j < k < after.entries@.len() implies (#[trigger] after.entries@[j]).0@ != (
            #[trigger] after.entries@[k]).0@ by {
                assert(after.entries@[j] == between.entries@[j]);
                if k < last {
                    assert(after.entries@[k] == between.entries@[k]);
                }
            }
            assert(after.wf());
            after.lemma_job_at(last);
            assert forall|other: Seq<char>| other != turn@ implies #[trigger] after.job(other)
                == between.job(other) by {
                if exists|j: int|
                    0 <= j < between.entries@.len() && (#[trigger] between.entries@[j]).0@ == other {
                    let x = choose|j: int|
                        0 <= j < between.entries@.len() && (#[trigger] between.entries@[j]).0@
                            == other;
                    assert(after.entries@[x] == between.entries@[x]);
                    after.lemma_job_at(x);
                    between.lemma_job_at(x);
                } else {
                    assert forall|j: int| 0 <= j < after.entries@.len() implies (
                    #[trigger] after.entries@[j]).0@ != other by {
                        if j < last {
                            assert(after.entries@[j] == between.entries@[j]);
                        }
                    }
                }
            }
        }
    }
}

/// The write mapping of a channel at or after `from`, if it has one.
pub open spec fn mapped_route(mappings: Seq<WriteRoute>, channel: u128, from: int) -> Option<
    Seq<char>,
>
    decreases mappings.len() - from,
{
    if from < 0 || from >= mappings.len() {
        None
    } else if mappings[from].channel_id == channel {
        Some(mappings[from].route_id@)
    } else {
        mapped_route(mappings, channel, from + 1)
    }
}

/// A job under way: its id, and how many polls in a row have failed.
#[derive(Debug, PartialEq)]
pub struct Polling {
    pub job_id: String,
    pub failures: u32,
}

/// What to do for a turn: poll its job after the interval, or report its outcome.
#[derive(Debug, PartialEq)]
pub enum TurnStep {
    Poll(Polling),
    Done(TurnOutcome),
}

/// What a [`TurnStep`] says.
pub enum Step {
    Poll { job: Seq<char>, failures: u32 },
    Done(Outcome),
}

impl View for TurnStep {
    type V = Step;

    open spec fn view(&self) -> Step {
        match self {
            TurnStep::Poll(polling) => Step::Poll {
                job: polling.job_id@,
                failures: polling.failures,
            },
            TurnStep::Done(outcome) => Step::Done(outcome@),
        }
    }
}

/// What the answer to a submission leads to.
pub open spec fn after_submit(reply: Result<String, ClientError>) -> Step {
    match reply {
        Ok(job) => Step::Poll { job: job@, failures: 0 },
        Err(error) => Step::Done(
            Outcome::Failed("gateway submit failed: "@ + error@.message()),
        ),
    }
}

/// What the answer to a poll leads to, after `failures` failed polls in a row.
pub open spec fn after_poll(
    job: Seq<char>,
    failures: u32,
    reply: Result<JobView, ClientError>,
) -> Step {
    match reply {
        Ok(view) => match job_outcome(
            view.state@,
            opt_text(view.reason),
            match view.result {
                Some(result) => Some(result.summary@),
                None => None,
            },
        ) {
            Some(outcome) => Step::Done(outcome),
            None => Step::Poll { job, failures: 0 },
        },
        Err(error) => if failures + 1 >= MAX_CONSECUTIVE_POLL_FAILURES {
            Step::Done(
                Outcome::Unknown(
                    "lost contact with gateway while polling job "@ + job + ": "@
                        + error@.message(),
                ),
            )
        } else {
            Step::Poll { job, failures: (failures + 1) as u32 }
        },
    }
}

/// Runs turns on a host agent gateway.
pub struct GatewayExecutor {
    route_id: String,
    write_routes: Vec<WriteRoute>,
    /// Turn id to gateway job id, for cancellation. A turn's entry goes when the
    /// turn reaches a terminal outcome.
    jobs: JobTable,
}

impl GatewayExecutor {
    pub closed spec fn wf(self) -> bool {
        self.jobs.wf()
    }

    /// The route of the channels that are not mapped to one of their own.
    pub closed spec fn route(self) -> Seq<char> {
        self.route_id@
    }

    pub closed spec fn mappings(self) -> Seq<WriteRoute> {
        self.write_routes@
    }

    /// The job of a turn that is under way.
    pub closed spec fn job(self, turn: Seq<char>) -> Option<Seq<char>> {
        self.jobs.job(turn)
    }

    /// Checks the configured routes against those that the gateway lists, so that
    /// a missing route fails at startup and not at the first turn.
    pub fn connect(
        route_id: String,
        write_routes: Vec<WriteRoute>,
        listing: Result<Vec<RouteView>, ClientError>,
    ) -> (r: Result<GatewayExecutor, GatewayExecutorError>)
        ensures
            match listing {
                Err(error) => r matches Err(e) && e@ == SetupError::Connect(error@),
                Ok(routes) => if route_at(routes@, route_id@, 0) is None {
                    r matches Err(e) && e@ == SetupError::RouteMissing(route_id@)
                } else {
                    match first_fault(write_routes@, routes@, 0) {
                        Some(fault) => r matches Err(e) && e@ == fault,
                        None => r matches Ok(executor) && executor.wf() && executor.route()
                            == route_id@ && executor.mappings() == write_routes@ && forall|
                            turn: Seq<char>,
                        | #[trigger] executor.job(turn) is None,
                    }
                },
            },
    {
        let routes: Vec<RouteView> = match listing {
            Ok(routes) => routes,
            Err(error) => {
                return Err(GatewayExecutorError::Connect(error));
            },
        };
        if find_route(&routes, route_id.as_str()).is_none() {
            return Err(GatewayExecutorError::RouteMissing(route_id));
        }
        let mut i: usize = 0;
        while i < write_routes.len()
            invariant
                i <= write_routes@.len(),
                listing == Ok::<Vec<RouteView>, ClientError>(routes),
                route_at(routes@, route_id@, 0) is Some,
                first_fault(write_routes@, routes@, 0) == first_fault(
                    write_routes@,
                    routes@,
                    i as int,
                ),
            decreases write_routes@.len() - i,
        {
            match check_write_route(&write_routes[i], &routes) {
                Some(error) => {
                    return Err(error);
                },
                None => {},
            }
            i = i + 1;
        }
        Ok(GatewayExecutor { route_id, write_routes, jobs: JobTable::new() })
    }

    /// The route of the channels that are not mapped to one of their own.
    pub fn route_id(&self) -> (r: &str)
        ensures
            r@ == self.route(),
    {
        self.route_id.as_str()
    }

    fn write_route_of(&self, channel_id: u128) -> (r: Option<String>)
        ensures
            opt_text(r) == mapped_route(self.mappings(), channel_id, 0),
    {
        let mut i: usize = 0;
        while i < self.write_routes.len()
            invariant
                i <= self.write_routes@.len(),
                mapped_route(self.mappings(), channel_id, 0) == mapped_route(
                    self.write_routes@,
                    channel_id,
                    i as int,
                ),
            decreases self.write_routes@.len() - i,
        {
            if self.write_routes[i].channel_id == channel_id {
                return Some(self.write_routes[i].route_id.clone());
            }
            i = i + 1;
        }
        None
    }

    /// The job that runs a turn. A channel with a mapping of its own runs on its
    /// write route under the write contract. Every other turn runs on the common
    /// route, may read the repository, and is never replayable, since it publishes
    /// to the relay.
    pub fn run_turn(
        &self,
        channel_id: u128,
        turn_id: &str,
        payload: &Json,
        timeout_ms: Option<i64>,
    ) -> (r: SubmitJobRequest)
        ensures
            match mapped_route(self.mappings(), channel_id, 0) {
                Some(route) => {
                    &&& opt_text(r.route_id) == Some(route)
                    &&& opt_text(r.permission_profile) == Some("repository_write"@)
                    &&& opt_text(r.side_effect_class) == Some("workspace_write"@)
                },
                None => {
                    &&& opt_text(r.route_id) == Some(self.route())
                    &&& opt_text(r.permission_profile) == Some("repository_read"@)
                    &&& opt_text(r.side_effect_class) == Some("external_effects"@)
                },
            },
            r.agent_id is None,
            r.context_id is None,
            opt_text(r.thread_id) == Some(hyphenated_uuid(channel_id)),
            r.task@ == json_text(payload@),
            r.priority is None,
            r.timeout_ms == timeout_ms,
            opt_text(r.idempotency_key) == Some(turn_id@),
            r.source_id is None,
    {
        let (route_id, profile, effects): (String, &str, &str) = match self.write_route_of(
            channel_id,
        ) {
            Some(route_id) => (route_id, "repository_write", "workspace_write"),
            None => (self.route_id.clone(), "repository_read", "external_effects"),
        };
        SubmitJobRequest {
            route_id: Some(route_id),
            agent_id: None,
            context_id: None,
            thread_id: Some(uuid_text(channel_id)),
            task: encode(payload),
            permission_profile: Some(profile.to_owned()),
            side_effect_class: Some(effects.to_owned()),
            priority: None,
            timeout_ms,
            // Submitting the turn again after a restart finds the same job.
            idempotency_key: Some(turn_id.to_owned()),
            source_id: None,
        }
    }

    /// Takes in the answer to a turn's submission: the job's id, or the error.
    pub fn submitted(&mut self, turn_id: &str, reply: Result<String, ClientError>) -> (r: TurnStep)
        requires
            old(self).wf(),
        ensures
            final(self).wf(),
            final(self).route() == old(self).route(),
            final(self).mappings() == old(self).mappings(),
            r@ == after_submit(reply),
            reply matches Ok(job) ==> final(self).job(turn_id@) == Some(job@),
            reply is Err ==> final(self).job(turn_id@) == old(self).job(turn_id@),
            forall|other: Seq<char>|
                other != turn_id@ ==> #[trigger] final(self).job(other) == old(self).job(other),
    {
        match reply {
            Ok(job_id) => {
                self.jobs.insert(turn_id, job_id.as_str());
                TurnStep::Poll(Polling { job_id, failures: 0 })
            },
            Err(error) => TurnStep::Done(
                TurnOutcome::Failed {
                    reason: cat2("gateway submit failed: ", error.message().as_str()),
                },
            ),
        }
    }

    /// Takes in the answer to a poll. The turn's entry goes when it is done.
    pub fn polled(
        &mut self,
        turn_id: &str,
        polling: Polling,
        reply: Result<JobView, ClientError>,
    ) -> (r: TurnStep)
        requires
            old(self).wf(),
            polling.failures < u32::MAX,
        ensures
            final(self).wf(),
            final(self).route() == old(self).route(),
            final(self).mappings() == old(self).mappings(),
            r@ == after_poll(polling.job_id@, polling.failures, reply),
            r is Done ==> final(self).job(turn_id@) is None,
            r is Poll ==> final(self).job(turn_id@) == old(self).job(turn_id@),
            forall|other: Seq<char>|
                other != turn_id@ ==> #[trigger] final(self).job(other) == old(self).job(other),
    {
        let outcome: TurnOutcome = match reply {
            Ok(job) => {
                let reason: Option<&str> = match &job.reason {
                    Some(reason) => Some(reason.as_str()),
                    None => None,
                };
                let summary: Option<&str> = match &job.result {
                    Some(result) => Some(result.summary.as_str()),
                    None => None,
                };
                match map_job_state(job.state.as_str(), reason, summary) {
                    Some(outcome) => outcome,
                    None => {
                        return TurnStep::Poll(Polling { job_id: polling.job_id, failures: 0 });
                    },
                }
            },
            Err(error) => {
                let failures: u32 = polling.failures + 1;
                if failures < MAX_CONSECUTIVE_POLL_FAILURES {
                    return TurnStep::Poll(Polling { job_id: polling.job_id, failures });
                }
                TurnOutcome::UnknownOutcome {
                    reason: cat4(
                        "lost contact with gateway while polling job ",
                        polling.job_id.as_str(),
                        ": ",
                        error.message().as_str(),
                    ),
                }
            },
        };
        self.jobs.remove(turn_id);
        TurnStep::Done(outcome)
    }

    /// The job to cancel for a turn; none, if the turn is not under way.
    pub fn cancel_turn(&self, turn_id: &str) -> (r: Option<String>)
        requires
            self.wf(),
        ensures
            opt_text(r) == self.job(turn_id@),
    {
        self.jobs.get(turn_id)
    }
}

/// The number of failed polls in a row stays below the limit while a turn is
/// polled: whatever the answers are, a turn that goes on is still within it.
pub proof fn polling_stays_within_the_limit(
    job: Seq<char>,
    failures: u32,
    reply: Result<JobView, ClientError>,
)
    requires
        failures < MAX_CONSECUTIVE_POLL_FAILURES,
    ensures
        after_poll(job, failures, reply) matches Step::Poll { job: next, failures: count } ==> next
            == job && count < MAX_CONSECUTIVE_POLL_FAILURES,
{
}

/// The steps of a turn whose polls fail one after the other.
pub open spec fn after_failures(job: Seq<char>, errors: Seq<ClientError>) -> Step
    decreases errors.len(),
{
    if errors.len() == 0 {
        Step::Poll { job, failures: 0 }
    } else {
        match after_failures(job, errors.drop_last()) {
            Step::Poll { job, failures } => after_poll(
                job,
                failures,
                Err::<JobView, ClientError>(errors.last()),
            ),
            done => done,
        }
    }
}

/// A turn outlives any row of failed polls shorter than the limit, and a row as
/// long as the limit makes its outcome unknown, never failed or canceled.
pub proof fn lost_contact_is_unknown(job: Seq<char>, errors: Seq<ClientError>)
    requires
        errors.len() <= MAX_CONSECUTIVE_POLL_FAILURES,
    ensures
        errors.len() < MAX_CONSECUTIVE_POLL_FAILURES ==> after_failures(job, errors) == (
        Step::Poll { job, failures: errors.len() as u32 }),
        errors.len() == MAX_CONSECUTIVE_POLL_FAILURES ==> (after_failures(
            job,
            errors,
        ) matches Step::Done(outcome) && outcome is Unknown),
    decreases errors.len(),
{
    if errors.len() > 0 {
        lost_contact_is_unknown(job, errors.drop_last());
    }
}

/// A canceled job that had effects is reported as `reconciling`. That is never a
/// clean cancel, and neither is a job of unknown outcome.
pub proof fn reconciling_is_never_a_clean_cancel(
    reason: Option<Seq<char>>,
    summary: Option<Seq<char>>,
)
    ensures
        job_outcome("reconciling"@, reason, summary) matches Some(outcome) && outcome is Unknown,
        job_outcome("unknown_outcome"@, reason, summary) matches Some(outcome)
            && outcome is Unknown,
{
    reveal_strlit("reconciling");
    reveal_strlit("unknown_outcome");
    reveal_strlit("completed");
    reveal_strlit("failed");
    reveal_strlit("rejected");
    reveal_strlit("canceled");
    assert("reconciling"@.len() == 11 && "unknown_outcome"@.len() == 15);
    assert("completed"@.len() == 9 && "failed"@.len() == 6);
    assert("rejected"@.len() == 8 && "canceled"@.len() == 8);
}

/// Only a job that is reported as canceled makes a canceled turn, and only one
/// that is reported as completed a completed turn.
pub proof fn outcome_tells_the_state(
    state: Seq<char>,
    reason: Option<Seq<char>>,
    summary: Option<Seq<char>>,
)
    ensures
        job_outcome(state, reason, summary) == Some(Outcome::Canceled) ==> state == "canceled"@,
        (job_outcome(state, reason, summary) matches Some(outcome) && outcome is Completed)
            ==> state == "completed"@,
{
}

/// A channel is run under the write contract only by a mapping that names that
/// very channel, and then on the route that the mapping names.
pub proof fn writing_takes_an_explicit_mapping(
    mappings: Seq<WriteRoute>,
    channel: u128,
    from: int,
)
    requires
        0 <= from,
    ensures
        mapped_route(mappings, channel, from) matches Some(route) ==> exists|i: int|
            from <= i < mappings.len() && (#[trigger] mappings[i]).channel_id == channel
                && mappings[i].route_id@ == route,
        mapped_route(mappings, channel, from) is None ==> forall|i: int|
            from <= i < mappings.len() ==> (#[trigger] mappings[i]).channel_id != channel,
    decreases mappings.len() - from,
{
    if from < mappings.len() && mappings[from].channel_id != channel {
        writing_takes_an_explicit_mapping(mappings, channel, from + 1);
    }
}

/// Mappings without a fault all name routes of the gateway that have the write
/// profile and are bound to the mapped channel.
pub proof fn faultless_mappings_are_write_routes(
    mappings: Seq<WriteRoute>,
    routes: Seq<RouteView>,
    from: int,
)
    requires
        0 <= from,
        first_fault(mappings, routes, from) is None,
    ensures
        forall|i: int|
            from <= i < mappings.len() ==> exists|at: int|
                #![trigger routes[at]]
                0 <= at < routes.len() && routes[at].id@ == (#[trigger] mappings[i]).route_id@
                    && routes[at].permission_profile@ == "repository_write"@ && texts(
                    routes[at].contexts@,
                ).contains(hyphenated_uuid(mappings[i].channel_id)),
    decreases mappings.len() - from,
{
    if from < mappings.len() {
        faultless_mappings_are_write_routes(mappings, routes, from + 1);
        route_at_finds(routes, mappings[from].route_id@, 0);
    }
}

proof fn route_at_finds(routes: Seq<RouteView>, id: Seq<char>, from: int)
    requires
        0 <= from,
    ensures
        route_at(routes, id, from) matches Some(at) ==> from <= at < routes.len()
            && routes[at].id@ == id,
    decreases routes.len() - from,
{
    if from < routes.len() && routes[from].id@ != id {
        route_at_finds(routes, id, from + 1);
    }
}

/// The states of jobs are told apart.
proof fn lemma_job_states()
    ensures
        "completed"@.len() == 9,
        "failed"@.len() == 6,
        "rejected"@.len() == 8 && "rejected"@[0] == 'r',
        "canceled"@.len() == 8 && "canceled"@[0] == 'c',
        "unknown_outcome"@.len() == 15,
        "reconciling"@.len() == 11,
{
    reveal_strlit("completed");
    reveal_strlit("failed");
    reveal_strlit("rejected");
    reveal_strlit("canceled");
    reveal_strlit("unknown_outcome");
    reveal_strlit("reconciling");
}

/// A job is over in just six states, whatever else is reported of it. A job that
/// completed makes a completed turn, one that failed or was rejected a failed turn, one
/// that was canceled a canceled turn, and one that is reconciled or whose outcome is not
/// known a turn of unknown outcome.
pub proof fn six_states_end_a_job(
    state: Seq<char>,
    reason: Option<Seq<char>>,
    summary: Option<Seq<char>>,
)
    ensures
        ({
            let outcome = job_outcome(state, reason, summary);
            &&& outcome is Some <==> seq![
                "completed"@,
                "failed"@,
                "rejected"@,
                "canceled"@,
                "unknown_outcome"@,
                "reconciling"@,
            ].contains(state)
            &&& (outcome is Some && outcome->0 is Completed) <==> state == "completed"@
            &&& (outcome is Some && outcome->0 is Failed) <==> (state == "failed"@ || state
                == "rejected"@)
            &&& outcome == Some(Outcome::Canceled) <==> state == "canceled"@
            &&& (outcome is Some && outcome->0 is Unknown) <==> (state == "unknown_outcome"@
                || state == "reconciling"@)
        }),
{
    lemma_job_states();
    let six = seq![
        "completed"@,
        "failed"@,
        "rejected"@,
        "canceled"@,
        "unknown_outcome"@,
        "reconciling"@,
    ];
    assert(six[0] == "completed"@ && six[1] == "failed"@ && six[2] == "rejected"@ && six[3]
        == "canceled"@ && six[4] == "unknown_outcome"@ && six[5] == "reconciling"@);
}

/// What is told of a turn is what was reported of its job: the summary of one that
/// completed, which may be empty; of one that failed the summary, if that says anything,
/// else the reason; of one whose outcome is unknown the reason.
pub proof fn job_report_is_passed_on(
    state: Seq<char>,
    reason: Option<Seq<char>>,
    summary: Option<Seq<char>>,
)
    ensures
        match job_outcome(state, reason, summary) {
            Some(Outcome::Completed(text)) => {
                &&& summary is Some ==> text == summary->0
                &&& summary is None ==> text.len() == 0
            },
            Some(Outcome::Failed(text)) => if summary is Some && summary->0.len() > 0 {
                text == summary->0
            } else if reason is Some {
                text == reason->0
            } else {
                text == "gateway job failed"@
            },
            Some(Outcome::Unknown(text)) => if reason is Some {
                text == reason->0
            } else {
                text == "gateway reported unknown outcome"@
            },
            _ => true,
        },
{
}

/// A turn whose submission was taken polls just that job; one whose submission failed has
/// failed, and says why.
pub proof fn submission_is_polled(reply: Result<String, ClientError>)
    ensures
        match reply {
            Ok(job) => after_submit(reply) == (Step::Poll { job: job@, failures: 0 }),
            Err(error) => after_submit(reply) == Step::Done(
                Outcome::Failed("gateway submit failed: "@ + error@.message()),
            ),
        },
{
}

/// A poll that is answered ends the turn where the job's state ends the job, as the report
/// has it, and else the same job is polled on, with all failures before it forgotten.
pub proof fn answered_poll_decides(job: Seq<char>, failures: u32, view: JobView)
    ensures
        ({
            let step = after_poll(job, failures, Ok::<JobView, ClientError>(view));
            let summary = match view.result {
                Some(result) => Some(result.summary@),
                None => None,
            };
            if seq![
                "completed"@,
                "failed"@,
                "rejected"@,
                "canceled"@,
                "unknown_outcome"@,
                "reconciling"@,
            ].contains(view.state@) {
                step is Done && job_outcome(view.state@, opt_text(view.reason), summary) == Some(
                    step->Done_0,
                )
            } else {
                step == (Step::Poll { job, failures: 0 })
            }
        }),
{
    let summary = match view.result {
        Some(result) => Some(result.summary@),
        None => None,
    };
    six_states_end_a_job(view.state@, opt_text(view.reason), summary);
}

/// A poll that fails is followed by another poll of the same job, unless it is the
/// twentieth failure in a row: then contact is lost, and the outcome is unknown; the job
/// and the last failure are named.
pub proof fn failed_poll_is_counted(job: Seq<char>, failures: u32, error: ClientError)
    requires
        failures < u32::MAX,
    ensures
        after_poll(job, failures, Err::<JobView, ClientError>(error)) == if failures < 19 {
            Step::Poll { job, failures: (failures + 1) as u32 }
        } else {
            Step::Done(
                Outcome::Unknown(
                    "lost contact with gateway while polling job "@ + job + ": "@
                        + error@.message(),
                ),
            )
        },
{
}

/// A mapping is spelled by the text of a channel's UUID, an equals sign and the id of a
/// route, which is all that follows the first equals sign.
pub proof fn mapping_is_read_at_its_first_equals_sign(
    channel: Seq<char>,
    route: Seq<char>,
    entry: Seq<char>,
)
    ensures
        !channel.contains('=') ==> write_route_spelled(channel + seq!['='] + route) == match uuid_parsed(
            channel,
        ) {
            Some(id) => Some((id, route)),
            None => None,
        },
        !entry.contains('=') ==> write_route_spelled(entry) is None,
{
    if !channel.contains('=') {
        crate::text::split_at_first(channel, '=', route);
    }
    if !entry.contains('=') {
        crate::text::no_split_without_separator(entry, '=');
    }
}

/// A list of mappings is read entry by entry: each gives its mapping, in order, and the
/// first that is none is the error.
pub proof fn mappings_are_read_in_order(entries: Seq<Seq<char>>)
    ensures
        match write_routes_spelled(entries) {
            Ok(routes) => routes.len() == entries.len() && forall|i: int|
                0 <= i < entries.len() ==> write_route_spelled(#[trigger] entries[i]) == Some(
                    routes[i],
                ),
            Err(entry) => exists|i: int|
                0 <= i < entries.len() && #[trigger] entries[i] == entry && write_route_spelled(
                    entry,
                ) is None && forall|j: int|
                    0 <= j < i ==> write_route_spelled(#[trigger] entries[j]) is Some,
        },
    decreases entries.len(),
{
    if entries.len() > 0 {
        let front = entries.drop_last();
        mappings_are_read_in_order(front);
        match write_routes_spelled(front) {
            Ok(routes) => {
                assert forall|i: int| 0 <= i < front.len() implies write_route_spelled(
                    #[trigger] entries[i],
                ) == Some(routes[i]) by {
                    assert(front[i] == entries[i]);
                }
                assert(entries[entries.len() - 1] == entries.last());
            },
            Err(entry) => {
                let i = choose|i: int|
                    0 <= i < front.len() && #[trigger] front[i] == entry && write_route_spelled(
                        entry,
                    ) is None && forall|j: int|
                        0 <= j < i ==> write_route_spelled(#[trigger] front[j]) is Some;
                assert(entries[i] == entry);
                assert forall|j: int| 0 <= j < i implies write_route_spelled(
                    #[trigger] entries[j],
                ) is Some by {
                    assert(front[j] == entries[j]);
                }
            },
        }
    }
}

/// The route of an id is the first that has it, and there is none where no route has it.
pub proof fn first_route_of_an_id_counts(routes: Seq<RouteView>, id: Seq<char>, from: int)
    requires
        0 <= from,
    ensures
        match route_at(routes, id, from) {
            Some(at) => from <= at < routes.len() && routes[at].id@ == id && forall|i: int|
                from <= i < at ==> (#[trigger] routes[i]).id@ != id,
            None => forall|i: int| from <= i < routes.len() ==> (#[trigger] routes[i]).id@ != id,
        },
    decreases routes.len() - from,
{
    if from < routes.len() && routes[from].id@ != id {
        first_route_of_an_id_counts(routes, id, from + 1);
    }
}

/// What is wrong with a mapping: its route is missing where no route of the gateway has
/// its id. Else the first route of that id decides: it must have the write profile, and
/// list the channel's UUID among its contexts.
pub proof fn mapping_faults_are_exact(mapping: WriteRoute, routes: Seq<RouteView>)
    ensures
        ({
            let id = mapping.route_id@;
            let fault = write_route_fault(mapping, routes);
            let named = exists|i: int|
                0 <= i < routes.len() && (#[trigger] routes[i]).id@ == id;
            &&& fault == Some(SetupError::RouteMissing(id)) <==> !named
            &&& forall|at: int|
                0 <= at < routes.len() && (#[trigger] routes[at]).id@ == id && (forall|i: int|
                    0 <= i < at ==> (#[trigger] routes[i]).id@ != id) ==> {
                    let writes = routes[at].permission_profile@ == "repository_write"@;
                    let bound = exists|k: int|
                        0 <= k < routes[at].contexts@.len() && (#[trigger] routes[at].contexts@[k])@
                            == hyphenated_uuid(mapping.channel_id);
                    &&& fault == Some(SetupError::NotAWriteRoute(id)) <==> !writes
                    &&& fault == Some(SetupError::ChannelUnbound(id)) <==> writes && !bound
                    &&& fault is None <==> writes && bound
                }
        }),
{
    let id = mapping.route_id@;
    first_route_of_an_id_counts(routes, id, 0);
    match route_at(routes, id, 0) {
        Some(at) => {
            assert(routes[at].id@ == id);
            let contexts = routes[at].contexts@;
            let uuid = hyphenated_uuid(mapping.channel_id);
            if texts(contexts).contains(uuid) {
                let k = choose|k: int| 0 <= k < texts(contexts).len() && texts(contexts)[k] == uuid;
                assert(contexts[k]@ == uuid);
            }
            if exists|k: int| 0 <= k < contexts.len() && (#[trigger] contexts[k])@ == uuid {
                let k = choose|k: int| 0 <= k < contexts.len() && (#[trigger] contexts[k])@ == uuid;
                assert(texts(contexts)[k] == uuid);
            }
            assert forall|other: int|
                0 <= other < routes.len() && (#[trigger] routes[other]).id@ == id && (forall|
                    i: int,
                | 0 <= i < other ==> (#[trigger] routes[i]).id@ != id) implies other == at by {
                if at < other {
                    assert(routes[at].id@ != id);
                } else if other < at {
                    assert(routes[other].id@ != id);
                }
            }
        },
        None => {},
    }
}

/// The fault of the first mapping that has one is reported.
pub proof fn first_faulty_mapping_is_reported(
    mappings: Seq<WriteRoute>,
    routes: Seq<RouteView>,
    from: int,
    at: int,
)
    requires
        0 <= from <= at < mappings.len(),
        write_route_fault(mappings[at], routes) is Some,
        forall|i: int|
            from <= i < at ==> write_route_fault(#[trigger] mappings[i], routes) is None,
    ensures
        first_fault(mappings, routes, from) == write_route_fault(mappings[at], routes),
    decreases at - from,
{
    if from < at {
        assert(write_route_fault(mappings[from], routes) is None);
        first_faulty_mapping_is_reported(mappings, routes, from + 1, at);
    }
}

/// No fault is reported where no mapping has one.
pub proof fn faultless_mappings_are_not_reported(
    mappings: Seq<WriteRoute>,
    routes: Seq<RouteView>,
    from: int,
)
    requires
        0 <= from,
        forall|i: int|
            from <= i < mappings.len() ==> write_route_fault(#[trigger] mappings[i], routes)
                is None,
    ensures
        first_fault(mappings, routes, from) is None,
    decreases mappings.len() - from,
{
    if from < mappings.len() {
        assert(write_route_fault(mappings[from], routes) is None);
        faultless_mappings_are_not_reported(mappings, routes, from + 1);
    }
}

/// A channel that is mapped more than once runs on the route of its first mapping.
pub proof fn first_mapping_of_a_channel_counts(
    mappings: Seq<WriteRoute>,
    channel: u128,
    from: int,
    at: int,
)
    requires
        0 <= from <= at < mappings.len(),
        mappings[at].channel_id == channel,
        forall|i: int| from <= i < at ==> (#[trigger] mappings[i]).channel_id != channel,
    ensures
        mapped_route(mappings, channel, from) == Some(mappings[at].route_id@),
    decreases at - from,
{
    if from < at {
        first_mapping_of_a_channel_counts(mappings, channel, from + 1, at);
    }
}

/// A setup error says what is wrong, and with which route or by which failure.
pub proof fn setup_errors_name_their_route(error: CallError, id: Seq<char>)
    ensures
        SetupError::Connect(error).message() == "gateway connection failed: "@ + error.message(),
        SetupError::RouteMissing(id).message() == "gateway has no route '"@ + id
            + "' — create it with `agent-gateway routes set` first"@,
        SetupError::NotAWriteRoute(id).message() == "gateway route '"@ + id
            + "' does not use the repository_write profile"@,
        SetupError::ChannelUnbound(id).message() == "gateway route '"@ + id
            + "' does not bind the channel that is mapped to it"@,
{
}

/// What to do for a turn is seen as it is, and so is what is wrong with a setup.
pub proof fn steps_are_seen_as_they_are(
    step: TurnStep,
    error: GatewayExecutorError,
    routes: Vec<WriteRoute>,
)
    ensures
        match step {
            TurnStep::Poll(polling) => step@ == (Step::Poll {
                job: polling.job_id@,
                failures: polling.failures,
            }),
            TurnStep::Done(outcome) => step@ == Step::Done(outcome@),
        },
        match error {
            GatewayExecutorError::Connect(inner) => error@ == SetupError::Connect(inner@),
            GatewayExecutorError::RouteMissing(id) => error@ == SetupError::RouteMissing(id@),
            GatewayExecutorError::NotAWriteRoute(id) => error@ == SetupError::NotAWriteRoute(id@),
            GatewayExecutorError::ChannelUnbound(id) => error@ == SetupError::ChannelUnbound(id@),
        },
        write_routes_view(routes@).len() == routes@.len(),
        forall|i: int|
            0 <= i < routes@.len() ==> #[trigger] write_routes_view(routes@)[i] == (
                routes@[i].channel_id,
                routes@[i].route_id@,
            ),
{
}

/// A job's state is mapped for what it is: it ends the turn in just six states, and then the
/// outcome has what was reported, the summary as the summary and the reason as the reason.
pub proof fn job_states_are_mapped(
    state: &str,
    reason: Option<&str>,
    summary: Option<&str>,
    r: Option<TurnOutcome>,
)
    requires
        call_ensures(map_job_state, (state, reason, summary), r),
    ensures
        r is Some <==> seq![
            "completed"@,
            "failed"@,
            "rejected"@,
            "canceled"@,
            "unknown_outcome"@,
            "reconciling"@,
        ].contains(state@),
        state@ == "completed"@ ==> (r matches Some(TurnOutcome::Completed { summary: text }) && (
        summary is Some ==> text@ == summary->0@) && (summary is None ==> text@.len() == 0)),
        state@ == "failed"@ || state@ == "rejected"@ ==> (r matches Some(
            TurnOutcome::Failed { reason: text },
        ) && text@ == if summary is Some && summary->0@.len() > 0 {
            summary->0@
        } else if reason is Some {
            reason->0@
        } else {
            "gateway job failed"@
        }),
        state@ == "canceled"@ ==> r == Some(TurnOutcome::Canceled),
        state@ == "unknown_outcome"@ || state@ == "reconciling"@ ==> (r matches Some(
            TurnOutcome::UnknownOutcome { reason: text },
        ) && text@ == if reason is Some {
            reason->0@
        } else {
            "gateway reported unknown outcome"@
        }),
{
    lemma_job_states();
    six_states_end_a_job(state@, opt_str(reason), opt_str(summary));
}

/// The job of a turn names the turn as its key and the channel as its thread, carries the
/// payload and the time that the turn has, and runs on the route of the channel: under the
/// write contract where the channel has a mapping of its own, and else on the common route,
/// where it may only read the repository, and is never replayed.
pub proof fn jobs_say_what_the_turn_says(
    executor: &GatewayExecutor,
    channel_id: u128,
    turn_id: &str,
    payload: &Json,
    timeout_ms: Option<i64>,
    r: SubmitJobRequest,
)
    requires
        call_ensures(
            GatewayExecutor::run_turn,
            (executor, channel_id, turn_id, payload, timeout_ms),
            r,
        ),
    ensures
        r.task@ == json_text(payload@),
        r.timeout_ms == timeout_ms,
        r.idempotency_key is Some && r.idempotency_key->0@ == turn_id@,
        r.thread_id is Some && r.thread_id->0@ == hyphenated_uuid(channel_id),
        r.agent_id is None && r.context_id is None && r.priority is None && r.source_id is None,
        r.route_id is Some && r.permission_profile is Some && r.side_effect_class is Some,
        ({
            let mapping = mapped_route(executor.mappings(), channel_id, 0);
            &&& mapping is Some ==> r.route_id->0@ == mapping->0
            &&& mapping is None ==> r.route_id->0@ == executor.route()
            &&& r.permission_profile->0@ == if mapping is Some {
                "repository_write"@
            } else {
                "repository_read"@
            }
            &&& r.side_effect_class->0@ == if mapping is Some {
                "workspace_write"@
            } else {
                "external_effects"@
            }
        }),
{
}

/// An executor is set up just where the gateway listed its routes, has the common route, and
/// nothing is wrong with any mapping. It then has the route and the mappings that it was
/// given, and no turn under way.
pub proof fn executors_need_their_routes(
    route_id: String,
    write_routes: Vec<WriteRoute>,
    listing: Result<Vec<RouteView>, ClientError>,
    r: Result<GatewayExecutor, GatewayExecutorError>,
)
    requires
        call_ensures(GatewayExecutor::connect, (route_id, write_routes, listing), r),
    ensures
        r is Ok <==> {
            &&& listing is Ok
            &&& route_at(listing->Ok_0@, route_id@, 0) is Some
            &&& first_fault(write_routes@, listing->Ok_0@, 0) is None
        },
        r matches Ok(executor) ==> executor.route() == route_id@ && executor.mappings()
            == write_routes@ && forall|turn: Seq<char>| #[trigger] executor.job(turn) is None,
        listing matches Err(error) ==> r is Err && r->Err_0@ == SetupError::Connect(error@),
        listing is Ok && route_at(listing->Ok_0@, route_id@, 0) is None ==> r->Err_0@
            == SetupError::RouteMissing(route_id@),
        listing is Ok && route_at(listing->Ok_0@, route_id@, 0) is Some && r is Err ==> first_fault(
            write_routes@,
            listing->Ok_0@,
            0,
        ) == Some(r->Err_0@),
{
}

/// A turn whose submission was taken is under way with that job, and is polled for it; a turn
/// whose submission failed has failed. Other turns are left alone.
pub proof fn submitted_turns_are_under_way(
    executor: &mut GatewayExecutor,
    turn_id: &str,
    reply: Result<String, ClientError>,
    r: TurnStep,
)
    requires
        call_ensures(GatewayExecutor::submitted, (executor, turn_id, reply), r),
    ensures
        reply matches Ok(job) ==> {
            &&& final(executor).job(turn_id@) == Some(job@)
            &&& r matches TurnStep::Poll(polling) && polling.job_id@ == job@ && polling.failures
                == 0
        },
        reply matches Err(error) ==> {
            &&& final(executor).job(turn_id@) == old(executor).job(turn_id@)
            &&& r matches TurnStep::Done(TurnOutcome::Failed { reason }) && reason@
                == "gateway submit failed: "@ + error@.message()
        },
        forall|other: Seq<char>|
            other != turn_id@ ==> #[trigger] final(executor).job(other) == old(executor).job(other),
        final(executor).route() == old(executor).route(),
        final(executor).mappings() == old(executor).mappings(),
{
}

/// A turn that is done is under way no more, and one that is polled on still is, with the job
/// that it had. Other turns are left alone.
pub proof fn finished_turns_are_forgotten(
    executor: &mut GatewayExecutor,
    turn_id: &str,
    polling: Polling,
    reply: Result<JobView, ClientError>,
    r: TurnStep,
)
    requires
        call_ensures(GatewayExecutor::polled, (executor, turn_id, polling, reply), r),
    ensures
        r@ == after_poll(polling.job_id@, polling.failures, reply),
        r is Done ==> final(executor).job(turn_id@) is None,
        r is Poll ==> final(executor).job(turn_id@) == old(executor).job(turn_id@),
        forall|other: Seq<char>|
            other != turn_id@ ==> #[trigger] final(executor).job(other) == old(executor).job(other),
        final(executor).route() == old(executor).route(),
        final(executor).mappings() == old(executor).mappings(),
{
}

/// What is canceled for a turn is its own job, and nothing where it is not under way.
pub proof fn canceling_a_turn_cancels_its_job(
    executor: &GatewayExecutor,
    turn_id: &str,
    r: Option<String>,
)
    requires
        call_ensures(GatewayExecutor::cancel_turn, (executor, turn_id), r),
    ensures
        r is Some <==> executor.job(turn_id@) is Some,
        r matches Some(job) ==> executor.job(turn_id@) == Some(job@),
{
}

} // verus!
