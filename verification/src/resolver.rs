//! Which page to ask for, and what to do with the answer.
//!
//! A lookup asks for the common page first. If that attempt fails, for
//! whatever reason, it asks once more, for the page of the host's own
//! platform. The failure of the first attempt is forgotten: only that of the
//! second is ever reported.
//!
//! The resolver sends nothing. It names the request to send, is told what
//! came back, and says what to do next.

use vstd::prelude::*;
use crate::error::{Error, ErrorView};
use crate::platform::{Host, Platform};
use crate::request::{page_request, Request, RequestView};
use crate::status::{is_success, status_is_success};

verus! {

/// What came back from sending one request.
#[derive(Clone, Debug, PartialEq, Eq)]
pub enum FetchOutcome {
    /// No answer was obtained.
    Failed {
        /// The transport's description of what went wrong.
        cause: String,
    },
    /// An answer arrived.
    Answered {
        /// The status code of the answer.
        status: u16,
    },
}

/// A [`FetchOutcome`] as a mathematical value.
pub enum FetchOutcomeView {
    Failed { cause: Seq<char> },
    Answered { status: u16 },
}

impl View for FetchOutcome {
    type V = FetchOutcomeView;

    open spec fn view(&self) -> FetchOutcomeView {
        match self {
            FetchOutcome::Failed { cause } => FetchOutcomeView::Failed { cause: cause@ },
            FetchOutcome::Answered { status } => FetchOutcomeView::Answered { status: *status },
        }
    }
}

impl FetchOutcomeView {
    /// Whether the attempt succeeded: an answer arrived, and its status
    /// reports success.
    pub open spec fn succeeded(self) -> bool {
        match self {
            FetchOutcomeView::Failed { .. } => false,
            FetchOutcomeView::Answered { status } => is_success(status),
        }
    }

    /// The failure that this outcome stands for, in a lookup of `command`.
    pub open spec fn failure(self, command: Seq<char>) -> ErrorView
        recommends
            !self.succeeded(),
    {
        match self {
            FetchOutcomeView::Failed { cause } => ErrorView::HttpRequest { command, cause },
            FetchOutcomeView::Answered { status } => ErrorView::HttpResponse { command, status },
        }
    }
}

/// Judges what came back from the request for the page of `command`.
///
/// An answer with a success status is accepted. Any other answer is a
/// response failure that carries the status, and no answer at all is a
/// request failure that carries the cause.
pub fn check_response(command: &str, outcome: FetchOutcome) -> (verdict: Result<(), Error>)
    ensures
        verdict is Ok <==> outcome@.succeeded(),
        verdict matches Err(e) ==> e@ == outcome@.failure(command@),
{
    match outcome {
        FetchOutcome::Failed { cause } => Err(
            Error::HttpRequest { command: command.to_owned(), cause },
        ),
        FetchOutcome::Answered { status } => {
            if status_is_success(status) {
                Ok(())
            } else {
                Err(Error::HttpResponse { command: command.to_owned(), status })
            }
        },
    }
}

/// The attempt of a lookup that is under way.
#[derive(Clone, Copy, Debug, PartialEq, Eq, Structural)]
pub enum Attempt {
    /// The first attempt, for the common page.
    Common,
    /// The second and last attempt, for the page of the host's platform.
    Host,
}

/// A lookup of the page of one command, with one request under way.
#[derive(Clone, Debug, PartialEq, Eq)]
pub struct Resolver {
    command: String,
    host: Host,
    attempt: Attempt,
}

/// A [`Resolver`] as a mathematical value.
pub struct ResolverView {
    pub command: Seq<char>,
    pub host: Host,
    pub attempt: Attempt,
}

/// What a lookup does once an attempt has ended.
#[derive(Clone, Debug, PartialEq, Eq)]
pub enum Step {
    /// The attempt failed and another one follows: send the request of this
    /// resolver.
    Retry(Resolver),
    /// The attempt succeeded: copy the body of its answer.
    Stream,
    /// The lookup failed for good.
    Fail(Error),
}

/// A [`Step`] as a mathematical value.
pub enum StepView {
    Retry(ResolverView),
    Stream,
    Fail(ErrorView),
}

impl View for Resolver {
    type V = ResolverView;

    closed spec fn view(&self) -> ResolverView {
        ResolverView { command: self.command@, host: self.host, attempt: self.attempt }
    }
}

impl View for Step {
    type V = StepView;

    open spec fn view(&self) -> StepView {
        match self {
            Step::Retry(next) => StepView::Retry(next@),
            Step::Stream => StepView::Stream,
            Step::Fail(error) => StepView::Fail(error@),
        }
    }
}

impl ResolverView {
    /// A lookup of the page of `command` on `host`, before anything came back.
    pub open spec fn initial(command: Seq<char>, host: Host) -> ResolverView {
        ResolverView { command, host, attempt: Attempt::Common }
    }

    /// The platform that the attempt under way asks for.
    pub open spec fn platform(self) -> Platform {
        match self.attempt {
            Attempt::Common => Platform::Common,
            Attempt::Host => self.host.platform_spec(),
        }
    }

    /// The request of the attempt under way.
    pub open spec fn request(self) -> RequestView {
        page_request(self.command, self.platform())
    }

    /// What the lookup does when the attempt under way ends in `outcome`.
    pub open spec fn advance(self, outcome: FetchOutcomeView) -> StepView {
        if outcome.succeeded() {
            StepView::Stream
        } else {
            match self.attempt {
                Attempt::Common => StepView::Retry(
                    ResolverView { command: self.command, host: self.host, attempt: Attempt::Host },
                ),
                Attempt::Host => StepView::Fail(outcome.failure(self.command)),
            }
        }
    }
}

impl Resolver {
    /// Starts a lookup of the page of `command` on `host`. Its first attempt
    /// is under way.
    pub fn new(command: &str, host: Host) -> (resolver: Resolver)
        ensures
            resolver@ == ResolverView::initial(command@, host),
    {
        Resolver { command: command.to_owned(), host, attempt: Attempt::Common }
    }

    /// The request of the attempt under way.
    pub fn request(&self) -> (request: Request)
        ensures
            request@ == self@.request(),
    {
        let platform = match self.attempt {
            Attempt::Common => Platform::Common,
            Attempt::Host => self.host.platform(),
        };
        Request::for_page(self.command.as_str(), platform)
    }

    /// Takes in what came back from the request of the attempt under way,
    /// and says what follows.
    ///
    /// A success ends the lookup: the answer is to be streamed. A failure of
    /// the first attempt starts the second. A failure of the second attempt
    /// ends the lookup with that failure.
    pub fn advance(self, outcome: FetchOutcome) -> (step: Step)
        ensures
            step@ == self@.advance(outcome@),
    {
        match check_response(self.command.as_str(), outcome) {
            Ok(_) => Step::Stream,
            Err(error) => match self.attempt {
                Attempt::Common => Step::Retry(
                    Resolver { command: self.command, host: self.host, attempt: Attempt::Host },
                ),
                Attempt::Host => Step::Fail(error),
            },
        }
    }
}

/// Every lookup begins with a request for the common page.
pub proof fn lemma_first_request_is_common(command: Seq<char>, host: Host)
    ensures
        ResolverView::initial(command, host).request() == page_request(command, Platform::Common),
{
}

/// A second request is issued if and only if the first attempt fails. It
/// asks for the page of the host's platform, and whatever comes back from
/// it, no third request follows.
pub proof fn lemma_second_request_iff_first_fails(
    command: Seq<char>,
    host: Host,
    first: FetchOutcomeView,
    second: FetchOutcomeView,
)
    ensures
        ResolverView::initial(command, host).advance(first) is Retry <==> !first.succeeded(),
        first.succeeded() ==> ResolverView::initial(command, host).advance(first)
            == StepView::Stream,
        ResolverView::initial(command, host).advance(first) matches StepView::Retry(next) ==> (
            next.request() == page_request(command, host.platform_spec())
                && !(next.advance(second) is Retry)
        ),
{
}

/// When both attempts fail, the failure reported is that of the second
/// attempt, whatever the first one was.
pub proof fn lemma_second_failure_is_reported(
    command: Seq<char>,
    host: Host,
    first: FetchOutcomeView,
    second: FetchOutcomeView,
)
    requires
        !first.succeeded(),
        !second.succeeded(),
    ensures
        ResolverView::initial(command, host).advance(first) matches StepView::Retry(next)
            && next.advance(second) == StepView::Fail(second.failure(command)),
{
}

} // verus!
