//! A probe of one agent, from the first frame to the last.
use vstd::prelude::*;
use vstd::string::*;
use crate::json::{Json, JsonModel, json_pretty, parsed_json, pretty_json};
use crate::probe_args::ProbeArgs;
use crate::probe_error::{ProbeError, ProbeErrorModel, ReadError, ReadErrorModel, probe_error_of};
use crate::probe_wire::{
    DEFAULT_METHOD, FrameModel, INITIALIZE_ID, METHOD_ID, ReadOutcome, ReadOutcomeModel, Request,
    Response, check_connected, connect_request, connecting, frame_model, frame_read, inbound_text,
    initialize_request, initialized, initialized_notification, initializing, invoking,
    is_response_to, method_request, parse_params, read_frame, rejection, responds_to,
    response_error, told_error,
};
use crate::text::{decimal, decimal_text, optional_text};

verus! {

/// Nanoseconds in a second.
pub const NANOS_PER_SEC: u128 = 1_000_000_000;

/// How far a probe has come. Times are nanoseconds since the probe began.
pub enum ProbePhase {
    /// The daemon has yet to answer the first frame. Held back is the request
    /// that invokes the method.
    AwaitingAck(Json),
    /// The agent has yet to answer `initialize`.
    AwaitingInitialize(Json),
    /// The request that invokes the method is being sent.
    Invoking,
    /// The agent has until this time to answer the method.
    AwaitingResponse(u128),
    /// Late frames are read until this time.
    Lingering(u128),
    /// Nothing more is read.
    Finished,
    /// The agent did not initialize, and nothing more is read.
    Failed,
}

/// What a `ProbePhase` says.
pub enum ProbePhaseModel {
    AwaitingAck(JsonModel),
    AwaitingInitialize(JsonModel),
    Invoking,
    AwaitingResponse(int),
    Lingering(int),
    Finished,
    Failed,
}

impl View for ProbePhase {
    type V = ProbePhaseModel;

    open spec fn view(&self) -> ProbePhaseModel {
        match self {
            ProbePhase::AwaitingAck(request) => ProbePhaseModel::AwaitingAck(request@),
            ProbePhase::AwaitingInitialize(request) => ProbePhaseModel::AwaitingInitialize(
                request@,
            ),
            ProbePhase::Invoking => ProbePhaseModel::Invoking,
            ProbePhase::AwaitingResponse(deadline) => ProbePhaseModel::AwaitingResponse(
                *deadline as int,
            ),
            ProbePhase::Lingering(deadline) => ProbePhaseModel::Lingering(*deadline as int),
            ProbePhase::Finished => ProbePhaseModel::Finished,
            ProbePhase::Failed => ProbePhaseModel::Failed,
        }
    }
}

/// A probe of one agent.
pub struct ProbeSession {
    phase: ProbePhase,
    timeout_secs: u64,
    linger_secs: u64,
}

/// What a `ProbeSession` says.
pub struct ProbeSessionModel {
    pub phase: ProbePhaseModel,
    pub timeout_secs: int,
    pub linger_secs: int,
}

impl View for ProbeSession {
    type V = ProbeSessionModel;

    closed spec fn view(&self) -> ProbeSessionModel {
        ProbeSessionModel {
            phase: self.phase@,
            timeout_secs: self.timeout_secs as int,
            linger_secs: self.linger_secs as int,
        }
    }
}

/// What the user is told on the side.
pub enum ProbeNotice {
    /// Reading a frame failed while the response was awaited.
    ReadFailed(ReadError),
    /// The method was not answered in time.
    NoResponse,
    /// Late frames are read for this many seconds.
    Lingering(u64),
}

/// What a `ProbeNotice` says.
pub enum ProbeNoticeModel {
    ReadFailed(ReadErrorModel),
    NoResponse,
    Lingering(int),
}

impl View for ProbeNotice {
    type V = ProbeNoticeModel;

    open spec fn view(&self) -> ProbeNoticeModel {
        match self {
            ProbeNotice::ReadFailed(e) => ProbeNoticeModel::ReadFailed(e@),
            ProbeNotice::NoResponse => ProbeNoticeModel::NoResponse,
            ProbeNotice::Lingering(secs) => ProbeNoticeModel::Lingering(*secs as int),
        }
    }
}

impl ProbeNoticeModel {
    /// What the user reads, where `method` was to be answered within
    /// `timeout_secs`.
    pub open spec fn text(self, method: Seq<char>, timeout_secs: u64) -> Seq<char> {
        match self {
            ProbeNoticeModel::ReadFailed(e) => "probe: read error: "@ + e.text(),
            ProbeNoticeModel::NoResponse => "probe: did not receive response to id=2 ("@ + method
                + ") within "@ + decimal(timeout_secs as nat) + "s"@,
            ProbeNoticeModel::Lingering(secs) => "probe: lingering "@ + decimal(secs as nat)
                + "s for trailing frames"@,
        }
    }
}

impl ProbeNotice {
    /// What the user reads, on a probe with these arguments.
    pub fn text(&self, args: &ProbeArgs) -> (res: String)
        ensures
            res@ == self@.text(probed_method(*args), args.timeout_secs),
            match self {
                ProbeNotice::ReadFailed(e) => res@ == "probe: read error: "@ + e@.text(),
                ProbeNotice::NoResponse => res@ == "probe: did not receive response to id=2 ("@ + (
                match args.method {
                    Some(method) => method@,
                    None => "thread/list"@,
                }) + ") within "@ + decimal(args.timeout_secs as nat) + "s"@,
                ProbeNotice::Lingering(secs) => res@ == "probe: lingering "@ + decimal(*secs as nat)
                    + "s for trailing frames"@,
            },
    {
        match self {
            ProbeNotice::ReadFailed(e) => {
                let mut text = "probe: read error: ".to_owned();
                text.append(e.to_string().as_str());
                text
            },
            ProbeNotice::NoResponse => {
                let mut text = "probe: did not receive response to id=2 (".to_owned();
                text.append(
                    match &args.method {
                        Some(method) => method.as_str(),
                        None => DEFAULT_METHOD,
                    },
                );
                text.append(") within ");
                text.append(decimal_text(args.timeout_secs).as_str());
                text.append("s");
                text
            },
            ProbeNotice::Lingering(secs) => {
                let mut text = "probe: lingering ".to_owned();
                text.append(decimal_text(*secs).as_str());
                text.append("s for trailing frames");
                text
            },
        }
    }
}

/// What a step ends with.
#[derive(Debug, PartialEq, Eq)]
pub enum NextMove {
    /// Read a line within this many nanoseconds.
    Read(u128),
    /// Say when the frames were sent.
    ReportSent,
    /// End the probe.
    End,
    /// End the probe with this error.
    Fail(ProbeError),
}

/// What a `NextMove` says.
pub enum NextMoveModel {
    Read(int),
    ReportSent,
    End,
    Fail(ProbeErrorModel),
}

impl View for NextMove {
    type V = NextMoveModel;

    open spec fn view(&self) -> NextMoveModel {
        match self {
            NextMove::Read(nanos) => NextMoveModel::Read(*nanos as int),
            NextMove::ReportSent => NextMoveModel::ReportSent,
            NextMove::End => NextMoveModel::End,
            NextMove::Fail(e) => NextMoveModel::Fail(e@),
        }
    }
}

/// What to do next, in this order: show, send, tell, move on.
pub struct ProbeStep {
    /// The frame that was read, as it is shown.
    pub shown: Option<String>,
    /// The frames to send.
    pub sends: Vec<Json>,
    /// What the user is told.
    pub notices: Vec<ProbeNotice>,
    /// What comes then.
    pub next: NextMove,
}

/// What a `ProbeStep` says.
#[verifier::ext_equal]
pub struct ProbeStepModel {
    pub shown: Option<Seq<char>>,
    pub notices: Seq<ProbeNoticeModel>,
    pub sends: Seq<JsonModel>,
    pub next: NextMoveModel,
}

impl View for ProbeStep {
    type V = ProbeStepModel;

    open spec fn view(&self) -> ProbeStepModel {
        ProbeStepModel {
            shown: optional_text(self.shown),
            notices: self.notices@.map_values(|notice: ProbeNotice| notice@),
            sends: self.sends@.map_values(|frame: Json| frame@),
            next: self.next@,
        }
    }
}

/// A step that goes on reading until `deadline`.
pub open spec fn reading(
    session: ProbeSessionModel,
    phase: ProbePhaseModel,
    deadline: int,
    now: int,
    step: ProbeStepModel,
) -> (ProbeSessionModel, ProbeStepModel) {
    (
        ProbeSessionModel { phase, ..session },
        ProbeStepModel { next: NextMoveModel::Read(deadline - now), ..step },
    )
}

/// The end of a probe.
pub open spec fn finishing(session: ProbeSessionModel, step: ProbeStepModel) -> (
    ProbeSessionModel,
    ProbeStepModel,
) {
    (
        ProbeSessionModel { phase: ProbePhaseModel::Finished, ..session },
        ProbeStepModel { next: NextMoveModel::End, ..step },
    )
}

/// What comes once the response is there or given up: late frames, where some
/// time is to be spent on them, and the end where not.
pub open spec fn lingering(
    session: ProbeSessionModel,
    answered: bool,
    now: int,
    step: ProbeStepModel,
) -> (ProbeSessionModel, ProbeStepModel) {
    let told = if answered {
        step
    } else {
        ProbeStepModel { notices: step.notices.push(ProbeNoticeModel::NoResponse), ..step }
    };
    if session.linger_secs > 0 {
        let deadline = now + session.linger_secs * NANOS_PER_SEC as int;
        reading(
            session,
            ProbePhaseModel::Lingering(deadline),
            deadline,
            now,
            ProbeStepModel {
                notices: told.notices.push(ProbeNoticeModel::Lingering(session.linger_secs)),
                ..told
            },
        )
    } else {
        finishing(session, told)
    }
}

/// What comes while the response is awaited: another read, while there is time.
pub open spec fn awaiting(
    session: ProbeSessionModel,
    deadline: int,
    now: int,
    step: ProbeStepModel,
) -> (ProbeSessionModel, ProbeStepModel) {
    if now < deadline {
        reading(session, ProbePhaseModel::AwaitingResponse(deadline), deadline, now, step)
    } else {
        lingering(session, false, now, step)
    }
}

/// A step that does nothing.
pub open spec fn idle_step() -> ProbeStepModel {
    ProbeStepModel {
        shown: None,
        notices: Seq::empty(),
        sends: Seq::empty(),
        next: NextMoveModel::End,
    }
}

/// A step that shows a frame.
pub open spec fn showing(frame: JsonModel) -> ProbeStepModel {
    ProbeStepModel { shown: Some("← "@ + json_pretty(frame)), ..idle_step() }
}

/// The end of a probe whose agent did not initialize.
pub open spec fn failing(
    session: ProbeSessionModel,
    error: ProbeErrorModel,
    step: ProbeStepModel,
) -> (ProbeSessionModel, ProbeStepModel) {
    (
        ProbeSessionModel { phase: ProbePhaseModel::Failed, ..session },
        ProbeStepModel { next: NextMoveModel::Fail(error), ..step },
    )
}

/// What a frame leads to while `initialize` is unanswered. A response with an
/// error ends the probe; one without lets the method be invoked; any other frame
/// is shown, and the reading goes on.
pub open spec fn initializing_with(
    session: ProbeSessionModel,
    request: JsonModel,
    frame: JsonModel,
) -> (ProbeSessionModel, ProbeStepModel) {
    if responds_to(frame, INITIALIZE_ID) {
        match told_error(frame) {
            Some(error) => failing(
                session,
                ProbeErrorModel::InitializeFailed(json_pretty(error)),
                showing(frame),
            ),
            None => (
                ProbeSessionModel { phase: ProbePhaseModel::Invoking, ..session },
                ProbeStepModel {
                    sends: seq![initialized(), request],
                    next: NextMoveModel::ReportSent,
                    ..showing(frame)
                },
            ),
        }
    } else {
        (
            session,
            ProbeStepModel {
                next: NextMoveModel::Read(session.timeout_secs * NANOS_PER_SEC as int),
                ..showing(frame)
            },
        )
    }
}

/// What reading a frame, or failing to, at the time `now` leads to.
pub open spec fn probed(session: ProbeSessionModel, frame: FrameModel, now: int) -> (
    ProbeSessionModel,
    ProbeStepModel,
) {
    match session.phase {
        ProbePhaseModel::AwaitingInitialize(request) => match frame {
            FrameModel::Missing(e) => failing(
                session,
                ProbeErrorModel::Initialize(e),
                idle_step(),
            ),
            FrameModel::Frame(f) => initializing_with(session, request, f),
        },
        ProbePhaseModel::AwaitingResponse(deadline) => match frame {
            FrameModel::Missing(e) => lingering(
                session,
                false,
                now,
                ProbeStepModel { notices: seq![ProbeNoticeModel::ReadFailed(e)], ..idle_step() },
            ),
            FrameModel::Frame(f) => if responds_to(f, METHOD_ID) {
                lingering(session, true, now, showing(f))
            } else {
                awaiting(session, deadline, now, showing(f))
            },
        },
        ProbePhaseModel::Lingering(deadline) => match frame {
            FrameModel::Missing(_) => finishing(session, idle_step()),
            FrameModel::Frame(f) => if now < deadline {
                reading(session, ProbePhaseModel::Lingering(deadline), deadline, now, showing(f))
            } else {
                finishing(session, showing(f))
            },
        },
        _ => (session, idle_step()),
    }
}

/// What it leads to that the request which invokes the method was sent at the
/// time `now`: the agent has its time to answer from then on.
pub open spec fn invoked(session: ProbeSessionModel, now: int) -> (
    ProbeSessionModel,
    ProbeStepModel,
) {
    match session.phase {
        ProbePhaseModel::Invoking => awaiting(
            session,
            now + session.timeout_secs * NANOS_PER_SEC as int,
            now,
            idle_step(),
        ),
        _ => (session, idle_step()),
    }
}

/// What comes of the daemon's answer: an error, or a session and what to do next.
pub enum ProbeOutcomeModel {
    Failed(ProbeErrorModel),
    Next(ProbeSessionModel, ProbeStepModel),
}

/// What a result of taking in the daemon's answer says.
pub open spec fn outcome_model(
    res: Result<(ProbeSession, ProbeStep), ProbeError>,
) -> ProbeOutcomeModel {
    match res {
        Ok((session, step)) => ProbeOutcomeModel::Next(session@, step@),
        Err(e) => ProbeOutcomeModel::Failed(e@),
    }
}

/// What the daemon's answer to the first frame leads to.
pub open spec fn acknowledged(session: ProbeSessionModel, response: Response) -> ProbeOutcomeModel {
    match session.phase {
        ProbePhaseModel::AwaitingAck(request) => match rejection(response) {
            Some(e) => ProbeOutcomeModel::Failed(e),
            None => ProbeOutcomeModel::Next(
                ProbeSessionModel {
                    phase: ProbePhaseModel::AwaitingInitialize(request),
                    ..session
                },
                ProbeStepModel {
                    sends: seq![initializing()],
                    next: NextMoveModel::Read(session.timeout_secs * NANOS_PER_SEC as int),
                    ..idle_step()
                },
            ),
        },
        _ => ProbeOutcomeModel::Next(session, idle_step()),
    }
}

/// The method that a probe invokes.
pub open spec fn probed_method(args: ProbeArgs) -> Seq<char> {
    match args.method {
        Some(method) => method@,
        None => DEFAULT_METHOD@,
    }
}

/// A probe that begins.
pub open spec fn opened(args: ProbeArgs, params: JsonModel) -> ProbeSessionModel {
    ProbeSessionModel {
        phase: ProbePhaseModel::AwaitingAck(invoking(probed_method(args), params)),
        timeout_secs: args.timeout_secs as int,
        linger_secs: args.linger_secs as int,
    }
}

fn nanos(secs: u64) -> (res: u128)
    ensures
        res == secs * NANOS_PER_SEC,
{
    secs as u128 * NANOS_PER_SEC
}

fn no_step() -> (res: ProbeStep)
    ensures
        res@ == idle_step(),
{
    let res = ProbeStep {
        shown: None,
        notices: Vec::new(),
        sends: Vec::new(),
        next: NextMove::End,
    };
    assert(res@ =~= idle_step());
    res
}

fn show(frame: &Json) -> (res: ProbeStep)
    ensures
        res@ == showing(frame@),
{
    let mut res = no_step();
    res.shown = Some(inbound_text(frame));
    assert(res@ =~= showing(frame@));
    res
}

impl ProbeSession {
    /// Begins a probe with parameters that were read already.
    pub fn open_with(args: &ProbeArgs, params: Json) -> (res: ProbeSession)
        ensures
            res@ == opened(*args, params@),
            res@.timeout_secs == args.timeout_secs,
            res@.linger_secs == args.linger_secs,
            args.method matches Some(method) ==> res@.phase == ProbePhaseModel::AwaitingAck(
                invoking(method@, params@),
            ),
            args.method is None ==> res@.phase == ProbePhaseModel::AwaitingAck(
                invoking("thread/list"@, params@),
            ),
    {
        let request = match &args.method {
            Some(method) => method_request(method.as_str(), params),
            None => method_request(DEFAULT_METHOD, params),
        };
        ProbeSession {
            phase: ProbePhase::AwaitingAck(request),
            timeout_secs: args.timeout_secs,
            linger_secs: args.linger_secs,
        }
    }

    /// Begins a probe of `agent`; with it comes the first frame to send. Nothing
    /// is sent where the parameters are no JSON document.
    pub fn open(args: &ProbeArgs, token: &str, agent: &str, resume_from: Option<u64>) -> (res:
        Result<(ProbeSession, Request), ProbeError>)
        ensures
            match parsed_json(args.params@) {
                Ok(params) => {
                    &&& res matches Ok((session, request))
                    &&& session@ == opened(*args, params)
                    &&& session@.timeout_secs == args.timeout_secs
                    &&& session@.linger_secs == args.linger_secs
                    &&& request@ == connecting(token@, agent@, resume_from)
                },
                Err(cause) => probe_error_of(res) == Some(
                    (ProbeErrorModel::Params { text: args.params@, cause }),
                ),
            },
    {
        match parse_params(args.params.as_str()) {
            Ok(params) => Ok(
                (ProbeSession::open_with(args, params), connect_request(token, agent, resume_from)),
            ),
            Err(e) => Err(e),
        }
    }

    fn finish(self, step: ProbeStep) -> (res: (ProbeSession, ProbeStep))
        ensures
            (res.0@, res.1@) == finishing(self@, step@),
    {
        let session = ProbeSession { phase: ProbePhase::Finished, ..self };
        let mut step = step;
        step.next = NextMove::End;
        (session, step)
    }

    fn linger(self, answered: bool, now: u64, step: ProbeStep) -> (res: (ProbeSession, ProbeStep))
        ensures
            (res.0@, res.1@) == lingering(self@, answered, now as int, step@),
    {
        let ghost asked = step@;
        let mut step = step;
        if !answered {
            let ghost before = step.notices@;
            step.notices.push(ProbeNotice::NoResponse);
            assert(step.notices@.map_values(|notice: ProbeNotice| notice@) =~= before.map_values(
                |notice: ProbeNotice| notice@,
            ).push(ProbeNoticeModel::NoResponse));
        }
        if self.linger_secs > 0 {
            let wait = nanos(self.linger_secs);
            let deadline: u128 = now as u128 + wait;
            let ghost before = step.notices@;
            step.notices.push(ProbeNotice::Lingering(self.linger_secs));
            assert(step.notices@.map_values(|notice: ProbeNotice| notice@) =~= before.map_values(
                |notice: ProbeNotice| notice@,
            ).push(ProbeNoticeModel::Lingering(self.linger_secs as int)));
            step.next = NextMove::Read(wait);
            let session = ProbeSession { phase: ProbePhase::Lingering(deadline), ..self };
            (session, step)
        } else {
            self.finish(step)
        }
    }

    fn await_response(self, deadline: u128, now: u64, step: ProbeStep) -> (res: (
        ProbeSession,
        ProbeStep,
    ))
        ensures
            (res.0@, res.1@) == awaiting(self@, deadline as int, now as int, step@),
    {
        if (now as u128) < deadline {
            let mut step = step;
            step.next = NextMove::Read(deadline - now as u128);
            let session = ProbeSession { phase: ProbePhase::AwaitingResponse(deadline), ..self };
            (session, step)
        } else {
            self.linger(false, now, step)
        }
    }

    /// Takes in the daemon's answer to the first frame.
    pub fn on_ack(self, response: Response) -> (res: Result<(ProbeSession, ProbeStep), ProbeError>)
        ensures
            outcome_model(res) == acknowledged(self@, response),
            self@.phase is AwaitingAck ==> (res is Ok <==> response.ok),
            self@.phase is AwaitingAck && response.ok ==> {
                &&& res matches Ok((session, step))
                &&& session@.timeout_secs == self@.timeout_secs
                &&& session@.linger_secs == self@.linger_secs
                &&& step.shown is None && step.notices@.len() == 0
                &&& step.sends@.len() == 1 && step.sends@[0]@ == initializing()
                &&& step.next matches NextMove::Read(nanos)
                &&& nanos == self@.timeout_secs * 1_000_000_000
            },
    {
        match self.phase {
            ProbePhase::AwaitingAck(request) => {
                match check_connected(response) {
                    Ok(_) => {},
                    Err(e) => return Err(e),
                }
                let session = ProbeSession {
                    phase: ProbePhase::AwaitingInitialize(request),
                    timeout_secs: self.timeout_secs,
                    linger_secs: self.linger_secs,
                };
                let mut step = no_step();
                assert(step@.sends.len() == 0 && step@.notices.len() == 0);
                step.sends.push(initialize_request());
                step.next = NextMove::Read(nanos(self.timeout_secs));
                assert(step.sends@.map_values(|frame: Json| frame@) =~= seq![initializing()]);
                Ok((session, step))
            },
            _ => Ok((self, no_step())),
        }
    }

    /// Takes in that the frames of the last step were sent, at the time `now`.
    pub fn on_sent(self, now: u64) -> (res: (ProbeSession, ProbeStep))
        ensures
            (res.0@, res.1@) == invoked(self@, now as int),
            self@.phase is Invoking && self@.timeout_secs > 0 ==> {
                &&& res.0@.phase == ProbePhaseModel::AwaitingResponse(
                    now + self@.timeout_secs * 1_000_000_000,
                )
                &&& res.1.next matches NextMove::Read(nanos)
                &&& nanos == self@.timeout_secs * 1_000_000_000
            },
    {
        match self.phase {
            ProbePhase::Invoking => {
                let deadline: u128 = now as u128 + nanos(self.timeout_secs);
                self.await_response(deadline, now, no_step())
            },
            _ => (self, no_step()),
        }
    }

    /// Takes in what came of reading a line, which was at the time `now`.
    pub fn on_read(self, outcome: ReadOutcome, now: u64) -> (res: (ProbeSession, ProbeStep))
        ensures
            (res.0@, res.1@) == probed(self@, frame_read(outcome@), now as int),
            !(self@.phase is AwaitingInitialize) ==> res.1.sends@.len() == 0,
    {
        let frame = read_frame(outcome);
        let res = self.on_frame(frame, now);
        proof {
            steps_say_what_they_hold(res.1, 0);
        }
        res
    }

    fn fail(self, error: ProbeError, step: ProbeStep) -> (res: (ProbeSession, ProbeStep))
        ensures
            (res.0@, res.1@) == failing(self@, error@, step@),
    {
        let session = ProbeSession { phase: ProbePhase::Failed, ..self };
        let mut step = step;
        step.next = NextMove::Fail(error);
        (session, step)
    }

    /// Takes in a frame while `initialize` is unanswered. Held back until then is
    /// `request`.
    fn on_initialize_frame(self, request: Json, frame: Json) -> (res: (ProbeSession, ProbeStep))
        ensures
            (res.0@, res.1@) == initializing_with(
                ProbeSessionModel {
                    phase: ProbePhaseModel::AwaitingInitialize(request@),
                    ..self@
                },
                request@,
                frame@,
            ),
    {
        let mut step = show(&frame);
        if is_response_to(&frame, INITIALIZE_ID) {
            match response_error(&frame) {
                Some(error) => {
                    let told = pretty_json(error);
                    self.fail(ProbeError::InitializeFailed(told), step)
                },
                None => {
                    let ghost sent = seq![initialized(), request@];
                    assert(step@.sends.len() == 0);
                    step.sends.push(initialized_notification());
                    step.sends.push(request);
                    assert(step.sends@.map_values(|frame: Json| frame@) =~= sent);
                    step.next = NextMove::ReportSent;
                    (ProbeSession { phase: ProbePhase::Invoking, ..self }, step)
                },
            }
        } else {
            step.next = NextMove::Read(nanos(self.timeout_secs));
            (ProbeSession { phase: ProbePhase::AwaitingInitialize(request), ..self }, step)
        }
    }

    /// Takes in a frame, or why there is none, at the time `now`.
    pub fn on_frame(self, frame: Result<Json, ReadError>, now: u64) -> (res: (
        ProbeSession,
        ProbeStep,
    ))
        ensures
            (res.0@, res.1@) == probed(self@, frame_model(frame), now as int),
            self@.phase is AwaitingInitialize || self@.phase is AwaitingResponse
                || self@.phase is Lingering ==> (frame matches Ok(f) ==> (res.1.shown
                matches Some(text) && text@ == "← "@ + json_pretty(f@))),
            self@.phase matches ProbePhaseModel::AwaitingInitialize(request) ==> (frame matches Ok(
                f,
            ) ==> if responds_to(f@, 1) && told_error(f@) is None {
                &&& res.1.sends@.len() == 2
                &&& res.1.sends@[0]@ == initialized()
                &&& res.1.sends@[1]@ == request
            } else {
                res.1.sends@.len() == 0
            }),
    {
        let timeout_secs = self.timeout_secs;
        let linger_secs = self.linger_secs;
        match self.phase {
            ProbePhase::AwaitingInitialize(request) => {
                let session = ProbeSession { phase: ProbePhase::Failed, timeout_secs, linger_secs };
                match frame {
                    Err(e) => session.fail(ProbeError::Initialize(e), no_step()),
                    Ok(f) => {
                        let res = session.on_initialize_frame(request, f);
                        proof {
                            steps_say_what_they_hold(res.1, 0);
                            steps_say_what_they_hold(res.1, 1);
                        }
                        res
                    },
                }
            },
            ProbePhase::AwaitingResponse(deadline) => match frame {
                Err(e) => {
                    let mut step = no_step();
                    let ghost told = seq![ProbeNoticeModel::ReadFailed(e@)];
                    step.notices.push(ProbeNotice::ReadFailed(e));
                    assert(step.notices@.map_values(|notice: ProbeNotice| notice@) =~= told);
                    self.linger(false, now, step)
                },
                Ok(f) => {
                    let step = show(&f);
                    if is_response_to(&f, METHOD_ID) {
                        self.linger(true, now, step)
                    } else {
                        self.await_response(deadline, now, step)
                    }
                },
            },
            ProbePhase::Lingering(deadline) => match frame {
                Err(_) => self.finish(no_step()),
                Ok(f) => {
                    let mut step = show(&f);
                    if (now as u128) < deadline {
                        step.next = NextMove::Read(deadline - now as u128);
                        (self, step)
                    } else {
                        self.finish(step)
                    }
                },
            },
            _ => (self, no_step()),
        }
    }
}

/// What happens to a session once the daemon accepted it, each at its time.
pub enum ProbeEventModel {
    Read(FrameModel, int),
    Sent(int),
}

/// What an event leads to.
pub open spec fn stepped(session: ProbeSessionModel, event: ProbeEventModel) -> (
    ProbeSessionModel,
    ProbeStepModel,
) {
    match event {
        ProbeEventModel::Read(frame, now) => probed(session, frame, now),
        ProbeEventModel::Sent(now) => invoked(session, now),
    }
}

/// The session that events lead to.
pub open spec fn session_after(
    session: ProbeSessionModel,
    events: Seq<ProbeEventModel>,
) -> ProbeSessionModel
    decreases events.len(),
{
    if events.len() == 0 {
        session
    } else {
        stepped(session_after(session, events.drop_last()), events.last()).0
    }
}

/// The frames that are sent on these events.
pub open spec fn sent_during(session: ProbeSessionModel, events: Seq<ProbeEventModel>) -> Seq<
    JsonModel,
>
    decreases events.len(),
{
    if events.len() == 0 {
        Seq::empty()
    } else {
        sent_during(session, events.drop_last()) + stepped(
            session_after(session, events.drop_last()),
            events.last(),
        ).1.sends
    }
}

/// Whether a response to `initialize` without an error is read.
pub open spec fn is_answer(event: ProbeEventModel) -> bool {
    event matches ProbeEventModel::Read(FrameModel::Frame(f), _) && responds_to(f, INITIALIZE_ID)
        && told_error(f) is None
}

/// Whether a session is past its handshake.
pub open spec fn is_past_handshake(phase: ProbePhaseModel) -> bool {
    phase is Invoking || phase is AwaitingResponse || phase is Lingering || phase is Finished
}

/// Behind `initialize`, a session sends either nothing or the notification and
/// then the request, once; the latter only after `initialize` succeeded. A session
/// that is neither past its handshake nor failed is as it was.
pub proof fn the_method_follows_the_handshake(
    session: ProbeSessionModel,
    request: JsonModel,
    events: Seq<ProbeEventModel>,
)
    requires
        session.phase == ProbePhaseModel::AwaitingInitialize(request),
    ensures
        ({
            let after = session_after(session, events);
            if is_past_handshake(after.phase) {
                &&& sent_during(session, events) == seq![initialized(), request]
                &&& exists|i: int| 0 <= i < events.len() && is_answer(#[trigger] events[i])
            } else if after.phase is Failed {
                sent_during(session, events) == Seq::<JsonModel>::empty()
            } else {
                &&& after == session
                &&& sent_during(session, events) == Seq::<JsonModel>::empty()
                &&& forall|i: int| 0 <= i < events.len() ==> !is_answer(#[trigger] events[i])
            }
        }),
    decreases events.len(),
{
    if events.len() > 0 {
        let before = events.drop_last();
        the_method_follows_the_handshake(session, request, before);
        assert forall|i: int| 0 <= i < before.len() implies #[trigger] before[i] == events[i] by {}
        let last = events.last();
        assert(last == events[events.len() - 1]);
        let middle = session_after(session, before);
        if is_past_handshake(middle.phase) {
            let i = choose|i: int| 0 <= i < before.len() && is_answer(#[trigger] before[i]);
            assert(is_answer(events[i]));
            assert(sent_during(session, events) =~= sent_during(session, before));
        } else if middle.phase is Failed {
            assert(sent_during(session, events) =~= Seq::<JsonModel>::empty());
        } else if is_answer(last) {
            assert(sent_during(session, events) =~= seq![initialized(), request]);
            assert(is_answer(events[events.len() - 1]));
        } else {
            assert(sent_during(session, events) =~= Seq::<JsonModel>::empty());
            assert forall|i: int| 0 <= i < events.len() implies !is_answer(
                #[trigger] events[i],
            ) by {
                if i < before.len() {
                    assert(before[i] == events[i]);
                }
            }
        }
    }
}

/// A frame that is no response to `initialize` is shown and read past: the session
/// is as it was, sends nothing and has its whole time for the next frame.
pub proof fn other_frames_are_read_past(
    session: ProbeSessionModel,
    request: JsonModel,
    frame: JsonModel,
    now: int,
)
    requires
        session.phase == ProbePhaseModel::AwaitingInitialize(request),
        !responds_to(frame, INITIALIZE_ID),
    ensures
        ({
            let (after, step) = probed(session, FrameModel::Frame(frame), now);
            &&& after == session
            &&& step.sends.len() == 0
            &&& step.next == NextMoveModel::Read(session.timeout_secs * 1_000_000_000)
        }),
{
}

/// Where the agent answers `initialize` with an error, or where nothing more can
/// be read before it answers, the probe ends with an error; whatever comes then,
/// nothing is sent.
pub proof fn without_initialize_there_is_no_method(
    session: ProbeSessionModel,
    request: JsonModel,
    frame: FrameModel,
    now: int,
    later: Seq<ProbeEventModel>,
)
    requires
        session.phase == ProbePhaseModel::AwaitingInitialize(request),
        match frame {
            FrameModel::Missing(_) => true,
            FrameModel::Frame(f) => responds_to(f, INITIALIZE_ID) && told_error(f) is Some,
        },
    ensures
        ({
            let (after, step) = probed(session, frame, now);
            &&& step.sends.len() == 0
            &&& step.next == NextMoveModel::Fail(
                match frame {
                    FrameModel::Missing(e) => ProbeErrorModel::Initialize(e),
                    FrameModel::Frame(f) => ProbeErrorModel::InitializeFailed(
                        json_pretty(told_error(f)->0),
                    ),
                },
            )
            &&& session_after(after, later) == after
            &&& sent_during(after, later) == Seq::<JsonModel>::empty()
        }),
    decreases later.len(),
{
    if later.len() > 0 {
        without_initialize_there_is_no_method(session, request, frame, now, later.drop_last());
        let after = probed(session, frame, now).0;
        assert(sent_during(after, later) =~= Seq::<JsonModel>::empty());
    }
}

/// A probe fails only before its handshake is done: later, a read that fails
/// ends the waiting and not the probe.
pub proof fn past_the_handshake_nothing_fails(session: ProbeSessionModel, event: ProbeEventModel)
    requires
        is_past_handshake(session.phase),
    ensures
        ({
            let (after, step) = stepped(session, event);
            is_past_handshake(after.phase) && step.sends.len() == 0 && !(step.next is Fail)
        }),
{
}

/// The agent has its whole time to answer from when the request was sent, and
/// where that is no time at all, the waiting is over at once.
pub proof fn the_agent_has_its_time_from_the_sending(session: ProbeSessionModel, now: int)
    requires
        session.phase is Invoking,
        session.timeout_secs >= 0,
    ensures
        ({
            let whole = session.timeout_secs * 1_000_000_000;
            let (after, step) = invoked(session, now);
            if session.timeout_secs > 0 {
                &&& after.phase == ProbePhaseModel::AwaitingResponse(now + whole)
                &&& step.next == NextMoveModel::Read(whole)
            } else {
                &&& !(after.phase is AwaitingResponse)
                &&& step.notices.len() > 0 && step.notices.first() == ProbeNoticeModel::NoResponse
            }
        }),
{
}

/// While the response is awaited, the deadline stays where it is, and no read
/// goes beyond it.
pub proof fn waiting_keeps_to_its_deadline(
    session: ProbeSessionModel,
    deadline: int,
    frame: FrameModel,
    now: int,
)
    requires
        session.phase == ProbePhaseModel::AwaitingResponse(deadline),
    ensures
        ({
            let (after, step) = probed(session, frame, now);
            after.phase is AwaitingResponse ==> after.phase == session.phase && step.next
                == NextMoveModel::Read(deadline - now) && now < deadline
        }),
{
}

/// The answer to the method ends the waiting: nothing is said to be missing, and
/// what is read from then on is read late, for as long as was asked for.
pub proof fn the_answer_ends_the_waiting(
    session: ProbeSessionModel,
    deadline: int,
    answer: JsonModel,
    now: int,
)
    requires
        session.phase == ProbePhaseModel::AwaitingResponse(deadline),
        responds_to(answer, METHOD_ID),
    ensures
        ({
            let (after, step) = probed(session, FrameModel::Frame(answer), now);
            &&& !step.notices.contains(ProbeNoticeModel::NoResponse)
            &&& if session.linger_secs > 0 {
                &&& after.phase == ProbePhaseModel::Lingering(
                    now + session.linger_secs * 1_000_000_000,
                )
                &&& step.next == NextMoveModel::Read(session.linger_secs * 1_000_000_000)
                &&& step.notices == seq![ProbeNoticeModel::Lingering(session.linger_secs)]
            } else {
                after.phase is Finished && step.next is End
            }
        }),
{
}

/// While late frames are read, the deadline stays where it is and no read goes
/// beyond it; a read that fails, or a frame past the deadline, ends the probe
/// without a word.
pub proof fn lingering_keeps_to_its_deadline(
    session: ProbeSessionModel,
    deadline: int,
    frame: FrameModel,
    now: int,
)
    requires
        session.phase == ProbePhaseModel::Lingering(deadline),
    ensures
        ({
            let (after, step) = probed(session, frame, now);
            &&& step.notices.len() == 0
            &&& if frame is Frame && now < deadline {
                after.phase == session.phase && step.next == NextMoveModel::Read(deadline - now)
            } else {
                after.phase is Finished && step.next is End
            }
        }),
{
}

/// Every frame that is read once the daemon accepted the connection is shown,
/// until the probe ends.
pub proof fn every_frame_is_shown(session: ProbeSessionModel, frame: JsonModel, now: int)
    requires
        session.phase is AwaitingInitialize || session.phase is AwaitingResponse
            || session.phase is Lingering,
    ensures
        probed(session, FrameModel::Frame(frame), now).1.shown == Some(
            "← "@ + json_pretty(frame),
        ),
{
}

/// A probe has the times that its arguments give: as long for the answer to
/// `initialize` and, from its sending, for that to the method as `timeout_secs`
/// says, and behind it as long for late frames as `linger_secs` says. It invokes
/// the method that the arguments name, with the parameters that they give.
pub proof fn a_probe_takes_the_time_it_is_given(
    args: ProbeArgs,
    params: JsonModel,
    response: Response,
    welcome: JsonModel,
    received: int,
    sent: int,
    answer: JsonModel,
    answered: int,
)
    requires
        response.ok,
        responds_to(welcome, INITIALIZE_ID),
        told_error(welcome) is None,
        responds_to(answer, METHOD_ID),
        args.timeout_secs > 0,
    ensures
        ({
            let timeout = args.timeout_secs * 1_000_000_000;
            let linger = args.linger_secs * 1_000_000_000;
            let accepted = acknowledged(opened(args, params), response);
            let (invoking_it, requests) = probed(
                accepted->Next_0,
                FrameModel::Frame(welcome),
                received,
            );
            let (waiting, first) = invoked(invoking_it, sent);
            let (done, last) = probed(waiting, FrameModel::Frame(answer), answered);
            &&& accepted is Next
            &&& accepted->Next_1.sends == seq![initializing()]
            &&& accepted->Next_1.next == NextMoveModel::Read(timeout)
            &&& requests.sends == seq![
                initialized(),
                invoking(
                    match args.method {
                        Some(method) => method@,
                        None => "thread/list"@,
                    },
                    params,
                ),
            ]
            &&& requests.next == NextMoveModel::ReportSent
            &&& first.next == NextMoveModel::Read(timeout)
            &&& waiting.phase == ProbePhaseModel::AwaitingResponse(sent + timeout)
            &&& if args.linger_secs > 0 {
                &&& last.next == NextMoveModel::Read(linger)
                &&& done.phase == ProbePhaseModel::Lingering(answered + linger)
            } else {
                last.next == NextMoveModel::End
            }
        }),
{
}

/// A session keeps the times that it was opened with, whatever happens.
pub proof fn sessions_keep_their_times(
    args: ProbeArgs,
    params: JsonModel,
    session: ProbeSessionModel,
    response: Response,
    event: ProbeEventModel,
)
    ensures
        opened(args, params).timeout_secs == args.timeout_secs,
        opened(args, params).linger_secs == args.linger_secs,
        stepped(session, event).0.timeout_secs == session.timeout_secs,
        stepped(session, event).0.linger_secs == session.linger_secs,
        acknowledged(session, response) matches ProbeOutcomeModel::Next(after, _) ==> (
        after.timeout_secs == session.timeout_secs && after.linger_secs == session.linger_secs),
{
}

/// An agent is asked for nothing before the daemon accepted the connection, and a
/// refusal of the daemon ends the probe.
pub proof fn the_daemon_is_heard_first(
    args: ProbeArgs,
    params: JsonModel,
    response: Response,
    event: ProbeEventModel,
)
    ensures
        stepped(opened(args, params), event) == (opened(args, params), idle_step()),
        !response.ok ==> (match response.error {
            Some(error) => acknowledged(opened(args, params), response)
                == ProbeOutcomeModel::Failed(ProbeErrorModel::Rejected(error@)),
            None => acknowledged(opened(args, params), response) == ProbeOutcomeModel::Failed(
                ProbeErrorModel::Rejected("<no error>"@),
            ),
        }),
{
}

/// Where the response is given up, the user is told so, after what went wrong with
/// the reading, if something did; late frames are then read as they would be
/// behind a response.
pub proof fn giving_up_is_told(
    session: ProbeSessionModel,
    deadline: int,
    frame: FrameModel,
    now: int,
)
    requires
        session.phase == ProbePhaseModel::AwaitingResponse(deadline),
        match frame {
            FrameModel::Missing(_) => true,
            FrameModel::Frame(f) => !responds_to(f, METHOD_ID) && now >= deadline,
        },
    ensures
        ({
            let (after, step) = probed(session, frame, now);
            let why = match frame {
                FrameModel::Missing(e) => seq![ProbeNoticeModel::ReadFailed(e)],
                FrameModel::Frame(_) => Seq::empty(),
            };
            let told = why.push(ProbeNoticeModel::NoResponse);
            &&& session.linger_secs > 0 ==> {
                &&& step.notices == told.push(ProbeNoticeModel::Lingering(session.linger_secs))
                &&& after.phase == ProbePhaseModel::Lingering(
                    now + session.linger_secs * 1_000_000_000,
                )
                &&& step.next == NextMoveModel::Read(session.linger_secs * 1_000_000_000)
            }
            &&& session.linger_secs <= 0 ==> {
                &&& step.notices == told
                &&& after.phase is Finished && step.next is End
            }
        }),
{
}

/// While there is time, a frame that does not answer the method is shown without a
/// word, and the waiting goes on for what is left of the time.
pub proof fn other_frames_do_not_end_the_waiting(
    session: ProbeSessionModel,
    deadline: int,
    frame: JsonModel,
    now: int,
)
    requires
        session.phase == ProbePhaseModel::AwaitingResponse(deadline),
        !responds_to(frame, METHOD_ID),
        now < deadline,
    ensures
        ({
            let (after, step) = probed(session, FrameModel::Frame(frame), now);
            &&& after == session
            &&& step.notices.len() == 0 && step.sends.len() == 0
            &&& step.next == NextMoveModel::Read(deadline - now)
        }),
{
}

/// A step says what it holds: what is shown, each frame to send and each notice at
/// its place, and what comes then.
pub proof fn steps_say_what_they_hold(step: ProbeStep, i: int)
    ensures
        step@.shown == optional_text(step.shown),
        step@.sends.len() == step.sends@.len(),
        0 <= i < step.sends@.len() ==> step@.sends[i] == step.sends@[i]@,
        step@.notices.len() == step.notices@.len(),
        0 <= i < step.notices@.len() ==> (match step.notices@[i] {
            ProbeNotice::ReadFailed(e) => step@.notices[i] == ProbeNoticeModel::ReadFailed(e@),
            ProbeNotice::NoResponse => step@.notices[i] == ProbeNoticeModel::NoResponse,
            ProbeNotice::Lingering(secs) => step@.notices[i] == ProbeNoticeModel::Lingering(
                secs as int,
            ),
        }),
        match step.next {
            NextMove::Read(nanos) => step@.next == NextMoveModel::Read(nanos as int),
            NextMove::ReportSent => step@.next == NextMoveModel::ReportSent,
            NextMove::End => step@.next == NextMoveModel::End,
            NextMove::Fail(e) => step@.next == NextMoveModel::Fail(e@),
        },
{
}

} // verus!
