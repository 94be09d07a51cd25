use crate::common::utils::starts_with;
use crate::infrastructure::security::identity::{Codec, Identity};
use crate::interface::middleware::cors::{self, CorsStep};
use crate::common::xtime::unix_now;
use crate::interface::middleware::identity::{extracted, handle_at, Anonymity, Extraction};
use crate::interface::{
    auth_check, guard_in, guard_verdict, record_in, Denial, Lookup, LookupView, SessionStore,
};
use vstd::prelude::*;

verus! {

/// Under this path every route is protected by the guard.
pub const PROTECTED_ROOT: &'static str = "/v1/api";

/// The stages that a request passes, from the outermost in.
#[derive(Debug, Clone, Copy, PartialEq, Eq, Structural)]
pub enum Stage {
    /// Tags the request with an id.
    RequestId,
    /// Opens the span in which everything that follows is logged.
    Tracing,
    /// Answers a preflight; puts the CORS headers on every other answer.
    Cors,
    /// Resolves the identity of the request.
    Extraction,
    /// Enforces access; on protected routes only.
    Guard,
    /// Runs the handler of the route.
    Dispatch,
}

/// The order of the stages for a route, protected or public.
pub open spec fn stage_order(protected: bool) -> Seq<Stage> {
    if protected {
        seq![
            Stage::RequestId,
            Stage::Tracing,
            Stage::Cors,
            Stage::Extraction,
            Stage::Guard,
            Stage::Dispatch,
        ]
    } else {
        seq![Stage::RequestId, Stage::Tracing, Stage::Cors, Stage::Extraction, Stage::Dispatch]
    }
}

/// The stages of a route in the order in which a request passes them.
pub fn stages(protected: bool) -> (r: Vec<Stage>)
    ensures
        r@ == stage_order(protected),
{
    let mut order: Vec<Stage> = Vec::new();
    order.push(Stage::RequestId);
    order.push(Stage::Tracing);
    order.push(Stage::Cors);
    order.push(Stage::Extraction);
    if protected {
        order.push(Stage::Guard);
    }
    order.push(Stage::Dispatch);
    assert(order@ =~= stage_order(protected));
    order
}

/// The order of the stages is fixed: the request id comes first and the
/// span second, so that whatever fails later is logged; CORS runs before
/// anything that may turn a request down; the identity is resolved before
/// the guard asks for it; the handler comes last; and the guard stands on
/// protected routes only.
pub proof fn lemma_stage_order(protected: bool)
    ensures
        ({
            let order = stage_order(protected);
            &&& order[0] == Stage::RequestId
            &&& order[1] == Stage::Tracing
            &&& order.last() == Stage::Dispatch
            &&& order.contains(Stage::Guard) <==> protected
            &&& forall|i: int, j: int|
                0 <= i < order.len() && 0 <= j < order.len() && order[i] == Stage::Cors && (order[j]
                    == Stage::Guard || order[j] == Stage::Extraction || order[j]
                    == Stage::Dispatch) ==> i < j
            &&& forall|i: int, j: int|
                0 <= i < order.len() && 0 <= j < order.len() && order[i] == Stage::Extraction
                    && order[j] == Stage::Guard ==> i < j
        }),
{
    let order = stage_order(protected);
    if protected {
        assert(order[4] == Stage::Guard);
    } else {
        assert forall|i: int| 0 <= i < order.len() implies order[i] != Stage::Guard by {}
    }
}

/// Whether the route of `path` is a protected one.
pub open spec fn protected_path(path: Seq<char>) -> bool {
    path == PROTECTED_ROOT@ || (PROTECTED_ROOT@ + "/"@).is_prefix_of(path)
}

/// Whether the route of `path` is a protected one: the protected root
/// itself and everything below it.
pub fn is_protected(path: &str) -> (r: bool)
    ensures
        r == protected_path(path@),
{
    proof {
        reveal_strlit("/v1/api");
        reveal_strlit("/v1/api/");
        reveal_strlit("/");
        assert("/v1/api/"@ =~= PROTECTED_ROOT@ + "/"@);
    }
    path.to_owned() == PROTECTED_ROOT.to_owned() || starts_with(path, "/v1/api/")
}

/// What the pipeline reads of a request.
#[derive(Debug)]
pub struct Request {
    /// The method, in capitals.
    pub method: String,
    /// The `Authorization` header, where there is one that is text.
    pub authorization: Option<String>,
    /// The route is a protected one.
    pub protected: bool,
}

/// Where a request stands. Its identity is unresolved until the extraction
/// stage has run; from then on it is anonymous or authenticated, once and
/// for all; and on a protected route the guard then admits or rejects it,
/// once. A request ends admitted, rejected, or, on a public route, with the
/// identity as it was resolved.
#[derive(Debug)]
pub enum Step {
    /// The preflight was answered: the request ends before its identity is
    /// resolved.
    Preflight,
    /// The handler runs, with this identity: on a protected route the
    /// identity was admitted, on a public one it is as it was resolved.
    Dispatch(Identity),
    /// The identity is authenticated, and the guard wants the record of its
    /// user to decide.
    LookUp(Identity),
    /// The request was rejected.
    Reject(Denial),
}

/// How a request ends.
pub enum Outcome {
    /// As an answered preflight.
    Preflight,
    /// In its handler, with the identity of this user id and credential.
    Handled(int, Seq<char>),
    /// Turned down by the guard.
    Rejected(Denial),
}

/// How a request ends, given its method, header and route, the codec's
/// secret, the time and what the data store holds.
pub open spec fn outcome(
    preflight: bool,
    authorization: Option<Seq<char>>,
    protected: bool,
    secret: Seq<char>,
    now: int,
    store: SessionStore,
) -> Outcome {
    if preflight {
        Outcome::Preflight
    } else {
        let (id, token, _) = extracted(authorization, secret, now);
        if protected {
            match guard_in(store, id, token) {
                Ok(_) => Outcome::Handled(id, token),
                Err(denial) => Outcome::Rejected(denial),
            }
        } else {
            Outcome::Handled(id, token)
        }
    }
}

/// How a request that waits for a record ends, once the record is there.
pub open spec fn outcome_after(user_id: int, credential: Seq<char>, record: LookupView) -> Outcome {
    match guard_verdict(user_id, credential, record) {
        Ok(_) => Outcome::Handled(user_id, credential),
        Err(denial) => Outcome::Rejected(denial),
    }
}

impl Request {
    /// The header as a value of the model.
    pub open spec fn header(&self) -> Option<Seq<char>> {
        match self.authorization {
            Some(h) => Some(h@),
            None => None,
        }
    }

    /// The request is a preflight: its method is `OPTIONS`.
    pub open spec fn preflight(&self) -> bool {
        self.method@ == "OPTIONS"@
    }

    /// How this request ends.
    pub open spec fn outcome(&self, secret: Seq<char>, now: int, store: SessionStore) -> Outcome {
        outcome(self.preflight(), self.header(), self.protected, secret, now, store)
    }
}

/// What the stages before the data store make of a request: where it
/// stands, and, where it goes on without an identity, the cause, for the
/// log.
#[derive(Debug)]
pub struct Admission {
    pub step: Step,
    pub cause: Option<Anonymity>,
}

impl Request {
    /// Whether `r` is what the stages before the data store make of this
    /// request as of `now`: a preflight is answered by the CORS stage; the
    /// identity is resolved; a public route is dispatched with it, whoever
    /// it is; on a protected route the anonymous identity is turned down and
    /// for any other the user's record is wanted.
    pub open spec fn admitted(&self, secret: Seq<char>, now: int, r: Admission) -> bool {
        &&& match r.step {
            Step::Preflight => forall|store: SessionStore|
                #[trigger] self.outcome(secret, now, store) == Outcome::Preflight,
            Step::Dispatch(i) => !self.protected && forall|store: SessionStore|
                #[trigger] self.outcome(secret, now, store) == Outcome::Handled(
                    i.spec_id(),
                    i.spec_token(),
                ),
            Step::Reject(d) => d == Denial::Unauthenticated && forall|store: SessionStore|
                #[trigger] self.outcome(secret, now, store) == Outcome::Rejected(d),
            Step::LookUp(i) => i.spec_id() != 0 && forall|store: SessionStore|
                #[trigger] self.outcome(secret, now, store) == outcome_after(
                    i.spec_id(),
                    i.spec_token(),
                    record_in(store, i.spec_id()),
                ),
        }
        &&& r.cause == if self.preflight() {
            None
        } else {
            extracted(self.header(), secret, now).2
        }
    }
}

/// Takes a request through the stages up to the point where the data store
/// is needed, as of `now`.
pub fn admit_at(request: &Request, codec: &Codec, now: i64) -> (r: Admission)
    ensures
        request.admitted(codec.secret(), now as int, r),
{
    if cors::handle(request.method.as_str()) == CorsStep::AnswerPreflight {
        return Admission { step: Step::Preflight, cause: None };
    }
    let header = match &request.authorization {
        Some(h) => Some(h.as_str()),
        None => None,
    };
    let Extraction { identity, cause } = handle_at(header, codec, now);
    let step = if !request.protected {
        Step::Dispatch(identity)
    } else if identity.id() == 0 {
        Step::Reject(Denial::Unauthenticated)
    } else {
        Step::LookUp(identity)
    };
    Admission { step, cause }
}

/// [`admit_at`] as of the clock's reading: what [`Request::admitted`]
/// describes for some time.
pub fn enter(request: &Request, codec: &Codec) -> (r: Admission)
    ensures
        exists|now: i64| #[trigger] request.admitted(codec.secret(), now as int, r),
{
    let now = unix_now();
    let r = admit_at(request, codec, now);
    assert(request.admitted(codec.secret(), now as int, r));
    r
}

/// Ends a request that waited for a record: the guard decides, and the
/// handler runs or the request is turned down.
pub fn conclude(identity: Identity, record: &Lookup) -> (r: Step)
    ensures
        match outcome_after(identity.spec_id(), identity.spec_token(), record@) {
            Outcome::Handled(_, _) => r == Step::Dispatch(identity),
            Outcome::Rejected(d) => r == Step::Reject(d),
            Outcome::Preflight => false,
        },
{
    match auth_check(&identity, record) {
        Ok(()) => Step::Dispatch(identity),
        Err(denial) => Step::Reject(denial),
    }
}

/// Anonymous pass-through: a request without an `Authorization` header that
/// is no preflight and goes to a public route reaches its handler, with
/// the anonymous identity, whatever the data store holds.
pub proof fn lemma_anonymous_pass_through(secret: Seq<char>, now: int, store: SessionStore)
    ensures
        outcome(false, None, false, secret, now, store) == Outcome::Handled(0, Seq::empty()),
{
}

/// A public route is insulated from credential errors: whatever the header
/// holds, a request to it that is no preflight reaches its handler.
pub proof fn lemma_public_route_never_rejects(
    authorization: Option<Seq<char>>,
    secret: Seq<char>,
    now: int,
    store: SessionStore,
)
    ensures
        outcome(false, authorization, false, secret, now, store) is Handled,
{
}

/// On a protected route only the live credential gets through: a request
/// that reaches its handler carries a user id other than 0 and the very
/// credential that the record of that user holds as its session secret.
pub proof fn lemma_protected_route_needs_live_session(
    authorization: Option<Seq<char>>,
    secret: Seq<char>,
    now: int,
    store: SessionStore,
)
    ensures
        outcome(false, authorization, true, secret, now, store) matches Outcome::Handled(id, token)
            ==> id != 0 && store.contains_key(id) && store[id] == token && token.len() > 0,
{
}

} // verus!
