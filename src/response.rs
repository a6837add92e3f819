//! Reply envelopes of the engine, the batch stream, and the health probe.

use vstd::prelude::*;
use vstd::string::StringExecFns;
use crate::catalog::Implementation;
use crate::dispatch::{error_text, EngineError};
use crate::text::{decimal, decimal_string, owned};

verus! {

/// Facts about one successful kernel call.
#[derive(Debug)]
pub struct ExecutionMetadata {
    /// `native` or `alternate`.
    pub implementation: String,
    /// Wall-clock time around the kernel call alone.
    pub execution_time_ms: u64,
    pub algorithm: String,
    pub data_size: usize,
    /// Free-form facts, as key and value.
    pub stats: Vec<(String, String)>,
}

impl ExecutionMetadata {
    /// The metadata of a call that `implementation` served.
    pub fn new(
        implementation: Implementation,
        execution_time_ms: u64,
        algorithm: &str,
        data_size: usize,
    ) -> (r: ExecutionMetadata)
        ensures
            r.implementation@ == implementation.label_spec(),
            r.execution_time_ms == execution_time_ms,
            r.algorithm@ == algorithm@,
            r.data_size == data_size,
            r.stats@.len() == 1,
            r.stats@[0].0@ == "data_points"@,
            r.stats@[0].1@ == decimal(data_size as nat),
    {
        let mut stats: Vec<(String, String)> = Vec::new();
        stats.push((owned("data_points"), decimal_string(data_size as u64)));
        ExecutionMetadata {
            implementation: owned(implementation.label()),
            execution_time_ms,
            algorithm: owned(algorithm),
            data_size,
            stats,
        }
    }
}

/// The reply to one analysis request.
#[derive(Debug)]
pub struct AnalysisResponse {
    pub request_id: String,
    pub success: bool,
    /// Empty on success.
    pub error_message: String,
    /// UTF-8 JSON; empty on failure.
    pub result_json: String,
    pub metadata: Option<ExecutionMetadata>,
}

impl AnalysisResponse {
    /// A successful reply that echoes `request_id`.
    pub fn success(request_id: &str, result_json: String, metadata: Option<ExecutionMetadata>) -> (r:
        AnalysisResponse)
        ensures
            r.request_id@ == request_id@,
            r.success,
            r.error_message@ == Seq::<char>::empty(),
            r.result_json@ == result_json@,
            r.metadata == metadata,
    {
        AnalysisResponse {
            request_id: owned(request_id),
            success: true,
            error_message: String::new(),
            result_json,
            metadata,
        }
    }

    /// A failed reply that echoes `request_id` and carries `<kind>: <detail>`.
    pub fn failure(request_id: &str, error: &EngineError) -> (r: AnalysisResponse)
        ensures
            r.request_id@ == request_id@,
            !r.success,
            r.error_message@ == error_text(error.kind, error.detail@),
            r.result_json@ == Seq::<char>::empty(),
            r.metadata is None,
    {
        AnalysisResponse {
            request_id: owned(request_id),
            success: false,
            error_message: error.message(),
            result_json: String::new(),
            metadata: None,
        }
    }

    /// The reply for a finished request: on success the kernel's JSON, with
    /// metadata when the options ask for it; on failure the error.
    pub fn from_outcome(
        request_id: &str,
        algorithm: &str,
        data_size: usize,
        include_metadata: bool,
        outcome: Result<(Implementation, u64, String), EngineError>,
    ) -> (r: AnalysisResponse)
        ensures
            r.request_id@ == request_id@,
            r.success == outcome is Ok,
            outcome is Ok ==> r.result_json@ == outcome->Ok_0.2@ && r.error_message@.len() == 0
                && (r.metadata is Some <==> include_metadata) && (include_metadata ==> ({
                let m = r.metadata->Some_0;
                &&& m.implementation@ == outcome->Ok_0.0.label_spec()
                &&& m.execution_time_ms == outcome->Ok_0.1
                &&& m.algorithm@ == algorithm@
                &&& m.data_size == data_size
            })),
            outcome is Err ==> r.error_message@ == error_text(
                outcome->Err_0.kind,
                outcome->Err_0.detail@,
            ) && r.metadata is None,
    {
        match outcome {
            Ok((implementation, elapsed, json)) => {
                let metadata = if include_metadata {
                    Some(ExecutionMetadata::new(implementation, elapsed, algorithm, data_size))
                } else {
                    None
                };
                AnalysisResponse::success(request_id, json, metadata)
            },
            Err(e) => AnalysisResponse::failure(request_id, &e),
        }
    }

    /// The reply for a batch slot whose request could not be decoded.
    pub fn decode_failure(request_id: &str, detail: &str) -> (r: AnalysisResponse)
        ensures
            r.request_id@ == request_id@,
            !r.success,
            r.error_message@ == "Request conversion error: "@ + detail@,
            r.metadata is None,
    {
        let mut message = owned("Request conversion error: ");
        message.append(detail);
        AnalysisResponse {
            request_id: owned(request_id),
            success: false,
            error_message: message,
            result_json: String::new(),
            metadata: None,
        }
    }
}

/// What a reply carries besides its request id.
pub ghost struct Payload {
    pub success: bool,
    pub error_message: Seq<char>,
    pub result_json: Seq<char>,
    pub metadata: Option<ExecutionMetadata>,
}

pub open spec fn payload_of(a: AnalysisResponse) -> Payload {
    Payload {
        success: a.success,
        error_message: a.error_message@,
        result_json: a.result_json@,
        metadata: a.metadata,
    }
}

/// The state of one batch stream.
#[derive(Debug, Clone, Copy, PartialEq, Eq, Structural)]
pub enum BatchState {
    Open,
    Closed,
    Cancelled,
}

/// One server-side batch stream: it emits exactly one reply per request, in
/// request order, whatever each outcome, until it closes or is cancelled.
pub struct BatchStream {
    request_ids: Vec<String>,
    emitted: Vec<AnalysisResponse>,
    state: BatchState,
}

/// The characters of each request id.
pub open spec fn ids_view(v: Seq<String>) -> Seq<Seq<char>> {
    v.map_values(|s: String| s@)
}

/// The request ids of the replies, in order.
pub open spec fn reply_ids(v: Seq<AnalysisResponse>) -> Seq<Seq<char>> {
    v.map_values(|r: AnalysisResponse| r.request_id@)
}

impl BatchStream {
    pub closed spec fn ids(&self) -> Seq<Seq<char>> {
        ids_view(self.request_ids@)
    }

    /// The request ids of the replies emitted so far.
    pub closed spec fn emitted_ids(&self) -> Seq<Seq<char>> {
        reply_ids(self.emitted@)
    }

    /// What each emitted reply carries besides its request id, in order.
    pub closed spec fn payloads(&self) -> Seq<Payload> {
        self.emitted@.map_values(|a: AnalysisResponse| payload_of(a))
    }

    pub closed spec fn state_spec(&self) -> BatchState {
        self.state
    }

    /// The emitted replies answer a prefix of the requests, in order; the
    /// stream is closed exactly when every request has its reply, unless it
    /// was cancelled first.
    pub closed spec fn wf(&self) -> bool {
        &&& self.emitted@.len() <= self.request_ids@.len()
        &&& forall|i: int|
            0 <= i < self.emitted@.len() ==> (#[trigger] self.emitted@[i]).request_id@
                == self.request_ids@[i]@
        &&& (self.state == BatchState::Open ==> self.emitted@.len() < self.request_ids@.len())
        &&& (self.state == BatchState::Closed ==> self.emitted@.len() == self.request_ids@.len())
    }

    proof fn lemma_prefix(&self)
        requires
            self.wf(),
        ensures
            self.emitted_ids() == self.ids().subrange(0, self.emitted_ids().len() as int),
            self.emitted_ids().len() <= self.ids().len(),
    {
        assert(self.emitted_ids() =~= self.ids().subrange(0, self.emitted_ids().len() as int));
    }

    /// Opens a stream for the given requests; a batch of none is closed at once.
    pub fn new(request_ids: Vec<String>) -> (r: BatchStream)
        ensures
            r.wf(),
            r.ids() == ids_view(request_ids@),
            r.emitted_ids().len() == 0,
            r.payloads().len() == 0,
            r.state_spec() == if request_ids@.len() == 0 {
                BatchState::Closed
            } else {
                BatchState::Open
            },
    {
        let state = if request_ids.len() == 0 {
            BatchState::Closed
        } else {
            BatchState::Open
        };
        let r = BatchStream { request_ids, emitted: Vec::new(), state };
        assert(r.emitted_ids() =~= Seq::<Seq<char>>::empty());
        assert(r.payloads() =~= Seq::<Payload>::empty());
        r
    }

    pub fn state(&self) -> (r: BatchState)
        ensures
            r == self.state_spec(),
    {
        self.state
    }

    /// The position of the request whose reply is due, while the stream is open.
    pub fn next_index(&self) -> (r: Option<usize>)
        requires
            self.wf(),
        ensures
            r is Some <==> self.state_spec() == BatchState::Open,
            r is Some ==> r->0 == self.emitted_ids().len() && r->0 < self.ids().len(),
    {
        if self.state == BatchState::Open {
            Some(self.emitted.len())
        } else {
            None
        }
    }

    /// The request id of position `i`.
    pub fn request_id(&self, i: usize) -> (r: &str)
        requires
            i < self.ids().len(),
        ensures
            r@ == self.ids()[i as int],
    {
        self.request_ids[i].as_str()
    }

    /// Emits the reply of the request that is due; its request id is set to
    /// that request's. The stream closes after the last reply.
    pub fn emit(&mut self, reply: AnalysisResponse)
        requires
            old(self).wf(),
            old(self).state_spec() == BatchState::Open,
        ensures
            final(self).wf(),
            final(self).ids() == old(self).ids(),
            final(self).emitted_ids() == old(self).emitted_ids().push(
                old(self).ids()[old(self).emitted_ids().len() as int],
            ),
            final(self).payloads() == old(self).payloads().push(payload_of(reply)),
            final(self).state_spec() == if final(self).emitted_ids().len() == final(self).ids().len() {
                BatchState::Closed
            } else {
                BatchState::Open
            },
    {
        let i = self.emitted.len();
        let mut reply = reply;
        reply.request_id = self.request_ids[i].clone();
        self.emitted.push(reply);
        if self.emitted.len() == self.request_ids.len() {
            self.state = BatchState::Closed;
        }
        assert(self.emitted_ids() =~= old(self).emitted_ids().push(old(self).ids()[i as int]));
        assert(self.payloads() =~= old(self).payloads().push(payload_of(reply)));
    }

    /// The client went away: no further reply is due. Replies already emitted stand.
    pub fn cancel(&mut self)
        requires
            old(self).wf(),
        ensures
            final(self).wf(),
            final(self).ids() == old(self).ids(),
            final(self).emitted_ids() == old(self).emitted_ids(),
            final(self).payloads() == old(self).payloads(),
            final(self).state_spec() == if old(self).state_spec() == BatchState::Open {
                BatchState::Cancelled
            } else {
                old(self).state_spec()
            },
    {
        if self.state == BatchState::Open {
            self.state = BatchState::Cancelled;
        }
    }

    /// Hands out the replies emitted so far.
    pub fn into_replies(self) -> (r: Vec<AnalysisResponse>)
        ensures
            reply_ids(r@) == self.emitted_ids(),
            r@.map_values(|a: AnalysisResponse| payload_of(a)) == self.payloads(),
    {
        self.emitted
    }
}

/// A closed stream has emitted exactly one reply per request, and their
/// request ids match the requests element-wise, in order.
pub proof fn lemma_batch_order(s: BatchStream)
    requires
        s.wf(),
        s.state_spec() == BatchState::Closed,
    ensures
        s.emitted_ids() == s.ids(),
{
    s.lemma_prefix();
    assert(s.ids().subrange(0, s.ids().len() as int) =~= s.ids());
}

/// Runs a whole batch whose outcomes are already known: one reply per
/// request, in order, whatever each outcome.
pub fn batch_replies(request_ids: Vec<String>, replies: Vec<AnalysisResponse>) -> (r: Vec<
    AnalysisResponse,
>)
    requires
        replies@.len() == request_ids@.len(),
    ensures
        reply_ids(r@) == ids_view(request_ids@),
        r@.len() == request_ids@.len(),
        forall|i: int| 0 <= i < r@.len() ==> payload_of(#[trigger] r@[i]) == payload_of(replies@[i]),
{
    let n = request_ids.len();
    let ghost ids = ids_view(request_ids@);
    let mut stream = BatchStream::new(request_ids);
    let ghost given = replies@;
    let mut pending = replies;
    let mut i: usize = 0;
    while i < n
        invariant
            stream.wf(),
            stream.ids() == ids,
            ids.len() == n,
            stream.emitted_ids().len() == i,
            given.len() == n,
            i <= n,
            pending@ == given.subrange(i as int, n as int),
            stream.state_spec() == if i == n {
                BatchState::Closed
            } else {
                BatchState::Open
            },
            stream.payloads() == given.subrange(0, i as int).map_values(
                |a: AnalysisResponse| payload_of(a),
            ),
        decreases n - i,
    {
        let reply = pending.remove(0);
        stream.emit(reply);
        assert(given.subrange(0, i + 1) =~= given.subrange(0, i as int).push(given[i as int]));
        assert(given.subrange(0, i + 1).map_values(|a: AnalysisResponse| payload_of(a))
            =~= given.subrange(0, i as int).map_values(|a: AnalysisResponse| payload_of(a)).push(payload_of(given[i as int])));
        i = i + 1;
        assert(pending@ =~= given.subrange(i as int, n as int));
    }
    proof {
        lemma_batch_order(stream);
        assert(given.subrange(0, n as int) =~= given);
    }
    let r = stream.into_replies();
    assert forall|i: int| 0 <= i < r@.len() implies payload_of(#[trigger] r@[i]) == payload_of(given[i]) by {
        assert(r@.map_values(|a: AnalysisResponse| payload_of(a))[i] == given.map_values(|a: AnalysisResponse| payload_of(a))[i]);
    }
    r
}

/// Whether the alternate bridge can serve requests.
#[derive(Debug, Clone, Copy, PartialEq, Eq, Structural)]
pub enum BridgeState {
    /// The build has no bridge.
    Disabled,
    /// The startup probe failed.
    Unavailable,
    Available,
}

impl BridgeState {
    pub open spec fn label_spec(self) -> Seq<char> {
        match self {
            BridgeState::Disabled => "disabled"@,
            BridgeState::Unavailable => "unavailable"@,
            BridgeState::Available => "available"@,
        }
    }

    /// The label that the health probe reports.
    pub fn label(&self) -> (r: &'static str)
        ensures
            r@ == self.label_spec(),
    {
        match self {
            BridgeState::Disabled => "disabled",
            BridgeState::Unavailable => "unavailable",
            BridgeState::Available => "available",
        }
    }
}

/// The health probe's reply.
#[derive(Debug)]
pub struct HealthResponse {
    pub healthy: bool,
    pub version: String,
    /// Capability name and its state, `native` first.
    pub capabilities: Vec<(String, String)>,
}

/// The health probe: always healthy; the native channel is always available,
/// the alternate one is as the startup probe found it.
pub fn health_check(bridge: BridgeState, version: &str) -> (r: HealthResponse)
    ensures
        r.healthy,
        r.version@ == version@,
        r.capabilities@.len() == 2,
        r.capabilities@[0].0@ == "native"@,
        r.capabilities@[0].1@ == "available"@,
        r.capabilities@[1].0@ == "alternate"@,
        r.capabilities@[1].1@ == bridge.label_spec(),
{
    let mut capabilities: Vec<(String, String)> = Vec::new();
    capabilities.push((owned("native"), owned("available")));
    capabilities.push((owned("alternate"), owned(bridge.label())));
    HealthResponse { healthy: true, version: owned(version), capabilities }
}

} // verus!
