//! Control-protocol engine: classifies each decoded frame as a control
//! response, a control request, or an ordinary message; correlates outbound
//! control requests with their responses; decides the reply to each inbound
//! control request; and forwards ordinary messages in arrival order.
//!
//! The engine is a pure state machine: it performs no I/O itself. The caller
//! drives it with decoded frames and carries out the returned action —
//! delivering a message, completing a waiting request, writing a reply line
//! back to the peer, or invoking the registered permission callback and
//! handing the decision back through [`Engine::permission_reply`].

use vstd::prelude::*;
use vstd::map::*;
use vstd::string::*;
use crate::errors::{dec_digits, u64_string, ClaudeSDKError, SdkResult};
use crate::json::{
    json_as_str, json_bool, json_dump, json_get, json_map_insert, json_map_new, json_model,
    json_null, json_object, json_string, json_to_string, obj_get, obj_has, obj_str, JsonData,
};
use crate::types::{PermissionResult, ToolPermissionContext};

verus! {

// ---------------------------------------------------------------------------
// Frame classification over the JSON model
// ---------------------------------------------------------------------------
/// The `type` discriminator of a frame, when present and a string.
pub open spec fn frame_type(d: JsonData) -> Option<Seq<char>> {
    obj_str(d, "type"@)
}

pub open spec fn is_control_response(d: JsonData) -> bool {
    frame_type(d) == Some("control_response"@)
}

pub open spec fn is_control_request(d: JsonData) -> bool {
    frame_type(d) == Some("control_request"@)
}

/// Every frame that is not part of the control sub-protocol is an ordinary
/// message, forwarded to the caller unchanged.
pub open spec fn is_ordinary_frame(d: JsonData) -> bool {
    !is_control_response(d) && !is_control_request(d)
}

/// The `response` body of a control-response frame.
pub open spec fn response_body(d: JsonData) -> Option<JsonData> {
    if obj_has(d, "response"@) {
        Some(obj_get(d, "response"@))
    } else {
        None
    }
}

/// The request id a control response correlates to, when present.
pub open spec fn response_req_id(d: JsonData) -> Option<Seq<char>> {
    match response_body(d) {
        Some(b) => obj_str(b, "request_id"@),
        None => None,
    }
}

/// Whether a control-response body reports an error.
pub open spec fn response_is_error(b: JsonData) -> bool {
    obj_str(b, "subtype"@) == Some("error"@)
}

/// The error text of an error response; a fallback when absent.
pub open spec fn response_error_text(b: JsonData) -> Seq<char> {
    match obj_str(b, "error"@) {
        Some(t) => t,
        None => "Unknown error"@,
    }
}

/// The success payload of a control-response body; `null` when absent.
pub open spec fn response_payload(b: JsonData) -> JsonData {
    if obj_has(b, "response"@) {
        obj_get(b, "response"@)
    } else {
        JsonData::Null
    }
}

/// The id under which an inbound control request must be answered; empty
/// when missing or not a string.
pub open spec fn inbound_request_id(d: JsonData) -> Seq<char> {
    match obj_str(d, "request_id"@) {
        Some(s) => s,
        None => Seq::empty(),
    }
}

/// The `request` body of an inbound control request.
pub open spec fn request_body(d: JsonData) -> Option<JsonData> {
    if obj_has(d, "request"@) {
        Some(obj_get(d, "request"@))
    } else {
        None
    }
}

/// The subtype of an inbound control request body; empty when missing.
pub open spec fn request_subtype(b: JsonData) -> Seq<char> {
    match obj_str(b, "subtype"@) {
        Some(s) => s,
        None => Seq::empty(),
    }
}

/// A subtype the engine acknowledges without consulting the caller.
pub open spec fn is_ack_subtype(s: Seq<char>) -> bool {
    ||| s == "initialize"@
    ||| s == "interrupt"@
    ||| s == "set_permission_mode"@
    ||| s == "hook_callback"@
    ||| s == "mcp_message"@
}

// ---------------------------------------------------------------------------
// The frames the engine writes back
// ---------------------------------------------------------------------------
/// The success reply to an inbound control request.
pub open spec fn success_frame(id: Seq<char>, payload: JsonData) -> JsonData {
    JsonData::Obj(
        map![
            "type"@ => JsonData::Str("control_response"@),
            "response"@ => JsonData::Obj(
                map![
                    "subtype"@ => JsonData::Str("success"@),
                    "request_id"@ => JsonData::Str(id),
                    "response"@ => payload,
                ],
            ),
        ],
    )
}

/// The error reply to an inbound control request.
pub open spec fn error_frame(id: Seq<char>, msg: Seq<char>) -> JsonData {
    JsonData::Obj(
        map![
            "type"@ => JsonData::Str("control_response"@),
            "response"@ => JsonData::Obj(
                map![
                    "subtype"@ => JsonData::Str("error"@),
                    "request_id"@ => JsonData::Str(id),
                    "error"@ => JsonData::Str(msg),
                ],
            ),
        ],
    )
}

/// An outbound control-request frame.
pub open spec fn request_frame(id: Seq<char>, body: JsonData) -> JsonData {
    JsonData::Obj(
        map![
            "type"@ => JsonData::Str("control_request"@),
            "request_id"@ => JsonData::Str(id),
            "request"@ => body,
        ],
    )
}

/// The text of the id given to the n-th outbound request of a session.
pub open spec fn request_id_of(counter: nat, suffix: Seq<char>) -> Seq<char> {
    "req_"@ + dec_digits(counter) + "_"@ + suffix
}

/// The payload of the reply built from a permission decision: allow, with
/// the replacement input when one was supplied, or deny with the reason.
pub open spec fn decision_payload(d: PermissionResult) -> JsonData {
    match d {
        PermissionResult::Allow { updated_input, updated_permissions: _ } => match updated_input {
            Some(v) => JsonData::Obj(
                map!["allow"@ => JsonData::Bool(true), "input"@ => json_model(v)],
            ),
            None => JsonData::Obj(map!["allow"@ => JsonData::Bool(true)]),
        },
        PermissionResult::Deny { message, interrupt: _ } => JsonData::Obj(
            map!["allow"@ => JsonData::Bool(false), "reason"@ => JsonData::Str(message@)],
        ),
    }
}

// ---------------------------------------------------------------------------
// The engine's mathematical model
// ---------------------------------------------------------------------------
/// Ghost state of one engine instance.
pub struct EngineModel {
    pub streaming: bool,
    pub has_permission_callback: bool,
    pub counter: nat,
    pub suffix: Seq<char>,
    /// The correlation table: ids of outbound requests not yet resolved.
    pub pending: Seq<Seq<char>>,
}

/// How a matched outbound request resolves.
pub enum OutcomeModel {
    Payload(JsonData),
    Protocol(Seq<char>),
}

/// Ghost counterpart of [`StepAction`].
pub enum ActionModel {
    Deliver(JsonData),
    Resolve { request_id: Seq<char>, outcome: OutcomeModel },
    Reply(JsonData),
    Ask { request_id: Seq<char>, tool_name: Seq<char>, input: JsonData },
    Ignore,
}

/// The pending table with every entry for `id` removed.
pub open spec fn without_id(pending: Seq<Seq<char>>, id: Seq<char>) -> Seq<Seq<char>> {
    pending.filter(|s: Seq<char>| s != id)
}

/// The model with a new pending table.
pub open spec fn with_pending(st: EngineModel, p: Seq<Seq<char>>) -> EngineModel {
    EngineModel { pending: p, ..st }
}

/// The reply decided for one inbound control request.
pub open spec fn dispatch_spec(st: EngineModel, id: Seq<char>, b: JsonData) -> ActionModel {
    let subtype = request_subtype(b);
    if subtype == "can_use_tool"@ {
        if !st.has_permission_callback {
            ActionModel::Reply(error_frame(id, "can_use_tool callback not provided"@))
        } else {
            match obj_str(b, "tool_name"@) {
                None => ActionModel::Reply(error_frame(id, "Missing tool_name"@)),
                Some(tn) => ActionModel::Ask {
                    request_id: id,
                    tool_name: tn,
                    input: if obj_has(b, "input"@) {
                        obj_get(b, "input"@)
                    } else {
                        JsonData::Null
                    },
                },
            }
        }
    } else if is_ack_subtype(subtype) {
        ActionModel::Reply(success_frame(id, JsonData::Null))
    } else {
        ActionModel::Reply(error_frame(id, "Unknown request subtype: "@ + subtype))
    }
}

/// The engine's transition on one decoded frame: the state after the frame
/// and the action the caller must carry out.
pub open spec fn spec_step(st: EngineModel, d: JsonData) -> (EngineModel, ActionModel) {
    if is_control_response(d) {
        match response_req_id(d) {
            Some(rid) => if st.pending.contains(rid) {
                let b = response_body(d).unwrap();
                let outcome = if response_is_error(b) {
                    OutcomeModel::Protocol(response_error_text(b))
                } else {
                    OutcomeModel::Payload(response_payload(b))
                };
                (
                    with_pending(st, without_id(st.pending, rid)),
                    ActionModel::Resolve { request_id: rid, outcome },
                )
            } else {
                // a response no caller is waiting for is dropped silently
                (st, ActionModel::Ignore)
            },
            None => (st, ActionModel::Ignore),
        }
    } else if is_control_request(d) {
        match request_body(d) {
            None => (st, ActionModel::Ignore),
            Some(b) => (st, dispatch_spec(st, inbound_request_id(d), b)),
        }
    } else {
        (st, ActionModel::Deliver(d))
    }
}

// ---------------------------------------------------------------------------
// The executable engine
// ---------------------------------------------------------------------------
/// What the caller must do after handing the engine one frame.
pub enum StepAction {
    /// An ordinary message: push it to the message channel.
    Deliver(serde_json::Value),
    /// A matched control response: complete the waiting request.
    Resolve { request_id: String, outcome: SdkResult<serde_json::Value> },
    /// A reply frame, already serialized: write it back to the peer.
    Reply(String),
    /// Invoke the permission callback, then build the reply with
    /// [`Engine::permission_reply`].
    Ask {
        request_id: String,
        tool_name: String,
        input: serde_json::Value,
        context: ToolPermissionContext,
    },
    /// Nothing to do.
    Ignore,
}

/// The exec action carries out the modelled one.
pub open spec fn action_matches(a: StepAction, m: ActionModel) -> bool {
    match (a, m) {
        (StepAction::Deliver(v), ActionModel::Deliver(d)) => json_model(v) == d,
        (
            StepAction::Resolve { request_id: rid, outcome },
            ActionModel::Resolve { request_id: mrid, outcome: mo },
        ) => rid@ == mrid && match (outcome, mo) {
            (Ok(v), OutcomeModel::Payload(p)) => json_model(v) == p,
            (Err(e), OutcomeModel::Protocol(t)) => e matches ClaudeSDKError::ControlProtocol(s)
                && s@ == t,
            _ => false,
        },
        (StepAction::Reply(line), ActionModel::Reply(frame)) => line@ == json_dump(frame),
        (
            StepAction::Ask { request_id: rid, tool_name: tn, input, context },
            ActionModel::Ask { request_id: mrid, tool_name: mtn, input: mi },
        ) => rid@ == mrid && tn@ == mtn && json_model(input) == mi && context.suggestions@
            == Seq::<crate::types::PermissionUpdate>::empty(),
        (StepAction::Ignore, ActionModel::Ignore) => true,
        _ => false,
    }
}

/// An outbound request that was just registered: the id it will resolve
/// under, and the serialized frame to write.
pub struct OpenedRequest {
    pub request_id: String,
    pub line: String,
}

/// The control-protocol engine bound to one transport.
pub struct Engine {
    is_streaming: bool,
    has_permission_callback: bool,
    request_counter: u64,
    id_suffix: String,
    pending: Vec<String>,
}

impl Engine {
    /// The engine's ghost state.
    pub closed spec fn model(self) -> EngineModel {
        EngineModel {
            streaming: self.is_streaming,
            has_permission_callback: self.has_permission_callback,
            counter: self.request_counter as nat,
            suffix: self.id_suffix@,
            pending: self.pending@.map_values(|s: String| s@),
        }
    }

    /// A fresh engine: empty correlation table, request counter at zero.
    /// `id_suffix` is appended to every generated request id, so that ids
    /// from distinct sessions cannot collide.
    pub fn new(is_streaming: bool, has_permission_callback: bool, id_suffix: String) -> (r: Self)
        ensures
            r.model().streaming == is_streaming,
            r.model().has_permission_callback == has_permission_callback,
            r.model().counter == 0,
            r.model().suffix == id_suffix@,
            r.model().pending == Seq::<Seq<char>>::empty(),
    {
        let r = Engine {
            is_streaming,
            has_permission_callback,
            request_counter: 0,
            id_suffix,
            pending: Vec::new(),
        };
        proof {
            assert(r.model().pending =~= Seq::<Seq<char>>::empty());
        }
        r
    }

    /// Remove every pending entry for `id`; report whether one was there.
    fn take_pending(&mut self, id: &String) -> (found: bool)
        ensures
            found == old(self).model().pending.contains(id@),
            final(self).model() == with_pending(
                old(self).model(),
                without_id(old(self).model().pending, id@),
            ),
    {
        let ghost p0 = self.pending@.map_values(|s: String| s@);
        let mut found = false;
        let mut i: usize = 0;
        while i < self.pending.len()
            invariant
                0 <= i <= self.pending.len(),
                *self == *old(self),
                p0 == self.pending@.map_values(|s: String| s@),
                found == exists|k: int| 0 <= k < i && p0[k] == id@,
            decreases self.pending.len() - i,
        {
            let eq = string_eq(&self.pending[i], id);
            proof {
                assert(p0[i as int] == self.pending@[i as int]@);
                if eq {
                    assert(p0[i as int] == id@);
                }
            }
            if eq {
                found = true;
            }
            i = i + 1;
        }
        proof {
            if found {
                assert(p0.contains(id@));
            } else {
                assert forall|k: int| 0 <= k < p0.len() implies p0[k] != id@ by {}
                assert(!p0.contains(id@));
            }
        }
        if !found {
            proof {
                lemma_without_absent_id(p0, id@);
            }
            return false;
        }
        let mut kept: Vec<String> = Vec::new();
        let mut j: usize = 0;
        while j < self.pending.len()
            invariant
                0 <= j <= self.pending.len(),
                *self == *old(self),
                p0 == self.pending@.map_values(|s: String| s@),
                kept@.map_values(|s: String| s@) == without_id(p0.take(j as int), id@),
            decreases self.pending.len() - j,
        {
            let ghost kept0 = kept@.map_values(|s: String| s@);
            if !string_eq(&self.pending[j], id) {
                let item = self.pending[j].clone();
                kept.push(item);
            }
            proof {
                reveal(Seq::filter);
                assert(p0.take(j as int + 1).drop_last() =~= p0.take(j as int));
                assert(p0.take(j as int + 1).last() == p0[j as int]);
                if p0[j as int] != id@ {
                    assert(kept@.map_values(|s: String| s@) =~= kept0.push(p0[j as int]));
                }
                assert(kept@.map_values(|s: String| s@) =~= without_id(
                    p0.take(j as int + 1),
                    id@,
                ));
            }
            j = j + 1;
        }
        proof {
            assert(p0.take(p0.len() as int) =~= p0);
        }
        self.pending = kept;
        proof {
            assert(self.model().pending == without_id(p0, id@));
        }
        true
    }

    /// Consume one decoded frame and decide the action.
    ///
    /// A control response resolves (and removes) the matching pending
    /// request, or is dropped when nothing matches; a control request is
    /// answered per its subtype; every other frame is delivered to the
    /// caller unchanged.
    pub fn handle_frame(&mut self, v: serde_json::Value) -> (r: StepAction)
        ensures
            final(self).model() == spec_step(old(self).model(), json_model(v)).0,
            action_matches(r, spec_step(old(self).model(), json_model(v)).1),
    {
        let ghost d = json_model(v);
        let mut is_resp = false;
        let mut is_req = false;
        match json_get(&v, "type") {
            Some(tv) => {
                match json_as_str(tv) {
                    Some(t) => {
                        if str_eq_lit(&t, "control_response") {
                            is_resp = true;
                        } else if str_eq_lit(&t, "control_request") {
                            is_req = true;
                        }
                    },
                    None => {},
                }
            },
            None => {},
        }
        proof {
            lemma_control_literals_distinct();
            assert(is_resp == is_control_response(d));
            assert(is_req == is_control_request(d));
        }
        if is_resp {
            match json_get(&v, "response") {
                Some(resp) => {
                    let rid_opt = match json_get(resp, "request_id") {
                        Some(x) => json_as_str(x),
                        None => None,
                    };
                    match rid_opt {
                        Some(rid) => {
                            let found = self.take_pending(&rid);
                            if found {
                                let is_err = match json_get(resp, "subtype") {
                                    Some(x) => match json_as_str(x) {
                                        Some(s) => str_eq_lit(&s, "error"),
                                        None => false,
                                    },
                                    None => false,
                                };
                                if is_err {
                                    let msg = match json_get(resp, "error") {
                                        Some(x) => match json_as_str(x) {
                                            Some(s) => s,
                                            None => unknown_error_text(),
                                        },
                                        None => unknown_error_text(),
                                    };
                                    StepAction::Resolve {
                                        request_id: rid,
                                        outcome: Err(ClaudeSDKError::ControlProtocol(msg)),
                                    }
                                } else {
                                    let payload = match json_get(resp, "response") {
                                        Some(x) => x.clone(),
                                        None => json_null(),
                                    };
                                    StepAction::Resolve { request_id: rid, outcome: Ok(payload) }
                                }
                            } else {
                                proof {
                                    lemma_without_absent_id(old(self).model().pending, rid@);
                                }
                                StepAction::Ignore
                            }
                        },
                        None => StepAction::Ignore,
                    }
                },
                None => StepAction::Ignore,
            }
        } else if is_req {
            match json_get(&v, "request") {
                None => StepAction::Ignore,
                Some(req) => {
                    let rid = match json_get(&v, "request_id") {
                        Some(x) => match json_as_str(x) {
                            Some(s) => s,
                            None => String::new(),
                        },
                        None => String::new(),
                    };
                    let subtype = match json_get(req, "subtype") {
                        Some(x) => match json_as_str(x) {
                            Some(s) => s,
                            None => String::new(),
                        },
                        None => String::new(),
                    };
                    self.dispatch(req, rid, subtype)
                },
            }
        } else {
            StepAction::Deliver(v)
        }
    }

    /// Decide the reply to one inbound control request.
    fn dispatch(&self, req: &serde_json::Value, rid: String, subtype: String) -> (r: StepAction)
        requires
            subtype@ == request_subtype(json_model(*req)),
        ensures
            action_matches(r, dispatch_spec(self.model(), rid@, json_model(*req))),
    {
        if str_eq_lit(&subtype, "can_use_tool") {
            if !self.has_permission_callback {
                return StepAction::Reply(
                    build_error_reply(rid.as_str(), "can_use_tool callback not provided"),
                );
            }
            match json_get(req, "tool_name") {
                Some(x) => match json_as_str(x) {
                    Some(tn) => {
                        let input = match json_get(req, "input") {
                            Some(iv) => iv.clone(),
                            None => json_null(),
                        };
                        StepAction::Ask {
                            request_id: rid,
                            tool_name: tn,
                            input,
                            context: ToolPermissionContext { suggestions: Vec::new() },
                        }
                    },
                    None => StepAction::Reply(build_error_reply(rid.as_str(), "Missing tool_name")),
                },
                None => StepAction::Reply(build_error_reply(rid.as_str(), "Missing tool_name")),
            }
        } else if str_eq_lit(&subtype, "initialize") || str_eq_lit(&subtype, "interrupt")
            || str_eq_lit(&subtype, "set_permission_mode") || str_eq_lit(&subtype, "hook_callback")
            || str_eq_lit(&subtype, "mcp_message") {
            let payload = json_null();
            StepAction::Reply(build_success_reply(rid.as_str(), &payload))
        } else {
            let mut msg = String::new();
            proof {
                reveal_strlit("Unknown request subtype: ");
            }
            msg.append("Unknown request subtype: ");
            msg.append(subtype.as_str());
            assert(msg@ =~= "Unknown request subtype: "@ + subtype@);
            StepAction::Reply(build_error_reply(rid.as_str(), msg.as_str()))
        }
    }

    /// Build the reply to a `can_use_tool` request from the callback's
    /// decision: allow (with the replacement input, when given) or deny with
    /// the reason.
    pub fn permission_reply(&self, request_id: &str, decision: PermissionResult) -> (line: String)
        ensures
            line@ == json_dump(success_frame(request_id@, decision_payload(decision))),
    {
        let payload = match decision {
            PermissionResult::Allow { updated_input, updated_permissions: _ } => {
                let mut m = json_map_new();
                json_map_insert(&mut m, "allow", json_bool(true));
                match updated_input {
                    Some(v) => {
                        json_map_insert(&mut m, "input", v);
                    },
                    None => {},
                }
                json_object(m)
            },
            PermissionResult::Deny { message, interrupt: _ } => {
                let mut m = json_map_new();
                json_map_insert(&mut m, "allow", json_bool(false));
                json_map_insert(&mut m, "reason", json_string(message.as_str()));
                json_object(m)
            },
        };
        build_success_reply(request_id, &payload)
    }

    /// Register a fresh outbound control request: bump the counter, add the
    /// id to the correlation table, and serialize the frame to write.
    ///
    /// Outside streaming mode the control channel is inert and the request
    /// is refused.
    pub fn open_request(&mut self, request: serde_json::Value) -> (r: SdkResult<OpenedRequest>)
        ensures
            !old(self).model().streaming ==> *final(self) == *old(self) && (r matches Err(e)
                && e matches ClaudeSDKError::ControlProtocol(m) && m@
                == "Control requests require streaming mode"@),
            old(self).model().streaming && old(self).model().counter == u64::MAX as nat ==> {
                &&& *final(self) == *old(self)
                &&& r matches Err(e) && e matches ClaudeSDKError::ControlProtocol(m) && m@
                    == "Control request ids exhausted"@
            },
            old(self).model().streaming && old(self).model().counter < u64::MAX as nat ==> {
                let id = request_id_of(old(self).model().counter + 1, old(self).model().suffix);
                &&& final(self).model() == (EngineModel {
                    counter: old(self).model().counter + 1,
                    pending: old(self).model().pending.push(id),
                    ..old(self).model()
                })
                &&& r matches Ok(o) && o.request_id@ == id && o.line@ == json_dump(
                    request_frame(id, json_model(request)),
                )
            },
    {
        if !self.is_streaming {
            return Err(ClaudeSDKError::control_protocol("Control requests require streaming mode"));
        }
        if self.request_counter == u64::MAX {
            return Err(ClaudeSDKError::control_protocol("Control request ids exhausted"));
        }
        self.request_counter = self.request_counter + 1;
        let mut id = String::new();
        proof {
            reveal_strlit("req_");
            reveal_strlit("_");
        }
        id.append("req_");
        let num = u64_string(self.request_counter);
        id.append(num.as_str());
        id.append("_");
        id.append(self.id_suffix.as_str());
        assert(id@ =~= request_id_of(
            old(self).model().counter + 1,
            old(self).model().suffix,
        ));
        let mut outer = json_map_new();
        json_map_insert(&mut outer, "type", json_string("control_request"));
        json_map_insert(&mut outer, "request_id", json_string(id.as_str()));
        json_map_insert(&mut outer, "request", request);
        let frame = json_object(outer);
        proof {
            assert(json_model(frame) =~~= request_frame(id@, json_model(request)));
        }
        let line = json_to_string(&frame);
        let id_copy = id.clone();
        self.pending.push(id);
        proof {
            assert(self.model().pending =~= old(self).model().pending.push(id_copy@));
            assert(self.model() == (EngineModel {
                counter: old(self).model().counter + 1,
                pending: old(self).model().pending.push(id_copy@),
                ..old(self).model()
            }));
        }
        Ok(OpenedRequest { request_id: id_copy, line })
    }

    /// A pending request's deadline passed: drop its table entry and hand
    /// the caller the timeout error — exactly when the entry was still
    /// there, so the error is surfaced once per request.
    pub fn on_timeout(&mut self, request_id: &String) -> (r: SdkResult<()>)
        ensures
            final(self).model() == with_pending(
                old(self).model(),
                without_id(old(self).model().pending, request_id@),
            ),
            r is Err <==> old(self).model().pending.contains(request_id@),
            r matches Err(e) ==> e matches ClaudeSDKError::Timeout(m) && m@
                == "Control request timeout"@,
    {
        let found = self.take_pending(request_id);
        if found {
            Err(ClaudeSDKError::timeout("Control request timeout"))
        } else {
            Ok(())
        }
    }

    /// Whether an outbound request id is still awaiting its response.
    pub fn is_pending(&self, request_id: &String) -> (r: bool)
        ensures
            r == self.model().pending.contains(request_id@),
    {
        let ghost p0 = self.pending@.map_values(|s: String| s@);
        let mut found = false;
        let mut i: usize = 0;
        while i < self.pending.len()
            invariant
                0 <= i <= self.pending.len(),
                p0 == self.pending@.map_values(|s: String| s@),
                found == exists|k: int| 0 <= k < i && p0[k] == request_id@,
            decreases self.pending.len() - i,
        {
            let eq = string_eq(&self.pending[i], request_id);
            proof {
                assert(p0[i as int] == self.pending@[i as int]@);
                if eq {
                    assert(p0[i as int] == request_id@);
                }
            }
            if eq {
                found = true;
            }
            i = i + 1;
        }
        proof {
            if found {
                assert(p0.contains(request_id@));
            } else {
                assert forall|k: int| 0 <= k < p0.len() implies p0[k] != request_id@ by {}
                assert(!p0.contains(request_id@));
            }
        }
        found
    }
}

proof fn lemma_control_literals_distinct()
    ensures
        "control_response"@ != "control_request"@,
{
    reveal_strlit("control_response");
    reveal_strlit("control_request");
    assert("control_response"@.len() == 16);
    assert("control_request"@.len() == 15);
}

fn unknown_error_text() -> (r: String)
    ensures
        r@ == "Unknown error"@,
{
    let r: String = "Unknown error".to_owned();
    r
}

/// Compare two strings by contents.
fn string_eq(a: &String, b: &String) -> (r: bool)
    ensures
        r == (a@ == b@),
{
    *a == *b
}

/// Compare a string against a literal.
fn str_eq_lit(s: &String, lit: &str) -> (r: bool)
    ensures
        r == (s@ == lit@),
{
    let other: String = lit.to_owned();
    *s == other
}

/// Serialize the success reply to an inbound request.
fn build_success_reply(id: &str, payload: &serde_json::Value) -> (line: String)
    ensures
        line@ == json_dump(success_frame(id@, json_model(*payload))),
{
    let mut inner = json_map_new();
    json_map_insert(&mut inner, "subtype", json_string("success"));
    json_map_insert(&mut inner, "request_id", json_string(id));
    json_map_insert(&mut inner, "response", payload.clone());
    let mut outer = json_map_new();
    json_map_insert(&mut outer, "type", json_string("control_response"));
    json_map_insert(&mut outer, "response", json_object(inner));
    let frame = json_object(outer);
    proof {
        assert(json_model(frame) =~~= success_frame(id@, json_model(*payload)));
    }
    json_to_string(&frame)
}

/// Serialize the error reply to an inbound request.
fn build_error_reply(id: &str, msg: &str) -> (line: String)
    ensures
        line@ == json_dump(error_frame(id@, msg@)),
{
    let mut inner = json_map_new();
    json_map_insert(&mut inner, "subtype", json_string("error"));
    json_map_insert(&mut inner, "request_id", json_string(id));
    json_map_insert(&mut inner, "error", json_string(msg));
    let mut outer = json_map_new();
    json_map_insert(&mut outer, "type", json_string("control_response"));
    json_map_insert(&mut outer, "response", json_object(inner));
    let frame = json_object(outer);
    proof {
        assert(json_model(frame) =~~= error_frame(id@, msg@));
    }
    json_to_string(&frame)
}

// ---------------------------------------------------------------------------
// Request bodies and outbound user frames
// ---------------------------------------------------------------------------
/// The body of an outbound interrupt request.
pub open spec fn interrupt_body_data() -> JsonData {
    JsonData::Obj(map!["subtype"@ => JsonData::Str("interrupt"@)])
}

pub fn interrupt_body() -> (v: serde_json::Value)
    ensures
        json_model(v) == interrupt_body_data(),
{
    let mut m = json_map_new();
    json_map_insert(&mut m, "subtype", json_string("interrupt"));
    let v = json_object(m);
    proof {
        assert(json_model(v) =~~= interrupt_body_data());
    }
    v
}

/// The body of an outbound permission-mode change.
pub open spec fn set_permission_mode_body_data(mode: Seq<char>) -> JsonData {
    JsonData::Obj(
        map!["subtype"@ => JsonData::Str("set_permission_mode"@), "mode"@ => JsonData::Str(mode)],
    )
}

pub fn set_permission_mode_body(mode: &str) -> (v: serde_json::Value)
    ensures
        json_model(v) == set_permission_mode_body_data(mode@),
{
    let mut m = json_map_new();
    json_map_insert(&mut m, "subtype", json_string("set_permission_mode"));
    json_map_insert(&mut m, "mode", json_string(mode));
    let v = json_object(m);
    proof {
        assert(json_model(v) =~~= set_permission_mode_body_data(mode@));
    }
    v
}

/// The body of the initialize request; the engine carries no hook
/// configuration of its own, so the hooks field is null.
pub open spec fn initialize_body_data() -> JsonData {
    JsonData::Obj(
        map!["subtype"@ => JsonData::Str("initialize"@), "hooks"@ => JsonData::Null],
    )
}

pub fn initialize_body() -> (v: serde_json::Value)
    ensures
        json_model(v) == initialize_body_data(),
{
    let mut m = json_map_new();
    json_map_insert(&mut m, "subtype", json_string("initialize"));
    json_map_insert(&mut m, "hooks", json_null());
    let v = json_object(m);
    proof {
        assert(json_model(v) =~~= initialize_body_data());
    }
    v
}

/// The frame carrying a one-shot user prompt.
pub open spec fn user_prompt_data(prompt: Seq<char>) -> JsonData {
    JsonData::Obj(
        map![
            "type"@ => JsonData::Str("user"@),
            "message"@ => JsonData::Obj(
                map!["role"@ => JsonData::Str("user"@), "content"@ => JsonData::Str(prompt)],
            ),
        ],
    )
}

pub fn user_prompt_frame(prompt: &str) -> (line: String)
    ensures
        line@ == json_dump(user_prompt_data(prompt@)),
{
    let mut inner = json_map_new();
    json_map_insert(&mut inner, "role", json_string("user"));
    json_map_insert(&mut inner, "content", json_string(prompt));
    let mut outer = json_map_new();
    json_map_insert(&mut outer, "type", json_string("user"));
    json_map_insert(&mut outer, "message", json_object(inner));
    let v = json_object(outer);
    proof {
        assert(json_model(v) =~~= user_prompt_data(prompt@));
    }
    json_to_string(&v)
}

/// The frame carrying a user prompt within an interactive session.
pub open spec fn session_prompt_data(prompt: Seq<char>, session_id: Seq<char>) -> JsonData {
    JsonData::Obj(
        map![
            "type"@ => JsonData::Str("user"@),
            "message"@ => JsonData::Obj(
                map!["role"@ => JsonData::Str("user"@), "content"@ => JsonData::Str(prompt)],
            ),
            "parent_tool_use_id"@ => JsonData::Null,
            "session_id"@ => JsonData::Str(session_id),
        ],
    )
}

pub fn session_prompt_frame(prompt: &str, session_id: &str) -> (line: String)
    ensures
        line@ == json_dump(session_prompt_data(prompt@, session_id@)),
{
    let mut inner = json_map_new();
    json_map_insert(&mut inner, "role", json_string("user"));
    json_map_insert(&mut inner, "content", json_string(prompt));
    let mut outer = json_map_new();
    json_map_insert(&mut outer, "type", json_string("user"));
    json_map_insert(&mut outer, "message", json_object(inner));
    json_map_insert(&mut outer, "parent_tool_use_id", json_null());
    json_map_insert(&mut outer, "session_id", json_string(session_id));
    let v = json_object(outer);
    proof {
        assert(json_model(v) =~~= session_prompt_data(prompt@, session_id@));
    }
    json_to_string(&v)
}

// ---------------------------------------------------------------------------
// Laws
// ---------------------------------------------------------------------------
/// Removing an id from the table leaves no entry for it.
pub proof fn lemma_without_id_gone(pending: Seq<Seq<char>>, id: Seq<char>)
    ensures
        !without_id(pending, id).contains(id),
{
    broadcast use Seq::lemma_filter_pred;

    if without_id(pending, id).contains(id) {
        let i = choose|i: int|
            0 <= i < without_id(pending, id).len() && without_id(pending, id)[i] == id;
        assert((|s: Seq<char>| s != id)(without_id(pending, id)[i]));
    }
}

proof fn lemma_without_absent_id(pending: Seq<Seq<char>>, id: Seq<char>)
    requires
        !pending.contains(id),
    ensures
        without_id(pending, id) == pending,
    decreases pending.len(),
{
    reveal(Seq::filter);
    if pending.len() > 0 {
        assert(pending.drop_last().push(pending.last()) =~= pending);
        assert(!pending.drop_last().contains(id));
        lemma_without_absent_id(pending.drop_last(), id);
        assert(without_id(pending, id) =~= pending);
    }
}

/// A request answered before its deadline leaves no correlation entry: the
/// moment the step resolves an outbound request, the table after the step
/// holds nothing under that id.
pub proof fn lemma_resolution_clears_entry(st: EngineModel, d: JsonData)
    ensures
        spec_step(st, d).1 matches ActionModel::Resolve { request_id, outcome: _ }
            ==> !spec_step(st, d).0.pending.contains(request_id),
{
    match spec_step(st, d).1 {
        ActionModel::Resolve { request_id, outcome: _ } => {
            lemma_without_id_gone(st.pending, request_id);
        },
        _ => {},
    }
}

/// A request whose response never arrives leaves no correlation entry
/// either: after the timeout is taken, the table holds nothing under the id.
pub proof fn lemma_timeout_clears_entry(st: EngineModel, id: Seq<char>)
    ensures
        !without_id(st.pending, id).contains(id),
{
    lemma_without_id_gone(st.pending, id);
}

/// An inbound `can_use_tool` request finding no registered permission
/// callback is answered with an error reply, and the engine's state — the
/// correlation table included — is untouched: the read loop goes on.
pub proof fn lemma_missing_permission_callback(st: EngineModel, d: JsonData)
    requires
        is_control_request(d),
        request_body(d) is Some,
        request_subtype(request_body(d).unwrap()) == "can_use_tool"@,
        !st.has_permission_callback,
    ensures
        spec_step(st, d).0 == st,
        spec_step(st, d).1 == ActionModel::Reply(
            error_frame(inbound_request_id(d), "can_use_tool callback not provided"@),
        ),
{
    lemma_control_literals_distinct();
    assert(!is_control_response(d));
}

/// Running the engine over a frame sequence: final state and the actions,
/// in order.
pub open spec fn spec_run(st: EngineModel, frames: Seq<JsonData>) -> (EngineModel, Seq<ActionModel>)
    decreases frames.len(),
{
    if frames.len() == 0 {
        (st, Seq::empty())
    } else {
        let prev = spec_run(st, frames.drop_last());
        let step = spec_step(prev.0, frames.last());
        (step.0, prev.1.push(step.1))
    }
}

/// The messages a sequence of actions delivers to the caller, in order.
pub open spec fn deliveries(actions: Seq<ActionModel>) -> Seq<JsonData>
    decreases actions.len(),
{
    if actions.len() == 0 {
        Seq::empty()
    } else {
        deliveries(actions.drop_last()) + (match actions.last() {
            ActionModel::Deliver(d) => seq![d],
            _ => Seq::empty(),
        })
    }
}

/// Ordinary messages interleaved with control frames are delivered in
/// arrival order: over any frame sequence, what the engine delivers is
/// exactly the arrival sequence with the control frames filtered out.
pub proof fn lemma_delivery_order(st: EngineModel, frames: Seq<JsonData>)
    ensures
        deliveries(spec_run(st, frames).1) == frames.filter(|d: JsonData| is_ordinary_frame(d)),
    decreases frames.len(),
{
    reveal(Seq::filter);
    if frames.len() == 0 {
    } else {
        lemma_delivery_order(st, frames.drop_last());
        let prev = spec_run(st, frames.drop_last());
        let step = spec_step(prev.0, frames.last());
        assert(prev.1.push(step.1).drop_last() =~= prev.1);
        if is_ordinary_frame(frames.last()) {
            assert(step.1 == ActionModel::Deliver(frames.last()));
            assert(deliveries(spec_run(st, frames).1) =~= frames.filter(
                |d: JsonData| is_ordinary_frame(d),
            ));
        } else {
            assert(!(step.1 is Deliver));
            assert(deliveries(spec_run(st, frames).1) =~= frames.filter(
                |d: JsonData| is_ordinary_frame(d),
            ));
        }
    }
}

} // verus!
