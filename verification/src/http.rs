use vstd::prelude::*;
use vstd::string::{StrSliceExecFns, StringExecFns};
use vstd::utf8::encode_utf8;
use crate::boundary::{json_accepts, parses_as_json, parses_as_uri, uri_accepts};
use crate::ipc::{IpcError, RequestFrame, RequestFrameView, ResponseFrame, ResponseFrameView};
use crate::registry::{distinct_ids, listed, PluginRegistry};
use crate::types::{Manifest, PanoramaConfig, PluginView};

verus! {

/// What the gateway sends back to its caller.
#[derive(Debug, PartialEq, Eq)]
pub enum GatewayReply {
    /// A status and a body that is one JSON document.
    Json { status: u16, body: Vec<u8> },
    /// A status and a body to be sent as plain text.
    Text { status: u16, body: Vec<u8> },
}

pub enum GatewayReplyView {
    Json { status: u16, body: Seq<u8> },
    Text { status: u16, body: Seq<u8> },
}

impl View for GatewayReply {
    type V = GatewayReplyView;

    open spec fn view(&self) -> GatewayReplyView {
        match self {
            GatewayReply::Json { status, body } => GatewayReplyView::Json {
                status: *status,
                body: body@,
            },
            GatewayReply::Text { status, body } => GatewayReplyView::Text {
                status: *status,
                body: body@,
            },
        }
    }
}

/// Why the gateway could not hand on what a plugin answered.
#[derive(Debug, PartialEq, Eq)]
pub enum GatewayError {
    /// The request names a plugin that the configuration does not hold.
    UnknownPlugin { plugin_id: String },
    /// The plugin could not be reached, or what it sent could not be used.
    Upstream,
}

pub enum GatewayErrorView {
    UnknownPlugin { plugin_id: Seq<char> },
    Upstream,
}

impl View for GatewayError {
    type V = GatewayErrorView;

    open spec fn view(&self) -> GatewayErrorView {
        match self {
            GatewayError::UnknownPlugin { plugin_id } => GatewayErrorView::UnknownPlugin {
                plugin_id: plugin_id@,
            },
            GatewayError::Upstream => GatewayErrorView::Upstream,
        }
    }
}

/// A call that the gateway wants made: one request to the socket of one plugin.
#[derive(Debug, PartialEq, Eq)]
pub struct ProxyCall {
    pub socket_path: String,
    pub request: RequestFrame,
}

pub struct ProxyCallView {
    pub socket_path: Seq<char>,
    pub request: RequestFrameView,
}

impl View for ProxyCall {
    type V = ProxyCallView;

    open spec fn view(&self) -> ProxyCallView {
        ProxyCallView { socket_path: self.socket_path@, request: self.request@ }
    }
}

/// The status that answers a request for a plugin nobody configured.
pub const STATUS_UNKNOWN_PLUGIN: u16 = 404;

/// The status that answers a request whose plugin gave nothing usable.
pub const STATUS_UPSTREAM_FAILED: u16 = 500;

/// The first status that counts as the plugin's own error.
pub const FIRST_ERROR_STATUS: u16 = 400;

/// The request target that a plugin sees: a slash and what followed the
/// plugin's id in the inbound path; then, where the inbound request had a
/// query, a question mark and that query as it came. A request without a
/// query stays without one.
pub open spec fn downstream_target(rest: Seq<char>, query: Option<Seq<char>>) -> Seq<char> {
    match query {
        Some(q) => seq!['/'] + rest + seq!['?'] + q,
        None => seq!['/'] + rest,
    }
}

/// The reply that each gateway error turns into, its text in UTF-8. An
/// unknown plugin is named in the body; an upstream failure says nothing of
/// its cause.
pub open spec fn error_reply_view(error: GatewayErrorView) -> GatewayReplyView {
    match error {
        GatewayErrorView::UnknownPlugin { plugin_id } => GatewayReplyView::Text {
            status: STATUS_UNKNOWN_PLUGIN,
            body: encode_utf8("invalid plugin id: "@ + plugin_id),
        },
        GatewayErrorView::Upstream => GatewayReplyView::Text {
            status: STATUS_UPSTREAM_FAILED,
            body: encode_utf8("error"@),
        },
    }
}

/// What the gateway decides for a request to a plugin: the call to make when
/// the configuration holds the plugin, the error when it does not.
pub open spec fn proxy_decision(
    config: Map<Seq<char>, PluginView>,
    plugin_id: Seq<char>,
    rest: Seq<char>,
    query: Option<Seq<char>>,
    method: Seq<char>,
    body: Seq<u8>,
) -> Result<ProxyCallView, GatewayErrorView> {
    if config.contains_key(plugin_id) {
        Ok(
            ProxyCallView {
                socket_path: config[plugin_id].socket_path,
                request: RequestFrameView {
                    method: method,
                    uri: downstream_target(rest, query),
                    body: body,
                },
            },
        )
    } else {
        Err(GatewayErrorView::UnknownPlugin { plugin_id: plugin_id })
    }
}

/// What the gateway answers once the plugin has been called, given whether
/// the plugin's body is a JSON document.
pub open spec fn relay_decision(
    outcome: Result<ResponseFrameView, IpcError>,
    body_is_json: bool,
) -> GatewayReplyView {
    match outcome {
        Err(_) => error_reply_view(GatewayErrorView::Upstream),
        Ok(response) => if response.status >= FIRST_ERROR_STATUS {
            GatewayReplyView::Text { status: response.status, body: response.body }
        } else if body_is_json {
            GatewayReplyView::Json { status: response.status, body: response.body }
        } else {
            error_reply_view(GatewayErrorView::Upstream)
        },
    }
}

/// The view of what a call to a plugin brought.
pub open spec fn outcome_view(outcome: Result<ResponseFrame, IpcError>) -> Result<
    ResponseFrameView,
    IpcError,
> {
    match outcome {
        Ok(response) => Ok(response@),
        Err(e) => Err(e),
    }
}

/// The view of a proxy decision.
pub open spec fn decision_view(decision: Result<ProxyCall, GatewayError>) -> Result<
    ProxyCallView,
    GatewayErrorView,
> {
    match decision {
        Ok(call) => Ok(call@),
        Err(e) => Err(e@),
    }
}

/// The request target for the plugin behind a proxied request.
pub fn rewrite_target(rest: &str, query: Option<&str>) -> (target: String)
    ensures
        target@ == downstream_target(rest@, option_text(query)),
{
    let mut target = String::from_str("/");
    proof {
        reveal_strlit("/");
        reveal_strlit("?");
        assert("/"@ =~= seq!['/']);
        assert("?"@ =~= seq!['?']);
    }
    target.append(rest);
    match query {
        Some(q) => {
            target.append("?");
            target.append(q);
        },
        None => {},
    }
    target
}

/// The text of an optional string slice.
pub open spec fn option_text(text: Option<&str>) -> Option<Seq<char>> {
    match text {
        Some(t) => Some(t@),
        None => None,
    }
}

/// The reply that tells the caller of a gateway error.
pub fn error_reply(error: &GatewayError) -> (reply: GatewayReply)
    ensures
        reply@ == error_reply_view(error@),
{
    match error {
        GatewayError::UnknownPlugin { plugin_id } => {
            let mut text = String::from_str("invalid plugin id: ");
            text.append(plugin_id.as_str());
            GatewayReply::Text {
                status: STATUS_UNKNOWN_PLUGIN,
                body: text.as_str().as_bytes_vec(),
            }
        },
        GatewayError::Upstream => GatewayReply::Text {
            status: STATUS_UPSTREAM_FAILED,
            body: "error".as_bytes_vec(),
        },
    }
}

/// The whole configuration, secrets included. Plugins fetch their secrets
/// through this, so whoever can reach the gateway is trusted with them.
pub fn get_config(config: &PanoramaConfig) -> (shown: &PanoramaConfig)
    ensures
        shown == config,
{
    config
}

/// The registered plugins as they stand at the moment of the call. The
/// registry is not changed, so two calls with no handshake between them
/// give the same list.
pub fn get_plugin_status(registry: &PluginRegistry) -> (status: Vec<Manifest>)
    ensures
        status@.map_values(|m: Manifest| m@) == registry.entries(),
        distinct_ids(registry.entries()),
        listed(registry.entries()) == registry@,
{
    registry.snapshot()
}

/// Decides a request to `/api/plugin/{plugin_id}/{rest}`. The plugin is
/// looked up in the configuration, whether or not it has ever answered a
/// handshake. A known plugin gets the inbound method and body unchanged, on
/// the rewritten target; an unknown one gets no call at all. Whether a
/// request can carry the rewritten target is not asked here:
/// `try_proxy_to_plugin` asks it.
pub fn proxy_to_plugin(
    config: &PanoramaConfig,
    plugin_id: &str,
    rest: &str,
    query: Option<&str>,
    method: String,
    body: Vec<u8>,
) -> (decision: Result<ProxyCall, GatewayError>)
    ensures
        decision_view(decision) == proxy_decision(
            config@,
            plugin_id@,
            rest@,
            option_text(query),
            method@,
            body@,
        ),
{
    match config.plugins.get(plugin_id) {
        Some(plugin) => {
            let call = ProxyCall {
                socket_path: plugin.socket_path.clone(),
                request: RequestFrame { method, uri: rewrite_target(rest, query), body },
            };
            Ok(call)
        },
        None => Err(GatewayError::UnknownPlugin { plugin_id: plugin_id.to_owned() }),
    }
}

/// As `proxy_to_plugin`, after asking whether a request can carry the call:
/// `None` where the plugin is known and the rewritten target is no URI.
pub fn try_proxy_to_plugin(
    config: &PanoramaConfig,
    plugin_id: &str,
    rest: &str,
    query: Option<&str>,
    method: String,
    body: Vec<u8>,
) -> (decision: Option<Result<ProxyCall, GatewayError>>)
    ensures
        decision is Some <==> (config@.contains_key(plugin_id@) ==> uri_accepts(
            downstream_target(rest@, option_text(query)),
        )),
        decision matches Some(d) ==> decision_view(d) == proxy_decision(
            config@,
            plugin_id@,
            rest@,
            option_text(query),
            method@,
            body@,
        ),
{
    let known = config.plugins.get(plugin_id).is_some();
    if known {
        let target = rewrite_target(rest, query);
        if !parses_as_uri(target.as_str()) {
            return None;
        }
    }
    Some(proxy_to_plugin(config, plugin_id, rest, query, method, body))
}

/// What the gateway answers for what the call to the plugin brought, once it
/// is known whether the plugin's body is a JSON document. A status of 400 or
/// more goes through with its body as it is; a lower one goes through only
/// with a JSON body.
pub fn relay_checked(outcome: Result<ResponseFrame, IpcError>, body_is_json: bool) -> (reply:
    GatewayReply)
    ensures
        reply@ == relay_decision(outcome_view(outcome), body_is_json),
{
    match outcome {
        Err(_) => error_reply(&GatewayError::Upstream),
        Ok(response) => {
            if response.status >= FIRST_ERROR_STATUS {
                GatewayReply::Text { status: response.status, body: response.body }
            } else if body_is_json {
                GatewayReply::Json { status: response.status, body: response.body }
            } else {
                error_reply(&GatewayError::Upstream)
            }
        },
    }
}

/// Whether the JSON parser takes the body of a response; `false` where the
/// call brought none.
pub open spec fn body_accepted(outcome: Result<ResponseFrameView, IpcError>) -> bool {
    match outcome {
        Ok(response) => json_accepts(response.body),
        Err(_) => false,
    }
}

/// What the gateway answers for what the call to the plugin brought.
pub fn relay_response(outcome: Result<ResponseFrame, IpcError>) -> (reply: GatewayReply)
    ensures
        reply@ == relay_decision(outcome_view(outcome), body_accepted(outcome_view(outcome))),
{
    let body_is_json = match &outcome {
        Ok(response) => parses_as_json(response.body.as_slice()),
        Err(_) => false,
    };
    relay_checked(outcome, body_is_json)
}

/// A request for a configured plugin reaches that plugin's socket with the
/// method and the body it came with, whatever they are, on the path behind
/// the plugin's id and with the query it came with, if it came with one.
pub proof fn lemma_proxy_hands_on_unchanged(
    config: Map<Seq<char>, PluginView>,
    plugin_id: Seq<char>,
    rest: Seq<char>,
    query: Option<Seq<char>>,
    method: Seq<char>,
    body: Seq<u8>,
)
    requires
        config.contains_key(plugin_id),
    ensures
        proxy_decision(config, plugin_id, rest, query, method, body) matches Ok(call) && {
            &&& call.socket_path == config[plugin_id].socket_path
            &&& call.request.method == method
            &&& call.request.body == body
            &&& call.request.uri == match query {
                Some(q) => seq!['/'] + rest + seq!['?'] + q,
                None => seq!['/'] + rest,
            }
        },
{
}

/// A request for a plugin that the configuration does not hold leads to no
/// call: it is answered at once with status 404 and a body that names the
/// plugin asked for.
pub proof fn lemma_unknown_plugin_gets_no_call(
    config: Map<Seq<char>, PluginView>,
    plugin_id: Seq<char>,
    rest: Seq<char>,
    query: Option<Seq<char>>,
    method: Seq<char>,
    body: Seq<u8>,
)
    requires
        !config.contains_key(plugin_id),
    ensures
        proxy_decision(config, plugin_id, rest, query, method, body) matches Err(error) && {
            &&& error == GatewayErrorView::UnknownPlugin { plugin_id }
            &&& error_reply_view(error) matches GatewayReplyView::Text { status, body: text }
            &&& 400 <= status < 500
            &&& text == encode_utf8("invalid plugin id: "@ + plugin_id)
        },
{
}

/// What a plugin answers with a status of 400 or more goes back to the
/// caller as it is: the same status and the same body, whatever the body
/// holds.
pub proof fn lemma_plugin_error_passes_through(response: ResponseFrameView, body_is_json: bool)
    requires
        response.status >= 400,
    ensures
        relay_decision(Ok(response), body_is_json) == (GatewayReplyView::Text {
            status: response.status,
            body: response.body,
        }),
{
}

/// A request for a configured plugin that the plugin answers with a status
/// of 400 or more: the call is made, and the caller gets the plugin's status
/// and the plugin's body, byte for byte, not the gateway's own error.
pub proof fn lemma_proxied_error_comes_back(
    config: Map<Seq<char>, PluginView>,
    plugin_id: Seq<char>,
    rest: Seq<char>,
    query: Option<Seq<char>>,
    method: Seq<char>,
    body: Seq<u8>,
    response: ResponseFrameView,
)
    requires
        config.contains_key(plugin_id),
        response.status >= 400,
    ensures
        proxy_decision(config, plugin_id, rest, query, method, body) is Ok,
        relay_decision(Ok(response), body_accepted(Ok(response))) == (GatewayReplyView::Text {
            status: response.status,
            body: response.body,
        }),
{
}

/// Whatever the plugin did, the caller gets the plugin's own status or 500.
pub proof fn lemma_relay_status(outcome: Result<ResponseFrameView, IpcError>, body_is_json: bool)
    ensures
        ({
            let status = match relay_decision(outcome, body_is_json) {
                GatewayReplyView::Json { status, .. } => status,
                GatewayReplyView::Text { status, .. } => status,
            };
            status == STATUS_UPSTREAM_FAILED || (outcome matches Ok(response) && status
                == response.status)
        }),
{
}

} // verus!
