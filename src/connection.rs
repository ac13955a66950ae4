//! One tool-protocol connection: what to do with each inbound frame and each
//! bus delivery. The driver owns the socket and performs the actions.
use vstd::prelude::*;

use crate::mcp::{
    answers, error_details, internal_error_response, is_error, method_of, parse_error_response,
    MCPRequest, MCPResponse, MCPServer, Method, RequestError, INTERNAL_ERROR, METHOD_NOT_FOUND,
    PARSE_ERROR,
};
use crate::json::text_member;
use crate::selection::{replica_after, Event, SelectionState};
use crate::text::{contains, contains_text, has_prefix, starts_with_text};

verus! {

/// The subprotocol tag of the tool protocol.
pub open spec fn subprotocol_tag() -> Seq<char> {
    "mcp"@
}

/// Whether a handshake whose requested-subprotocols header reads `header`
/// asks for the tool protocol, whose tag the answer then echoes.
pub fn requests_subprotocol(header: &str) -> (r: bool)
    ensures
        r == contains_text(header@, subprotocol_tag()),
{
    contains(header, "mcp")
}

/// An inbound frame, as the transport delivered it.
pub enum Frame {
    /// A text frame: the request it decodes to, or none when it does not
    /// decode as one.
    Text(Option<MCPRequest>),
    /// The peer closed the connection.
    Close,
    /// Any other frame (binary, ping, pong).
    Other,
    /// The transport failed.
    TransportError,
}

/// What the bus handed the connection's subscription.
pub enum Delivery {
    Event(Event),
    /// The subscription fell behind and lost events.
    Lagged,
    /// The bus is gone.
    Closed,
}

/// What the driver is to do.
pub enum ConnectionAction {
    /// Send this answer.
    Respond(MCPResponse),
    /// Send this event as a notification.
    Forward(Event),
    /// Nothing.
    Ignore,
    /// End the connection.
    Close,
}

/// Client notifications are requests without an id under this prefix; they
/// get no answer.
pub open spec fn notification_prefix() -> Seq<char> {
    "notifications/"@
}

pub open spec fn is_client_notification(request: MCPRequest) -> bool {
    request.id is None && has_prefix(request.method@, notification_prefix())
}

/// The handler failure that `request` meets, if any.
pub open spec fn request_failure(request: MCPRequest) -> Option<RequestError> {
    match method_of(request.method@) {
        Method::ToolsCall => match request.params {
            None => Some(RequestError::MissingToolCallParams),
            Some(p) => if text_member(p, "name"@) is None {
                Some(RequestError::MissingToolName)
            } else {
                None
            },
        },
        Method::PromptsGet => match request.params {
            None => Some(RequestError::MissingPromptParams),
            Some(p) => if text_member(p, "name"@) is None {
                Some(RequestError::MissingPromptName)
            } else {
                None
            },
        },
        _ => None,
    }
}

/// The answer `resp` to `request` on `server`: an internal error with the
/// failure's details when the handler fails, the handler's answer otherwise.
pub open spec fn request_answer(server: MCPServer, request: MCPRequest, resp: MCPResponse) -> bool {
    match request_failure(request) {
        Some(e) => is_error(resp, request.id, INTERNAL_ERROR, "Internal error"@) && (resp.error.unwrap().details
            matches Some(d) && d@ == error_details(e)),
        None => answers(server.selection, server.worktree, server.capabilities, server.name, request, Ok(resp)),
    }
}

/// What a connection on `server` does with `frame`.
pub open spec fn frame_outcome(server: MCPServer, frame: Frame, r: ConnectionAction) -> bool {
    match frame {
        Frame::Text(None) => match r {
            ConnectionAction::Respond(resp) => is_error(resp, None, PARSE_ERROR, "Parse error"@),
            _ => false,
        },
        Frame::Text(Some(request)) => if is_client_notification(request) {
            r is Ignore
        } else {
            match r {
                ConnectionAction::Respond(resp) => request_answer(server, request, resp),
                _ => false,
            }
        },
        Frame::Close | Frame::TransportError => r is Close,
        Frame::Other => r is Ignore,
    }
}

/// A connection: its server with the private selection replica, and whether
/// it still listens to the bus.
pub struct Connection {
    pub server: MCPServer,
    pub subscribed: bool,
}

impl Connection {
    /// A fresh connection of the server named `name` reporting `worktree`,
    /// listening to the bus when it has a subscription.
    pub fn new(name: String, worktree: Option<String>, subscribed: bool) -> (r: Connection)
        ensures
            r.server.name == name,
            r.server.selection is None,
            r.server.worktree == worktree,
            r.subscribed == subscribed,
    {
        Connection { server: MCPServer::with_worktree(name, worktree), subscribed }
    }

    /// Handle an inbound frame. Only the peer closing or the transport
    /// failing ends the connection; a bad or failing request is answered and
    /// leaves the connection as it was.
    pub fn on_frame(&self, frame: Frame) -> (r: ConnectionAction)
        ensures
            frame_outcome(self.server, frame, r),
    {
        match frame {
            Frame::Text(None) => ConnectionAction::Respond(parse_error_response()),
            Frame::Text(Some(request)) => {
                if request.id.is_none() && starts_with_text(request.method.as_str(), "notifications/") {
                    return ConnectionAction::Ignore;
                }
                match self.server.handle_request(request) {
                    Ok(resp) => ConnectionAction::Respond(resp),
                    Err(failure) => ConnectionAction::Respond(internal_error_response(failure)),
                }
            },
            Frame::Close => ConnectionAction::Close,
            Frame::TransportError => ConnectionAction::Close,
            Frame::Other => ConnectionAction::Ignore,
        }
    }

    /// Handle a bus delivery. An event updates the replica and is forwarded;
    /// a lagging or closed subscription is dropped and the connection goes on
    /// without events.
    pub fn on_delivery(&mut self, d: Delivery) -> (r: ConnectionAction)
        ensures
            final(self).server.worktree == old(self).server.worktree,
            final(self).server.capabilities == old(self).server.capabilities,
            final(self).server.name == old(self).server.name,
            ({
                let (subscribed, replica, out) = delivery_step(
                    old(self).subscribed,
                    old(self).server.selection,
                    d,
                );
                &&& final(self).subscribed == subscribed
                &&& final(self).server.selection == replica
                &&& match out {
                    Some(e) => r == ConnectionAction::Forward(e),
                    None => r is Ignore,
                }
            }),
    {
        if !self.subscribed {
            return ConnectionAction::Ignore;
        }
        match d {
            Delivery::Event(e) => {
                self.server.apply_event(&e);
                ConnectionAction::Forward(e)
            },
            _ => {
                self.subscribed = false;
                ConnectionAction::Ignore
            },
        }
    }
}

/// One delivery to a connection that is `subscribed` with `replica`: whether
/// it stays subscribed, its replica after, and the event it forwards.
pub open spec fn delivery_step(subscribed: bool, replica: Option<SelectionState>, d: Delivery) -> (
    bool,
    Option<SelectionState>,
    Option<Event>,
) {
    if !subscribed {
        (false, replica, None)
    } else {
        match d {
            Delivery::Event(e) => (true, replica_after(replica, e), Some(e)),
            _ => (false, replica, None),
        }
    }
}

/// The events a connection forwards over the deliveries `ds`, in order.
pub open spec fn forwarded(subscribed: bool, replica: Option<SelectionState>, ds: Seq<Delivery>) -> Seq<Event>
    decreases ds.len(),
{
    if ds.len() == 0 {
        Seq::empty()
    } else {
        let (sub, rep, out) = delivery_step(subscribed, replica, ds[0]);
        let rest = forwarded(sub, rep, ds.drop_first());
        match out {
            Some(e) => seq![e] + rest,
            None => rest,
        }
    }
}

/// The events `es` as deliveries.
pub open spec fn as_deliveries(es: Seq<Event>) -> Seq<Delivery> {
    es.map_values(|e: Event| Delivery::Event(e))
}

/// A subscribed connection forwards every event it is handed, each once and
/// in the order the bus delivered them.
pub proof fn lemma_forwards_every_event_in_order(replica: Option<SelectionState>, es: Seq<Event>)
    ensures
        forwarded(true, replica, as_deliveries(es)) == es,
    decreases es.len(),
{
    if es.len() > 0 {
        let ds = as_deliveries(es);
        assert(ds[0] == Delivery::Event(es[0]));
        assert(ds.drop_first() =~= as_deliveries(es.drop_first()));
        lemma_forwards_every_event_in_order(replica_after(replica, es[0]), es.drop_first());
        assert(seq![es[0]] + es.drop_first() =~= es);
    }
}

proof fn lemma_unsubscribed_forwards_nothing(replica: Option<SelectionState>, ds: Seq<Delivery>)
    ensures
        forwarded(false, replica, ds) == Seq::<Event>::empty(),
    decreases ds.len(),
{
    if ds.len() > 0 {
        lemma_unsubscribed_forwards_nothing(replica, ds.drop_first());
    }
}

/// After its subscription lags or closes, a connection forwards no further
/// event: it goes on serving requests without them.
pub proof fn lemma_nothing_forwarded_after_lag(replica: Option<SelectionState>, ds: Seq<Delivery>)
    requires
        ds.len() > 0,
        !(ds[0] is Event),
    ensures
        forwarded(true, replica, ds) == Seq::<Event>::empty(),
{
    lemma_unsubscribed_forwards_nothing(replica, ds.drop_first());
}

/// The error codes of the tool protocol: a frame that does not decode is
/// answered with a parse error, an unknown method with method-not-found, and
/// a `tools/call` whose handler fails with an internal error carrying the
/// failure's details. None of them ends the connection, whose state a frame
/// never changes.
pub proof fn lemma_error_codes(server: MCPServer, frame: Frame, r: ConnectionAction)
    requires
        frame_outcome(server, frame, r),
    ensures
        frame is Text ==> !(r is Close),
        frame matches Frame::Text(None) ==> (r matches ConnectionAction::Respond(resp) && resp.error matches Some(
            e,
        ) && e.code == PARSE_ERROR),
        frame matches Frame::Text(Some(req)) ==> (!is_client_notification(req) && method_of(req.method@)
            == Method::Unknown ==> (r matches ConnectionAction::Respond(resp) && resp.error matches Some(e)
            && e.code == METHOD_NOT_FOUND && resp.id == req.id)),
        frame matches Frame::Text(Some(req)) ==> (!is_client_notification(req) && method_of(req.method@)
            == Method::ToolsCall && request_failure(req) is Some ==> (r matches ConnectionAction::Respond(
            resp,
        ) && resp.error matches Some(e) && e.code == INTERNAL_ERROR && e.details is Some && resp.id
            == req.id)),
{
}

} // verus!
