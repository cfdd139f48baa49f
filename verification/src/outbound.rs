//! Outbound commands: how a send is routed, and what follows its
//! acknowledgement.

use vstd::prelude::*;
use vstd::string::*;
use crate::json::{
    get_bool, get_integer, get_string, json_bools, json_integers, json_member_is_array,
    json_strings, member_is_array,
};
use crate::session::RunbotState;
use crate::text::{opt_text, same_text};

verus! {

/// Why a command could not be sent.
#[derive(Clone, Copy, Debug, PartialEq, Eq)]
pub enum SendError {
    /// No session is connected.
    NotConnected,
    /// The state says connected, but holds no session.
    NoSession,
}

impl SendError {
    /// The message shown for the error.
    pub fn message(&self) -> (r: String)
        ensures
            r@ == (match self {
                SendError::NotConnected => "未连接到 Runbot 服务器"@,
                SendError::NoSession => "BotContext 不存在"@,
            }),
    {
        match self {
            SendError::NotConnected => "未连接到 Runbot 服务器".to_owned(),
            SendError::NoSession => "BotContext 不存在".to_owned(),
        }
    }
}

/// A chat message sent through the typed API.
#[derive(Clone, Debug, PartialEq)]
pub struct ChainSend {
    /// To a peer (`true`) or to a group.
    pub private: bool,
    /// The peer or group; without one the command goes out raw after all.
    pub target: Option<i64>,
    /// The caller's token for the mirrored row that awaits the remote id.
    pub local_message_id: Option<String>,
    /// Whether the mirrored content must be reloaded once the remote id is
    /// known.
    pub need_reload: bool,
}

/// How a command goes out.
#[derive(Clone, Debug, PartialEq)]
pub enum SendPlan {
    /// Action and parameters are forwarded as they are.
    Raw,
    /// The message array is parsed into a chain and sent through the typed
    /// API.
    Chain(ChainSend),
}

/// Whether `action` sends a chat message.
pub open spec fn is_chat_send(action: Seq<char>) -> bool {
    action == "send_private_msg"@ || action == "send_group_msg"@
}

/// A parameter that is an integer, if the command has it.
pub open spec fn integer_param(params: serde_json::Value, key: Seq<char>) -> Option<i64> {
    if json_integers(params).contains_key(key) {
        Some(json_integers(params)[key] as i64)
    } else {
        None
    }
}

/// A parameter that is a string, if the command has it.
pub open spec fn string_param(params: serde_json::Value, key: Seq<char>) -> Option<Seq<char>> {
    if json_strings(params).contains_key(key) {
        Some(json_strings(params)[key])
    } else {
        None
    }
}

/// A parameter that is a boolean, `false` where the command lacks it.
pub open spec fn flag_param(params: serde_json::Value, key: Seq<char>) -> bool {
    json_bools(params).contains_key(key) && json_bools(params)[key]
}

/// Whether the command goes through the typed API: a chat send whose
/// `message` parameter is an array.
pub open spec fn goes_typed(action: Seq<char>, params: serde_json::Value) -> bool {
    is_chat_send(action) && json_member_is_array(params, "message"@)
}

/// The route of a command issued in state `state`.
pub fn send_runbot_message(state: &RunbotState, action: &str, params: &serde_json::Value) -> (r: Result<
    SendPlan,
    SendError,
>)
    ensures
        !state.connected ==> r == Err::<SendPlan, SendError>(SendError::NotConnected),
        state.connected && state.session is None ==> r == Err::<SendPlan, SendError>(
            SendError::NoSession,
        ),
        state.connected && state.session is Some ==> r is Ok,
        r is Ok && !goes_typed(action@, *params) ==> r == Ok::<SendPlan, SendError>(SendPlan::Raw),
        r is Ok && goes_typed(action@, *params) ==> {
            &&& r.unwrap() is Chain
            &&& r.unwrap()->Chain_0.private == (action@ == "send_private_msg"@)
            &&& r.unwrap()->Chain_0.target == integer_param(
                *params,
                if action@ == "send_private_msg"@ {
                    "user_id"@
                } else {
                    "group_id"@
                },
            )
            &&& opt_text(r.unwrap()->Chain_0.local_message_id) == string_param(
                *params,
                "local_message_id"@,
            )
            &&& r.unwrap()->Chain_0.need_reload == flag_param(*params, "need_reload"@)
        },
{
    if !state.connected {
        return Err(SendError::NotConnected);
    }
    if state.session.is_none() {
        return Err(SendError::NoSession);
    }
    let private = same_text(action, "send_private_msg");
    let group = same_text(action, "send_group_msg");
    if (private || group) && member_is_array(params, "message") {
        let target = if private {
            get_integer(params, "user_id")
        } else {
            get_integer(params, "group_id")
        };
        let need_reload = match get_bool(params, "need_reload") {
            Some(flag) => flag,
            None => false,
        };
        Ok(
            SendPlan::Chain(
                ChainSend {
                    private,
                    target,
                    local_message_id: get_string(params, "local_message_id"),
                    need_reload,
                },
            ),
        )
    } else {
        Ok(SendPlan::Raw)
    }
}

/// How a chat send goes on once its message array was read.
#[derive(Clone, Copy, Debug, PartialEq, Eq)]
pub enum ChainRoute {
    /// The array is no message chain: the send is refused.
    Refuse,
    /// The chain goes through the typed API, to this peer (`private`) or
    /// group.
    Typed { private: bool, target: i64 },
    /// The command names no peer or group as an integer: action and
    /// parameters are forwarded as they are after all.
    Raw,
}

/// Decides how a chat send goes on once its message array was read as a
/// chain (`parsed`) or was found to be none.
pub fn route_chain(send: &ChainSend, parsed: bool) -> (r: ChainRoute)
    ensures
        r == (if !parsed {
            ChainRoute::Refuse
        } else {
            match send.target {
                Some(target) => ChainRoute::Typed { private: send.private, target },
                None => ChainRoute::Raw,
            }
        }),
{
    if !parsed {
        ChainRoute::Refuse
    } else {
        match send.target {
            Some(target) => ChainRoute::Typed { private: send.private, target },
            None => ChainRoute::Raw,
        }
    }
}

/// Whether the content of a forwarded message can be asked for: the number
/// of the live session to ask through. Without one the query is refused.
pub fn get_forward_message(state: &RunbotState) -> (r: Result<u64, SendError>)
    ensures
        r is Ok <==> (state.connected && state.session is Some),
        r is Ok ==> Some(r.unwrap()) == state.session,
        r is Err ==> r == Err::<u64, SendError>(SendError::NotConnected),
{
    if !state.connected {
        return Err(SendError::NotConnected);
    }
    match state.session {
        Some(session) => Ok(session),
        None => Err(SendError::NotConnected),
    }
}

/// The remote id to write into the mirrored row of a sent message.
#[derive(Clone, Debug, PartialEq)]
pub struct RemoteIdUpdate {
    pub local_message_id: String,
    pub message_id: i64,
}

/// The remote counterpart has acknowledged a send, or the wait for it ended
/// without an answer (`ack` is `None`). With an answer and a token, the remote
/// id is to be written into the row that the token names; otherwise nothing
/// follows.
pub fn on_ack(send: &ChainSend, ack: Option<i64>) -> (r: Option<RemoteIdUpdate>)
    ensures
        r is Some <==> (ack is Some && send.local_message_id is Some),
        r is Some ==> r.unwrap().message_id == ack.unwrap() && r.unwrap().local_message_id
            == send.local_message_id.unwrap(),
{
    match (&send.local_message_id, ack) {
        (Some(local), Some(message_id)) => Some(
            RemoteIdUpdate { local_message_id: local.clone(), message_id },
        ),
        _ => None,
    }
}

/// What follows the attempt to store the remote id.
#[derive(Clone, Copy, Debug, PartialEq, Eq)]
pub enum AfterStore {
    /// The row could not be updated: nothing is published.
    Stop,
    /// Fetch the canonical form of the message with this remote id.
    Reload(i64),
    /// Publish that the send was acknowledged.
    Acknowledge,
}

/// Decides what follows the attempt to store the remote id `message_id`.
pub fn on_remote_id_stored(send: &ChainSend, message_id: i64, stored: bool) -> (r: AfterStore)
    ensures
        r == (if !stored {
            AfterStore::Stop
        } else if send.need_reload {
            AfterStore::Reload(message_id)
        } else {
            AfterStore::Acknowledge
        }),
{
    if !stored {
        AfterStore::Stop
    } else if send.need_reload {
        AfterStore::Reload(message_id)
    } else {
        AfterStore::Acknowledge
    }
}

/// The canonical content to write into a mirrored row, and to publish as a
/// content update.
#[derive(Clone, Debug, PartialEq)]
pub struct ContentUpdate {
    pub local_message_id: String,
    pub message_id: i64,
    pub message: String,
    pub raw_message: String,
}

/// The canonical form of a sent message was fetched, or could not be
/// (`fetched` is `None`). With it, the mirrored content and raw content are
/// both replaced by the canonical text and the update is published. In either
/// case the acknowledgement is published afterwards.
pub fn on_message_fetched(local_message_id: &str, message_id: i64, fetched: Option<&str>) -> (r:
    Option<ContentUpdate>)
    ensures
        r is Some <==> fetched is Some,
        r is Some ==> {
            &&& r.unwrap().local_message_id@ == local_message_id@
            &&& r.unwrap().message_id == message_id
            &&& r.unwrap().message@ == fetched.unwrap()@
            &&& r.unwrap().raw_message@ == fetched.unwrap()@
        },
{
    match fetched {
        Some(text) => Some(
            ContentUpdate {
                local_message_id: local_message_id.to_owned(),
                message_id,
                message: text.to_owned(),
                raw_message: text.to_owned(),
            },
        ),
        None => None,
    }
}

} // verus!
