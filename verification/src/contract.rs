//! The reflector state machine: instantiation, the three owner-gated
//! mutations, and the read-only query.
//!
//! The host runtime's key-value store holds one `State` record; here it is
//! modelled as an `Option<State>` slot that the entry points read and write.
//! Each operation's effect and result are fixed by a spec-level transition
//! function, and each entry point's contract ties its behaviour to that
//! transition exactly.

use crate::addr::{addr_validate, valid_addr};
use crate::error::ContractError;
use crate::msg::{
    ExecuteMsg, ExecuteMsgView, InstantiateMsg, QueryMsg, StateInfoResponse, StateInfoView,
};
use crate::state::{store_view, State, StateView};
use crate::types::{
    msgs_view, Attribute, AttributeView, MessageInfo, MessageInfoView, Response, ResponseView,
    SubMsg, SubMsgView,
};
use vstd::prelude::*;

verus! {

/// The attribute list `[("action", value)]` that a successful mutation reports.
pub open spec fn action_attrs(value: Seq<char>) -> Seq<AttributeView> {
    seq![AttributeView { key: "action"@, value: value }]
}

/// The fixed payload of the hardcoded increment call: the bytes of
/// `{"increment":{}}`.
pub open spec fn increment_payload() -> Seq<u8> {
    seq![
        123u8, 34u8, 105u8, 110u8, 99u8, 114u8, 101u8, 109u8, 101u8, 110u8, 116u8, 34u8, 58u8,
        123u8, 125u8, 125u8,
    ]
}

/// Relies on `cosmwasm_std::Binary::from_base64`: decoding the fixed literal
/// `"eyJpbmNyZW1lbnQiOnt9fQ=="` (standard alphabet, padded) yields exactly the
/// bytes of `{"increment":{}}`, so the unwrap cannot fail.
#[verifier::external_body]
fn increment_payload_bytes() -> (r: Vec<u8>)
    ensures
        r@ == increment_payload(),
{
    cosmwasm_std::Binary::from_base64("eyJpbmNyZW1lbnQiOnt9fQ==").unwrap().0
}

/// The result of a call, at the model level.
pub type TransitionResult = Result<ResponseView, ContractError>;

/// The model of a `Result<Response, ContractError>` as a call returns it.
pub open spec fn result_view(r: Result<Response, ContractError>) -> TransitionResult {
    match r {
        Ok(resp) => Ok(resp@),
        Err(e) => Err(e),
    }
}

/// The model of a `Result<StateInfoResponse, ContractError>` as the query
/// returns it.
pub open spec fn info_result_view(r: Result<StateInfoResponse, ContractError>) -> Result<
    StateInfoView,
    ContractError,
> {
    match r {
        Ok(info) => Ok(info@),
        Err(e) => Err(e),
    }
}

/// What `SetReflectee` does: the address is checked first, then the state is
/// loaded, then the caller is held against the owner; only when all three
/// pass is the reflectee replaced.
pub open spec fn set_reflectee_transition(
    st: Option<StateView>,
    info: MessageInfoView,
    reflectee: Seq<char>,
) -> (Option<StateView>, TransitionResult) {
    if !valid_addr(reflectee) {
        (st, Err(ContractError::InvalidAddress))
    } else {
        match st {
            None => (st, Err(ContractError::NotFound)),
            Some(s) => if info.sender != s.owner {
                (st, Err(ContractError::Unauthorized))
            } else {
                (
                    Some(StateView { owner: s.owner, reflectee }),
                    Ok(
                        ResponseView {
                            messages: Seq::empty(),
                            attributes: action_attrs("set_reflectee"@),
                        },
                    ),
                )
            },
        }
    }
}

/// What `Reflect` returns: the owner's non-empty batch comes back verbatim
/// and in order; the state is never touched.
pub open spec fn reflect_result(
    st: Option<StateView>,
    info: MessageInfoView,
    msgs: Seq<SubMsgView>,
) -> TransitionResult {
    match st {
        None => Err(ContractError::NotFound),
        Some(s) => if info.sender != s.owner {
            Err(ContractError::Unauthorized)
        } else if msgs.len() == 0 {
            Err(ContractError::EmptyMessages)
        } else {
            Ok(ResponseView { messages: msgs, attributes: action_attrs("reflect"@) })
        },
    }
}

/// What `SendIncrementToReflectee` returns: one message aimed at the current
/// reflectee, carrying the fixed increment payload and no funds; the state is
/// never touched.
pub open spec fn send_increment_result(
    st: Option<StateView>,
    info: MessageInfoView,
) -> TransitionResult {
    match st {
        None => Err(ContractError::NotFound),
        Some(s) => if info.sender != s.owner {
            Err(ContractError::Unauthorized)
        } else {
            Ok(
                ResponseView {
                    messages: seq![
                        SubMsgView {
                            contract_addr: s.reflectee,
                            payload: increment_payload(),
                            funds: Seq::empty(),
                        },
                    ],
                    attributes: action_attrs("send_increment_to_reflectee"@),
                },
            )
        },
    }
}

/// What executing `msg` from `info` does to the stored state, and what it
/// returns.
pub open spec fn execute_transition(
    st: Option<StateView>,
    info: MessageInfoView,
    msg: ExecuteMsgView,
) -> (Option<StateView>, TransitionResult) {
    match msg {
        ExecuteMsgView::SetReflectee { reflectee } => set_reflectee_transition(st, info, reflectee),
        ExecuteMsgView::Reflect { msgs } => (st, reflect_result(st, info, msgs)),
        ExecuteMsgView::SendIncrementToReflectee => (st, send_increment_result(st, info)),
    }
}

/// What `GetInfo` answers: both stored addresses, or `NotFound` before
/// instantiation.
pub open spec fn query_info_spec(st: Option<StateView>) -> Result<StateInfoView, ContractError> {
    match st {
        None => Err(ContractError::NotFound),
        Some(s) => Ok(StateInfoView { owner: s.owner, reflectee: s.reflectee }),
    }
}

/// The authorization gate shared by the three mutations: only the recorded
/// owner may proceed.
fn require_owner(state: &State, info: &MessageInfo) -> (r: Result<(), ContractError>)
    ensures
        r is Ok <==> info@.sender == state@.owner,
        r is Err ==> r == Err::<(), ContractError>(ContractError::Unauthorized),
{
    if info.sender == state.owner {
        Ok(())
    } else {
        Err(ContractError::Unauthorized)
    }
}

/// Creates the contract's state: the creator becomes both owner and
/// reflectee, whatever the slot held before, and the call returns the empty
/// response. This never fails.
pub fn instantiate(store: &mut Option<State>, info: MessageInfo, _msg: InstantiateMsg) -> (r:
    Result<Response, ContractError>)
    ensures
        store_view(*final(store)) == Some(StateView { owner: info@.sender, reflectee: info@.sender }),
        result_view(r) == Ok::<ResponseView, ContractError>(
            ResponseView { messages: Seq::empty(), attributes: Seq::empty() },
        ),
{
    let state = State { owner: info.sender.clone(), reflectee: info.sender };
    *store = Some(state);
    let res = Response::default();
    proof {
        assert(res@ =~= ResponseView { messages: Seq::empty(), attributes: Seq::empty() });
    }
    Ok(res)
}

/// Replaces the reflectee: checks the address, loads the state, holds the
/// caller against the owner, and only then stores the new value. On any
/// failure the state is left as it was.
pub fn try_set_reflectee(store: &mut Option<State>, info: MessageInfo, reflectee: String) -> (r:
    Result<Response, ContractError>)
    ensures
        store_view(*final(store)) == set_reflectee_transition(
            store_view(*old(store)),
            info@,
            reflectee@,
        ).0,
        result_view(r) == set_reflectee_transition(store_view(*old(store)), info@, reflectee@).1,
        r is Err ==> *final(store) == *old(store),
{
    if let Err(e) = addr_validate(reflectee.as_str()) {
        return Err(e);
    }
    let state = match store {
        Some(s) => s,
        None => {
            return Err(ContractError::NotFound);
        },
    };
    if let Err(e) = require_owner(state, &info) {
        return Err(e);
    }
    let ghost s0 = state@;
    let ghost r_v = reflectee@;
    let new_state = State { owner: state.owner.clone(), reflectee };
    proof {
        assert(new_state@ =~= StateView { owner: s0.owner, reflectee: r_v });
    }
    *store = Some(new_state);
    let res = Response {
        messages: Vec::new(),
        attributes: vec![
            Attribute { key: "action".to_owned(), value: "set_reflectee".to_owned() },
        ],
    };
    proof {
        assert(res@.messages =~= Seq::<SubMsgView>::empty());
        assert(res@.attributes =~= action_attrs("set_reflectee"@));
        assert(res@ =~= ResponseView {
            messages: Seq::empty(),
            attributes: action_attrs("set_reflectee"@),
        });
    }
    Ok(res)
}

/// Forwards the owner's batch of messages verbatim, preserving order, as a
/// response for the host runtime to dispatch; the stored state is never
/// changed.
pub fn try_reflect(store: &mut Option<State>, info: MessageInfo, msgs: Vec<SubMsg>) -> (r: Result<
    Response,
    ContractError,
>)
    ensures
        *final(store) == *old(store),
        result_view(r) == reflect_result(store_view(*old(store)), info@, msgs_view(msgs@)),
{
    let state = match store {
        Some(s) => s,
        None => {
            return Err(ContractError::NotFound);
        },
    };
    if let Err(e) = require_owner(state, &info) {
        return Err(e);
    }
    if msgs.is_empty() {
        return Err(ContractError::EmptyMessages);
    }
    let ghost msgs_v = msgs_view(msgs@);
    let res = Response {
        messages: msgs,
        attributes: vec![Attribute { key: "action".to_owned(), value: "reflect".to_owned() }],
    };
    proof {
        assert(res@.attributes =~= action_attrs("reflect"@));
        assert(res@ =~= ResponseView { messages: msgs_v, attributes: action_attrs("reflect"@) });
    }
    Ok(res)
}

/// Builds the fixed increment call for the current reflectee: one outgoing
/// message, no funds attached, the hardcoded payload; the stored state is
/// never changed.
pub fn try_to_send_increment_to_reflectee(store: &mut Option<State>, info: MessageInfo) -> (r:
    Result<Response, ContractError>)
    ensures
        *final(store) == *old(store),
        result_view(r) == send_increment_result(store_view(*old(store)), info@),
{
    let state = match store {
        Some(s) => s,
        None => {
            return Err(ContractError::NotFound);
        },
    };
    if let Err(e) = require_owner(state, &info) {
        return Err(e);
    }
    let sub_msg = SubMsg {
        contract_addr: state.reflectee.clone(),
        payload: increment_payload_bytes(),
        funds: Vec::new(),
    };
    let ghost expected = send_increment_result(store_view(*old(store)), info@)->Ok_0;
    let res = Response {
        messages: vec![sub_msg],
        attributes: vec![
            Attribute {
                key: "action".to_owned(),
                value: "send_increment_to_reflectee".to_owned(),
            },
        ],
    };
    proof {
        assert(sub_msg@.funds =~= Seq::<crate::types::CoinView>::empty());
        assert(sub_msg@ =~= expected.messages[0]);
        assert(res@.messages =~= expected.messages);
        assert(res@.attributes =~= expected.attributes);
        assert(res@ =~= expected);
    }
    Ok(res)
}

/// The mutation entry point: dispatches the request to the matching handler.
/// Its whole behaviour — the new stored state and the result — is that of
/// [`execute_transition`] on the models of its arguments.
pub fn execute(store: &mut Option<State>, info: MessageInfo, msg: ExecuteMsg) -> (r: Result<
    Response,
    ContractError,
>)
    ensures
        store_view(*final(store)) == execute_transition(store_view(*old(store)), info@, msg@).0,
        result_view(r) == execute_transition(store_view(*old(store)), info@, msg@).1,
        r is Err ==> *final(store) == *old(store),
{
    match msg {
        ExecuteMsg::SetReflectee { reflectee } => try_set_reflectee(store, info, reflectee),
        ExecuteMsg::Reflect { msgs } => try_reflect(store, info, msgs),
        ExecuteMsg::SendIncrementToReflectee {} => try_to_send_increment_to_reflectee(store, info),
    }
}

/// Answers `GetInfo` from the stored state.
fn query_info(store: &Option<State>) -> (r: Result<StateInfoResponse, ContractError>)
    ensures
        info_result_view(r) == query_info_spec(store_view(*store)),
{
    let state = match store {
        Some(s) => s,
        None => {
            return Err(ContractError::NotFound);
        },
    };
    Ok(
        StateInfoResponse {
            owner: state.owner.clone(),
            reflectee: state.reflectee.clone(),
        },
    )
}

/// The read-only query entry point. It needs no authorization, never changes
/// the state, and its answer is a function of the stored state alone.
pub fn query(store: &Option<State>, msg: QueryMsg) -> (r: Result<StateInfoResponse, ContractError>)
    ensures
        info_result_view(r) == query_info_spec(store_view(*store)),
{
    match msg {
        QueryMsg::GetInfo {} => query_info(store),
    }
}

} // verus!
