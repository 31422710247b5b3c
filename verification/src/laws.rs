//! The laws of the reflector state machine, stated over the spec-level
//! transitions that the entry points' contracts are tied to.

use crate::addr::valid_addr;
use crate::contract::{
    execute_transition, query_info_spec, reflect_result, send_increment_result, increment_payload,
};
use crate::error::ContractError;
use crate::msg::{ExecuteMsgView, StateInfoView};
use crate::state::StateView;
use crate::types::{MessageInfoView, ResponseView, SubMsgView};
use vstd::prelude::*;

verus! {

/// A sender other than the owner cannot mutate: every execute request from
/// such a sender leaves the stored state unchanged and is refused; it is
/// refused as `Unauthorized` whenever the request itself is well-formed
/// (a `SetReflectee` that carries an invalid address is refused as
/// `InvalidAddress` instead, since the address is checked first).
pub proof fn lemma_non_owner_cannot_mutate(
    st: StateView,
    info: MessageInfoView,
    msg: ExecuteMsgView,
)
    requires
        info.sender != st.owner,
    ensures
        execute_transition(Some(st), info, msg).0 == Some(st),
        execute_transition(Some(st), info, msg).1 is Err,
        (msg matches ExecuteMsgView::SetReflectee { reflectee } ==> valid_addr(reflectee))
            ==> execute_transition(Some(st), info, msg).1 == Err::<ResponseView, ContractError>(
            ContractError::Unauthorized,
        ),
{
}

/// No mutation on any failure: whenever execution returns an error, the
/// stored state is exactly what it was before the call.
pub proof fn lemma_error_leaves_state_unchanged(
    st: Option<StateView>,
    info: MessageInfoView,
    msg: ExecuteMsgView,
)
    ensures
        execute_transition(st, info, msg).1 is Err ==> execute_transition(st, info, msg).0 == st,
{
}

/// Setting the reflectee: when the owner submits a valid address, the
/// reflectee is replaced, the owner is unchanged, and a subsequent query
/// reports exactly the new pair.
pub proof fn lemma_set_reflectee_updates(st: StateView, info: MessageInfoView, addr: Seq<char>)
    requires
        valid_addr(addr),
        info.sender == st.owner,
    ensures
        execute_transition(Some(st), info, ExecuteMsgView::SetReflectee { reflectee: addr }).0
            == Some(StateView { owner: st.owner, reflectee: addr }),
        query_info_spec(
            execute_transition(Some(st), info, ExecuteMsgView::SetReflectee { reflectee: addr }).0,
        ) == Ok::<StateInfoView, ContractError>(StateInfoView { owner: st.owner, reflectee: addr }),
{
}

/// Reflect forwards the owner's messages verbatim and in order, changes no
/// state, and refuses an empty batch as `EmptyMessages`.
pub proof fn lemma_reflect_forwards_in_order(
    st: StateView,
    info: MessageInfoView,
    msgs: Seq<SubMsgView>,
)
    requires
        info.sender == st.owner,
    ensures
        msgs.len() == 0 ==> reflect_result(Some(st), info, msgs) == Err::<
            ResponseView,
            ContractError,
        >(ContractError::EmptyMessages),
        msgs.len() > 0 ==> (reflect_result(Some(st), info, msgs) matches Ok(resp)
            && resp.messages == msgs),
        execute_transition(Some(st), info, ExecuteMsgView::Reflect { msgs }).0 == Some(st),
{
}

/// The increment shortcut: the owner's request yields exactly one outgoing
/// message, aimed at the current reflectee, carrying the fixed increment
/// payload and no funds.
pub proof fn lemma_send_increment_targets_reflectee(st: StateView, info: MessageInfoView)
    requires
        info.sender == st.owner,
    ensures
        send_increment_result(Some(st), info) matches Ok(resp) && resp.messages.len() == 1
            && resp.messages[0].contract_addr == st.reflectee
            && resp.messages[0].payload == increment_payload()
            && resp.messages[0].funds.len() == 0,
{
}

/// Query idempotence: the answer to `GetInfo` is a function of the stored
/// state alone, so any two queries with no intervening mutation agree.
pub proof fn lemma_query_idempotent(
    st: Option<StateView>,
    r1: Result<StateInfoView, ContractError>,
    r2: Result<StateInfoView, ContractError>,
)
    requires
        r1 == query_info_spec(st),
        r2 == query_info_spec(st),
    ensures
        r1 == r2,
{
}

} // verus!
