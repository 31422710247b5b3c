//! The messages the contract accepts and the answer its query returns.

use crate::types::{msgs_view, SubMsg, SubMsgView};
use vstd::prelude::*;

verus! {

/// The message accepted at instantiation. It carries no fields: the creator's
/// identity comes from the call itself.
#[derive(Clone, Debug, PartialEq, Eq, Structural)]
pub struct InstantiateMsg {}

/// The three mutation requests the contract answers.
#[derive(Clone, Debug, PartialEq)]
pub enum ExecuteMsg {
    /// Replace the stored reflectee with the given address.
    SetReflectee { reflectee: String },
    /// Forward the given batch of outgoing messages verbatim, in order.
    Reflect { msgs: Vec<SubMsg> },
    /// Dispatch the fixed increment call to the current reflectee.
    SendIncrementToReflectee {},
}

/// Mathematical model of an [`ExecuteMsg`].
#[verifier::ext_equal]
pub ghost enum ExecuteMsgView {
    SetReflectee { reflectee: Seq<char> },
    Reflect { msgs: Seq<SubMsgView> },
    SendIncrementToReflectee,
}

impl View for ExecuteMsg {
    type V = ExecuteMsgView;

    open spec fn view(&self) -> ExecuteMsgView {
        match self {
            ExecuteMsg::SetReflectee { reflectee } => ExecuteMsgView::SetReflectee {
                reflectee: reflectee@,
            },
            ExecuteMsg::Reflect { msgs } => ExecuteMsgView::Reflect { msgs: msgs_view(msgs@) },
            ExecuteMsg::SendIncrementToReflectee {} => ExecuteMsgView::SendIncrementToReflectee,
        }
    }
}

/// The read-only queries the contract answers.
#[derive(Clone, Debug, PartialEq, Eq, Structural)]
pub enum QueryMsg {
    /// Report the current owner and reflectee.
    GetInfo {},
}

/// The answer to [`QueryMsg::GetInfo`]: both addresses in their canonical
/// string form.
#[derive(Clone, Debug, PartialEq)]
pub struct StateInfoResponse {
    pub owner: String,
    pub reflectee: String,
}

/// Mathematical model of a [`StateInfoResponse`].
#[verifier::ext_equal]
pub ghost struct StateInfoView {
    pub owner: Seq<char>,
    pub reflectee: Seq<char>,
}

impl View for StateInfoResponse {
    type V = StateInfoView;

    open spec fn view(&self) -> StateInfoView {
        StateInfoView { owner: self.owner@, reflectee: self.reflectee@ }
    }
}

} // verus!
