//! The plain values that flow through the contract: the caller's identity,
//! funds, outgoing message descriptors, attributes, and the response that a
//! successful call returns.

use vstd::prelude::*;

verus! {

/// An amount of some token denomination.
#[derive(Clone, Debug, PartialEq)]
pub struct Coin {
    pub amount: u128,
    pub denom: String,
}

/// Mathematical model of a [`Coin`].
#[verifier::ext_equal]
pub ghost struct CoinView {
    pub amount: int,
    pub denom: Seq<char>,
}

impl View for Coin {
    type V = CoinView;

    open spec fn view(&self) -> CoinView {
        CoinView { amount: self.amount as int, denom: self.denom@ }
    }
}

/// The model of a list of coins.
pub open spec fn coins_view(funds: Seq<Coin>) -> Seq<CoinView> {
    funds.map_values(|c: Coin| c@)
}

/// The identity of the calling account, together with the funds the host
/// runtime says were sent along with the call. The contract reads only the
/// sender; the funds are carried through untouched.
#[derive(Clone, Debug, PartialEq)]
pub struct MessageInfo {
    pub sender: String,
    pub funds: Vec<Coin>,
}

/// Mathematical model of a [`MessageInfo`].
#[verifier::ext_equal]
pub ghost struct MessageInfoView {
    pub sender: Seq<char>,
    pub funds: Seq<CoinView>,
}

impl View for MessageInfo {
    type V = MessageInfoView;

    open spec fn view(&self) -> MessageInfoView {
        MessageInfoView { sender: self.sender@, funds: coins_view(self.funds@) }
    }
}

/// A descriptor of one outgoing message: a call that the host runtime is to
/// execute against the target `contract_addr` after this call returns, with
/// the given payload and attached funds. The contract forwards these verbatim
/// and never interprets the payload.
#[derive(Clone, Debug, PartialEq)]
pub struct SubMsg {
    pub contract_addr: String,
    pub payload: Vec<u8>,
    pub funds: Vec<Coin>,
}

/// Mathematical model of a [`SubMsg`].
#[verifier::ext_equal]
pub ghost struct SubMsgView {
    pub contract_addr: Seq<char>,
    pub payload: Seq<u8>,
    pub funds: Seq<CoinView>,
}

impl View for SubMsg {
    type V = SubMsgView;

    open spec fn view(&self) -> SubMsgView {
        SubMsgView {
            contract_addr: self.contract_addr@,
            payload: self.payload@,
            funds: coins_view(self.funds@),
        }
    }
}

/// The model of an ordered list of outgoing messages.
pub open spec fn msgs_view(msgs: Seq<SubMsg>) -> Seq<SubMsgView> {
    msgs.map_values(|m: SubMsg| m@)
}

/// One key/value attribute of a response.
#[derive(Clone, Debug, PartialEq)]
pub struct Attribute {
    pub key: String,
    pub value: String,
}

/// Mathematical model of an [`Attribute`].
#[verifier::ext_equal]
pub ghost struct AttributeView {
    pub key: Seq<char>,
    pub value: Seq<char>,
}

impl View for Attribute {
    type V = AttributeView;

    open spec fn view(&self) -> AttributeView {
        AttributeView { key: self.key@, value: self.value@ }
    }
}

/// What a successful call returns: an ordered list of outgoing messages for
/// the host runtime to dispatch, and a list of attributes describing the
/// action taken.
#[derive(Clone, Debug, PartialEq)]
pub struct Response {
    pub messages: Vec<SubMsg>,
    pub attributes: Vec<Attribute>,
}

/// Mathematical model of a [`Response`].
#[verifier::ext_equal]
pub ghost struct ResponseView {
    pub messages: Seq<SubMsgView>,
    pub attributes: Seq<AttributeView>,
}

impl View for Response {
    type V = ResponseView;

    open spec fn view(&self) -> ResponseView {
        ResponseView {
            messages: msgs_view(self.messages@),
            attributes: self.attributes@.map_values(|a: Attribute| a@),
        }
    }
}

impl Default for Response {
    /// The empty response: no outgoing messages, no attributes.
    fn default() -> (r: Response)
        ensures
            r@.messages.len() == 0,
            r@.attributes.len() == 0,
    {
        Response { messages: Vec::new(), attributes: Vec::new() }
    }
}

} // verus!
