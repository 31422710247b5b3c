use reflector::contract::{execute, instantiate};
use reflector::msg::{ExecuteMsg, InstantiateMsg};
use reflector::state::State;
use reflector::types::MessageInfo;

fn owner_info() -> MessageInfo {
    MessageInfo { sender: "owner".to_string(), funds: vec![] }
}

/// The increment payload the contract emits must be exactly what the
/// conventional base64 form of the increment call decodes to.
#[test]
fn increment_payload_matches_base64_form() {
    let mut store: Option<State> = None;
    instantiate(&mut store, owner_info(), InstantiateMsg {}).unwrap();
    let res = execute(&mut store, owner_info(), ExecuteMsg::SendIncrementToReflectee {}).unwrap();

    let expected = cosmwasm_std::Binary::from_base64("eyJpbmNyZW1lbnQiOnt9fQ==").unwrap();
    assert_eq!(expected.as_slice(), res.messages[0].payload.as_slice());
    assert_eq!(b"{\"increment\":{}}".as_slice(), res.messages[0].payload.as_slice());
}
