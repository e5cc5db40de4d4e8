use ibc_reflect_send::coin::Coin;
use ibc_reflect_send::error::ContractError;
use ibc_reflect_send::hackatom::{
    handle, init, ContractInfo, CosmosMsg, InitMsg, MessageInfo, Params, Response, State,
};

fn coin(amount: &str, denom: &str) -> Vec<Coin> {
    vec![Coin::new(amount.parse().unwrap(), denom)]
}

fn mock_params(signer: &str, sent: &[Coin], balance: &[Coin]) -> Params {
    Params {
        contract: ContractInfo {
            address: "cosmos2contract".to_string(),
            balance: if balance.is_empty() { None } else { Some(balance.to_vec()) },
        },
        message: MessageInfo {
            signer: signer.to_string(),
            sent_funds: if sent.is_empty() { None } else { Some(sent.to_vec()) },
        },
    }
}

#[test]
fn proper_initialization() {
    let msg = InitMsg { verifier: String::from("verifies"), beneficiary: String::from("benefits") };
    let params = mock_params("creator", &coin("1000", "earth"), &[]);
    let (state, res) = init(params, msg);
    assert_eq!(0, res.messages.len());

    // it worked, let's check the state
    assert_eq!(
        state,
        State {
            verifier: "verifies".to_string(),
            beneficiary: "benefits".to_string(),
            funder: "creator".to_string(),
        }
    );
}

#[test]
fn proper_handle() {
    // initialize the store
    let init_msg =
        InitMsg { verifier: String::from("verifies"), beneficiary: String::from("benefits") };
    let init_params = mock_params("creator", &coin("1000", "earth"), &coin("1000", "earth"));
    let (state, init_res) = init(init_params, init_msg);
    assert_eq!(0, init_res.messages.len());

    // beneficiary can release it
    let handle_params = mock_params("verifies", &coin("15", "earth"), &coin("1015", "earth"));
    let handle_res = handle(&state, handle_params).unwrap();
    assert_eq!(1, handle_res.messages.len());
    let msg = handle_res.messages.get(0).expect("no message");
    assert_eq!(
        msg,
        &CosmosMsg::Send {
            from_address: "cosmos2contract".to_string(),
            to_address: "benefits".to_string(),
            amount: coin("1015", "earth"),
        }
    );

    // it worked, let's check the state
    assert_eq!(
        state,
        State {
            verifier: "verifies".to_string(),
            beneficiary: "benefits".to_string(),
            funder: "creator".to_string(),
        }
    );
}

#[test]
fn failed_handle() {
    // initialize the store
    let init_msg =
        InitMsg { verifier: String::from("verifies"), beneficiary: String::from("benefits") };
    let init_params = mock_params("creator", &coin("1000", "earth"), &coin("1000", "earth"));
    let (state, init_res) = init(init_params, init_msg);
    assert_eq!(0, init_res.messages.len());

    // beneficiary can release it
    let handle_params = mock_params("benefits", &[], &coin("1000", "earth"));
    let handle_res = handle(&state, handle_params);
    assert!(handle_res.is_err());

    // state should not change
    assert_eq!(
        state,
        State {
            verifier: "verifies".to_string(),
            beneficiary: "benefits".to_string(),
            funder: "creator".to_string(),
        }
    );
}

#[test]
fn release_reports_what_it_did() {
    let msg = InitMsg { verifier: "v".to_string(), beneficiary: "b".to_string() };
    let (state, res) = init(mock_params("f", &[], &[]), msg);
    assert_eq!(res, Response { messages: vec![], log: None, data: None });

    // without a balance nothing is moved, but the release is still reported
    let res = handle(&state, mock_params("v", &[], &[])).unwrap();
    assert_eq!(
        res,
        Response {
            messages: vec![CosmosMsg::Send {
                from_address: "cosmos2contract".to_string(),
                to_address: "b".to_string(),
                amount: vec![],
            }],
            log: Some("released funds!".to_string()),
            data: None,
        }
    );

    // neither the funder nor the beneficiary may release
    assert_eq!(Err(ContractError::Unauthorized), handle(&state, mock_params("f", &[], &[])));
    assert_eq!(Err(ContractError::Unauthorized), handle(&state, mock_params("b", &[], &[])));
    assert_eq!(Err(ContractError::Unauthorized), handle(&state, mock_params("", &[], &[])));
}
