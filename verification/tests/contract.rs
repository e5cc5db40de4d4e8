use ibc_reflect_send::coin::Coin;
use ibc_reflect_send::contract::{
    acknowledge_balances, acknowledge_dispatch, acknowledge_who_am_i, handle,
    handle_check_remote_balance, handle_send_funds, handle_send_msgs, handle_update_admin,
    ibc_channel_close, ibc_channel_connect, ibc_channel_open, ibc_packet_ack, ibc_packet_receive,
    ibc_packet_timeout, init, query, query_account, query_admin, query_list_accounts,
};
use ibc_reflect_send::env::{BlockInfo, Env, MessageInfo};
use ibc_reflect_send::error::ContractError;
use ibc_reflect_send::ibc::{
    IbcAcknowledgement, IbcChannel, IbcEndpoint, IbcMsg, IbcOrder, IbcPacket,
};
use ibc_reflect_send::ibc_msg::{
    AcknowledgementMsg, BalancesResponse, PacketAck, PacketMsg, WhoAmIResponse,
};
use ibc_reflect_send::msg::{AccountResponse, HandleMsg, InitMsg, QueryMsg, QueryResponse};
use ibc_reflect_send::response::{
    attr, HandleResponse, IbcBasicResponse, IbcReceiveResponse, InitResponse,
};
use ibc_reflect_send::rules::{IBC_VERSION, PACKET_LIFETIME};
use ibc_reflect_send::state::Store;

const CREATOR: &str = "creator";
const NOW: u64 = 1_571_797_419;

type Msg = String;

fn mock_env() -> Env {
    Env { block: BlockInfo { height: 12_345, time: NOW } }
}

fn mock_info(sender: &str, sent: &[Coin]) -> MessageInfo {
    MessageInfo { sender: sender.to_string(), sent_funds: sent.to_vec() }
}

fn mock_ibc_channel(channel_id: &str, order: IbcOrder, version: &str) -> IbcChannel {
    IbcChannel {
        endpoint: IbcEndpoint { port_id: "my_port".to_string(), channel_id: channel_id.to_string() },
        counterparty_endpoint: IbcEndpoint {
            port_id: "their_port".to_string(),
            channel_id: "channel-7".to_string(),
        },
        order,
        version: version.to_string(),
        counterparty_version: Some(version.to_string()),
        connection_id: "connection-2".to_string(),
    }
}

fn mock_ibc_packet(channel_id: &str) -> IbcPacket {
    IbcPacket {
        data: Vec::new(),
        src: IbcEndpoint { port_id: "their-port".to_string(), channel_id: channel_id.to_string() },
        dest: IbcEndpoint { port_id: "our-port".to_string(), channel_id: "channel-1234".to_string() },
        sequence: 27,
    }
}

fn setup() -> Store {
    let msg = InitMsg {};
    let info = mock_info(CREATOR, &[]);
    let (store, res): (Store, InitResponse<Msg>) = init(&mock_env(), info, msg);
    assert_eq!(0, res.messages.len());
    store
}

// connect will run through the entire handshake to set up a proper connect and
// save the account (tested in detail in `proper_handshake_flow`)
fn connect(store: &mut Store, channel_id: &str) {
    // open packet has no counterparty version, connect does
    let mut handshake_open = mock_ibc_channel(channel_id, IbcOrder::Ordered, IBC_VERSION);
    handshake_open.counterparty_version = None;
    // first we try to open with a valid handshake
    ibc_channel_open(&handshake_open).unwrap();

    // then we connect (with counter-party version set)
    let handshake_connect = mock_ibc_channel(channel_id, IbcOrder::Ordered, IBC_VERSION);
    let res: IbcBasicResponse<Msg> = ibc_channel_connect(store, &mock_env(), handshake_connect);

    // this should send a WhoAmI request, which is received some blocks later
    assert_eq!(1, res.messages.len());
    match &res.messages[0] {
        IbcMsg::SendPacket { channel_id: packet_channel, .. } => {
            assert_eq!(packet_channel.as_str(), channel_id)
        }
        o => panic!("Unexpected message: {:?}", o),
    };
}

fn who_am_i_ack(
    store: &mut Store,
    channel_id: &str,
    account: &str,
) -> Result<IbcBasicResponse<Msg>, ContractError> {
    let response = AcknowledgementMsg::Success(WhoAmIResponse { account: account.to_string() });
    let ack = IbcAcknowledgement {
        acknowledgement: PacketAck::WhoAmI(response),
        original_packet: mock_ibc_packet(channel_id),
    };
    ibc_packet_ack(store, &mock_env(), ack)
}

fn who_am_i_response(store: &mut Store, channel_id: &str, account: &str) {
    let res = who_am_i_ack(store, channel_id, account).unwrap();
    assert_eq!(0, res.messages.len());
}

fn balances_ack(
    store: &mut Store,
    env: &Env,
    channel_id: &str,
    account: &str,
    balances: Vec<Coin>,
) -> Result<IbcBasicResponse<Msg>, ContractError> {
    let response =
        AcknowledgementMsg::Success(BalancesResponse { account: account.to_string(), balances });
    let ack = IbcAcknowledgement {
        acknowledgement: PacketAck::Balances(response),
        original_packet: mock_ibc_packet(channel_id),
    };
    ibc_packet_ack(store, env, ack)
}

fn account(store: &Store, channel_id: &str) -> AccountResponse {
    query_account(store, channel_id.to_string()).unwrap()
}

#[test]
fn init_works() {
    let store = setup();
    let admin = query_admin(&store);
    assert_eq!(CREATOR, admin.admin.as_str());
}

#[test]
fn enforce_version_in_handshake() {
    let _store = setup();

    let wrong_order = mock_ibc_channel("channel-12", IbcOrder::Unordered, IBC_VERSION);
    ibc_channel_open(&wrong_order).unwrap_err();

    let wrong_version = mock_ibc_channel("channel-12", IbcOrder::Ordered, "reflect");
    ibc_channel_open(&wrong_version).unwrap_err();

    let valid_handshake = mock_ibc_channel("channel-12", IbcOrder::Ordered, IBC_VERSION);
    ibc_channel_open(&valid_handshake).unwrap();
}

#[test]
fn proper_handshake_flow() {
    // setup and connect handshake
    let mut store = setup();
    let channel_id = "channel-1234";
    connect(&mut store, channel_id);

    // check for empty account
    let acct = query_account(&store, channel_id.into()).unwrap();
    assert!(acct.remote_addr.is_none());
    assert!(acct.remote_balance.is_empty());
    assert_eq!(0, acct.last_update_time);

    // now get feedback from WhoAmI packet
    let remote_addr = "account-789";
    who_am_i_response(&mut store, channel_id, remote_addr);

    // account should be set up
    let acct = query_account(&store, channel_id.into()).unwrap();
    assert_eq!(acct.remote_addr.unwrap(), String::from(remote_addr));
    assert!(acct.remote_balance.is_empty());
    assert_eq!(0, acct.last_update_time);
}

#[test]
fn init_answers_with_one_attribute() {
    let (store, res): (Store, InitResponse<Msg>) =
        init(&mock_env(), mock_info("someone", &[Coin::new(5, "uatom")]), InitMsg {});
    assert_eq!(res, InitResponse { messages: vec![], attributes: vec![attr("action", "init")] });
    assert_eq!("someone", store.config.admin);
    assert!(query_list_accounts(&store).accounts.is_empty());
}

#[test]
fn handshake_names_its_errors() {
    let wrong_order = mock_ibc_channel("channel-12", IbcOrder::Unordered, IBC_VERSION);
    assert_eq!(Err(ContractError::OrderMismatch), ibc_channel_open(&wrong_order));

    // the order is looked at first
    let all_wrong = mock_ibc_channel("channel-12", IbcOrder::Unordered, "reflect");
    assert_eq!(Err(ContractError::OrderMismatch), ibc_channel_open(&all_wrong));

    let wrong_version = mock_ibc_channel("channel-12", IbcOrder::Ordered, "reflect");
    assert_eq!(Err(ContractError::VersionMismatch), ibc_channel_open(&wrong_version));

    let mut wrong_counterparty = mock_ibc_channel("channel-12", IbcOrder::Ordered, IBC_VERSION);
    wrong_counterparty.counterparty_version = Some("ibc-reflect-2".to_string());
    assert_eq!(Err(ContractError::VersionMismatch), ibc_channel_open(&wrong_counterparty));

    let mut empty_version = mock_ibc_channel("channel-12", IbcOrder::Ordered, "");
    empty_version.counterparty_version = None;
    assert_eq!(Err(ContractError::VersionMismatch), ibc_channel_open(&empty_version));

    let mut no_counterparty = mock_ibc_channel("channel-12", IbcOrder::Ordered, "ibc-reflect");
    no_counterparty.counterparty_version = None;
    assert_eq!(Ok(()), ibc_channel_open(&no_counterparty));

    let both = mock_ibc_channel("channel-12", IbcOrder::Ordered, "ibc-reflect");
    assert_eq!(Ok(()), ibc_channel_open(&both));
}

#[test]
fn connect_sends_one_who_am_i_packet() {
    let mut store = setup();
    let channel = mock_ibc_channel("channel-1234", IbcOrder::Ordered, IBC_VERSION);
    let res: IbcBasicResponse<Msg> = ibc_channel_connect(&mut store, &mock_env(), channel);
    assert_eq!(
        res.messages,
        vec![IbcMsg::SendPacket {
            channel_id: "channel-1234".to_string(),
            data: PacketMsg::WhoAmI {},
            timeout_block: None,
            timeout_timestamp: Some(1_571_801_019),
        }]
    );
    assert_eq!(
        res.attributes,
        vec![attr("action", "ibc_connect"), attr("channel_id", "channel-1234")]
    );
    assert_eq!(
        account(&store, "channel-1234"),
        AccountResponse { last_update_time: 0, remote_addr: None, remote_balance: vec![] }
    );
}

#[test]
fn packets_live_one_hour() {
    assert_eq!(3600, PACKET_LIFETIME);
    let mut store = setup();
    let env = Env { block: BlockInfo { height: 1, time: 0 } };
    let channel = mock_ibc_channel("channel-1", IbcOrder::Ordered, IBC_VERSION);
    let res: IbcBasicResponse<Msg> = ibc_channel_connect(&mut store, &env, channel);
    match &res.messages[0] {
        IbcMsg::SendPacket { timeout_block, timeout_timestamp, .. } => {
            assert_eq!(&None, timeout_block);
            assert_eq!(&Some(3600), timeout_timestamp);
        }
        o => panic!("Unexpected message: {:?}", o),
    }
    // the last moment at which a packet can still be given an expiry
    let late = Env { block: BlockInfo { height: 1, time: u64::MAX - 3600 } };
    let res: HandleResponse<Msg> = handle_check_remote_balance(
        &store,
        &late,
        mock_info(CREATOR, &[]),
        "channel-1".to_string(),
    )
    .unwrap();
    match &res.messages[0] {
        IbcMsg::SendPacket { timeout_timestamp, .. } => {
            assert_eq!(&Some(u64::MAX), timeout_timestamp)
        }
        o => panic!("Unexpected message: {:?}", o),
    }
}

#[test]
fn a_refusal_needs_no_expiry() {
    let mut store = setup();
    connect(&mut store, "channel-1");
    let last = Env { block: BlockInfo { height: 1, time: u64::MAX } };

    let res: Result<HandleResponse<Msg>, _> = handle_send_msgs(
        &store,
        &last,
        mock_info("intruder", &[]),
        "channel-1".to_string(),
        vec![],
    );
    assert_eq!(Err(ContractError::Unauthorized), res);
    let res: Result<HandleResponse<Msg>, _> =
        handle_check_remote_balance(&store, &last, mock_info(CREATOR, &[]), "channel-2".to_string());
    assert_eq!(Err(ContractError::NotFound), res);
    let res: Result<HandleResponse<Msg>, _> = handle_send_funds(
        &store,
        &last,
        mock_info("anyone", &[Coin::new(1, "uatom")]),
        "channel-1".to_string(),
        "channel-9".to_string(),
    );
    assert_eq!(Err(ContractError::RemoteAddressUnknown), res);
    let res: Result<HandleResponse<Msg>, _> = handle(
        &mut store,
        &last,
        mock_info(CREATOR, &[]),
        HandleMsg::UpdateAdmin { admin: "heir".to_string() },
    );
    assert!(res.is_ok());
    // acknowledgements send nothing, so they are handled at any time
    let res = balances_ack(&mut store, &last, "channel-1", "A", vec![]);
    assert!(res.is_ok());
    assert_eq!(u64::MAX, account(&store, "channel-1").last_update_time);
}

#[test]
fn reconnect_discards_the_record() {
    let mut store = setup();
    connect(&mut store, "channel-1234");
    who_am_i_response(&mut store, "channel-1234", "account-789");
    assert_eq!(Some("account-789".to_string()), account(&store, "channel-1234").remote_addr);
    connect(&mut store, "channel-1234");
    assert_eq!(
        account(&store, "channel-1234"),
        AccountResponse { last_update_time: 0, remote_addr: None, remote_balance: vec![] }
    );
    assert_eq!(1, query_list_accounts(&store).accounts.len());
}

#[test]
fn unknown_channel_is_not_found() {
    let mut store = setup();
    connect(&mut store, "channel-1");
    who_am_i_response(&mut store, "channel-1", "account-1");
    let env = mock_env();

    let res: Result<HandleResponse<Msg>, _> = handle_send_msgs(
        &store,
        &env,
        mock_info(CREATOR, &[]),
        "channel-2".to_string(),
        vec!["pay".to_string()],
    );
    assert_eq!(Err(ContractError::NotFound), res);

    let res: Result<HandleResponse<Msg>, _> =
        handle_check_remote_balance(&store, &env, mock_info(CREATOR, &[]), "channel-2".to_string());
    assert_eq!(Err(ContractError::NotFound), res);

    let res: Result<HandleResponse<Msg>, _> = handle_send_funds(
        &store,
        &env,
        mock_info("anyone", &[Coin::new(12, "uatom")]),
        "channel-2".to_string(),
        "channel-1".to_string(),
    );
    assert_eq!(Err(ContractError::NotFound), res);

    assert_eq!(Err(ContractError::NotFound), query_account(&store, "channel-2".to_string()));
    // an identifier is not found by a prefix or an extension of it
    assert_eq!(Err(ContractError::NotFound), query_account(&store, "channel-".to_string()));
    assert_eq!(Err(ContractError::NotFound), query_account(&store, "channel-11".to_string()));
    assert_eq!(Err(ContractError::NotFound), query_account(&store, "".to_string()));
}

#[test]
fn only_admin_dispatches() {
    let mut store = setup();
    connect(&mut store, "channel-1");
    let env = mock_env();

    let res: Result<HandleResponse<Msg>, _> = handle_send_msgs(
        &store,
        &env,
        mock_info("intruder", &[]),
        "channel-1".to_string(),
        vec![],
    );
    assert_eq!(Err(ContractError::Unauthorized), res);
    // authorisation comes before the look-up
    let res: Result<HandleResponse<Msg>, _> = handle_send_msgs(
        &store,
        &env,
        mock_info("intruder", &[]),
        "channel-2".to_string(),
        vec![],
    );
    assert_eq!(Err(ContractError::Unauthorized), res);
    let res: Result<HandleResponse<Msg>, _> =
        handle_check_remote_balance(&store, &env, mock_info("", &[]), "channel-1".to_string());
    assert_eq!(Err(ContractError::Unauthorized), res);

    let msgs = vec!["first".to_string(), "second".to_string()];
    let res = handle_send_msgs(
        &store,
        &env,
        mock_info(CREATOR, &[]),
        "channel-1".to_string(),
        msgs.clone(),
    )
    .unwrap();
    assert_eq!(
        res,
        HandleResponse {
            messages: vec![IbcMsg::SendPacket {
                channel_id: "channel-1".to_string(),
                data: PacketMsg::Dispatch { msgs },
                timeout_block: None,
                timeout_timestamp: Some(NOW + 3600),
            }],
            attributes: vec![attr("action", "handle_send_msgs")],
            data: None,
        }
    );

    let res: HandleResponse<Msg> =
        handle_check_remote_balance(&store, &env, mock_info(CREATOR, &[]), "channel-1".to_string())
            .unwrap();
    assert_eq!(
        res,
        HandleResponse {
            messages: vec![IbcMsg::SendPacket {
                channel_id: "channel-1".to_string(),
                data: PacketMsg::Balances {},
                timeout_block: None,
                timeout_timestamp: Some(NOW + 3600),
            }],
            attributes: vec![attr("action", "handle_check_remote_balance")],
            data: None,
        }
    );
}

#[test]
fn admin_hands_over() {
    let mut store = setup();
    connect(&mut store, "channel-1");

    let res: Result<HandleResponse<Msg>, _> =
        handle_update_admin(&mut store, mock_info("intruder", &[]), "intruder".to_string());
    assert_eq!(Err(ContractError::Unauthorized), res);
    assert_eq!(CREATOR, query_admin(&store).admin);

    let res: HandleResponse<Msg> =
        handle_update_admin(&mut store, mock_info(CREATOR, &[]), "heir".to_string()).unwrap();
    assert_eq!(
        res,
        HandleResponse {
            messages: vec![],
            attributes: vec![attr("action", "handle_update_admin"), attr("new_admin", "heir")],
            data: None,
        }
    );
    assert_eq!("heir", query_admin(&store).admin);
    assert_eq!(1, query_list_accounts(&store).accounts.len());

    // the former administrator has lost the right
    let res: Result<HandleResponse<Msg>, _> = handle_check_remote_balance(
        &store,
        &mock_env(),
        mock_info(CREATOR, &[]),
        "channel-1".to_string(),
    );
    assert_eq!(Err(ContractError::Unauthorized), res);
    let res: Result<HandleResponse<Msg>, _> = handle_check_remote_balance(
        &store,
        &mock_env(),
        mock_info("heir", &[]),
        "channel-1".to_string(),
    );
    assert!(res.is_ok());
}

#[test]
fn first_write_wins() {
    let mut store = setup();
    connect(&mut store, "channel-1234");
    who_am_i_response(&mut store, "channel-1234", "A");
    who_am_i_response(&mut store, "channel-1234", "B");
    assert_eq!(
        account(&store, "channel-1234"),
        AccountResponse {
            last_update_time: 0,
            remote_addr: Some("A".to_string()),
            remote_balance: vec![]
        }
    );
}

#[test]
fn who_am_i_needs_a_record() {
    let mut store = setup();
    connect(&mut store, "channel-1");
    assert_eq!(
        Err(ContractError::InconsistentState),
        who_am_i_ack(&mut store, "channel-2", "account-2")
    );
    assert_eq!(1, query_list_accounts(&store).accounts.len());

    // after the channel was closed its acknowledgements find nothing
    let channel = mock_ibc_channel("channel-1", IbcOrder::Ordered, IBC_VERSION);
    let _: IbcBasicResponse<Msg> = ibc_channel_close(&mut store, channel);
    assert_eq!(
        Err(ContractError::InconsistentState),
        who_am_i_ack(&mut store, "channel-1", "account-1")
    );
    assert_eq!(
        Err(ContractError::InconsistentState),
        balances_ack(&mut store, &mock_env(), "channel-1", "account-1", vec![])
    );
    assert!(query_list_accounts(&store).accounts.is_empty());
}

#[test]
fn remote_failure_is_recorded_only() {
    let mut store = setup();
    connect(&mut store, "channel-1");

    let res: IbcBasicResponse<Msg> = acknowledge_who_am_i(
        &mut store,
        "channel-1".to_string(),
        AcknowledgementMsg::Failure("no such account".to_string()),
    )
    .unwrap();
    assert_eq!(
        res,
        IbcBasicResponse {
            messages: vec![],
            attributes: vec![
                attr("action", "acknowledge_who_am_i"),
                attr("error", "no such account")
            ],
        }
    );
    let res: IbcBasicResponse<Msg> = acknowledge_balances(
        &mut store,
        &mock_env(),
        "channel-1".to_string(),
        AcknowledgementMsg::Failure("out of gas".to_string()),
    )
    .unwrap();
    assert_eq!(
        res,
        IbcBasicResponse {
            messages: vec![],
            attributes: vec![attr("action", "acknowledge_balances"), attr("error", "out of gas")],
        }
    );
    assert_eq!(
        account(&store, "channel-1"),
        AccountResponse { last_update_time: 0, remote_addr: None, remote_balance: vec![] }
    );

    // a reported failure is accepted even where the channel has no record
    let res: Result<IbcBasicResponse<Msg>, _> = acknowledge_who_am_i(
        &mut store,
        "channel-9".to_string(),
        AcknowledgementMsg::Failure("late".to_string()),
    );
    assert!(res.is_ok());
    let res: Result<IbcBasicResponse<Msg>, _> = acknowledge_balances(
        &mut store,
        &mock_env(),
        "channel-9".to_string(),
        AcknowledgementMsg::Failure("late".to_string()),
    );
    assert!(res.is_ok());
    assert_eq!(1, query_list_accounts(&store).accounts.len());
}

#[test]
fn balances_ack_consistency() {
    let mut store = setup();
    connect(&mut store, "channel-1234");
    who_am_i_response(&mut store, "channel-1234", "A");

    let later = Env { block: BlockInfo { height: 12_400, time: NOW + 60 } };
    let res =
        balances_ack(&mut store, &later, "channel-1234", "B", vec![Coin::new(1, "uatom")]);
    assert_eq!(Err(ContractError::RemoteAddressChanged), res);
    assert_eq!(
        account(&store, "channel-1234"),
        AccountResponse {
            last_update_time: 0,
            remote_addr: Some("A".to_string()),
            remote_balance: vec![]
        }
    );

    let balances = vec![Coin::new(12, "uatom"), Coin::new(3, "ustake")];
    let res = balances_ack(&mut store, &later, "channel-1234", "A", balances.clone()).unwrap();
    assert_eq!(
        res,
        IbcBasicResponse {
            messages: vec![],
            attributes: vec![attr("action", "acknowledge_balances")]
        }
    );
    assert_eq!(
        account(&store, "channel-1234"),
        AccountResponse {
            last_update_time: NOW + 60,
            remote_addr: Some("A".to_string()),
            remote_balance: balances
        }
    );
}

#[test]
fn balances_ack_may_set_the_address() {
    let mut store = setup();
    connect(&mut store, "channel-1");
    let res = balances_ack(&mut store, &mock_env(), "channel-1", "C", vec![]).unwrap();
    assert_eq!(0, res.messages.len());
    assert_eq!(
        account(&store, "channel-1"),
        AccountResponse {
            last_update_time: NOW,
            remote_addr: Some("C".to_string()),
            remote_balance: vec![]
        }
    );
    // the address is on record now: a who-am-i acknowledgement does not replace it
    who_am_i_response(&mut store, "channel-1", "D");
    assert_eq!(Some("C".to_string()), account(&store, "channel-1").remote_addr);
}

#[test]
fn dispatch_ack_changes_nothing() {
    let mut store = setup();
    connect(&mut store, "channel-1");
    let expected: IbcBasicResponse<Msg> = IbcBasicResponse {
        messages: vec![],
        attributes: vec![attr("action", "acknowledge_dispatch")],
    };
    let ok = IbcAcknowledgement {
        acknowledgement: PacketAck::Dispatch(AcknowledgementMsg::Success(())),
        original_packet: mock_ibc_packet("channel-1"),
    };
    assert_eq!(Ok(expected), ibc_packet_ack(&mut store, &mock_env(), ok));
    let failed = IbcAcknowledgement {
        acknowledgement: PacketAck::Dispatch(AcknowledgementMsg::Failure("refused".to_string())),
        original_packet: mock_ibc_packet("channel-unknown"),
    };
    let res: IbcBasicResponse<Msg> = ibc_packet_ack(&mut store, &mock_env(), failed).unwrap();
    assert_eq!(vec![attr("action", "acknowledge_dispatch")], res.attributes);
    let res: IbcBasicResponse<Msg> = acknowledge_dispatch(
        &store,
        "channel-1".to_string(),
        AcknowledgementMsg::Success(()),
    );
    assert!(res.messages.is_empty());
    assert_eq!(
        account(&store, "channel-1"),
        AccountResponse { last_update_time: 0, remote_addr: None, remote_balance: vec![] }
    );
}

#[test]
fn send_funds_checks_the_funds_first() {
    let mut store = setup();
    connect(&mut store, "channel-1");
    let env = mock_env();

    let res: Result<HandleResponse<Msg>, _> = handle_send_funds(
        &store,
        &env,
        mock_info("anyone", &[]),
        "channel-1".to_string(),
        "channel-9".to_string(),
    );
    assert_eq!(Err(ContractError::EmptyFunds), res);

    let res: Result<HandleResponse<Msg>, _> = handle_send_funds(
        &store,
        &env,
        mock_info("anyone", &[Coin::new(1, "uatom"), Coin::new(2, "ustake")]),
        "channel-1".to_string(),
        "channel-9".to_string(),
    );
    assert_eq!(Err(ContractError::MultipleDenominations), res);

    // the funds are looked at before the channel
    let res: Result<HandleResponse<Msg>, _> = handle_send_funds(
        &store,
        &env,
        mock_info("anyone", &[]),
        "channel-2".to_string(),
        "channel-9".to_string(),
    );
    assert_eq!(Err(ContractError::EmptyFunds), res);

    let res: Result<HandleResponse<Msg>, _> = handle_send_funds(
        &store,
        &env,
        mock_info("anyone", &[Coin::new(1, "uatom")]),
        "channel-1".to_string(),
        "channel-9".to_string(),
    );
    assert_eq!(Err(ContractError::RemoteAddressUnknown), res);

    who_am_i_response(&mut store, "channel-1", "account-789");
    let res: HandleResponse<Msg> = handle_send_funds(
        &store,
        &env,
        mock_info("anyone", &[Coin::new(1, "uatom")]),
        "channel-1".to_string(),
        "channel-9".to_string(),
    )
    .unwrap();
    assert_eq!(
        res,
        HandleResponse {
            messages: vec![IbcMsg::Transfer {
                channel_id: "channel-9".to_string(),
                to_address: "account-789".to_string(),
                amount: Coin::new(1, "uatom"),
                timeout_block: None,
                timeout_timestamp: Some(NOW + 3600),
            }],
            attributes: vec![attr("action", "handle_send_funds")],
            data: None,
        }
    );
}

#[test]
fn close_deletes_the_record() {
    let mut store = setup();
    connect(&mut store, "channel-1234");
    connect(&mut store, "channel-5");
    let channel = mock_ibc_channel("channel-1234", IbcOrder::Ordered, IBC_VERSION);
    let res: IbcBasicResponse<Msg> = ibc_channel_close(&mut store, channel);
    assert_eq!(
        res,
        IbcBasicResponse {
            messages: vec![],
            attributes: vec![attr("action", "ibc_close"), attr("channel_id", "channel-1234")],
        }
    );
    assert_eq!(Err(ContractError::NotFound), query_account(&store, "channel-1234".to_string()));
    assert!(query_account(&store, "channel-5".to_string()).is_ok());

    // closing a channel without a record changes nothing
    let channel = mock_ibc_channel("channel-77", IbcOrder::Ordered, IBC_VERSION);
    let _: IbcBasicResponse<Msg> = ibc_channel_close(&mut store, channel);
    let ids: Vec<String> =
        query_list_accounts(&store).accounts.into_iter().map(|a| a.channel_id).collect();
    assert_eq!(vec!["channel-5".to_string()], ids);
}

#[test]
fn accounts_are_listed_in_lexical_order() {
    let mut store = setup();
    assert!(query_list_accounts(&store).accounts.is_empty());
    for id in ["channel-2", "channel-10", "channel-1", "b", "channel-", "Z", "channel-é", ""] {
        connect(&mut store, id);
    }
    who_am_i_response(&mut store, "channel-10", "account-10");
    let listed = query_list_accounts(&store).accounts;
    let ids: Vec<&str> = listed.iter().map(|a| a.channel_id.as_str()).collect();
    assert_eq!(
        vec!["", "Z", "b", "channel-", "channel-1", "channel-10", "channel-2", "channel-é"],
        ids
    );
    assert_eq!(Some("account-10".to_string()), listed[5].remote_addr);
    assert_eq!(None, listed[4].remote_addr);
    assert_eq!(0, listed[5].last_update_time);
    assert!(listed[5].remote_balance.is_empty());
}

#[test]
fn receive_and_timeout_change_nothing() {
    let res: IbcReceiveResponse<Msg> = ibc_packet_receive(&mock_ibc_packet("channel-1"));
    assert_eq!(
        res,
        IbcReceiveResponse {
            acknowledgement: b"{}".to_vec(),
            messages: vec![],
            attributes: vec![attr("action", "ibc_packet_ack")],
        }
    );
    let res: IbcBasicResponse<Msg> = ibc_packet_timeout(&mock_ibc_packet("channel-1"));
    assert_eq!(
        res,
        IbcBasicResponse {
            messages: vec![],
            attributes: vec![attr("action", "ibc_packet_timeout")]
        }
    );
}

#[test]
fn handle_goes_by_the_command() {
    let mut store = setup();
    connect(&mut store, "channel-1");
    who_am_i_response(&mut store, "channel-1", "account-1");
    let env = mock_env();

    let res = handle(
        &mut store,
        &env,
        mock_info(CREATOR, &[]),
        HandleMsg::SendMsgs { channel_id: "channel-1".to_string(), msgs: vec!["m".to_string()] },
    )
    .unwrap();
    assert_eq!(vec![attr("action", "handle_send_msgs")], res.attributes);

    let res: HandleResponse<Msg> = handle(
        &mut store,
        &env,
        mock_info(CREATOR, &[]),
        HandleMsg::CheckRemoteBalance { channel_id: "channel-1".to_string() },
    )
    .unwrap();
    assert_eq!(vec![attr("action", "handle_check_remote_balance")], res.attributes);

    let res: HandleResponse<Msg> = handle(
        &mut store,
        &env,
        mock_info("anyone", &[Coin::new(4, "uatom")]),
        HandleMsg::SendFunds {
            reflect_channel_id: "channel-1".to_string(),
            transfer_channel_id: "channel-2".to_string(),
        },
    )
    .unwrap();
    assert_eq!(vec![attr("action", "handle_send_funds")], res.attributes);

    let res: Result<HandleResponse<Msg>, _> = handle(
        &mut store,
        &env,
        mock_info("anyone", &[]),
        HandleMsg::UpdateAdmin { admin: "anyone".to_string() },
    );
    assert_eq!(Err(ContractError::Unauthorized), res);

    let res: HandleResponse<Msg> = handle(
        &mut store,
        &env,
        mock_info(CREATOR, &[]),
        HandleMsg::UpdateAdmin { admin: "anyone".to_string() },
    )
    .unwrap();
    assert!(res.messages.is_empty());
    assert_eq!("anyone", query_admin(&store).admin);
}

#[test]
fn query_goes_by_the_question() {
    let mut store = setup();
    connect(&mut store, "channel-1");
    let env = mock_env();
    match query(&store, &env, QueryMsg::Admin {}).unwrap() {
        QueryResponse::Admin(r) => assert_eq!(CREATOR, r.admin),
        o => panic!("Unexpected answer: {:?}", o),
    }
    match query(&store, &env, QueryMsg::Account { channel_id: "channel-1".to_string() }).unwrap() {
        QueryResponse::Account(r) => assert_eq!(
            r,
            AccountResponse { last_update_time: 0, remote_addr: None, remote_balance: vec![] }
        ),
        o => panic!("Unexpected answer: {:?}", o),
    }
    assert_eq!(
        Err(ContractError::NotFound),
        query(&store, &env, QueryMsg::Account { channel_id: "channel-2".to_string() })
    );
    match query(&store, &env, QueryMsg::ListAccounts {}).unwrap() {
        QueryResponse::ListAccounts(r) => {
            assert_eq!(1, r.accounts.len());
            assert_eq!("channel-1", r.accounts[0].channel_id);
        }
        o => panic!("Unexpected answer: {:?}", o),
    }
}

#[test]
fn other_channels_keep_their_records() {
    let mut store = setup();
    connect(&mut store, "channel-1");
    connect(&mut store, "channel-2");
    who_am_i_response(&mut store, "channel-1", "account-1");
    let later = Env { block: BlockInfo { height: 12_400, time: NOW + 60 } };
    balances_ack(&mut store, &later, "channel-1", "account-1", vec![Coin::new(9, "uatom")])
        .unwrap();
    assert_eq!(
        account(&store, "channel-2"),
        AccountResponse { last_update_time: 0, remote_addr: None, remote_balance: vec![] }
    );

    let channel = mock_ibc_channel("channel-2", IbcOrder::Ordered, IBC_VERSION);
    let _: IbcBasicResponse<Msg> = ibc_channel_close(&mut store, channel);
    connect(&mut store, "channel-3");
    assert_eq!(
        account(&store, "channel-1"),
        AccountResponse {
            last_update_time: NOW + 60,
            remote_addr: Some("account-1".to_string()),
            remote_balance: vec![Coin::new(9, "uatom")],
        }
    );
    assert_eq!(CREATOR, query_admin(&store).admin);
}

#[test]
fn known_address_is_final() {
    let mut store = setup();
    connect(&mut store, "channel-1");
    who_am_i_response(&mut store, "channel-1", "A");
    balances_ack(&mut store, &mock_env(), "channel-1", "A", vec![Coin::new(1, "uatom")]).unwrap();
    who_am_i_response(&mut store, "channel-1", "B");
    assert_eq!(
        Err(ContractError::RemoteAddressChanged),
        balances_ack(&mut store, &mock_env(), "channel-1", "B", vec![])
    );
    let res: IbcBasicResponse<Msg> = acknowledge_dispatch(
        &store,
        "channel-1".to_string(),
        AcknowledgementMsg::Failure("refused".to_string()),
    );
    assert!(res.messages.is_empty());
    assert_eq!(
        account(&store, "channel-1"),
        AccountResponse {
            last_update_time: NOW,
            remote_addr: Some("A".to_string()),
            remote_balance: vec![Coin::new(1, "uatom")],
        }
    );
}
