use member_protocol::action::{Action, Recipient};
use member_protocol::board::{
    AnswerInThreadMsg, AskInThreadMsg, ReplyInThreadMsg, StartNewThreadMsg, ThreadAnswerMsg, ThreadMsg, ThreadQuestionMsg,
    ThreadReplyMsg,
    ThreadState,
};
use member_protocol::config::{
    assert_config_fee_share_sum_to_100, assert_user_fee_share_sum_to_100, disable, enable, update_config, FeeConfig,
    FeeShareConfig, UpdateConfigMsg, UserConfig,
};
use member_protocol::grouped_user_config::{update_user_config, GroupedUserConfig};
use member_protocol::ordered_map::OrderedMap;
use member_protocol::error::{ContractError, PaymentFailure, StoredItem};
use member_protocol::payment::Coin;
use member_protocol::thread_contract::{ExecuteMsg, QueryMsg, QueryResponse, QueryThreadsByIDsMsg, QueryUserConfigMsg};
use member_protocol::fees::{
    lookup_ask_fee_percentage_of_key, lookup_ask_fee_to_thread_creator_percentage_of_key, lookup_reply_fee_percentage_of_key,
    lookup_thread_fee_share_config, query_cost_to_ask_in_thread, query_cost_to_reply_in_thread, query_cost_to_start_new_thread,
    CostToAskInThreadResponse, QueryCostToAskInThreadMsg, QueryCostToReplyInThreadMsg,
};
use member_protocol::member::{BuyMembershipMsg, MemberRegistry, MembershipIssuedByMe, User};
use member_protocol::member_admin::InstantiateMsg as MemberInstantiateMsg;
use member_protocol::msg::{DisableMsg, EnableMsg, QueryConfigMsg};
use member_protocol::ordered_map::pair_key_exec;
use member_protocol::thread_query::{
    QueryIDsOfAllThreadMsgsInThreadMsg, QueryIDsOfAllThreadsUserCreatedMsg, QueryIDsOfAllThreadsUserParticipatedMsg,
};
use member_protocol::thread_user::{
    InstantiateMsg, UpdateFeeSettingMsg, UpdateThreadFeeShareConfigMsg, UpdateUserConfigMsg,
};

fn st(x: &str) -> String {
    x.to_string()
}

fn no_user_config() -> UserConfig {
    UserConfig {
        ask_fee_percentage_of_membership: None,
        ask_fee_to_thread_creator_percentage_of_membership: None,
        reply_fee_percentage_of_membership: None,
        reply_fee_to_thread_creator_percentage_of_membership: None,
        share_to_issuer_percentage: None,
        share_to_all_members_percentage: None,
    }
}

fn thread_instantiate_msg() -> InstantiateMsg {
    InstantiateMsg {
        membership_contract_addr: st("member_contract"),
        admin_addr: Some(st("admin")),
        protocol_fee_collector_addr: Some(st("fee_collector")),
        max_thread_title_length: None,
        max_thread_description_length: None,
        max_thread_label_length: None,
        max_number_of_thread_labels: None,
        max_thread_msg_length: None,
        protocol_fee_start_new_thread_fixed_cost: None,
        protocol_fee_ask_in_thread_fee_percentage: None,
        protocol_fee_reply_in_thread_fee_percentage: None,
        default_ask_fee_percentage_of_membership: None,
        default_ask_fee_to_thread_creator_percentage_of_membership: None,
        default_reply_fee_percentage_of_membership: None,
        default_reply_fee_to_thread_creator_percentage_of_membership: None,
        default_share_to_issuer_percentage: None,
        default_share_to_all_members_percentage: None,
    }
}

/// Users 1 ("alice") and 2 ("bob") issue memberships; user 3 ("carol") does not.
fn community() -> (MemberRegistry, ThreadState) {
    let mut members = MemberRegistry::instantiate(
        &st("admin"),
        MemberInstantiateMsg {
            admin_addr: None,
            registration_admin_addr: None,
            protocol_fee_collector_addr: Some(st("fee_collector")),
            fee_denom: None,
            default_trading_fee_percentage_of_membership: None,
            protocol_fee_membership_trading_fee_percentage: None,
            default_membership_trading_fee_membership_issuer_fee_percentage: None,
            default_membership_trading_fee_membership_holder_fee_percentage: None,
        },
    )
    .unwrap();
    let mut threads = ThreadState::instantiate(&st("admin"), thread_instantiate_msg()).unwrap();
    for (id, addr, issues) in [(1u64, "alice", true), (2, "bob", true), (3, "carol", false)] {
        if issues {
            members.memberships.insert(pair_key_exec(id, id), 1);
            members.members.insert(pair_key_exec(id, id), 1);
        }
        members.users.insert(
            id as u128,
            User {
                id,
                addr: st(addr),
                social_media_handle: None,
                config: member_protocol::member::UserConfig {
                    trading_fee_percentage_of_membership: None,
                    share_to_issuer_percentage: None,
                    share_to_all_members_percentage: None,
                },
                user_member_count: 0,
                membership_issued_by_me: if issues {
                    Some(MembershipIssuedByMe { membership_supply: 1, member_count: 1 })
                } else {
                    None
                },
            },
        );
        threads.user_configs.insert(id as u128, no_user_config());
    }
    members.next_user_id = 4;
    (members, threads)
}

fn buy_one(members: &mut MemberRegistry, buyer: &str, issuer: u64) {
    members.buy_membership(&st(buyer), BuyMembershipMsg { membership_issuer_user_id: issuer, amount: 1 }, 1_000_000_000).unwrap();
}

fn new_thread(title: &str) -> StartNewThreadMsg {
    StartNewThreadMsg { title: st(title), description: st("about it"), labels: vec![st("label")] }
}

#[test]
fn thread_instantiate_uses_defaults() {
    let (_, threads) = community();
    let c = threads.query_config();
    assert_eq!(c.admin_addr, "admin");
    assert!(!c.enabled);
    assert_eq!(c.thread_config.max_thread_title_length, 100);
    assert_eq!(c.thread_config.max_thread_description_length, 500);
    assert_eq!(c.thread_config.max_thread_msg_length, 500);
    assert_eq!(c.thread_config.max_thread_label_length, 10);
    assert_eq!(c.thread_config.max_number_of_thread_labels, 5);
    assert_eq!(c.protocol_fee_config.start_new_thread_fixed_cost, 10_000);
    assert_eq!(c.default_fee_config.ask_fee_percentage_of_membership, 5);
    assert_eq!(c.default_fee_config.ask_fee_to_thread_creator_percentage_of_membership, 1);
    assert_eq!(c.default_fee_config.reply_fee_percentage_of_membership, 1);
    assert_eq!(c.default_fee_share_config, FeeShareConfig { share_to_issuer_percentage: 50, share_to_all_members_percentage: 50 });
    assert_eq!(threads.next_thread_id, 1);
    let _ = (EnableMsg {}, DisableMsg {}, QueryConfigMsg {});
}

#[test]
fn thread_instantiate_rejects_bad_shares() {
    let mut msg = thread_instantiate_msg();
    msg.default_share_to_issuer_percentage = Some(60);
    assert!(matches!(ThreadState::instantiate(&st("admin"), msg), Err(ContractError::ThreadFeeSharePercentageMustSumTo100)));
}

#[test]
fn only_admin_enables_disables_and_updates() {
    let (_, mut threads) = community();
    assert_eq!(enable(&mut threads.config, &st("bob")), Err(ContractError::OnlyAdminCanEnable));
    assert!(!threads.config.enabled);
    enable(&mut threads.config, &st("admin")).unwrap();
    assert!(threads.config.enabled);
    assert_eq!(disable(&mut threads.config, &st("bob")), Err(ContractError::OnlyAdminCanDisable));
    disable(&mut threads.config, &st("admin")).unwrap();
    assert!(!threads.config.enabled);
    let mut data = UpdateConfigMsg {
        admin_addr: None,
        protocol_fee_collector_addr: None,
        member_contract_addr: None,
        max_thread_title_length: Some(50),
        max_thread_description_length: None,
        max_thread_label_length: None,
        max_number_of_thread_labels: None,
        max_thread_msg_length: None,
        protocol_fee_start_new_thread_fixed_cost: None,
        protocol_fee_ask_in_thread_fee_percentage: None,
        protocol_fee_reply_in_thread_fee_percentage: None,
        default_ask_fee_percentage_of_membership: None,
        default_ask_fee_to_thread_creator_percentage_of_membership: None,
        default_reply_fee_percentage_of_membership: None,
        default_reply_fee_to_thread_creator_percentage_of_membership: None,
        default_share_to_issuer_percentage: None,
        default_share_to_all_members_percentage: None,
    };
    assert_eq!(
        update_config(&mut threads.config, &st("bob"), UpdateConfigMsg { admin_addr: None, ..clone_update(&data) }),
        Err(ContractError::OnlyAdminCanUpdateConfig)
    );
    update_config(&mut threads.config, &st("admin"), clone_update(&data)).unwrap();
    assert_eq!(threads.config.thread_config.max_thread_title_length, 50);
    data.default_share_to_all_members_percentage = Some(70);
    assert_eq!(
        update_config(&mut threads.config, &st("admin"), clone_update(&data)),
        Err(ContractError::ThreadFeeSharePercentageMustSumTo100)
    );
    assert_eq!(threads.config.default_fee_share_config.share_to_all_members_percentage, 50);
}

fn clone_update(d: &UpdateConfigMsg) -> UpdateConfigMsg {
    UpdateConfigMsg {
        admin_addr: d.admin_addr.clone(),
        protocol_fee_collector_addr: d.protocol_fee_collector_addr.clone(),
        member_contract_addr: d.member_contract_addr.clone(),
        max_thread_title_length: d.max_thread_title_length,
        max_thread_description_length: d.max_thread_description_length,
        max_thread_label_length: d.max_thread_label_length,
        max_number_of_thread_labels: d.max_number_of_thread_labels,
        max_thread_msg_length: d.max_thread_msg_length,
        protocol_fee_start_new_thread_fixed_cost: d.protocol_fee_start_new_thread_fixed_cost,
        protocol_fee_ask_in_thread_fee_percentage: d.protocol_fee_ask_in_thread_fee_percentage,
        protocol_fee_reply_in_thread_fee_percentage: d.protocol_fee_reply_in_thread_fee_percentage,
        default_ask_fee_percentage_of_membership: d.default_ask_fee_percentage_of_membership,
        default_ask_fee_to_thread_creator_percentage_of_membership: d.default_ask_fee_to_thread_creator_percentage_of_membership,
        default_reply_fee_percentage_of_membership: d.default_reply_fee_percentage_of_membership,
        default_reply_fee_to_thread_creator_percentage_of_membership: d.default_reply_fee_to_thread_creator_percentage_of_membership,
        default_share_to_issuer_percentage: d.default_share_to_issuer_percentage,
        default_share_to_all_members_percentage: d.default_share_to_all_members_percentage,
    }
}

#[test]
fn share_checks() {
    let (_, threads) = community();
    assert_eq!(assert_config_fee_share_sum_to_100(&threads.config), Ok(()));
    let own = UserConfig { share_to_issuer_percentage: Some(30), ..no_user_config() };
    assert_eq!(
        assert_user_fee_share_sum_to_100(&own, &threads.config),
        Err(ContractError::ThreadFeeSharePercentageMustSumTo100)
    );
    let own = UserConfig { share_to_issuer_percentage: Some(30), share_to_all_members_percentage: Some(70), ..no_user_config() };
    assert_eq!(assert_user_fee_share_sum_to_100(&own, &threads.config), Ok(()));
    assert_eq!(assert_user_fee_share_sum_to_100(&no_user_config(), &threads.config), Ok(()));
}

#[test]
fn start_new_thread_charges_the_fixed_fee() {
    let (members, mut threads) = community();
    assert_eq!(query_cost_to_start_new_thread(&threads.config).protocol_fee, 10_000);
    assert_eq!(
        threads.start_new_thread(&members, &st("carol"), new_thread("t"), 10_000),
        Err(ContractError::UserMustHaveIssuedMembershipToStartNewThread)
    );
    let long_title = "x".repeat(101);
    assert_eq!(
        threads.start_new_thread(&members, &st("alice"), new_thread(&long_title), 10_000),
        Err(ContractError::ThreadTitleTooLong { max: 100, actual: 101 })
    );
    assert_eq!(
        threads.start_new_thread(&members, &st("alice"), new_thread("t"), 9_999),
        Err(ContractError::InsufficientFundsToPayDuringAsk { needed: 10_000, available: 9_999 })
    );
    assert_eq!(threads.next_thread_id, 1);
    let actions = threads.start_new_thread(&members, &st("alice"), new_thread("first"), 10_000).unwrap();
    assert_eq!(actions, vec![Action::Transfer { to: Recipient::Address(st("fee_collector")), amount: 10_000 }]);
    assert_eq!(threads.next_thread_id, 2);
    let t = threads.query_threads_by_ids(&vec![1]);
    assert_eq!(t.len(), 1);
    assert_eq!(t[0].title, "first");
    assert_eq!(t[0].creator_user_id, 1);
    let page = threads
        .query_ids_of_all_threads_user_created(QueryIDsOfAllThreadsUserCreatedMsg { user_id: 1, start_after_thread_id: None, limit: None, include_start_after: None })
        .unwrap();
    assert_eq!(page.thread_ids, vec![1]);
    assert_eq!(page.total_count, 1);
    let page = threads
        .query_ids_of_all_threads_user_participated(QueryIDsOfAllThreadsUserParticipatedMsg { user_id: 1, start_after_thread_id: None, limit: None, include_start_after: None })
        .unwrap();
    assert_eq!(page.thread_ids, vec![1]);
    assert_eq!(
        threads
            .query_ids_of_all_threads_user_created(QueryIDsOfAllThreadsUserCreatedMsg { user_id: 2, start_after_thread_id: None, limit: None, include_start_after: None }),
        Err(ContractError::NotFound(StoredItem::UserThreadStats))
    );
}

fn question_to_alice(content: &str) -> AskInThreadMsg {
    AskInThreadMsg {
        start_new_thread: Some(true),
        thread_title: Some(st("bob asks")),
        thread_description: Some(st("questions for alice")),
        thread_labels: None,
        thread_id: None,
        ask_to_user_id: 1,
        content: st(content),
    }
}

#[test]
fn ask_in_new_thread_pays_the_user_asked_and_the_creator() {
    let (mut members, mut threads) = community();
    assert_eq!(
        threads.ask_in_thread(&members, &st("bob"), question_to_alice("hi?"), 1_000_000),
        Err(ContractError::UserMustHoldAskToUserMembershipToAsk)
    );
    buy_one(&mut members, "bob", 1);
    assert_eq!(
        threads.ask_in_thread(&members, &st("carol"), question_to_alice("hi?"), 1_000_000),
        Err(ContractError::UserMustHaveIssuedMembershipToAsk)
    );
    // One membership of alice at supply 2 costs 250; bob's own percentages apply.
    // Bob asks in his own thread, so nothing goes to the thread creator.
    let cost = query_cost_to_ask_in_thread(
        &QueryCostToAskInThreadMsg { asker_user_id: 2, ask_to_user_id: 1, thread_creator_user_id: 2, content_len: 3 },
        &threads.config,
        &no_user_config(),
        2,
    );
    assert_eq!(
        cost,
        CostToAskInThreadResponse {
            protocol_fee: 0,
            ask_to_membership_issuer_fee: 6,
            ask_to_membership_all_members_fee: 6,
            thread_creator_membership_issuer_fee: 0,
            thread_creator_membership_all_members_fee: 0,
            total_needed_from_user: 12,
        }
    );
    assert_eq!(
        threads.ask_in_thread(&members, &st("bob"), question_to_alice("hi?"), 11),
        Err(ContractError::InsufficientFundsToPayDuringAsk { needed: 12, available: 11 })
    );
    let long = "y".repeat(501);
    assert_eq!(
        threads.ask_in_thread(&members, &st("bob"), question_to_alice(&long), 1_000_000),
        Err(ContractError::ThreadMsgContentTooLong { max: 500, actual: 501 })
    );
    let actions = threads.ask_in_thread(&members, &st("bob"), question_to_alice("hi?"), 12).unwrap();
    assert_eq!(
        actions,
        vec![
            Action::Distribute { membership_issuer_user_id: 1, index_increment: 3_000_000_000_000_000_000, amount: 6 },
            Action::Transfer { to: Recipient::Address(st("alice")), amount: 6 },
            Action::Transfer { to: Recipient::Address(st("fee_collector")), amount: 0 },
        ]
    );
    assert_eq!(threads.next_thread_id, 2);
    let msgs = threads.query_thread_msgs_by_ids(&vec![(1, 1)]);
    assert_eq!(
        msgs,
        vec![ThreadMsg::ThreadQuestionMsg(ThreadQuestionMsg {
            id: 1,
            thread_id: 1,
            creator_user_id: 2,
            content: st("hi?"),
            asked_to_user_id: 1,
        })]
    );
    let page = threads.query_ids_of_all_thread_msgs_in_thread(QueryIDsOfAllThreadMsgsInThreadMsg {
        thread_id: 1,
        start_after_thread_msg_id: None,
        limit: None,
        include_start_after: None,
    });
    assert_eq!(page.thread_msg_ids, vec![1]);
    assert_eq!(page.total_count, 1);
    let page = threads
        .query_ids_of_all_threads_user_participated(QueryIDsOfAllThreadsUserParticipatedMsg { user_id: 2, start_after_thread_id: None, limit: None, include_start_after: None })
        .unwrap();
    assert_eq!(page.thread_ids, vec![1]);
}

#[test]
fn answer_in_thread_records_the_answer() {
    let (mut members, mut threads) = community();
    buy_one(&mut members, "bob", 1);
    threads.ask_in_thread(&members, &st("bob"), question_to_alice("why?"), 14).unwrap();
    assert_eq!(
        threads.answer_in_thread(&members, &st("carol"), AnswerInThreadMsg { thread_id: 1, question_id: 1, content: st("a") }),
        Err(ContractError::UserMustHaveIssuedMembershipToAnswer)
    );
    assert_eq!(
        threads.answer_in_thread(&members, &st("bob"), AnswerInThreadMsg { thread_id: 1, question_id: 1, content: st("a") }),
        Err(ContractError::CannotAnswerOthersQuestion)
    );
    assert_eq!(
        threads.answer_in_thread(&members, &st("alice"), AnswerInThreadMsg { thread_id: 1, question_id: 7, content: st("a") }),
        Err(ContractError::NotFound(StoredItem::ThreadMsg))
    );
    let long = "z".repeat(501);
    assert_eq!(
        threads.answer_in_thread(&members, &st("alice"), AnswerInThreadMsg { thread_id: 1, question_id: 1, content: long }),
        Err(ContractError::ThreadMsgContentTooLong { max: 500, actual: 501 })
    );
    assert_eq!(
        threads.answer_in_thread(&members, &st("alice"), AnswerInThreadMsg { thread_id: 1, question_id: 1, content: st("because") }),
        Ok(vec![])
    );
    // A question can be answered again; each answer gets the next message id.
    threads.answer_in_thread(&members, &st("alice"), AnswerInThreadMsg { thread_id: 1, question_id: 1, content: st("also") }).unwrap();
    assert_eq!(
        threads.query_thread_msgs_by_ids(&vec![(1, 2), (1, 3)]),
        vec![
            ThreadMsg::ThreadAnswerMsg(ThreadAnswerMsg {
                id: 2,
                thread_id: 1,
                creator_user_id: 1,
                content: st("because"),
                answered_to_question_msg_id: 1,
            }),
            ThreadMsg::ThreadAnswerMsg(ThreadAnswerMsg {
                id: 3,
                thread_id: 1,
                creator_user_id: 1,
                content: st("also"),
                answered_to_question_msg_id: 1,
            }),
        ]
    );
    let page = threads.query_ids_of_all_thread_msgs_in_thread(QueryIDsOfAllThreadMsgsInThreadMsg {
        thread_id: 1,
        start_after_thread_msg_id: Some(2),
        limit: None,
        include_start_after: Some(true),
    });
    assert_eq!(page.thread_msg_ids, vec![2, 3]);
    assert_eq!(page.total_count, 3);
}

#[test]
fn reply_in_thread_records_the_reply() {
    let (mut members, mut threads) = community();
    buy_one(&mut members, "bob", 1);
    threads.ask_in_thread(&members, &st("bob"), question_to_alice("why?"), 14).unwrap();
    let reply = ReplyInThreadMsg { thread_id: 1, reply_to_thread_msg_id: None, content: st("thanks") };
    assert_eq!(
        threads.reply_in_thread(&members, &st("alice"), ReplyInThreadMsg { thread_id: 1, reply_to_thread_msg_id: None, content: st("thanks") }, 1_000),
        Err(ContractError::UserMustHoldThreadCreatorMembershipToReply)
    );
    assert_eq!(
        threads.reply_in_thread(&members, &st("alice"), ReplyInThreadMsg { thread_id: 9, reply_to_thread_msg_id: None, content: st("x") }, 1_000),
        Err(ContractError::NotFound(StoredItem::Thread))
    );
    buy_one(&mut members, "alice", 2);
    let cost = query_cost_to_reply_in_thread(
        &QueryCostToReplyInThreadMsg { replier_user_id: 1, reply_to_user_id: 2, thread_creator_user_id: 2, content_len: 6 },
        &threads.config,
        &no_user_config(),
        2,
    );
    // 1% of 250 is 2: one to bob, one to his members; the same again for bob as
    // the thread creator, since alice is not the creator.
    assert_eq!(cost.total_needed_from_user, 4);
    assert_eq!(cost.thread_creator_membership_issuer_fee, 1);
    let paid_out = vec![
        Action::Distribute { membership_issuer_user_id: 2, index_increment: 500_000_000_000_000_000, amount: 1 },
        Action::Transfer { to: Recipient::Address(st("bob")), amount: 1 },
        Action::Transfer { to: Recipient::Address(st("fee_collector")), amount: 0 },
        Action::Distribute { membership_issuer_user_id: 2, index_increment: 500_000_000_000_000_000, amount: 1 },
        Action::Transfer { to: Recipient::Address(st("bob")), amount: 1 },
    ];
    assert_eq!(
        threads.reply_in_thread(&members, &st("alice"), ReplyInThreadMsg { thread_id: 1, reply_to_thread_msg_id: None, content: st("thanks") }, 3),
        Err(ContractError::InsufficientFundsToPayDuringAsk { needed: 4, available: 3 })
    );
    let actions = threads.reply_in_thread(&members, &st("alice"), reply, cost.total_needed_from_user).unwrap();
    assert_eq!(actions, paid_out);
    let msgs = threads.query_thread_msgs_by_ids(&vec![(1, 2)]);
    assert_eq!(
        msgs,
        vec![ThreadMsg::ThreadReplyMsg(ThreadReplyMsg {
            id: 2,
            thread_id: 1,
            creator_user_id: 1,
            content: st("thanks"),
            reply_to_thread_msg_id: None,
        })]
    );
    let to_question = ReplyInThreadMsg { thread_id: 1, reply_to_thread_msg_id: Some(1), content: st("more") };
    let actions = threads.reply_in_thread(&members, &st("alice"), to_question, 4).unwrap();
    assert_eq!(actions, paid_out);
}

#[test]
fn fee_settings_of_the_issuer() {
    let (members, mut threads) = community();
    assert_eq!(
        threads.update_ask_fee_percentage_of_membership(&members, &st("bob"), UpdateFeeSettingMsg { membership_issuer_addr: st("alice"), percentage: 9 }),
        Err(ContractError::OnlyMembershipIssuerCanUpdateItsAskFeePercentageOfMembership)
    );
    assert_eq!(
        threads.update_reply_fee_percentage_of_membership(&members, &st("bob"), UpdateFeeSettingMsg { membership_issuer_addr: st("nobody"), percentage: 9 }),
        Err(ContractError::NotFound(StoredItem::User))
    );
    threads
        .update_ask_fee_percentage_of_membership(&members, &st("alice"), UpdateFeeSettingMsg { membership_issuer_addr: st("alice"), percentage: 9 })
        .unwrap();
    threads
        .update_ask_fee_to_thread_creator_percentage_of_membership(
            &members,
            &st("alice"),
            UpdateFeeSettingMsg { membership_issuer_addr: st("alice"), percentage: 3 },
        )
        .unwrap();
    threads
        .update_reply_fee_percentage_of_membership(&members, &st("alice"), UpdateFeeSettingMsg { membership_issuer_addr: st("alice"), percentage: 4 })
        .unwrap();
    threads
        .update_thread_fee_share_config(
            &members,
            &st("alice"),
            UpdateThreadFeeShareConfigMsg {
                membership_issuer_addr: st("alice"),
                thread_fee_share_config: FeeShareConfig { share_to_issuer_percentage: 90, share_to_all_members_percentage: 10 },
            },
        )
        .unwrap();
    let uc = threads.query_user_config(1).unwrap();
    assert_eq!(lookup_ask_fee_percentage_of_key(&uc, &threads.config), 9);
    assert_eq!(lookup_ask_fee_to_thread_creator_percentage_of_key(&uc, &threads.config), 3);
    assert_eq!(lookup_reply_fee_percentage_of_key(&uc, &threads.config), 4);
    assert_eq!(
        lookup_thread_fee_share_config(&uc, &threads.config),
        FeeShareConfig { share_to_issuer_percentage: 90, share_to_all_members_percentage: 10 }
    );
    let bob = threads.query_user_config(2).unwrap();
    assert_eq!(lookup_ask_fee_percentage_of_key(&bob, &threads.config), 5);
    assert_eq!(threads.query_user_config(9), Err(ContractError::NotFound(StoredItem::UserConfig)));
}

#[test]
fn update_user_config_checks_owner_and_shares() {
    let (members, mut threads) = community();
    let data = |share: Option<u64>| UpdateUserConfigMsg {
        user_id: 1,
        ask_fee_percentage_of_membership: Some(7),
        ask_fee_to_thread_creator_percentage_of_membership: None,
        reply_fee_percentage_of_membership: None,
        reply_fee_to_thread_creator_percentage_of_membership: None,
        share_to_issuer_percentage: share,
        share_to_all_members_percentage: None,
    };
    assert_eq!(threads.update_user_config(&members, &st("bob"), data(None)), Err(ContractError::OnlyUserCanUpdateItsOwnConfig));
    assert_eq!(
        threads.update_user_config(&members, &st("alice"), data(Some(20))),
        Err(ContractError::ThreadFeeSharePercentageMustSumTo100)
    );
    threads.update_user_config(&members, &st("alice"), data(None)).unwrap();
    assert_eq!(threads.query_user_config(1).unwrap().ask_fee_percentage_of_membership, Some(7));
}

#[test]
fn execute_checks_payment_before_handling() {
    let (members, mut threads) = community();
    let uluna = |amount: u128| vec![Coin { denom: st("uluna"), amount }];
    assert_eq!(
        threads.execute(&members, &st("admin"), &uluna(1), ExecuteMsg::Enable(EnableMsg {})),
        Err(ContractError::Payment(PaymentFailure::NonPayable))
    );
    assert!(!threads.config.enabled);
    assert_eq!(
        threads.execute(&members, &st("bob"), &vec![], ExecuteMsg::Enable(EnableMsg {})),
        Err(ContractError::OnlyAdminCanEnable)
    );
    assert_eq!(threads.execute(&members, &st("admin"), &vec![], ExecuteMsg::Enable(EnableMsg {})), Ok(vec![]));
    assert!(threads.config.enabled);
    assert_eq!(threads.execute(&members, &st("admin"), &vec![], ExecuteMsg::Disable(DisableMsg {})), Ok(vec![]));
    assert!(!threads.config.enabled);
    assert_eq!(
        threads.execute(&members, &st("alice"), &vec![], ExecuteMsg::StartNewThread(new_thread("t"))),
        Err(ContractError::Payment(PaymentFailure::NoFunds))
    );
    assert_eq!(
        threads.execute(&members, &st("alice"), &vec![Coin { denom: st("uatom"), amount: 10_000 }], ExecuteMsg::StartNewThread(new_thread("t"))),
        Err(ContractError::Payment(PaymentFailure::MissingDenom(st("uluna"))))
    );
    assert_eq!(threads.next_thread_id, 1);
    assert_eq!(
        threads.execute(&members, &st("alice"), &uluna(10_000), ExecuteMsg::StartNewThread(new_thread("t"))),
        Ok(vec![Action::Transfer { to: Recipient::Address(st("fee_collector")), amount: 10_000 }])
    );
    assert_eq!(threads.next_thread_id, 2);
    assert_eq!(
        threads.execute(
            &members,
            &st("alice"),
            &uluna(5),
            ExecuteMsg::AnswerInThread(AnswerInThreadMsg { thread_id: 1, question_id: 1, content: st("a") }),
        ),
        Err(ContractError::Payment(PaymentFailure::NonPayable))
    );
    assert_eq!(
        threads.execute(
            &members,
            &st("alice"),
            &vec![],
            ExecuteMsg::UpdateAskFeePercentageOfMembership(UpdateFeeSettingMsg { membership_issuer_addr: st("alice"), percentage: 8 }),
        ),
        Ok(vec![])
    );
    assert_eq!(threads.query_user_config(1).unwrap().ask_fee_percentage_of_membership, Some(8));
}

#[test]
fn query_answers_each_kind() {
    let (members, mut threads) = community();
    threads.start_new_thread(&members, &st("alice"), new_thread("first"), 10_000).unwrap();
    match threads.query(&members, QueryMsg::QueryConfig(QueryConfigMsg {})) {
        Ok(QueryResponse::Config(c)) => assert_eq!(c.config.admin_addr, "admin"),
        other => panic!("unexpected answer {:?}", other),
    }
    assert_eq!(
        threads.query(&members, QueryMsg::QueryUserConfig(QueryUserConfigMsg { user_id: 9 })),
        Err(ContractError::NotFound(StoredItem::UserConfig))
    );
    match threads.query(&members, QueryMsg::QueryThreadsByIDs(QueryThreadsByIDsMsg { thread_ids: vec![1] })) {
        Ok(QueryResponse::Threads(t)) => assert_eq!(t.threads[0].title, "first"),
        other => panic!("unexpected answer {:?}", other),
    }
    match threads.query(
        &members,
        QueryMsg::QueryCostToAskInThread(QueryCostToAskInThreadMsg {
            asker_user_id: 2,
            ask_to_user_id: 1,
            thread_creator_user_id: 1,
            content_len: 3,
        }),
    ) {
        // One membership of alice at supply 1 costs 62: 5% is 3, shared 1 / 1.
        Ok(QueryResponse::CostToAskInThread(c)) => assert_eq!(c.total_needed_from_user, 2),
        other => panic!("unexpected answer {:?}", other),
    }
}

#[test]
fn ids_are_never_handed_out_twice() {
    let (mut members, mut threads) = community();
    buy_one(&mut members, "bob", 1);
    buy_one(&mut members, "alice", 2);
    threads.ask_in_thread(&members, &st("bob"), question_to_alice("one?"), 1_000).unwrap();
    threads.start_new_thread(&members, &st("alice"), new_thread("two"), 10_000).unwrap();
    threads.start_new_thread(&members, &st("alice"), new_thread("three"), 10_000).unwrap();
    assert_eq!(threads.next_thread_id, 4);
    let ids: Vec<u64> = threads.query_threads_by_ids(&vec![1, 2, 3]).iter().map(|t| t.id).collect();
    assert_eq!(ids, vec![1, 2, 3]);
    for content in ["a", "b"] {
        let reply = ReplyInThreadMsg { thread_id: 1, reply_to_thread_msg_id: None, content: st(content) };
        threads.reply_in_thread(&members, &st("alice"), reply, 1_000).unwrap();
    }
    let page = threads.query_ids_of_all_thread_msgs_in_thread(QueryIDsOfAllThreadMsgsInThreadMsg {
        thread_id: 1,
        start_after_thread_msg_id: None,
        limit: None,
        include_start_after: None,
    });
    assert_eq!(page.thread_msg_ids, vec![1, 2, 3]);
    // A thread started on its own has no message counter yet, so nothing can be posted in it.
    let ask_in_second = AskInThreadMsg {
        start_new_thread: Some(false),
        thread_title: None,
        thread_description: None,
        thread_labels: None,
        thread_id: Some(2),
        ask_to_user_id: 1,
        content: st("q"),
    };
    assert_eq!(
        threads.ask_in_thread(&members, &st("bob"), ask_in_second, 1_000),
        Err(ContractError::NotFound(StoredItem::NextThreadMsgId))
    );
}

#[test]
fn each_limit_and_fee_follows_its_own_setting() {
    let mut msg = thread_instantiate_msg();
    msg.max_thread_label_length = Some(7);
    msg.max_thread_msg_length = Some(300);
    let t = ThreadState::instantiate(&st("admin"), msg).unwrap();
    assert_eq!(t.config.thread_config.max_thread_label_length, 7);
    assert_eq!(t.config.thread_config.max_thread_msg_length, 300);

    let (mut members, mut threads) = community();
    threads.config.thread_config.max_thread_description_length = 50;
    let mut long_description = new_thread("t");
    long_description.description = "d".repeat(51);
    assert_eq!(
        threads.start_new_thread(&members, &st("alice"), long_description, 10_000),
        Err(ContractError::ThreadDescriptionTooLong { max: 50, actual: 51 })
    );
    // Message content is bounded by the message limit only, not by the title limit.
    buy_one(&mut members, "bob", 1);
    buy_one(&mut members, "alice", 2);
    threads.ask_in_thread(&members, &st("bob"), question_to_alice("q"), 1_000).unwrap();
    let reply = ReplyInThreadMsg { thread_id: 1, reply_to_thread_msg_id: None, content: "r".repeat(150) };
    assert!(threads.reply_in_thread(&members, &st("alice"), reply, 1_000).is_ok());

    // The protocol takes its reply percentage of a reply fee, its ask percentage of an ask fee.
    threads.config.protocol_fee_config.ask_in_thread_fee_percentage = 0;
    threads.config.protocol_fee_config.reply_in_thread_fee_percentage = 50;
    let reply_cost = query_cost_to_reply_in_thread(
        &QueryCostToReplyInThreadMsg { replier_user_id: 1, reply_to_user_id: 2, thread_creator_user_id: 1, content_len: 1 },
        &threads.config,
        &no_user_config(),
        2,
    );
    assert_eq!(reply_cost.protocol_fee, 1);
    // The replier created the thread: nothing goes to the thread creator.
    assert_eq!(reply_cost.thread_creator_membership_issuer_fee, 0);
    assert_eq!(reply_cost.thread_creator_membership_all_members_fee, 0);
    assert_eq!(reply_cost.total_needed_from_user, 3);
}

#[test]
fn thread_statistics_count_threads_created_and_joined() {
    let (mut members, mut threads) = community();
    buy_one(&mut members, "bob", 1);
    buy_one(&mut members, "alice", 2);
    threads.ask_in_thread(&members, &st("bob"), question_to_alice("q"), 1_000).unwrap();
    let created = |t: &ThreadState, user: u64| {
        t.query_ids_of_all_threads_user_created(QueryIDsOfAllThreadsUserCreatedMsg { user_id: user, start_after_thread_id: None, limit: None, include_start_after: None })
            .unwrap()
            .total_count
    };
    let joined = |t: &ThreadState, user: u64| {
        t.query_ids_of_all_threads_user_participated(QueryIDsOfAllThreadsUserParticipatedMsg { user_id: user, start_after_thread_id: None, limit: None, include_start_after: None })
            .unwrap()
            .total_count
    };
    assert_eq!((created(&threads, 2), joined(&threads, 2)), (1, 1));
    assert_eq!((created(&threads, 1), joined(&threads, 1)), (0, 1));
    // Alice already takes part in the thread: replying and answering add nothing.
    let reply = ReplyInThreadMsg { thread_id: 1, reply_to_thread_msg_id: None, content: st("r") };
    threads.reply_in_thread(&members, &st("alice"), reply, 1_000).unwrap();
    threads.answer_in_thread(&members, &st("alice"), AnswerInThreadMsg { thread_id: 1, question_id: 1, content: st("a") }).unwrap();
    assert_eq!((created(&threads, 1), joined(&threads, 1)), (0, 1));
    assert_eq!((created(&threads, 2), joined(&threads, 2)), (1, 1));
}

#[test]
fn grouped_fee_settings_change_group_by_group() {
    let (members, _) = community();
    let mut configs: OrderedMap<GroupedUserConfig> = OrderedMap::new();
    configs.insert(1, GroupedUserConfig { fee_config: None, fee_share_config: None });
    let update = |ask: Option<u64>, issuer: Option<u64>, all: Option<u64>| UpdateUserConfigMsg {
        user_id: 1,
        ask_fee_percentage_of_membership: ask,
        ask_fee_to_thread_creator_percentage_of_membership: Some(2),
        reply_fee_percentage_of_membership: Some(3),
        reply_fee_to_thread_creator_percentage_of_membership: Some(4),
        share_to_issuer_percentage: issuer,
        share_to_all_members_percentage: all,
    };
    assert_eq!(
        update_user_config(&mut configs, &members, &st("bob"), update(Some(1), None, None)),
        Err(ContractError::OnlyUserCanUpdateItsOwnConfig)
    );
    let mut for_bob = update(Some(1), None, None);
    for_bob.user_id = 2;
    assert_eq!(update_user_config(&mut configs, &members, &st("bob"), for_bob), Err(ContractError::UserNotExist));
    update_user_config(&mut configs, &members, &st("alice"), update(Some(1), Some(60), Some(40))).unwrap();
    let fees = FeeConfig {
        ask_fee_percentage_of_membership: 1,
        ask_fee_to_thread_creator_percentage_of_membership: 2,
        reply_fee_percentage_of_membership: 3,
        reply_fee_to_thread_creator_percentage_of_membership: 4,
    };
    let shares = FeeShareConfig { share_to_issuer_percentage: 60, share_to_all_members_percentage: 40 };
    assert_eq!(*configs.get(1).unwrap(), GroupedUserConfig { fee_config: Some(fees), fee_share_config: Some(shares) });
    assert_eq!(
        update_user_config(&mut configs, &members, &st("alice"), update(Some(9), Some(60), Some(50))),
        Err(ContractError::ThreadFeeSharePercentageMustSumTo100)
    );
    assert_eq!(*configs.get(1).unwrap(), GroupedUserConfig { fee_config: Some(fees), fee_share_config: Some(shares) });
    update_user_config(&mut configs, &members, &st("alice"), update(Some(9), None, None)).unwrap();
    assert_eq!(
        *configs.get(1).unwrap(),
        GroupedUserConfig { fee_config: Some(FeeConfig { ask_fee_percentage_of_membership: 9, ..fees }), fee_share_config: Some(shares) }
    );
}

#[test]
fn holders_ask_in_existing_threads_and_without_statistics() {
    let (mut members, mut threads) = community();
    buy_one(&mut members, "bob", 1);
    buy_one(&mut members, "alice", 2);
    // Alice has statistics, bob has none yet: bob can still ask her.
    threads.start_new_thread(&members, &st("alice"), new_thread("alice's"), 10_000).unwrap();
    threads.ask_in_thread(&members, &st("bob"), question_to_alice("first?"), 1_000).unwrap();
    // Bob asks again in the thread he takes part in.
    let again = AskInThreadMsg {
        start_new_thread: Some(false),
        thread_title: None,
        thread_description: None,
        thread_labels: None,
        thread_id: Some(2),
        ask_to_user_id: 1,
        content: st("second?"),
    };
    threads.ask_in_thread(&members, &st("bob"), again, 1_000).unwrap();
    let page = threads.query_ids_of_all_thread_msgs_in_thread(QueryIDsOfAllThreadMsgsInThreadMsg {
        thread_id: 2,
        start_after_thread_msg_id: None,
        limit: None,
        include_start_after: None,
    });
    assert_eq!(page.thread_msg_ids, vec![1, 2]);
    let participated = |t: &ThreadState, user: u64| {
        t.query_ids_of_all_threads_user_participated(QueryIDsOfAllThreadsUserParticipatedMsg { user_id: user, start_after_thread_id: None, limit: None, include_start_after: None })
            .unwrap()
    };
    // Bob created and takes part in thread 2 only; alice in threads 1 and 2.
    assert_eq!(participated(&threads, 2).thread_ids, vec![2]);
    assert_eq!(participated(&threads, 2).total_count, 1);
    assert_eq!(participated(&threads, 1).thread_ids, vec![1, 2]);
    assert_eq!(participated(&threads, 1).total_count, 2);
    // A page starting after thread 1 of alice lists only her threads.
    let later = threads
        .query_ids_of_all_threads_user_participated(QueryIDsOfAllThreadsUserParticipatedMsg { user_id: 1, start_after_thread_id: Some(2), limit: None, include_start_after: None })
        .unwrap();
    assert_eq!(later.thread_ids, Vec::<u64>::new());
}
