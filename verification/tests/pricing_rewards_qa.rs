use member_protocol::action::{Action, Recipient};
use member_protocol::distribution::{
    ClaimRewardsMsg, Config as DistributionConfig, Distribution, DistributionState, QueryUserRewardMsg,
    UpdateUserPendingRewardMsg, UserRewardResponse,
};
use member_protocol::error::{ContractError, PaymentFailure, StoredItem};
use member_protocol::math::{calculate_price, multiply_percentage};
use member_protocol::member::{MemberRegistry, MembershipIssuedByMe, User, UserConfig};
use member_protocol::member_admin::InstantiateMsg;
use member_protocol::ordered_map::{pair_key_exec, pair_parts, OrderedMap};
use member_protocol::payment::{must_pay, nonpayable, Coin};
use member_protocol::qa::{
    AnswerMsg, AskMsg, QaBoard, QaConfig, QaFeeConfig, QaThreadMsg, Question, QuerySimulateAskMsg, SimulateAskResponse,
};

const ONE: u128 = 1_000_000_000_000_000_000;

fn text(x: &str) -> String {
    x.to_string()
}

fn coin(denom: &str, amount: u128) -> Coin {
    Coin { denom: text(denom), amount }
}

#[test]
fn price_follows_the_curve() {
    // Memberships 1..=30 cost the sum of their squares over 16_000 LUNA.
    assert_eq!(calculate_price(1, 30), 590_937);
    assert_eq!(calculate_price(31, 20), 2_091_875);
    assert_eq!(calculate_price(1, 1), 62);
    assert_eq!(calculate_price(2, 1), 250);
    assert_eq!(calculate_price(5, 0), 0);
    // Buying in two steps costs what buying at once costs, up to rounding.
    assert_eq!(calculate_price(1, 50), 2_682_812);
    assert!(calculate_price(1, 30) + calculate_price(31, 20) <= calculate_price(1, 50));
    assert!(calculate_price(1, 30) + calculate_price(31, 20) + 1 >= calculate_price(1, 50));
}

#[test]
fn percentages_round_down() {
    assert_eq!(multiply_percentage(590_937, 5), 29_546);
    assert_eq!(multiply_percentage(99, 50), 49);
    assert_eq!(multiply_percentage(0, 100), 0);
}

#[test]
fn must_pay_accepts_exactly_one_coin_of_the_denom() {
    let sender = text("payer");
    let denom = text("uluna");
    assert_eq!(must_pay(&sender, &vec![coin("uluna", 42)], &denom), Ok(42));
    assert_eq!(must_pay(&sender, &vec![], &denom), Err(PaymentFailure::NoFunds));
    assert_eq!(must_pay(&sender, &vec![coin("uluna", 0)], &denom), Err(PaymentFailure::NoFunds));
    assert_eq!(
        must_pay(&sender, &vec![coin("uluna", 1), coin("uatom", 1)], &denom),
        Err(PaymentFailure::MultipleDenoms)
    );
    assert_eq!(must_pay(&sender, &vec![coin("uatom", 5)], &denom), Err(PaymentFailure::MissingDenom(text("uluna"))));
}

#[test]
fn nonpayable_refuses_any_coin() {
    let sender = text("payer");
    assert_eq!(nonpayable(&sender, &vec![]), Ok(()));
    assert_eq!(nonpayable(&sender, &vec![coin("uluna", 1)]), Err(PaymentFailure::NonPayable));
}

#[test]
fn ordered_map_keeps_keys_in_order() {
    let mut m: OrderedMap<u128> = OrderedMap::new();
    m.insert(pair_key_exec(2, 1), 21);
    m.insert(pair_key_exec(1, 9), 19);
    m.insert(pair_key_exec(1, 2), 12);
    assert_eq!(m.len(), 3);
    assert_eq!(m.entry_at(0).1, 12);
    assert_eq!(m.entry_at(2).1, 21);
    assert_eq!(m.get(pair_key_exec(1, 9)), Some(&19));
    m.insert(pair_key_exec(1, 9), 90);
    assert_eq!(m.get(pair_key_exec(1, 9)), Some(&90));
    assert_eq!(m.count_window(pair_key_exec(1, 0), false, pair_key_exec(1, u64::MAX)), 2);
    assert_eq!(m.window_keys(pair_key_exec(1, 2), true, u128::MAX, 10), vec![pair_key_exec(1, 9), pair_key_exec(2, 1)]);
    assert_eq!(m.window(0, false, u128::MAX, 1), vec![(pair_key_exec(1, 2), 12)]);
    m.remove(pair_key_exec(1, 2));
    assert!(!m.contains(pair_key_exec(1, 2)));
    assert_eq!(m.len(), 2);
    assert_eq!(pair_parts(pair_key_exec(7, 8)), (7, 8));
}

fn registry_with_holder(amount: u128) -> MemberRegistry {
    let mut reg = MemberRegistry::instantiate(
        &text("admin"),
        InstantiateMsg {
            admin_addr: None,
            registration_admin_addr: None,
            protocol_fee_collector_addr: None,
            fee_denom: None,
            default_trading_fee_percentage_of_membership: None,
            protocol_fee_membership_trading_fee_percentage: None,
            default_membership_trading_fee_membership_issuer_fee_percentage: None,
            default_membership_trading_fee_membership_holder_fee_percentage: None,
        },
    )
    .unwrap();
    for (id, addr) in [(1u64, "issuer"), (2, "holder")] {
        reg.users.insert(
            id as u128,
            User {
                id,
                addr: text(addr),
                social_media_handle: None,
                config: UserConfig {
                    trading_fee_percentage_of_membership: None,
                    share_to_issuer_percentage: None,
                    share_to_all_members_percentage: None,
                },
                user_member_count: 0,
                membership_issued_by_me: if id == 1 {
                    Some(MembershipIssuedByMe { membership_supply: 1 + amount, member_count: 2 })
                } else {
                    None
                },
            },
        );
    }
    reg.memberships.insert(pair_key_exec(2, 1), amount);
    reg.members.insert(pair_key_exec(1, 2), amount);
    reg.next_user_id = 3;
    reg
}

fn distribution_state(user_index: u128, pending: u128, global: u128) -> DistributionState {
    let mut s = DistributionState {
        config: DistributionConfig { admin_addr: text("admin"), membership_contract_addr: text("member_contract"), enabled: true },
        distributions: OrderedMap::new(),
        global_indices: OrderedMap::new(),
    };
    s.distributions.insert(
        pair_key_exec(1, 2),
        Distribution { membership_issuer_user_id: 1, user_id: 2, user_index, pending_rewards: pending },
    );
    s.global_indices.insert(1, global);
    s
}

#[test]
fn update_user_pending_reward_accrues_holding_times_index_growth() {
    let mut s = distribution_state(ONE, 7, 3 * ONE + ONE / 2);
    let data = UpdateUserPendingRewardMsg { membership_issuer_user_id: 1, user_id: 2, user_previous_amount: 10 };
    assert_eq!(
        s.update_user_pending_reward(&text("someone"), data),
        Err(ContractError::OnlyMembershipContractCanUpdateUserPendingReward)
    );
    s.update_user_pending_reward(&text("member_contract"), data).unwrap();
    // 10 * 2.5 + 7
    assert_eq!(
        s.distributions.get(pair_key_exec(1, 2)),
        Some(&Distribution { membership_issuer_user_id: 1, user_id: 2, user_index: 3 * ONE + ONE / 2, pending_rewards: 32 })
    );
    // A second update with no distribution in between adds nothing.
    s.update_user_pending_reward(&text("member_contract"), data).unwrap();
    assert_eq!(s.distributions.get(pair_key_exec(1, 2)).unwrap().pending_rewards, 32);
    let missing = UpdateUserPendingRewardMsg { membership_issuer_user_id: 1, user_id: 5, user_previous_amount: 1 };
    assert_eq!(
        s.update_user_pending_reward(&text("member_contract"), missing),
        Err(ContractError::NotFound(StoredItem::Distribution))
    );
    s.distributions.insert(pair_key_exec(4, 2), Distribution { membership_issuer_user_id: 4, user_id: 2, user_index: 0, pending_rewards: 0 });
    let no_index = UpdateUserPendingRewardMsg { membership_issuer_user_id: 4, user_id: 2, user_previous_amount: 1 };
    assert_eq!(
        s.update_user_pending_reward(&text("member_contract"), no_index),
        Err(ContractError::NotFound(StoredItem::GlobalIndex))
    );
}

#[test]
fn claim_reward_pays_and_resets() {
    let members = registry_with_holder(4);
    let mut s = distribution_state(0, 3, ONE / 4);
    let q = QueryUserRewardMsg { membership_issuer_user_id: 1, user_id: 2 };
    // 4 * 0.25 + 3
    assert_eq!(s.query_user_reward(&members, q), Ok(UserRewardResponse { amount: 4 }));
    let action = s.claim_reward(&members, ClaimRewardsMsg { membership_issuer_user_id: 1, user_id: 2 }).unwrap();
    assert_eq!(action, Action::Transfer { to: Recipient::Address(text("holder")), amount: 4 });
    assert_eq!(
        s.distributions.get(pair_key_exec(1, 2)),
        Some(&Distribution { membership_issuer_user_id: 1, user_id: 2, user_index: ONE / 4, pending_rewards: 0 })
    );
    assert_eq!(s.query_user_reward(&members, q), Ok(UserRewardResponse { amount: 0 }));
    assert_eq!(
        s.claim_reward(&members, ClaimRewardsMsg { membership_issuer_user_id: 9, user_id: 2 }),
        Err(ContractError::NotFound(StoredItem::GlobalIndex))
    );
    s.global_indices.insert(9, ONE);
    assert_eq!(
        s.claim_reward(&members, ClaimRewardsMsg { membership_issuer_user_id: 9, user_id: 2 }),
        Err(ContractError::NotFound(StoredItem::Distribution))
    );
}

fn qa_board() -> (MemberRegistry, QaBoard) {
    let members = registry_with_holder(1);
    let mut board = QaBoard {
        config: QaConfig { max_qa_thread_title_length: 10, max_qa_thread_msg_length: 100, protocol_fee_collector_addr: text("fee_collector") },
        qa_fee_configs: OrderedMap::new(),
        next_qa_thread_id: 1,
        next_qa_thread_msg_id: OrderedMap::new(),
        qa_threads: OrderedMap::new(),
        qa_threads_msgs: OrderedMap::new(),
        users_belong_to: OrderedMap::new(),
    };
    board.qa_fee_configs.insert(
        1,
        QaFeeConfig { ask_fee_in_key_price_percentage: 100, key_issuer_fee_percentage: 10, key_holder_fee_percentage: 5, protocol_fee_percentage: 2 },
    );
    (members, board)
}

fn question(content: &str, new: bool) -> AskMsg {
    AskMsg {
        start_new_qa_thread: Some(new),
        qa_thread_title: if new { Some(text("title")) } else { None },
        qa_thread_description: if new { Some(text("about")) } else { None },
        qa_thread_id: if new { None } else { Some(1) },
        ask_to_addr: text("issuer"),
        content: text(content),
    }
}

#[test]
fn simulate_ask_prices_by_length() {
    let (members, board) = qa_board();
    // One key at supply 2 costs 250; 100 characters are two units of 50.
    let r = board.query_simulate_ask(&members, &QuerySimulateAskMsg { ask_to_addr: text("issuer"), content_len: 100 }).unwrap();
    assert_eq!(r, SimulateAskResponse { protocol_fee: 10, key_issuer_fee: 50, key_holder_fee: 25, total_needed_from_user: 585 });
    assert_eq!(
        board.query_simulate_ask(&members, &QuerySimulateAskMsg { ask_to_addr: text("nobody"), content_len: 1 }),
        Err(ContractError::NotFound(StoredItem::User))
    );
}

#[test]
fn ask_and_answer_in_a_qa_thread() {
    let (members, mut board) = qa_board();
    let content = "q".repeat(100);
    assert_eq!(
        board.ask(&members, &text("issuer"), question(&content, true), 1_000),
        Err(ContractError::UserMustHoldKeyToAsk)
    );
    assert_eq!(
        board.ask(&members, &text("holder"), question(&content, true), 584),
        Err(ContractError::InsufficientFundsToPayDuringAsk { needed: 585, available: 584 })
    );
    let mut long_title = question(&content, true);
    long_title.qa_thread_title = Some(text("a much too long title"));
    assert_eq!(
        board.ask(&members, &text("holder"), long_title, 1_000),
        Err(ContractError::QaThreadTitleTooLong { max: 10, actual: 21 })
    );
    assert_eq!(
        board.ask(&members, &text("holder"), question(&"q".repeat(101), true), 1_000),
        Err(ContractError::QaThreadMsgContentTooLong { max: 100, actual: 101 })
    );
    let actions = board.ask(&members, &text("holder"), question(&content, true), 585).unwrap();
    assert_eq!(
        actions,
        vec![
            Action::Transfer { to: Recipient::Address(text("issuer")), amount: 50 },
            Action::Transfer { to: Recipient::Address(text("fee_collector")), amount: 10 },
        ]
    );
    assert_eq!(board.next_qa_thread_id, 2);
    assert_eq!(board.next_qa_thread_msg_id.get(1), Some(&2));
    assert_eq!(
        board.qa_threads_msgs.get(pair_key_exec(1, 1)),
        Some(&QaThreadMsg::Question(Question { id: 1, qa_thread_id: 1, ask_by_addr: text("holder"), content: content.clone() }))
    );
    assert_eq!(board.users_belong_to.get(pair_key_exec(2, 1)), Some(&1));
    assert_eq!(board.users_belong_to.get(pair_key_exec(1, 1)), Some(&1));
    // A follow-up in the same thread takes the next message id.
    board.ask(&members, &text("holder"), question("again?", false), 1_000).unwrap();
    assert_eq!(board.next_qa_thread_msg_id.get(1), Some(&3));
    assert_eq!(
        board.answer(&text("holder"), AnswerMsg { qa_thread_id: 1, question_id: 1, content: text("a") }),
        Err(ContractError::OnlyKeyIssuerCanAnswer)
    );
    assert_eq!(
        board.answer(&text("issuer"), AnswerMsg { qa_thread_id: 5, question_id: 1, content: text("a") }),
        Err(ContractError::NotFound(StoredItem::QaThread))
    );
    // The answer takes the thread's next message id; the question stays as it was.
    board.answer(&text("issuer"), AnswerMsg { qa_thread_id: 1, question_id: 1, content: text("a") }).unwrap();
    assert_eq!(board.next_qa_thread_msg_id.get(1), Some(&4));
    assert!(matches!(board.qa_threads_msgs.get(pair_key_exec(1, 3)), Some(QaThreadMsg::Answer(a)) if a.id == 3 && a.reply_to_question_id == 1));
    assert!(matches!(board.qa_threads_msgs.get(pair_key_exec(1, 1)), Some(QaThreadMsg::Question(_))));
    board.answer(&text("issuer"), AnswerMsg { qa_thread_id: 1, question_id: 1, content: text("b") }).unwrap();
    assert!(matches!(board.qa_threads_msgs.get(pair_key_exec(1, 4)), Some(QaThreadMsg::Answer(a)) if a.id == 4));
}

