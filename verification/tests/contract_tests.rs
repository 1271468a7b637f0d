use polls::contract::{execute, execute_create_poll, execute_vote, instantiate, query};
use polls::error::ContractError;
use polls::msg::{ExecuteMsg, InstantiateMsg, QueryMsg};
use polls::response::Attribute;
use polls::state::{Poll, Store};

fn attr(key: &str, value: &str) -> Attribute {
    Attribute { key: key.to_string(), value: value.to_string() }
}

#[test]
fn test_instantiate() {
    let mut store = Store::new();
    let msg = InstantiateMsg { admin_address: "addr1".to_string() };

    let resp = instantiate(&mut store, msg, true).unwrap();
    assert_eq!(resp.attributes, vec![attr("action", "instantiated")]);
}

#[test]
fn test_create_poll() {
    let mut store = Store::new();
    let msg = InstantiateMsg { admin_address: "addr1".to_string() };

    let _resp = instantiate(&mut store, msg, true).unwrap();
    let msg = ExecuteMsg::CreatePoll { question: "Do you love Spark IBC".to_string() };
    let resp = execute(&mut store, msg).unwrap();
    assert_eq!(resp.attributes, vec![attr("action", "create_poll")]);

    let msg = ExecuteMsg::CreatePoll { question: "Do you love Spark IBC".to_string() };
    let _resp = execute(&mut store, msg).unwrap_err();
}

#[test]
fn test_vote() {
    let mut store = Store::new();
    let msg = InstantiateMsg { admin_address: "addr1".to_string() };
    let _resp = instantiate(&mut store, msg, true).unwrap();

    let msg = ExecuteMsg::CreatePoll { question: "Do you love Spark IBC".to_string() };
    let _resp = execute(&mut store, msg).unwrap();

    // success case, we vote on the poll that exists, with a valid option
    let msg = ExecuteMsg::Vote {
        question: "Do you love Spark IBC".to_string(),
        choice: "yes".to_string(),
    };
    let resp = execute(&mut store, msg).unwrap();
    assert_eq!(resp.attributes, vec![attr("action", "vote")]);

    // error case: we vote on a poll that does not exist
    let msg = ExecuteMsg::Vote {
        question: "Do you hate Spark IBC".to_string(),
        choice: "yes".to_string(),
    };
    let _resp = execute(&mut store, msg).unwrap_err();

    // error case: the choice is not a valid option
    let msg = ExecuteMsg::Vote {
        question: "Do you hate Spark IBC".to_string(),
        choice: "yeah baby".to_string(),
    };
    let _resp = execute(&mut store, msg).unwrap_err();
}

#[test]
fn test_instantiate_records_admin() {
    let mut store = Store::new();
    let msg = InstantiateMsg { admin_address: "addr1".to_string() };
    instantiate(&mut store, msg, true).unwrap();
    assert_eq!(store.admin(), Some(&"addr1".to_string()));
}

#[test]
fn test_instantiate_invalid_address() {
    let mut store = Store::new();
    let msg = InstantiateMsg { admin_address: "not an address".to_string() };
    let err = instantiate(&mut store, msg, false).unwrap_err();
    assert_eq!(err, ContractError::InvalidAddress);
    assert_eq!(store.admin(), None);
}

#[test]
fn test_create_poll_starts_at_zero() {
    let mut store = Store::new();
    let question = "Is water wet".to_string();
    execute_create_poll(&mut store, question.clone()).unwrap();
    let poll = store.poll(&question).unwrap();
    assert_eq!(poll.question, question);
    assert_eq!(poll.yes_votes, 0);
    assert_eq!(poll.no_votes, 0);
}

#[test]
fn test_create_poll_duplicate_leaves_record() {
    let mut store = Store::new();
    let question = "Is water wet".to_string();
    execute_create_poll(&mut store, question.clone()).unwrap();
    execute_vote(&mut store, question.clone(), "yes".to_string()).unwrap();

    let err = execute_create_poll(&mut store, question.clone()).unwrap_err();
    assert_eq!(err, ContractError::DuplicateKey);
    let err = execute_create_poll(&mut store, question.clone()).unwrap_err();
    assert_eq!(err, ContractError::DuplicateKey);

    let poll = store.poll(&question).unwrap();
    assert_eq!(poll.yes_votes, 1);
    assert_eq!(poll.no_votes, 0);
}

#[test]
fn test_vote_missing_poll_not_found() {
    let mut store = Store::new();
    let err = execute_vote(&mut store, "Never created".to_string(), "yes".to_string())
        .unwrap_err();
    assert_eq!(err, ContractError::NotFound);
}

#[test]
fn test_vote_counts_each_choice() {
    let mut store = Store::new();
    let question = "Is water wet".to_string();
    execute_create_poll(&mut store, question.clone()).unwrap();

    execute_vote(&mut store, question.clone(), "yes".to_string()).unwrap();
    let poll = store.poll(&question).unwrap();
    assert_eq!(poll.yes_votes, 1);
    assert_eq!(poll.no_votes, 0);

    execute_vote(&mut store, question.clone(), "no".to_string()).unwrap();
    let poll = store.poll(&question).unwrap();
    assert_eq!(poll.yes_votes, 1);
    assert_eq!(poll.no_votes, 1);

    execute_vote(&mut store, question.clone(), "yes".to_string()).unwrap();
    let poll = store.poll(&question).unwrap();
    assert_eq!(poll.yes_votes, 2);
    assert_eq!(poll.no_votes, 1);
}

#[test]
fn test_vote_invalid_choices_leave_record() {
    let mut store = Store::new();
    let question = "Is water wet".to_string();
    execute_create_poll(&mut store, question.clone()).unwrap();
    execute_vote(&mut store, question.clone(), "yes".to_string()).unwrap();

    for choice in ["Yes", "y", "", "YES", "no ", "yeah baby"] {
        let err = execute_vote(&mut store, question.clone(), choice.to_string()).unwrap_err();
        assert_eq!(err, ContractError::InvalidChoice);
    }

    let poll = store.poll(&question).unwrap();
    assert_eq!(poll.yes_votes, 1);
    assert_eq!(poll.no_votes, 0);
}

#[test]
fn test_missing_poll_beats_invalid_choice() {
    let mut store = Store::new();
    let err = execute_vote(&mut store, "Never created".to_string(), "yeah baby".to_string())
        .unwrap_err();
    assert_eq!(err, ContractError::NotFound);
}

#[test]
fn test_full_scenario() {
    let mut store = Store::new();
    let love = "Do you love Spark IBC".to_string();
    let hate = "Do you hate Spark IBC".to_string();

    instantiate(&mut store, InstantiateMsg { admin_address: "addr1".to_string() }, true)
        .unwrap();

    execute(&mut store, ExecuteMsg::CreatePoll { question: love.clone() }).unwrap();
    let err = execute(&mut store, ExecuteMsg::CreatePoll { question: love.clone() })
        .unwrap_err();
    assert_eq!(err, ContractError::DuplicateKey);

    execute(&mut store, ExecuteMsg::Vote { question: love.clone(), choice: "yes".to_string() })
        .unwrap();
    assert_eq!(store.poll(&love).unwrap().yes_votes, 1);

    let err = execute(
        &mut store,
        ExecuteMsg::Vote { question: hate.clone(), choice: "yes".to_string() },
    )
    .unwrap_err();
    assert_eq!(err, ContractError::NotFound);

    let err = execute(
        &mut store,
        ExecuteMsg::Vote { question: love.clone(), choice: "yeah baby".to_string() },
    )
    .unwrap_err();
    assert_eq!(err, ContractError::InvalidChoice);
    assert_eq!(store.poll(&love).unwrap().yes_votes, 1);
    assert_eq!(store.poll(&love).unwrap().no_votes, 0);
}

#[test]
fn test_query_unimplemented() {
    let store = Store::new();
    let err = query(&store, QueryMsg {}).unwrap_err();
    assert_eq!(err, ContractError::Unimplemented);
}

#[test]
fn test_vote_saturates_at_max() {
    let mut store = Store {
        config: None,
        polls: vec![Poll {
            question: "Is water wet".to_string(),
            yes_votes: u64::MAX,
            no_votes: 3,
        }],
    };
    execute_vote(&mut store, "Is water wet".to_string(), "yes".to_string()).unwrap();
    let poll = store.poll(&"Is water wet".to_string()).unwrap();
    assert_eq!(poll.yes_votes, u64::MAX);
    assert_eq!(poll.no_votes, 3);
}

#[test]
fn test_error_messages() {
    assert_eq!(ContractError::DuplicateKey.message(), "Key already taken!");
    assert_eq!(ContractError::NotFound.message(), "Poll does not exist");
    assert_eq!(ContractError::InvalidChoice.message(), "Unrecognized choice!");
}
