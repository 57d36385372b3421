use cosmwasm_std::testing::{mock_dependencies, mock_env, mock_info, MockApi, MockQuerier, MockStorage};
use cosmwasm_std::{attr, OwnedDeps, StdError, Storage};
use cosmwasm_zero_to_hero::contract::{
    action_response, execute, execute_create_poll, execute_vote, instantiate, load_config, query,
    query_get_poll, validated_config, written, CONTRACT_NAME, CONTRACT_VERSION,
};
use cosmwasm_zero_to_hero::error::{ContractError, ErrorKind};
use cosmwasm_zero_to_hero::host::{HostMut, HostRef, CONFIG_KEY, POLLS_NAMESPACE};
use cosmwasm_zero_to_hero::msg::{ExecuteMsg, GetPollResponse, InstantiateMsg, QueryMsg};
use cosmwasm_zero_to_hero::state::{is_valid_choice, Config, Poll};

type Deps = OwnedDeps<MockStorage, MockApi, MockQuerier>;

fn ready() -> Deps {
    let mut deps = mock_dependencies();
    let msg = InstantiateMsg {
        admin_address: "admin".to_string(),
    };
    instantiate(
        &mut HostMut { deps: deps.as_mut() },
        mock_env(),
        mock_info("creator", &[]),
        msg,
    )
    .unwrap();
    deps
}

fn create(deps: &mut Deps, question: &str) -> Result<cosmwasm_std::Response, ContractError> {
    execute(
        &mut HostMut { deps: deps.as_mut() },
        mock_env(),
        mock_info("creator", &[]),
        ExecuteMsg::CreatePoll {
            question: question.to_string(),
        },
    )
}

fn vote(
    deps: &mut Deps,
    question: &str,
    choice: &str,
) -> Result<cosmwasm_std::Response, ContractError> {
    execute(
        &mut HostMut { deps: deps.as_mut() },
        mock_env(),
        mock_info("voter", &[]),
        ExecuteMsg::Vote {
            question: question.to_string(),
            choice: choice.to_string(),
        },
    )
}

fn get(deps: &Deps, question: &str) -> Option<Poll> {
    query(
        HostRef { deps: deps.as_ref() },
        mock_env(),
        QueryMsg::GetPoll {
            question: question.to_string(),
        },
    )
    .unwrap()
    .poll
}

fn poll(question: &str, yes_votes: u64, no_votes: u64) -> Poll {
    Poll {
        question: question.to_string(),
        yes_votes,
        no_votes,
    }
}

fn records() -> cw_storage_plus::Map<'static, String, (String, u64, u64)> {
    cw_storage_plus::Map::new(POLLS_NAMESPACE)
}

#[test]
fn instantiate_writes_the_validated_address() {
    let deps = ready();
    let config = load_config(HostRef { deps: deps.as_ref() }).unwrap();
    assert_eq!(
        config,
        Config {
            admin_address: "admin".to_string()
        }
    );
}

#[test]
fn instantiate_registers_name_and_version() {
    let deps = ready();
    let version = cw2::get_contract_version(&deps.storage).unwrap();
    assert_eq!(version.contract, CONTRACT_NAME);
    assert_eq!(version.contract, "crates.io:cosmwasm-zero-to-hero:shaunkh");
    assert_eq!(version.version, CONTRACT_VERSION);
    assert_eq!(version.version, "0.1.0");
}

#[test]
fn instantiate_leaves_polls_alone() {
    let mut deps = ready();
    create(&mut deps, "q").unwrap();
    vote(&mut deps, "q", "yes").unwrap();
    instantiate(
        &mut HostMut { deps: deps.as_mut() },
        mock_env(),
        mock_info("creator", &[]),
        InstantiateMsg {
            admin_address: "second".to_string(),
        },
    )
    .unwrap();
    assert_eq!(get(&deps, "q"), Some(poll("q", 1, 0)));
    let config = load_config(HostRef { deps: deps.as_ref() }).unwrap();
    assert_eq!(config.admin_address, "second");
}

#[test]
fn instantiate_rejects_an_address_the_host_refuses() {
    let mut deps = mock_dependencies();
    let err = instantiate(
        &mut HostMut { deps: deps.as_mut() },
        mock_env(),
        mock_info("creator", &[]),
        InstantiateMsg {
            admin_address: "ab".to_string(),
        },
    )
    .unwrap_err();
    assert_eq!(err.kind(), ErrorKind::InvalidAddress);
    assert!(matches!(err, ContractError::InvalidAddress(_)));
    assert_eq!(err.message(), None);
    assert_eq!(
        err,
        ContractError::InvalidAddress(StdError::generic_err(
            "Invalid input: human address too short for this mock implementation (must be >= 3)."
        ))
    );
    let err = load_config(HostRef { deps: deps.as_ref() }).unwrap_err();
    assert_eq!(err, ContractError::NotFound);
    let version = cw2::get_contract_version(&deps.storage).unwrap();
    assert_eq!(version.contract, CONTRACT_NAME);
    assert_eq!(version.version, CONTRACT_VERSION);
}

#[test]
fn rejected_address_keeps_earlier_settings() {
    let mut deps = ready();
    instantiate(
        &mut HostMut { deps: deps.as_mut() },
        mock_env(),
        mock_info("creator", &[]),
        InstantiateMsg {
            admin_address: "x".to_string(),
        },
    )
    .unwrap_err();
    let config = load_config(HostRef { deps: deps.as_ref() }).unwrap();
    assert_eq!(config.admin_address, "admin");
}

#[test]
fn settings_are_the_address_from_the_message() {
    let mut deps = mock_dependencies();
    let res = instantiate(
        &mut HostMut { deps: deps.as_mut() },
        mock_env(),
        mock_info("creator", &[]),
        InstantiateMsg {
            admin_address: "admin".to_string(),
        },
    )
    .unwrap();
    assert_eq!(res.attributes, vec![attr("action", "instantiate")]);
    assert!(res.messages.is_empty());
    assert!(res.events.is_empty());
    assert_eq!(res.data, None);
    let config = load_config(HostRef { deps: deps.as_ref() }).unwrap();
    assert_eq!(config.admin_address, "admin");
    assert_ne!(config.admin_address, "creator");
}

#[test]
fn reader_sees_what_was_written() {
    let mut deps = mock_dependencies();
    let mut host = HostMut { deps: deps.as_mut() };
    assert_eq!(load_config(host.as_ref()).unwrap_err(), ContractError::NotFound);
    instantiate(
        &mut host,
        mock_env(),
        mock_info("creator", &[]),
        InstantiateMsg {
            admin_address: "admin".to_string(),
        },
    )
    .unwrap();
    assert_eq!(load_config(host.as_ref()).unwrap().admin_address, "admin");
    execute_create_poll(
        &mut host,
        mock_env(),
        mock_info("creator", &[]),
        "q".to_string(),
    )
    .unwrap();
    execute_vote(
        &mut host,
        mock_env(),
        mock_info("voter", &[]),
        "q".to_string(),
        "no".to_string(),
    )
    .unwrap();
    let res = query_get_poll(host.as_ref(), mock_env(), "q".to_string()).unwrap();
    assert_eq!(res.poll, Some(poll("q", 0, 1)));
    let res = query_get_poll(host.as_ref(), mock_env(), "p".to_string()).unwrap();
    assert_eq!(res.poll, None);
}

#[test]
fn unreadable_settings_fail_as_storage() {
    let mut deps = ready();
    deps.storage.set(b"config", b"{}");
    let err = load_config(HostRef { deps: deps.as_ref() }).unwrap_err();
    assert_eq!(err.kind(), ErrorKind::Storage);
    assert!(matches!(err, ContractError::Storage(_)));
}

#[test]
fn env_and_sender_do_not_matter() {
    let mut first = ready();
    let mut second = ready();
    let mut late = mock_env();
    late.block.height += 1000;
    let a = execute(
        &mut HostMut {
            deps: first.as_mut(),
        },
        mock_env(),
        mock_info("alice", &[]),
        ExecuteMsg::CreatePoll {
            question: "q".to_string(),
        },
    );
    let b = execute(
        &mut HostMut {
            deps: second.as_mut(),
        },
        late.clone(),
        mock_info("bob", &cosmwasm_std::coins(5, "token")),
        ExecuteMsg::CreatePoll {
            question: "q".to_string(),
        },
    );
    assert_eq!(a, b);
    let a = execute(
        &mut HostMut {
            deps: first.as_mut(),
        },
        mock_env(),
        mock_info("alice", &[]),
        ExecuteMsg::Vote {
            question: "q".to_string(),
            choice: "yes".to_string(),
        },
    );
    let b = execute(
        &mut HostMut {
            deps: second.as_mut(),
        },
        late,
        mock_info("bob", &cosmwasm_std::coins(5, "token")),
        ExecuteMsg::Vote {
            question: "q".to_string(),
            choice: "yes".to_string(),
        },
    );
    assert_eq!(a, b);
    assert_eq!(get(&first, "q"), get(&second, "q"));
}

#[test]
fn instantiate_rejects_an_address_that_is_not_normalized() {
    let mut deps = mock_dependencies();
    let err = instantiate(
        &mut HostMut { deps: deps.as_mut() },
        mock_env(),
        mock_info("creator", &[]),
        InstantiateMsg {
            admin_address: "Admin".to_string(),
        },
    )
    .unwrap_err();
    assert_eq!(err.kind(), ErrorKind::InvalidAddress);
}

#[test]
fn load_config_fails_before_instantiate() {
    let deps = mock_dependencies();
    let err = load_config(HostRef { deps: deps.as_ref() }).unwrap_err();
    assert_eq!(err, ContractError::NotFound);
    assert_eq!(err.kind(), ErrorKind::NotFound);
}

#[test]
fn created_poll_starts_at_zero() {
    let mut deps = ready();
    let res = create(&mut deps, "Tabs or spaces?").unwrap();
    assert_eq!(res.attributes, vec![attr("action", "create_poll")]);
    assert!(res.messages.is_empty());
    assert!(res.events.is_empty());
    assert_eq!(res.data, None);
    assert_eq!(
        get(&deps, "Tabs or spaces?"),
        Some(poll("Tabs or spaces?", 0, 0))
    );
}

#[test]
fn create_poll_directly() {
    let mut deps = ready();
    let res = execute_create_poll(
        &mut HostMut { deps: deps.as_mut() },
        mock_env(),
        mock_info("creator", &[]),
        "direct".to_string(),
    )
    .unwrap();
    assert_eq!(res.attributes, vec![attr("action", "create_poll")]);
    assert_eq!(get(&deps, "direct"), Some(poll("direct", 0, 0)));
}

#[test]
fn second_creation_fails_and_keeps_the_tallies() {
    let mut deps = ready();
    create(&mut deps, "q").unwrap();
    vote(&mut deps, "q", "yes").unwrap();
    vote(&mut deps, "q", "no").unwrap();
    vote(&mut deps, "q", "no").unwrap();
    let err = create(&mut deps, "q").unwrap_err();
    assert_eq!(err, ContractError::AlreadyExists);
    assert_eq!(err.kind(), ErrorKind::AlreadyExists);
    assert_eq!(err.message(), Some("Key already taken!".to_string()));
    assert_eq!(get(&deps, "q"), Some(poll("q", 1, 2)));
}

#[test]
fn polls_are_kept_apart() {
    let mut deps = ready();
    create(&mut deps, "a").unwrap();
    create(&mut deps, "b").unwrap();
    vote(&mut deps, "a", "yes").unwrap();
    vote(&mut deps, "b", "no").unwrap();
    vote(&mut deps, "b", "no").unwrap();
    assert_eq!(get(&deps, "a"), Some(poll("a", 1, 0)));
    assert_eq!(get(&deps, "b"), Some(poll("b", 0, 2)));
    assert_eq!(get(&deps, "ab"), None);
    let config = load_config(HostRef { deps: deps.as_ref() }).unwrap();
    assert_eq!(config.admin_address, "admin");
}

#[test]
fn empty_question_is_a_question() {
    let mut deps = ready();
    create(&mut deps, "").unwrap();
    vote(&mut deps, "", "no").unwrap();
    assert_eq!(get(&deps, ""), Some(poll("", 0, 1)));
    assert_eq!(create(&mut deps, "").unwrap_err(), ContractError::AlreadyExists);
}

#[test]
fn question_with_quotes_and_line_breaks_reads_back() {
    let mut deps = ready();
    let question = "Is \"\\n\" a line break?\n\tÄ \u{1F600} \u{0001}";
    create(&mut deps, question).unwrap();
    vote(&mut deps, question, "yes").unwrap();
    assert_eq!(get(&deps, question), Some(poll(question, 1, 0)));
}

#[test]
fn tallies_count_the_votes_of_each_choice() {
    let mut deps = ready();
    create(&mut deps, "q").unwrap();
    let votes = ["yes", "no", "yes", "yes", "no", "yes", "yes"];
    for choice in votes {
        let res = vote(&mut deps, "q", choice).unwrap();
        assert_eq!(res.attributes, vec![attr("action", "vote")]);
        assert!(res.messages.is_empty());
        assert!(res.events.is_empty());
        assert_eq!(res.data, None);
    }
    assert_eq!(get(&deps, "q"), Some(poll("q", 5, 2)));
}

#[test]
fn tallies_do_not_depend_on_the_order_of_votes() {
    let mut first = ready();
    let mut second = ready();
    create(&mut first, "q").unwrap();
    create(&mut second, "q").unwrap();
    for choice in ["yes", "yes", "no", "yes", "no"] {
        vote(&mut first, "q", choice).unwrap();
    }
    for choice in ["no", "no", "yes", "yes", "yes"] {
        vote(&mut second, "q", choice).unwrap();
    }
    assert_eq!(get(&first, "q"), Some(poll("q", 3, 2)));
    assert_eq!(get(&first, "q"), get(&second, "q"));
}

#[test]
fn same_voter_may_vote_again() {
    let mut deps = ready();
    create(&mut deps, "q").unwrap();
    for _ in 0..3 {
        execute_vote(
            &mut HostMut { deps: deps.as_mut() },
            mock_env(),
            mock_info("same", &[]),
            "q".to_string(),
            "yes".to_string(),
        )
        .unwrap();
    }
    assert_eq!(get(&deps, "q"), Some(poll("q", 3, 0)));
}

#[test]
fn vote_on_a_missing_poll_is_not_found() {
    let mut deps = ready();
    create(&mut deps, "other").unwrap();
    for choice in ["yes", "no", "maybe", ""] {
        let err = vote(&mut deps, "missing", choice).unwrap_err();
        assert_eq!(err, ContractError::NotFound);
        assert_eq!(err.kind(), ErrorKind::NotFound);
        assert_eq!(err.message(), Some("Poll not available!".to_string()));
    }
    assert_eq!(get(&deps, "missing"), None);
    assert_eq!(get(&deps, "other"), Some(poll("other", 0, 0)));
}

#[test]
fn invalid_choice_is_refused_and_counts_nothing() {
    let mut deps = ready();
    create(&mut deps, "q").unwrap();
    vote(&mut deps, "q", "yes").unwrap();
    for choice in ["maybe", "Yes", "YES", "No", " yes", "yes ", "y", "", "yesno"] {
        let err = vote(&mut deps, "q", choice).unwrap_err();
        assert_eq!(err, ContractError::InvalidChoice);
        assert_eq!(err.kind(), ErrorKind::InvalidChoice);
        assert_eq!(err.message(), Some("Invalid choice!".to_string()));
        assert_eq!(get(&deps, "q"), Some(poll("q", 1, 0)));
    }
}

#[test]
fn missing_poll_reads_as_none() {
    let deps = ready();
    let res = query_get_poll(
        HostRef { deps: deps.as_ref() },
        mock_env(),
        "never created".to_string(),
    )
    .unwrap();
    assert_eq!(res, GetPollResponse { poll: None });
    let blank = mock_dependencies();
    assert_eq!(get(&blank, "never created"), None);
}

#[test]
fn favorite_color_scenario() {
    let mut deps = ready();
    create(&mut deps, "Favorite color?").unwrap();
    assert_eq!(
        get(&deps, "Favorite color?"),
        Some(poll("Favorite color?", 0, 0))
    );
    create(&mut deps, "Favorite color?").unwrap_err();
    vote(&mut deps, "Favorite color?", "yes").unwrap();
    assert_eq!(
        get(&deps, "Favorite color?"),
        Some(poll("Favorite color?", 1, 0))
    );
    vote(&mut deps, "Favorite color?", "no").unwrap();
    assert_eq!(
        get(&deps, "Favorite color?"),
        Some(poll("Favorite color?", 1, 1))
    );
    vote(&mut deps, "Favorite color?", "maybe").unwrap_err();
    assert_eq!(
        get(&deps, "Favorite color?"),
        Some(poll("Favorite color?", 1, 1))
    );
}

#[test]
fn full_tally_refuses_the_vote() {
    let mut deps = ready();
    records()
        .save(
            &mut deps.storage,
            "q".to_string(),
            &("q".to_string(), u64::MAX, 7),
        )
        .unwrap();
    let err = vote(&mut deps, "q", "yes").unwrap_err();
    assert_eq!(err, ContractError::Overflow);
    assert_eq!(err.kind(), ErrorKind::Overflow);
    assert_eq!(get(&deps, "q"), Some(poll("q", u64::MAX, 7)));
    vote(&mut deps, "q", "no").unwrap();
    assert_eq!(get(&deps, "q"), Some(poll("q", u64::MAX, 8)));
}

#[test]
fn last_vote_before_the_limit_counts() {
    let mut deps = ready();
    records()
        .save(
            &mut deps.storage,
            "q".to_string(),
            &("q".to_string(), 3, u64::MAX - 1),
        )
        .unwrap();
    vote(&mut deps, "q", "no").unwrap();
    assert_eq!(get(&deps, "q"), Some(poll("q", 3, u64::MAX)));
    assert_eq!(vote(&mut deps, "q", "no").unwrap_err(), ContractError::Overflow);
}

#[test]
fn unreadable_record_fails_as_storage() {
    let mut deps = ready();
    let key = records().key("q".to_string());
    deps.storage.set(&key, b"{not a poll}");
    let err = vote(&mut deps, "q", "yes").unwrap_err();
    assert_eq!(err.kind(), ErrorKind::Storage);
    assert!(matches!(err, ContractError::Storage(_)));
    assert_eq!(err.message(), None);
    assert_eq!(
        vote(&mut deps, "q", "maybe").unwrap_err(),
        ContractError::InvalidChoice
    );
    assert_eq!(create(&mut deps, "q").unwrap_err(), ContractError::AlreadyExists);
    let err = query(
        HostRef { deps: deps.as_ref() },
        mock_env(),
        QueryMsg::GetPoll {
            question: "q".to_string(),
        },
    )
    .unwrap_err();
    assert_eq!(err.kind(), ErrorKind::Storage);
    assert_eq!(deps.storage.get(&key), Some(b"{not a poll}".to_vec()));
}

#[test]
fn records_are_stored_under_the_question() {
    let mut deps = ready();
    create(&mut deps, "q").unwrap();
    vote(&mut deps, "q", "no").unwrap();
    assert!(records().has(&deps.storage, "q".to_string()));
    assert!(!records().has(&deps.storage, "p".to_string()));
    assert_eq!(
        records().load(&deps.storage, "q".to_string()).unwrap(),
        ("q".to_string(), 0, 1)
    );
    assert_eq!(
        deps.storage.get(b"\x00\x05pollsq"),
        Some(b"[\"q\",0,1]".to_vec())
    );
    assert_eq!(deps.storage.get(b"config"), Some(b"\"admin\"".to_vec()));
    assert_eq!(POLLS_NAMESPACE, "polls");
    assert_eq!(CONFIG_KEY, "config");
}

#[test]
fn poll_counts_votes_by_itself() {
    let mut p = Poll::new("q".to_string());
    assert_eq!(p, poll("q", 0, 0));
    assert_eq!(p.vote(&"yes".to_string()), Ok(()));
    assert_eq!(p.vote(&"no".to_string()), Ok(()));
    assert_eq!(p.vote(&"yes".to_string()), Ok(()));
    assert_eq!(p, poll("q", 2, 1));
    assert_eq!(
        p.vote(&"maybe".to_string()),
        Err(ContractError::InvalidChoice)
    );
    assert_eq!(p, poll("q", 2, 1));
    let mut full = poll("q", u64::MAX, u64::MAX - 1);
    assert_eq!(full.vote(&"yes".to_string()), Err(ContractError::Overflow));
    assert_eq!(full.vote(&"no".to_string()), Ok(()));
    assert_eq!(full.vote(&"no".to_string()), Err(ContractError::Overflow));
    assert_eq!(full, poll("q", u64::MAX, u64::MAX));
}

#[test]
fn only_yes_and_no_are_choices() {
    assert!(is_valid_choice(&"yes".to_string()));
    assert!(is_valid_choice(&"no".to_string()));
    assert!(!is_valid_choice(&"Yes".to_string()));
    assert!(!is_valid_choice(&"NO".to_string()));
    assert!(!is_valid_choice(&"maybe".to_string()));
    assert!(!is_valid_choice(&"".to_string()));
}

#[test]
fn host_verdicts_become_results() {
    assert_eq!(
        validated_config(Ok("admin".to_string())),
        Ok(Config {
            admin_address: "admin".to_string()
        })
    );
    assert_eq!(
        validated_config(Err(StdError::generic_err("bad"))),
        Err(ContractError::InvalidAddress(StdError::generic_err("bad")))
    );
    let res = written(Ok(()), "vote").unwrap();
    assert_eq!(res.attributes, vec![attr("action", "vote")]);
    assert_eq!(
        written(Err(StdError::generic_err("full")), "vote"),
        Err(ContractError::Storage(StdError::generic_err("full")))
    );
}

#[test]
fn action_response_has_one_attribute() {
    let res = action_response("create_poll");
    assert_eq!(res.attributes, vec![attr("action", "create_poll")]);
    assert_eq!(res.attributes.len(), 1);
    assert_ne!(res.attributes, vec![attr("create_poll", "action")]);
    assert!(res.messages.is_empty());
    assert!(res.events.is_empty());
    assert_eq!(res.data, None);
}

#[test]
fn every_error_has_its_kind() {
    let host = StdError::generic_err("host");
    assert_eq!(
        ContractError::InvalidAddress(StdError::generic_err("address")).kind(),
        ErrorKind::InvalidAddress
    );
    assert_eq!(ContractError::AlreadyExists.kind(), ErrorKind::AlreadyExists);
    assert_eq!(ContractError::NotFound.kind(), ErrorKind::NotFound);
    assert_eq!(ContractError::InvalidChoice.kind(), ErrorKind::InvalidChoice);
    assert_eq!(ContractError::Overflow.kind(), ErrorKind::Overflow);
    assert_eq!(ContractError::Storage(host).kind(), ErrorKind::Storage);
    assert_eq!(ContractError::Overflow.message(), None);
}
