use aurora_shell::command::{kind_at, menu, Command, CommandKind, KIND_COUNT};
use aurora_shell::elicit::{
    create_account, elicit, fund_xcc_sub_account, get_balance, init, key_pair, next_prompt,
    pause_precompiles, prompts, resume_precompiles, view_call, Answer, ElicitError, Shape,
};
use aurora_shell::text::{
    is_amount, normalize_optional_text, normalize_optional_u64, parse_u32, parse_u64,
};

fn text(s: &str) -> Answer {
    Answer::Text(s.to_string())
}

fn kind_named(name: &str) -> CommandKind {
    let kinds = menu();
    let pos = kinds.iter().position(|k| k.label() == name).unwrap();
    kinds[pos]
}

#[test]
fn scenario_get_balance() {
    let k = kind_named("GetBalance");
    let r = elicit(k, &vec![text("0xabc123")]);
    assert_eq!(r, Ok(Command::GetBalance { address: "0xabc123".to_string() }));
    assert_eq!(get_balance("0xabc123".to_string()), r);
}

#[test]
fn scenario_init_with_optionals_empty() {
    let k = kind_named("Init");
    let answers = vec![text("1313161554"), text(""), text(""), text(""), text(""), text("")];
    let expected = Command::Init {
        chain_id: 1313161554,
        owner_id: None,
        bridge_prover_id: None,
        upgrade_delay_blocks: None,
        custodian_address: None,
        ft_metadata_path: None,
    };
    assert_eq!(elicit(k, &answers), Ok(expected));
}

#[test]
fn init_optional_fields_present() {
    let r = init(
        "7",
        "owner.near".to_string(),
        "prover.near".to_string(),
        "10",
        "0xcust".to_string(),
        "meta.json".to_string(),
    );
    assert_eq!(
        r,
        Ok(Command::Init {
            chain_id: 7,
            owner_id: Some("owner.near".to_string()),
            bridge_prover_id: Some("prover.near".to_string()),
            upgrade_delay_blocks: Some(10),
            custodian_address: Some("0xcust".to_string()),
            ft_metadata_path: Some("meta.json".to_string()),
        })
    );
}

#[test]
fn init_bad_delay_is_absent_not_error() {
    let r = init("1", String::new(), String::new(), "soon", String::new(), String::new());
    match r {
        Ok(Command::Init { upgrade_delay_blocks, .. }) => assert_eq!(upgrade_delay_blocks, None),
        other => panic!("unexpected {:?}", other),
    }
}

#[test]
fn init_bad_chain_id_fails() {
    let r = init("abc", String::new(), String::new(), "", String::new(), String::new());
    assert_eq!(r, Err(ElicitError::NotANumber));
}

#[test]
fn scenario_pause_precompiles() {
    let k = kind_named("PausePrecompiles");
    assert_eq!(elicit(k, &vec![text("7")]), Ok(Command::PausePrecompiles { mask: 7 }));
    assert_eq!(elicit(k, &vec![text("-1")]), Err(ElicitError::NotANumber));
    assert_eq!(pause_precompiles("-1"), Err(ElicitError::NotANumber));
}

#[test]
fn mask_bounds() {
    assert_eq!(resume_precompiles("4294967295"), Ok(Command::ResumePrecompiles { mask: u32::MAX }));
    assert_eq!(resume_precompiles("4294967296"), Err(ElicitError::NotANumber));
}

#[test]
fn scenario_key_pair_with_seed() {
    let k = kind_named("KeyPair");
    let r = elicit(k, &vec![Answer::Flag(false), text("42")]);
    assert_eq!(r, Ok(Command::KeyPair { random: false, seed: Some(42) }));
}

#[test]
fn key_pair_random_ignores_seed() {
    assert_eq!(key_pair(true, "99"), Ok(Command::KeyPair { random: true, seed: None }));
    let k = kind_named("KeyPair");
    assert_eq!(elicit(k, &vec![Answer::Flag(true)]), Ok(Command::KeyPair { random: true, seed: None }));
    assert!(next_prompt(k, &vec![Answer::Flag(true)]).is_none());
    assert!(next_prompt(k, &vec![Answer::Flag(false)]).is_some());
}

#[test]
fn key_pair_bad_seed_fails() {
    assert_eq!(key_pair(false, "x"), Err(ElicitError::NotANumber));
    assert_eq!(key_pair(false, ""), Err(ElicitError::NotANumber));
}

#[test]
fn empty_identifier_fails() {
    assert_eq!(get_balance(String::new()), Err(ElicitError::EmptyField));
}

#[test]
fn amounts() {
    assert_eq!(
        create_account("alice.near".to_string(), "10.5".to_string()),
        Ok(Command::CreateAccount { account: "alice.near".to_string(), balance: "10.5".to_string() })
    );
    assert_eq!(
        create_account("alice.near".to_string(), "ten".to_string()),
        Err(ElicitError::NotAnAmount)
    );
    assert_eq!(
        fund_xcc_sub_account("t.near".to_string(), String::new(), "1e3".to_string()),
        Ok(Command::FundXccSubAccount {
            target: "t.near".to_string(),
            wnear_account_id: None,
            deposit: "1e3".to_string(),
        })
    );
    for ok in ["0", "-2.5", "+.5", "5.", "1E-7"] {
        assert!(is_amount(ok), "{}", ok);
        let _: f64 = ok.parse().unwrap();
    }
    for bad in ["", ".", "+", "1e", "1.2.3", " 1", "inf", "1_0"] {
        assert!(!is_amount(bad), "{}", bad);
    }
}

#[test]
fn optional_text_normalization() {
    assert_eq!(normalize_optional_text(String::new()), None);
    assert_eq!(normalize_optional_text(" x ".to_string()), Some(" x ".to_string()));
    let r = view_call("0x1".to_string(), "f".to_string(), String::new(), "abi.json".to_string());
    assert_eq!(
        r,
        Ok(Command::ViewCall {
            address: "0x1".to_string(),
            function: "f".to_string(),
            args: None,
            abi_path: "abi.json".to_string(),
        })
    );
}

#[test]
fn unsigned_parsing() {
    assert_eq!(parse_u64("0"), Some(0));
    assert_eq!(parse_u64("+12"), Some(12));
    assert_eq!(parse_u64("18446744073709551615"), Some(u64::MAX));
    assert_eq!(parse_u64("18446744073709551616"), None);
    assert_eq!(parse_u64(""), None);
    assert_eq!(parse_u64("+"), None);
    assert_eq!(parse_u64(" 1"), None);
    assert_eq!(parse_u32("70000"), Some(70000));
    assert_eq!(normalize_optional_u64("12x"), None);
    assert_eq!(normalize_optional_u64("12"), Some(12));
}

#[test]
fn menu_is_a_bijection() {
    let kinds = menu();
    assert_eq!(kinds.len(), KIND_COUNT);
    for (i, k) in kinds.iter().enumerate() {
        assert_eq!(k.index(), i);
        assert_eq!(kind_at(i), Some(*k));
        for (j, other) in kinds.iter().enumerate() {
            if i != j {
                assert_ne!(k.label(), other.label());
            }
        }
    }
    assert_eq!(kind_at(KIND_COUNT), None);
}

#[test]
fn every_kind_elicits_its_own_variant() {
    for k in menu() {
        let answers: Vec<Answer> = prompts(k)
            .iter()
            .map(|p| match p.shape {
                Shape::Flag => Answer::Flag(false),
                Shape::Amount | Shape::U64 | Shape::U32 => text("1"),
                _ => text("x"),
            })
            .collect();
        let c = elicit(k, &answers).unwrap();
        assert_eq!(c.kind(), k);
    }
}

#[test]
fn wrong_answer_count_or_type() {
    let k = kind_named("GetBalance");
    assert_eq!(elicit(k, &vec![]), Err(ElicitError::AnswersMismatch));
    assert_eq!(elicit(k, &vec![Answer::Flag(true)]), Err(ElicitError::AnswersMismatch));
}
