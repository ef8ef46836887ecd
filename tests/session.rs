use aurora_shell::command::{Command, CommandKind};
use aurora_shell::elicit::{Answer, ElicitError};
use aurora_shell::session::{request, step, Event, Request, Session};

fn select(label: &str) -> usize {
    aurora_shell::command::menu().iter().position(|k| k.label() == label).unwrap()
}

fn text(s: &str) -> Event {
    Event::Answered(Answer::Text(s.to_string()))
}

#[test]
fn declining_consent_exits() {
    let s = step(Session::new(), Event::Consent(false));
    assert!(matches!(s, Session::Exited));
    assert!(s.is_finished());
}

#[test]
fn full_round_get_balance() {
    let s = step(Session::new(), Event::Consent(true));
    assert!(matches!(request(&s), Request::ShowMenu));
    let s = step(s, Event::Selected(select("GetBalance")));
    assert!(matches!(request(&s), Request::Ask(_)));
    let s = step(s, text("0xabc123"));
    match &s {
        Session::Displaying(c) => assert_eq!(*c, Command::GetBalance { address: "0xabc123".to_string() }),
        other => panic!("unexpected {:?}", other),
    }
    let s = step(s, Event::Shown);
    assert!(matches!(request(&s), Request::AskContinue));
    let s = step(s, Event::Continue(true));
    assert!(matches!(s, Session::SelectingCommand));
    let s = step(s, Event::Selected(select("GetVersion")));
    assert!(matches!(s, Session::Displaying(Command::GetVersion)));
    let s = step(step(s, Event::Shown), Event::Continue(false));
    assert!(matches!(s, Session::Exited));
}

#[test]
fn invalid_mask_returns_to_menu() {
    let s = step(Session::new(), Event::Consent(true));
    let s = step(s, Event::Selected(select("PausePrecompiles")));
    let s = step(s, text("-1"));
    assert!(matches!(s, Session::Failed(ElicitError::NotANumber)));
    assert!(matches!(request(&s), Request::Report(ElicitError::NotANumber)));
    let s = step(s, Event::Shown);
    assert!(matches!(s, Session::SelectingCommand));
}

#[test]
fn init_fails_early_on_bad_chain_id() {
    let s = step(Session::new(), Event::Consent(true));
    let s = step(s, Event::Selected(select("Init")));
    let s = step(s, text("chain"));
    assert!(matches!(s, Session::Failed(ElicitError::NotANumber)));
}

#[test]
fn key_pair_random_asks_no_seed() {
    let s = step(Session::new(), Event::Consent(true));
    let s = step(s, Event::Selected(select("KeyPair")));
    let s = step(s, Event::Answered(Answer::Flag(true)));
    match &s {
        Session::Displaying(c) => assert_eq!(*c, Command::KeyPair { random: true, seed: None }),
        other => panic!("unexpected {:?}", other),
    }
}

#[test]
fn interrupt_mid_prompt_ends_session() {
    let s = step(Session::new(), Event::Consent(true));
    let s = step(s, Event::Selected(select("Init")));
    let s = step(s, text("1313161554"));
    assert!(matches!(s, Session::Eliciting { kind: CommandKind::Init, .. }));
    let s = step(s, Event::Interrupt);
    assert!(matches!(s, Session::Interrupted));
    assert!(matches!(request(&s), Request::Stop));
    let s = step(s, text("more"));
    assert!(matches!(s, Session::Interrupted));
}

#[test]
fn out_of_range_selection_stays_on_menu() {
    let s = step(Session::new(), Event::Consent(true));
    let s = step(s, Event::Selected(1000));
    assert!(matches!(s, Session::SelectingCommand));
}
