use solana_sdk::signature::keypair_from_seed;
use solana_toolkit::cli;
use solana_toolkit::geyser;
use solana_toolkit::keypair::Keypair;
use solana_toolkit::polling;
use solana_toolkit::pubkey::Pubkey;
use solana_toolkit::retry::Retry;
use solana_toolkit::retry::Verdict;
use solana_toolkit::session::Session;
use solana_toolkit::session::SessionAction;
use solana_toolkit::session::SessionEvent;
use solana_toolkit::transfer::check_balance;
use solana_toolkit::transfer::Action;
use solana_toolkit::transfer::Event;
use solana_toolkit::transfer::Plan;
use solana_toolkit::transfer::Signing;
use solana_toolkit::transfer::Stage;
use solana_toolkit::transfer::TransferError;
use solana_toolkit::transfer::TransferJob;

fn pair() -> Keypair {
    Keypair::from_bytes(keypair_from_seed(&[1; 32]).unwrap().to_bytes()).unwrap()
}

fn plan(amount_lamports: u64) -> Plan {
    Plan { source_keypair: pair(), destination: Pubkey { bytes: [8; 32] }, amount_lamports }
}

fn started(amount: u64) -> TransferJob {
    let (job, action) = TransferJob::start(&pair(), Pubkey { bytes: [8; 32] }, amount, Signing::WithPayer);
    assert!(matches!(action, Action::GetBalance(key) if key.bytes == pair().pubkey().bytes));
    assert_eq!(job.stage, Stage::Balance);
    job
}

#[test]
fn the_balance_has_to_cover_the_amount_and_the_fee() {
    assert!(check_balance(6000, 1000).is_ok());
    assert!(matches!(
        check_balance(5999, 1000),
        Err(TransferError::Insufficient { amount: 1000, needed: 6000, available: 5999 })
    ));
    assert!(check_balance(u64::MAX, u64::MAX - 5000).is_ok());
    assert!(check_balance(4999, 0).is_err());
    assert!(check_balance(5000, 0).is_ok());
}

#[test]
fn a_transfer_goes_from_balance_to_confirmation() {
    let mut job = started(1000);
    assert!(matches!(job.step(&pair(), Event::Balance(Ok(6000))), Action::GetLatestBlockhash));
    assert_eq!(job.stage, Stage::Blockhash);
    assert!(matches!(job.step(&pair(), Event::Blockhash(Ok([5; 32]))), Action::SendAndConfirm(_)));
    assert_eq!(job.stage, Stage::Confirmation);
    let end = job.step(&pair(), Event::Confirmation(Ok("sig".to_string())));
    assert!(matches!(end, Action::Finish(Ok(s)) if s == "sig"));
    assert_eq!(job.stage, Stage::Finished);
}

#[test]
fn a_transfer_ends_at_the_first_failure() {
    let mut job = started(1000);
    let end = job.step(&pair(), Event::Balance(Err("b".to_string())));
    assert!(matches!(end, Action::Finish(Err(TransferError::Balance(e))) if e == "b"));
    assert_eq!(job.stage, Stage::Finished);

    let mut job = started(1000);
    let end = job.step(&pair(), Event::Balance(Ok(5999)));
    assert!(matches!(end, Action::Finish(Err(TransferError::Insufficient { available: 5999, .. }))));

    let mut job = started(1000);
    job.step(&pair(), Event::Balance(Ok(6000)));
    let end = job.step(&pair(), Event::Blockhash(Err("h".to_string())));
    assert!(matches!(end, Action::Finish(Err(TransferError::Blockhash(e))) if e == "h"));

    let mut job = started(1000);
    job.step(&pair(), Event::Balance(Ok(6000)));
    job.step(&pair(), Event::Blockhash(Ok([5; 32])));
    let end = job.step(&pair(), Event::Confirmation(Err("t".to_string())));
    assert!(matches!(end, Action::Finish(Err(TransferError::Transaction(e))) if e == "t"));
}

#[test]
fn each_tool_words_its_failures() {
    let short = TransferError::Insufficient { amount: 1000, needed: 6000, available: 5999 };
    let balance = TransferError::Balance("x".to_string());
    let blockhash = TransferError::Blockhash("y".to_string());
    let transaction = TransferError::Transaction("z".to_string());

    assert_eq!(geyser::error_text(&short), "Insufficient balance: 6000 lamports needed, 5999 available");
    assert_eq!(geyser::error_text(&balance), "Failed to get balance: x");
    assert_eq!(geyser::error_text(&blockhash), "Failed to get blockhash: y");
    assert_eq!(geyser::error_text(&transaction), "Transaction failed: z");

    assert_eq!(polling::error_text(&short), "Insufficient balance: 5999");
    assert_eq!(polling::error_text(&balance), "Failed to get balance");
    assert_eq!(polling::error_text(&blockhash), "Failed to get blockhash");
    assert_eq!(polling::error_text(&transaction), "Transaction failed");

    assert_eq!(cli::error_text(&short), "Insufficient balance: 5999 lamports (need 1000 + fees)");
    assert_eq!(cli::error_text(&balance), "Failed to get balance: x");
    assert_eq!(cli::error_text(&blockhash), "Failed to get blockhash: y");
    assert_eq!(cli::error_text(&transaction), "Transaction failed: z");
}

fn attempts(mut series: Retry, outcomes: &[Result<u8, u8>]) -> (usize, Result<u8, u8>) {
    for (i, outcome) in outcomes.iter().enumerate() {
        match series.judge(*outcome) {
            Verdict::Return(result) => return (i + 1, result),
            Verdict::Again(e) => assert_eq!(Err(e), *outcome),
        }
    }
    unreachable!()
}

#[test]
fn a_series_stops_at_the_first_success() {
    assert_eq!(attempts(Retry::attempts(3), &[Err(1), Ok(2), Ok(3)]), (2, Ok(2)));
    assert_eq!(attempts(Retry::attempts(3), &[Ok(1)]), (1, Ok(1)));
    assert_eq!(attempts(Retry::retries(3), &[Err(1), Err(2), Err(3), Ok(4)]), (4, Ok(4)));
}

#[test]
fn a_series_stops_at_the_limit_with_the_last_error() {
    assert_eq!(attempts(Retry::attempts(1), &[Err(1), Ok(2)]), (1, Err(1)));
    assert_eq!(attempts(Retry::attempts(3), &[Err(1), Err(2), Err(3), Ok(4)]), (3, Err(3)));
    assert_eq!(attempts(Retry::retries(0), &[Err(1), Ok(2)]), (1, Err(1)));
    assert_eq!(attempts(Retry::retries(2), &[Err(1), Err(2), Err(3), Ok(4)]), (3, Err(3)));
}

fn answer(session: &mut Session, event: Event) -> SessionAction {
    session.step(&pair(), SessionEvent::Answer(event))
}

#[test]
fn a_session_waits_and_begins_anew_after_a_failure() {
    let (mut session, first) = Session::start(&plan(1000), Retry::attempts(2), 250);
    assert!(matches!(first, SessionAction::Ask(Action::GetBalance(_))));
    let action = answer(&mut session, Event::Balance(Err("down".to_string())));
    assert!(matches!(action, SessionAction::Sleep { ms: 250, error: TransferError::Balance(e) } if e == "down"));
    let action = session.step(&pair(), SessionEvent::Slept);
    assert!(matches!(action, SessionAction::Ask(Action::GetBalance(key)) if key.bytes == pair().pubkey().bytes));
    assert!(matches!(
        answer(&mut session, Event::Balance(Ok(6000))),
        SessionAction::Ask(Action::GetLatestBlockhash)
    ));
    assert!(matches!(
        answer(&mut session, Event::Blockhash(Ok([5; 32]))),
        SessionAction::Ask(Action::SendAndConfirm(_))
    ));
    let action = answer(&mut session, Event::Confirmation(Ok("sig".to_string())));
    assert!(matches!(action, SessionAction::Done(Ok(s)) if s == "sig"));
}

#[test]
fn a_session_gives_up_at_the_limit() {
    let (mut session, _) = Session::start(&plan(1000), Retry::attempts(2), 250);
    let mut sent = 0;
    for turn in 0..2 {
        answer(&mut session, Event::Balance(Ok(6000)));
        if matches!(
            answer(&mut session, Event::Blockhash(Ok([5; 32]))),
            SessionAction::Ask(Action::SendAndConfirm(_))
        ) {
            sent += 1;
        }
        let action = answer(&mut session, Event::Confirmation(Err(format!("lost {}", turn))));
        if turn == 0 {
            assert!(matches!(action, SessionAction::Sleep { ms: 250, .. }));
            session.step(&pair(), SessionEvent::Slept);
        } else {
            assert!(matches!(
                action,
                SessionAction::Done(Err(TransferError::Transaction(e))) if e == "lost 1"
            ));
        }
    }
    assert_eq!(sent, 2);
}

/// Runs a session whose attempts fail so many times and then succeed, and counts its waits, its
/// transactions and its turns.
fn run(max_attempts: u32, failures: u32) -> (u32, u32, u32, Result<String, TransferError>) {
    let (mut session, mut action) = Session::start(&plan(1000), Retry::attempts(max_attempts), 250);
    let (mut waits, mut sent, mut turns) = (0, 0, 0);
    loop {
        let event = match action {
            SessionAction::Done(result) => return (waits, sent, turns, result),
            SessionAction::Sleep { ms, error } => {
                assert_eq!(ms, 250);
                assert!(matches!(error, TransferError::Transaction(e) if e == format!("lost {}", waits)));
                waits += 1;
                assert_eq!(session.retry.attempt, waits);
                SessionEvent::Slept
            }
            SessionAction::Ask(Action::GetBalance(_)) => SessionEvent::Answer(Event::Balance(Ok(6000))),
            SessionAction::Ask(Action::GetLatestBlockhash) => SessionEvent::Answer(Event::Blockhash(Ok([5; 32]))),
            SessionAction::Ask(Action::SendAndConfirm(_)) => {
                sent += 1;
                SessionEvent::Answer(Event::Confirmation(if waits < failures {
                    Err(format!("lost {}", waits))
                } else {
                    Ok(format!("sig {}", waits))
                }))
            }
            SessionAction::Ask(Action::Finish(_)) => unreachable!(),
        };
        action = session.step(&pair(), event);
        turns += 1;
    }
}

#[test]
fn a_run_ends_at_the_first_success_or_the_limit() {
    assert!(matches!(run(3, 0), (0, 1, 3, Ok(s)) if s == "sig 0"));
    assert!(matches!(run(3, 2), (2, 3, 11, Ok(s)) if s == "sig 2"));
    assert!(matches!(run(3, 3), (2, 3, 11, Err(TransferError::Transaction(e))) if e == "lost 2"));
    assert!(matches!(run(1, 9), (0, 1, 3, Err(TransferError::Transaction(e))) if e == "lost 0"));
}
