use abbrws_utils::outcome::{ActionOutcome, SessionError};
use abbrws_utils::session::{Command, Event, MastershipSession};

/// A controller that answers from a script and counts what it is asked.
struct ScriptedController {
    grant: Result<(), String>,
    release: Result<(), String>,
    requests: u32,
    releases: u32,
}

impl ScriptedController {
    fn new(grant: Result<(), String>, release: Result<(), String>) -> Self {
        ScriptedController { grant, release, requests: 0, releases: 0 }
    }

    fn mastership_request(&mut self) -> Result<(), String> {
        self.requests += 1;
        self.grant.clone()
    }

    fn mastership_release(&mut self) -> Result<(), String> {
        self.releases += 1;
        self.release.clone()
    }
}

/// Performs each command of a session on `controller` until the session is
/// over. Gives the outcome and how often the action was run.
fn drive(
    controller: &mut ScriptedController,
    action: Result<i32, String>,
) -> (ActionOutcome<i32>, u32) {
    let mut runs = 0;
    let mut action = Some(action);
    let mut session = MastershipSession::new();
    let mut event = Event::Start;
    loop {
        let (next, command) = session.step(event);
        session = next;
        event = match command {
            Command::Acquire => Event::Acquired(controller.mastership_request()),
            Command::RunAction => {
                runs += 1;
                Event::ActionDone(action.take().unwrap())
            }
            Command::Release => Event::Released(controller.mastership_release()),
            Command::Finish(outcome) => {
                assert_eq!(session, MastershipSession::Closed);
                return (outcome, runs);
            }
            Command::Reject => panic!("the session rejected the answer to its own command"),
        };
    }
}

fn busy() -> String {
    String::from("already mastered by another client")
}

#[test]
fn success_path_reports_success() {
    let mut controller = ScriptedController::new(Ok(()), Ok(()));
    let (outcome, runs) = drive(&mut controller, Ok(6));
    assert_eq!(outcome, ActionOutcome::Ran { action: Ok(6), release: Ok(()) });
    assert!(outcome.is_success());
    assert!(outcome.action_ran());
    assert!(outcome.release_attempted());
    assert!(outcome.release_succeeded());
    assert_eq!(outcome.failures(), vec![]);
    assert_eq!(outcome.exit_code(), 0);
    assert_eq!((controller.requests, runs, controller.releases), (1, 1, 1));
}

#[test]
fn refused_lease_runs_nothing() {
    let mut controller = ScriptedController::new(Err(busy()), Ok(()));
    let (outcome, runs) = drive(&mut controller, Ok(6));
    assert_eq!(outcome, ActionOutcome::NotRun { reason: busy() });
    assert!(!outcome.is_success());
    assert!(!outcome.action_ran());
    assert!(!outcome.release_attempted());
    assert!(!outcome.release_succeeded());
    assert_eq!(outcome.failures(), vec![SessionError::AcquisitionFailed(busy())]);
    assert_eq!(outcome.exit_code(), 1);
    assert_eq!((controller.requests, runs, controller.releases), (1, 0, 0));
}

#[test]
fn failed_action_is_reported_and_lease_released() {
    let mut controller = ScriptedController::new(Ok(()), Ok(()));
    let (outcome, runs) = drive(&mut controller, Err(String::from("out of reach")));
    assert_eq!(
        outcome,
        ActionOutcome::Ran { action: Err(String::from("out of reach")), release: Ok(()) }
    );
    assert!(!outcome.is_success());
    assert!(outcome.action_ran());
    assert!(outcome.release_attempted());
    assert!(outcome.release_succeeded());
    assert_eq!(
        outcome.failures(),
        vec![SessionError::ActionFailed(String::from("out of reach"))]
    );
    assert_eq!(outcome.exit_code(), 1);
    assert_eq!((controller.requests, runs, controller.releases), (1, 1, 1));
}

#[test]
fn failed_release_is_reported_after_successful_action() {
    let mut controller = ScriptedController::new(Ok(()), Err(String::from("timed out")));
    let (outcome, runs) = drive(&mut controller, Ok(6));
    assert_eq!(
        outcome,
        ActionOutcome::Ran { action: Ok(6), release: Err(String::from("timed out")) }
    );
    assert!(!outcome.is_success());
    assert!(outcome.action_ran());
    assert!(outcome.release_attempted());
    assert!(!outcome.release_succeeded());
    assert_eq!(
        outcome.failures(),
        vec![SessionError::ReleaseFailed(String::from("timed out"))]
    );
    assert_eq!(outcome.exit_code(), 1);
    assert_eq!((controller.requests, runs, controller.releases), (1, 1, 1));
}

#[test]
fn failed_action_and_failed_release_are_both_reported() {
    let mut controller = ScriptedController::new(Ok(()), Err(String::from("timed out")));
    let (outcome, runs) = drive(&mut controller, Err(String::from("out of reach")));
    assert_eq!(
        outcome,
        ActionOutcome::Ran {
            action: Err(String::from("out of reach")),
            release: Err(String::from("timed out")),
        }
    );
    assert_eq!(
        outcome.failures(),
        vec![
            SessionError::ActionFailed(String::from("out of reach")),
            SessionError::ReleaseFailed(String::from("timed out")),
        ]
    );
    assert_eq!(outcome.exit_code(), 1);
    assert_eq!((controller.requests, runs, controller.releases), (1, 1, 1));
}

#[test]
fn action_result_does_not_depend_on_release() {
    let mut willing = ScriptedController::new(Ok(()), Ok(()));
    let mut stuck = ScriptedController::new(Ok(()), Err(String::from("timed out")));
    for action in [Ok(41), Err(String::from("out of reach"))] {
        let (released, _) = drive(&mut willing, action.clone());
        let (held, _) = drive(&mut stuck, action.clone());
        match (released, held) {
            (
                ActionOutcome::Ran { action: first, release: Ok(()) },
                ActionOutcome::Ran { action: second, release: Err(_) },
            ) => {
                assert_eq!(first, action);
                assert_eq!(second, action);
            }
            other => panic!("unexpected outcomes: {:?}", other),
        }
    }
}

#[test]
fn new_session_is_idle() {
    assert_eq!(MastershipSession::<i32>::new(), MastershipSession::Idle);
}

#[test]
fn start_asks_for_the_lease() {
    let session: MastershipSession<i32> = MastershipSession::new();
    assert_eq!(session.step(Event::Start), (MastershipSession::Acquiring, Command::Acquire));
}

#[test]
fn granted_lease_asks_for_the_action() {
    let session: MastershipSession<i32> = MastershipSession::Acquiring;
    assert_eq!(
        session.step(Event::Acquired(Ok(()))),
        (MastershipSession::Holding, Command::RunAction)
    );
}

#[test]
fn refused_lease_closes_the_session() {
    let session: MastershipSession<i32> = MastershipSession::Acquiring;
    assert_eq!(
        session.step(Event::Acquired(Err(busy()))),
        (MastershipSession::Closed, Command::Finish(ActionOutcome::NotRun { reason: busy() }))
    );
}

#[test]
fn returned_action_asks_for_the_release() {
    let session: MastershipSession<i32> = MastershipSession::Holding;
    assert_eq!(
        session.step(Event::ActionDone(Ok(3))),
        (MastershipSession::Releasing(Ok(3)), Command::Release)
    );
    let session: MastershipSession<i32> = MastershipSession::Holding;
    assert_eq!(
        session.step(Event::ActionDone(Err(String::from("no")))),
        (MastershipSession::Releasing(Err(String::from("no"))), Command::Release)
    );
}

#[test]
fn answered_release_closes_the_session() {
    let session: MastershipSession<i32> = MastershipSession::Releasing(Ok(3));
    assert_eq!(
        session.step(Event::Released(Ok(()))),
        (
            MastershipSession::Closed,
            Command::Finish(ActionOutcome::Ran { action: Ok(3), release: Ok(()) })
        )
    );
}

#[test]
fn events_out_of_turn_are_rejected() {
    let out_of_turn: Vec<(MastershipSession<i32>, Event<i32>)> = vec![
        (MastershipSession::Idle, Event::Acquired(Ok(()))),
        (MastershipSession::Idle, Event::ActionDone(Ok(1))),
        (MastershipSession::Idle, Event::Released(Ok(()))),
        (MastershipSession::Acquiring, Event::Start),
        (MastershipSession::Acquiring, Event::ActionDone(Ok(1))),
        (MastershipSession::Acquiring, Event::Released(Err(String::from("no")))),
        (MastershipSession::Holding, Event::Start),
        (MastershipSession::Holding, Event::Acquired(Ok(()))),
        (MastershipSession::Holding, Event::Released(Ok(()))),
        (MastershipSession::Releasing(Ok(2)), Event::Start),
        (MastershipSession::Releasing(Ok(2)), Event::Acquired(Err(busy()))),
        (MastershipSession::Releasing(Ok(2)), Event::ActionDone(Ok(9))),
        (MastershipSession::Closed, Event::Start),
        (MastershipSession::Closed, Event::Acquired(Ok(()))),
        (MastershipSession::Closed, Event::ActionDone(Ok(1))),
        (MastershipSession::Closed, Event::Released(Ok(()))),
    ];
    for (session, event) in out_of_turn {
        let shown = format!("{:?}", session);
        let (next, command) = session.step(event);
        assert_eq!(format!("{:?}", next), shown);
        assert_eq!(command, Command::Reject);
    }
}
