use futures_channel::oneshot;
use musicus::action::{Action, Catalog, DatabaseError};
use musicus::worker::{DbWorker, WorkerCommand, WorkerEvent};

struct Records;

impl Catalog for Records {
    type Person = String;
    type Instrument = String;
    type Work = String;
    type Ensemble = String;
    type Recording = String;
    type Medium = String;
    type TrackSet = String;
    type Failure = String;
}

fn received(action: Action<Records>) -> WorkerEvent<Records> {
    WorkerEvent::Received(action)
}

fn unit_reply() -> oneshot::Sender<Result<(), DatabaseError<String>>> {
    oneshot::channel().0
}

fn stop() -> Action<Records> {
    Action::Stop(oneshot::channel().0)
}

#[test]
fn serving_worker_executes_actions_unchanged() {
    let mut worker = DbWorker::new();
    assert!(!worker.is_stopped());
    let person = "Johann Sebastian Bach".to_string();
    match worker.handle(received(Action::UpdatePerson(person, unit_reply()))) {
        WorkerCommand::Execute(Action::UpdatePerson(person, _)) => {
            assert_eq!(person, "Johann Sebastian Bach")
        }
        _ => panic!("the update was not executed"),
    }
    let (sender, _receiver) = oneshot::channel();
    match worker.handle(received(Action::GetRecordingsForWork("bwv1007".to_string(), sender))) {
        WorkerCommand::Execute(Action::GetRecordingsForWork(id, _)) => assert_eq!(id, "bwv1007"),
        _ => panic!("the query was not executed"),
    }
    let (sender, _receiver) = oneshot::channel();
    assert!(matches!(
        worker.handle(received(Action::GetPersons(sender))),
        WorkerCommand::Execute(Action::GetPersons(_))
    ));
    assert!(!worker.is_stopped());
}

#[test]
fn executed_action_keeps_its_answer_channel() {
    let mut worker = DbWorker::new();
    let (sender, mut receiver) = oneshot::channel();
    match worker.handle(received(Action::RecordingExists("r1".to_string(), sender))) {
        WorkerCommand::Execute(Action::RecordingExists(id, answer)) => {
            assert_eq!(id, "r1");
            answer.send(Ok(true)).unwrap();
        }
        _ => panic!("the query was not executed"),
    }
    assert_eq!(receiver.try_recv().unwrap(), Some(Ok(true)));
}

#[test]
fn stop_is_acknowledged_on_its_channel_and_ends_the_loop() {
    let mut worker = DbWorker::new();
    let (sender, mut receiver) = oneshot::channel();
    match worker.handle(received(Action::Stop(sender))) {
        WorkerCommand::AcknowledgeStop(answer) => answer.send(()).unwrap(),
        _ => panic!("the stop request was not acknowledged"),
    }
    assert_eq!(receiver.try_recv().unwrap(), Some(()));
    assert!(worker.is_stopped());
}

#[test]
fn stopped_worker_executes_nothing() {
    let mut worker = DbWorker::new();
    worker.handle(received(stop()));
    assert!(matches!(
        worker.handle(received(Action::DeleteRecording("r1".to_string(), unit_reply()))),
        WorkerCommand::Exit
    ));
    assert!(matches!(worker.handle(received(stop())), WorkerCommand::Exit));
    assert!(matches!(worker.handle(WorkerEvent::<Records>::Disconnected), WorkerCommand::Exit));
    assert!(worker.is_stopped());
}

#[test]
fn closed_channel_ends_the_loop_silently() {
    let mut worker = DbWorker::new();
    assert!(matches!(worker.handle(WorkerEvent::<Records>::Disconnected), WorkerCommand::Exit));
    assert!(worker.is_stopped());
    let (sender, _receiver) = oneshot::channel();
    assert!(matches!(worker.handle(received(Action::GetEnsembles(sender))), WorkerCommand::Exit));
}

#[test]
fn actions_before_stop_are_served_in_order() {
    let mut worker = DbWorker::new();
    let events = vec![
        received(Action::GetPerson("a".to_string(), oneshot::channel().0)),
        received(Action::DeletePerson("b".to_string(), unit_reply())),
        received(stop()),
        received(Action::GetPerson("c".to_string(), oneshot::channel().0)),
    ];
    let mut executed = Vec::new();
    let mut acknowledged = 0;
    for event in events {
        match worker.handle(event) {
            WorkerCommand::Execute(Action::GetPerson(id, _)) => executed.push(format!("get {}", id)),
            WorkerCommand::Execute(Action::DeletePerson(id, _)) => {
                executed.push(format!("delete {}", id))
            }
            WorkerCommand::Execute(_) => panic!("an unexpected action was executed"),
            WorkerCommand::AcknowledgeStop(_) => acknowledged += 1,
            WorkerCommand::Exit => {}
        }
    }
    assert_eq!(executed, vec!["get a".to_string(), "delete b".to_string()]);
    assert_eq!(acknowledged, 1);
}
