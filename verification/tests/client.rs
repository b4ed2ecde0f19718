use futures_channel::oneshot::Canceled;
use musicus::action::DatabaseError;
use musicus::client::{hand_over, take_acknowledgement, take_answer};

#[test]
fn refused_send_means_the_thread_is_gone() {
    let refused: Result<(), &str> = Err("receiver dropped");
    assert_eq!(hand_over::<&str, String>(refused), Err(DatabaseError::SendFailed));
    assert_eq!(hand_over::<&str, String>(Ok(())), Ok(()));
}

#[test]
fn answer_is_returned_as_it_is() {
    let found: Result<Result<Option<u32>, DatabaseError<String>>, Canceled> = Ok(Ok(Some(7)));
    assert_eq!(take_answer(found), Ok(Some(7)));
    let failed: Result<Result<Option<u32>, DatabaseError<String>>, Canceled> =
        Ok(Err(DatabaseError::Backend("no such table".to_string())));
    assert_eq!(take_answer(failed), Err(DatabaseError::Backend("no such table".to_string())));
}

#[test]
fn dropped_answer_channel_is_an_error() {
    let dropped: Result<Result<bool, DatabaseError<String>>, Canceled> = Err(Canceled);
    assert_eq!(take_answer(dropped), Err(DatabaseError::ReplyCanceled));
}

#[test]
fn stop_succeeds_once_acknowledged() {
    assert_eq!(take_acknowledgement::<String>(Ok(())), Ok(()));
    assert_eq!(take_acknowledgement::<String>(Err(Canceled)), Err(DatabaseError::ReplyCanceled));
}

#[test]
fn answer_through_real_channel() {
    let (sender, mut receiver) = futures_channel::oneshot::channel::<Result<bool, DatabaseError<String>>>();
    sender.send(Ok(true)).unwrap();
    let arrived = receiver.try_recv().unwrap().ok_or(Canceled);
    assert_eq!(take_answer(arrived), Ok(true));

    let (sender, mut receiver) = futures_channel::oneshot::channel::<Result<bool, DatabaseError<String>>>();
    drop(sender);
    let arrived = match receiver.try_recv() {
        Ok(Some(answer)) => Ok(answer),
        Ok(None) => panic!("nothing arrived yet"),
        Err(canceled) => Err(canceled),
    };
    assert_eq!(take_answer(arrived), Err(DatabaseError::ReplyCanceled));
}
