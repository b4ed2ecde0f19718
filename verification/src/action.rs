use vstd::prelude::*;
use futures_channel::oneshot::Sender;

verus! {

/// `futures_channel::oneshot::Sender<T>`, the sending half of the one-shot
/// channel on which the database thread answers an action. Verus sees
/// nothing inside it; the library only carries it from the client to the
/// database thread.
#[verifier::external_type_specification]
#[verifier::external_body]
#[verifier::reject_recursive_types(T)]
pub struct ExOneshotSender<T>(Sender<T>);

/// The record types that a catalog database stores, and the error of the
/// database itself. The database thread only passes records through, so the
/// protocol is generic over them.
pub trait Catalog {
    type Person;
    type Instrument;
    type Work;
    type Ensemble;
    type Recording;
    type Medium;
    type TrackSet;
    type Failure;
}

/// Errors of a database access through the database thread.
#[derive(Debug, Clone, PartialEq, Eq)]
pub enum DatabaseError<F> {
    /// The database itself failed (a query, a connection, a missing item).
    Backend(F),
    /// The action could not be handed to the database thread, which has
    /// stopped.
    SendFailed,
    /// The database thread dropped the answer channel without answering.
    ReplyCanceled,
}

/// The result of a database access.
pub type DatabaseResult<T, F> = Result<T, DatabaseError<F>>;

/// The channel on which the database thread answers with a `T`.
pub type Reply<C, T> = Sender<DatabaseResult<T, <C as Catalog>::Failure>>;

/// An action the database thread can perform, together with the channel on
/// which it answers.
pub enum Action<C: Catalog> {
    UpdatePerson(C::Person, Reply<C, ()>),
    GetPerson(String, Reply<C, Option<C::Person>>),
    DeletePerson(String, Reply<C, ()>),
    GetPersons(Reply<C, Vec<C::Person>>),
    UpdateInstrument(C::Instrument, Reply<C, ()>),
    GetInstrument(String, Reply<C, Option<C::Instrument>>),
    DeleteInstrument(String, Reply<C, ()>),
    GetInstruments(Reply<C, Vec<C::Instrument>>),
    UpdateWork(C::Work, Reply<C, ()>),
    DeleteWork(String, Reply<C, ()>),
    GetWorks(String, Reply<C, Vec<C::Work>>),
    UpdateEnsemble(C::Ensemble, Reply<C, ()>),
    GetEnsemble(String, Reply<C, Option<C::Ensemble>>),
    DeleteEnsemble(String, Reply<C, ()>),
    GetEnsembles(Reply<C, Vec<C::Ensemble>>),
    UpdateRecording(C::Recording, Reply<C, ()>),
    DeleteRecording(String, Reply<C, ()>),
    GetRecordingsForPerson(String, Reply<C, Vec<C::Recording>>),
    GetRecordingsForEnsemble(String, Reply<C, Vec<C::Recording>>),
    GetRecordingsForWork(String, Reply<C, Vec<C::Recording>>),
    RecordingExists(String, Reply<C, bool>),
    UpdateMedium(C::Medium, Reply<C, ()>),
    GetMedium(String, Reply<C, Option<C::Medium>>),
    DeleteMedium(String, Reply<C, ()>),
    GetTrackSets(String, Reply<C, Vec<C::TrackSet>>),
    Stop(Sender<()>),
}

} // verus!
