//! The five operations. Each request is handled in two steps with the store
//! between them: `plan` turns a request into one statement for the store, or
//! rejects it; `respond` turns what the store answered into a response.
//! Neither touches the store.

use vstd::prelude::*;
use vstd::string::*;
use crate::carrera::{Carrera, CarreraView, views};
use crate::codec::{decode, decoded, encode, encode_all, encoded, encoded_all, DecodeError};
use crate::id::{id_value, parse_id};
use crate::request::{accepted, lossy_text, parse_request, parsed, Request, RequestView};
use crate::response::{Response, ResponseView, Status};
use crate::text::{get_id, id_text, same_text, starts_with};

verus! {

/// Which handler a request goes to.
#[derive(Clone, Copy, Debug, PartialEq, Eq, Structural)]
pub enum Route {
    Create,
    GetOne,
    GetAll,
    Update,
    Delete,
    Unknown,
}

/// The handler for a method and a path: the first of these rules that
/// matches. `/carreras/` is tried before `/carreras`, of which it is a
/// special case.
pub open spec fn route_of(method: Seq<char>, path: Seq<char>) -> Route {
    if method == "POST"@ && "/carreras"@.is_prefix_of(path) {
        Route::Create
    } else if method == "GET"@ && "/carreras/"@.is_prefix_of(path) {
        Route::GetOne
    } else if method == "GET"@ && "/carreras"@.is_prefix_of(path) {
        Route::GetAll
    } else if method == "PUT"@ && "/carreras/"@.is_prefix_of(path) {
        Route::Update
    } else if method == "DELETE"@ && "/carreras/"@.is_prefix_of(path) {
        Route::Delete
    } else {
        Route::Unknown
    }
}

/// Chooses the handler for a method and a path.
pub fn route(method: &str, path: &str) -> (r: Route)
    ensures
        r == route_of(method@, path@),
{
    if same_text(method, "POST") && starts_with(path, "/carreras") {
        Route::Create
    } else if same_text(method, "GET") && starts_with(path, "/carreras/") {
        Route::GetOne
    } else if same_text(method, "GET") && starts_with(path, "/carreras") {
        Route::GetAll
    } else if same_text(method, "PUT") && starts_with(path, "/carreras/") {
        Route::Update
    } else if same_text(method, "DELETE") && starts_with(path, "/carreras/") {
        Route::Delete
    } else {
        Route::Unknown
    }
}

/// One statement for the store.
#[derive(Debug, PartialEq, Eq)]
pub enum Command {
    Insert { name: String, key: String },
    FetchOne { id: i32 },
    FetchAll,
    Update { id: i32, name: String, key: String },
    Delete { id: i32 },
}

/// A `Command` as contracts see it.
pub enum CommandView {
    Insert { name: Seq<char>, key: Seq<char> },
    FetchOne { id: int },
    FetchAll,
    Update { id: int, name: Seq<char>, key: Seq<char> },
    Delete { id: int },
}

impl View for Command {
    type V = CommandView;

    open spec fn view(&self) -> CommandView {
        match self {
            Command::Insert { name, key } => CommandView::Insert { name: name@, key: key@ },
            Command::FetchOne { id } => CommandView::FetchOne { id: *id as int },
            Command::FetchAll => CommandView::FetchAll,
            Command::Update { id, name, key } => CommandView::Update {
                id: *id as int,
                name: name@,
                key: key@,
            },
            Command::Delete { id } => CommandView::Delete { id: *id as int },
        }
    }
}

/// Why a request gets its response without a statement for the store.
#[derive(Clone, Copy, Debug, PartialEq, Eq, Structural)]
pub enum Rejection {
    /// No handler for this method and path.
    UnknownRoute,
    /// The path names no id.
    BadId,
    /// The body gives no record.
    BadBody(DecodeError),
}

/// What to do with a request.
#[derive(Debug, PartialEq, Eq)]
pub enum Step {
    Run(Command),
    Reject(Rejection),
}

/// A `Step` as contracts see it.
pub enum StepView {
    Run(CommandView),
    Reject(Rejection),
}

impl View for Step {
    type V = StepView;

    open spec fn view(&self) -> StepView {
        match self {
            Step::Run(command) => StepView::Run(command@),
            Step::Reject(why) => StepView::Reject(*why),
        }
    }
}

/// What the store answered.
#[derive(Debug, PartialEq, Eq)]
pub enum Outcome {
    /// The statement ran; it returns nothing.
    Done,
    /// The row that was asked for.
    Row(Carrera),
    /// There is no such row.
    NoRow,
    /// All rows, in the store's order.
    Rows(Vec<Carrera>),
    /// How many rows the statement changed.
    Affected(u64),
    /// The store could not be reached, or refused the statement.
    Failed,
}

/// An `Outcome` as contracts see it.
pub enum OutcomeView {
    Done,
    Row(CarreraView),
    NoRow,
    Rows(Seq<CarreraView>),
    Affected(nat),
    Failed,
}

impl View for Outcome {
    type V = OutcomeView;

    open spec fn view(&self) -> OutcomeView {
        match self {
            Outcome::Done => OutcomeView::Done,
            Outcome::Row(c) => OutcomeView::Row(c@),
            Outcome::NoRow => OutcomeView::NoRow,
            Outcome::Rows(rows) => OutcomeView::Rows(views(rows@)),
            Outcome::Affected(n) => OutcomeView::Affected(*n as nat),
            Outcome::Failed => OutcomeView::Failed,
        }
    }
}

/// The id that a path names.
pub open spec fn path_id(path: Seq<char>) -> Option<int> {
    id_value(id_text(path))
}

/// A create request gives an insert of the record in its body.
pub open spec fn planned_create(request: RequestView) -> StepView {
    match decoded(request.body) {
        Ok(c) => StepView::Run(CommandView::Insert { name: c.name, key: c.key }),
        Err(e) => StepView::Reject(Rejection::BadBody(e)),
    }
}

/// A get-one request gives a fetch of the row that its path names.
pub open spec fn planned_get(request: RequestView) -> StepView {
    match path_id(request.path) {
        Some(id) => StepView::Run(CommandView::FetchOne { id }),
        None => StepView::Reject(Rejection::BadId),
    }
}

/// An update request gives an update of the row that its path names to the
/// record in its body. The id is looked at first: a request with neither id nor record is
/// rejected for its id.
pub open spec fn planned_update(request: RequestView) -> StepView {
    match path_id(request.path) {
        Some(id) => match decoded(request.body) {
            Ok(c) => StepView::Run(CommandView::Update { id, name: c.name, key: c.key }),
            Err(e) => StepView::Reject(Rejection::BadBody(e)),
        },
        None => StepView::Reject(Rejection::BadId),
    }
}

/// A delete request gives a delete of the row that its path names.
pub open spec fn planned_delete(request: RequestView) -> StepView {
    match path_id(request.path) {
        Some(id) => StepView::Run(CommandView::Delete { id }),
        None => StepView::Reject(Rejection::BadId),
    }
}

/// What is done with a request.
pub open spec fn planned(request: RequestView) -> StepView {
    match route_of(request.method, request.path) {
        Route::Create => planned_create(request),
        Route::GetOne => planned_get(request),
        Route::GetAll => StepView::Run(CommandView::FetchAll),
        Route::Update => planned_update(request),
        Route::Delete => planned_delete(request),
        Route::Unknown => StepView::Reject(Rejection::UnknownRoute),
    }
}

/// Plans a create request.
pub fn handle_post_request(request: &Request) -> (r: Step)
    ensures
        r@ == planned_create(request@),
{
    match decode(request.body.as_str()) {
        Ok(c) => Step::Run(Command::Insert { name: c.name, key: c.key }),
        Err(e) => Step::Reject(Rejection::BadBody(e)),
    }
}

/// Plans a get-one request.
pub fn handle_get_request(request: &Request) -> (r: Step)
    ensures
        r@ == planned_get(request@),
{
    match parse_id(get_id(request.path.as_str())) {
        Some(id) => Step::Run(Command::FetchOne { id }),
        None => Step::Reject(Rejection::BadId),
    }
}

/// Plans a get-all request: a listing, whatever else the request holds.
pub fn handle_get_all_request(_request: &Request) -> (r: Step)
    ensures
        r@ == StepView::Run(CommandView::FetchAll),
{
    Step::Run(Command::FetchAll)
}

/// Plans an update request.
pub fn handle_put_request(request: &Request) -> (r: Step)
    ensures
        r@ == planned_update(request@),
{
    match parse_id(get_id(request.path.as_str())) {
        Some(id) => match decode(request.body.as_str()) {
            Ok(c) => Step::Run(Command::Update { id, name: c.name, key: c.key }),
            Err(e) => Step::Reject(Rejection::BadBody(e)),
        },
        None => Step::Reject(Rejection::BadId),
    }
}

/// Plans a delete request.
pub fn handle_delete_request(request: &Request) -> (r: Step)
    ensures
        r@ == planned_delete(request@),
{
    match parse_id(get_id(request.path.as_str())) {
        Some(id) => Step::Run(Command::Delete { id }),
        None => Step::Reject(Rejection::BadId),
    }
}

/// Says what to do with a request.
pub fn plan(request: &Request) -> (r: Step)
    ensures
        r@ == planned(request@),
{
    match route(request.method.as_str(), request.path.as_str()) {
        Route::Create => handle_post_request(request),
        Route::GetOne => handle_get_request(request),
        Route::GetAll => handle_get_all_request(request),
        Route::Update => handle_put_request(request),
        Route::Delete => handle_delete_request(request),
        Route::Unknown => Step::Reject(Rejection::UnknownRoute),
    }
}

/// Reads the bytes of one request and says what to do with it.
pub fn handle_carreras(bytes: &[u8]) -> (r: Step)
    ensures
        r@ == planned(parsed(lossy_text(accepted(bytes@)))),
{
    let request: Request = parse_request(bytes);
    plan(&request)
}

/// The response to a request that was rejected: 404 where no handler
/// matched, 500 for every other cause.
pub open spec fn rejected(why: Rejection) -> ResponseView {
    match why {
        Rejection::UnknownRoute => ResponseView { status: Status::NotFound, body: "404 Not Found"@ },
        _ => ResponseView { status: Status::ServerError, body: "Error"@ },
    }
}

/// The response to a request whose statement the store has answered. An
/// answer that does not belong to the statement counts as a failure of the
/// store.
pub open spec fn answered(command: CommandView, outcome: OutcomeView) -> ResponseView {
    match (command, outcome) {
        (CommandView::Insert { .. }, OutcomeView::Done) => ResponseView {
            status: Status::Success,
            body: "Carrea añadida con éxito"@,
        },
        (CommandView::FetchOne { .. }, OutcomeView::Row(c)) => ResponseView {
            status: Status::Success,
            body: encoded(c),
        },
        (CommandView::FetchOne { .. }, OutcomeView::NoRow) => ResponseView {
            status: Status::NotFound,
            body: "Carrera no encontrada"@,
        },
        (CommandView::FetchAll, OutcomeView::Rows(rows)) => ResponseView {
            status: Status::Success,
            body: encoded_all(rows),
        },
        (CommandView::Update { .. }, OutcomeView::Done) => ResponseView {
            status: Status::Success,
            body: "Carrera actualizada"@,
        },
        (CommandView::Delete { .. }, OutcomeView::Affected(n)) => if n == 0 {
            ResponseView { status: Status::NotFound, body: "Carrera no encontrada"@ }
        } else {
            ResponseView { status: Status::Success, body: "Carrera eliminada"@ }
        },
        _ => ResponseView { status: Status::ServerError, body: "Error"@ },
    }
}

/// The response to a request that was rejected.
pub fn reject(why: Rejection) -> (r: Response)
    ensures
        r@ == rejected(why),
{
    match why {
        Rejection::UnknownRoute => Response::new(Status::NotFound, "404 Not Found"),
        _ => Response::new(Status::ServerError, "Error"),
    }
}

/// The response to a request, given what the store answered to its
/// statement.
pub fn respond(command: &Command, outcome: &Outcome) -> (r: Response)
    ensures
        r@ == answered(command@, outcome@),
{
    match (command, outcome) {
        (Command::Insert { .. }, Outcome::Done) => Response::new(
            Status::Success,
            "Carrea añadida con éxito",
        ),
        (Command::FetchOne { .. }, Outcome::Row(c)) => Response {
            status: Status::Success,
            body: encode(c),
        },
        (Command::FetchOne { .. }, Outcome::NoRow) => Response::new(
            Status::NotFound,
            "Carrera no encontrada",
        ),
        (Command::FetchAll, Outcome::Rows(rows)) => Response {
            status: Status::Success,
            body: encode_all(rows),
        },
        (Command::Update { .. }, Outcome::Done) => Response::new(
            Status::Success,
            "Carrera actualizada",
        ),
        (Command::Delete { .. }, Outcome::Affected(n)) => if *n == 0 {
            Response::new(Status::NotFound, "Carrera no encontrada")
        } else {
            Response::new(Status::Success, "Carrera eliminada")
        },
        _ => Response::new(Status::ServerError, "Error"),
    }
}

} // verus!
