use carreras::carrera::Carrera;
use carreras::handlers::{Command, Outcome};
use carreras::request::{parse_request, Request};
use carreras::response::Status;
use carreras::store::Table;

fn request(method: &str, path: &str, body: &str) -> Request {
    Request { method: method.to_string(), path: path.to_string(), body: body.to_string() }
}

fn insert(name: &str, key: &str) -> Command {
    Command::Insert { name: name.to_string(), key: key.to_string() }
}

fn record(id: i32, name: &str, key: &str) -> Carrera {
    Carrera { id: Some(id), name: name.to_string(), key: key.to_string() }
}

#[test]
fn new_table_is_empty() {
    let mut t = Table::new();
    assert_eq!(t.execute(&Command::FetchAll), Outcome::Rows(vec![]));
    assert_eq!(t.execute(&Command::FetchOne { id: 1 }), Outcome::NoRow);
    assert_eq!(t.execute(&Command::Delete { id: 1 }), Outcome::Affected(0));
}

#[test]
fn insert_hands_out_ids_from_one() {
    let mut t = Table::new();
    assert_eq!(t.execute(&insert("a", "b")), Outcome::Done);
    assert_eq!(t.execute(&insert("c", "d")), Outcome::Done);
    assert_eq!(t.execute(&Command::FetchAll), Outcome::Rows(vec![record(1, "a", "b"), record(2, "c", "d")]));
    assert_eq!(t.execute(&Command::FetchOne { id: 2 }), Outcome::Row(record(2, "c", "d")));
}

#[test]
fn ids_are_not_used_again() {
    let mut t = Table::new();
    t.execute(&insert("a", "b"));
    t.execute(&insert("c", "d"));
    assert_eq!(t.execute(&Command::Delete { id: 2 }), Outcome::Affected(1));
    t.execute(&insert("e", "f"));
    assert_eq!(t.execute(&Command::FetchAll), Outcome::Rows(vec![record(1, "a", "b"), record(3, "e", "f")]));
}

#[test]
fn update_changes_one_row_in_place() {
    let mut t = Table::new();
    t.execute(&insert("a", "b"));
    t.execute(&insert("c", "d"));
    t.execute(&insert("e", "f"));
    let update = Command::Update { id: 2, name: "x".to_string(), key: "y".to_string() };
    assert_eq!(t.execute(&update), Outcome::Done);
    let rows = vec![record(1, "a", "b"), record(2, "x", "y"), record(3, "e", "f")];
    assert_eq!(t.execute(&Command::FetchAll), Outcome::Rows(rows));
}

#[test]
fn update_twice_is_update_once() {
    let mut t = Table::new();
    t.execute(&insert("a", "b"));
    let update = Command::Update { id: 1, name: "x".to_string(), key: "y".to_string() };
    t.execute(&update);
    let once = t.execute(&Command::FetchAll);
    t.execute(&update);
    assert_eq!(t.execute(&Command::FetchAll), once);
    assert_eq!(once, Outcome::Rows(vec![record(1, "x", "y")]));
}

#[test]
fn update_of_an_absent_id_succeeds_and_changes_nothing() {
    let mut t = Table::new();
    t.execute(&insert("a", "b"));
    let r = t.serve(&request("PUT", "/carreras/5", "{\"name\":\"x\",\"key\":\"y\"}"));
    assert_eq!(r.status, Status::Success);
    assert_eq!(r.body, "Carrera actualizada");
    assert_eq!(t.execute(&Command::FetchAll), Outcome::Rows(vec![record(1, "a", "b")]));
}

#[test]
fn delete_removes_one_row() {
    let mut t = Table::new();
    t.execute(&insert("a", "b"));
    t.execute(&insert("c", "d"));
    t.execute(&insert("e", "f"));
    assert_eq!(t.execute(&Command::Delete { id: 2 }), Outcome::Affected(1));
    assert_eq!(t.execute(&Command::FetchAll), Outcome::Rows(vec![record(1, "a", "b"), record(3, "e", "f")]));
    assert_eq!(t.execute(&Command::Delete { id: 2 }), Outcome::Affected(0));
    assert_eq!(t.execute(&Command::FetchOne { id: 2 }), Outcome::NoRow);
}

#[test]
fn created_record_is_listed_with_a_fresh_id() {
    let mut t = Table::new();
    t.execute(&insert("old", "O"));
    t.execute(&insert("older", "OO"));
    t.execute(&Command::Delete { id: 2 });
    let r = t.serve(&request("POST", "/carreras", "{\"name\":\"Law\",\"key\":\"LAW\"}"));
    assert_eq!(r.status, Status::Success);
    let listing = t.serve(&request("GET", "/carreras", ""));
    assert_eq!(listing.status, Status::Success);
    assert_eq!(
        listing.body,
        "[{\"id\":1,\"name\":\"old\",\"key\":\"O\"},{\"id\":3,\"name\":\"Law\",\"key\":\"LAW\"}]"
    );
}

#[test]
fn absent_id_gives_404_for_get_and_delete() {
    let mut t = Table::new();
    t.execute(&insert("a", "b"));
    let r = t.serve(&request("GET", "/carreras/2", ""));
    assert_eq!(r.status, Status::NotFound);
    assert_eq!(r.body, "Carrera no encontrada");
    let r = t.serve(&request("DELETE", "/carreras/2", ""));
    assert_eq!(r.status, Status::NotFound);
    assert_eq!(r.body, "Carrera no encontrada");
    let r = t.serve(&request("GET", "/carreras/1", ""));
    assert_eq!(r.status, Status::Success);
    assert_eq!(r.body, "{\"id\":1,\"name\":\"a\",\"key\":\"b\"}");
}

#[test]
fn second_delete_gives_404() {
    let mut t = Table::new();
    t.execute(&insert("a", "b"));
    let request = request("DELETE", "/carreras/1", "");
    let first = t.serve(&request);
    assert_eq!(first.status, Status::Success);
    assert_eq!(first.body, "Carrera eliminada");
    let second = t.serve(&request);
    assert_eq!(second.status, Status::NotFound);
}

#[test]
fn serve_rejects_without_touching_the_table() {
    let mut t = Table::new();
    t.execute(&insert("a", "b"));
    assert_eq!(t.serve(&request("GET", "/carreras/x", "")).status, Status::ServerError);
    assert_eq!(t.serve(&request("PUT", "/carreras/1", "{}")).status, Status::ServerError);
    assert_eq!(t.serve(&request("DELETE", "/other/1", "")).status, Status::NotFound);
    assert_eq!(t.execute(&Command::FetchAll), Outcome::Rows(vec![record(1, "a", "b")]));
}

#[test]
fn scenario_create_update_delete() {
    let mut t = Table::new();

    let r = t.serve(&parse_request(
        b"POST /carreras HTTP/1.1\r\nContent-Type: application/json\r\n\r\n{\"id\":null,\"name\":\"Systems\",\"key\":\"SYS-1\"}",
    ));
    assert_eq!(r.status, Status::Success);
    assert_eq!(r.body, "Carrea añadida con éxito");
    assert_eq!(r.to_text(), "HTTP/1.1 200 OK\r\nContent-Type: application/json\r\n\r\nCarrea añadida con éxito");

    let r = t.serve(&parse_request(b"GET /carreras HTTP/1.1\r\n\r\n"));
    assert_eq!(r.status, Status::Success);
    assert_eq!(r.body, "[{\"id\":1,\"name\":\"Systems\",\"key\":\"SYS-1\"}]");
    assert!(r.body.contains("name\":\"Systems\""));

    let r = t.serve(&parse_request(
        b"PUT /carreras/1 HTTP/1.1\r\n\r\n{\"name\":\"Systems Eng\",\"key\":\"SYS-1\"}",
    ));
    assert_eq!(r.status, Status::Success);

    let r = t.serve(&parse_request(b"GET /carreras/1 HTTP/1.1\r\n\r\n"));
    assert_eq!(r.status, Status::Success);
    assert_eq!(r.body, "{\"id\":1,\"name\":\"Systems Eng\",\"key\":\"SYS-1\"}");
    assert!(r.body.contains("\"Systems Eng\""));

    let r = t.serve(&parse_request(b"DELETE /carreras/1 HTTP/1.1\r\n\r\n"));
    assert_eq!(r.status, Status::Success);
    let r = t.serve(&parse_request(b"DELETE /carreras/1 HTTP/1.1\r\n\r\n"));
    assert_eq!(r.status, Status::NotFound);

    let r = t.serve(&parse_request(b"GET /carreras/999 HTTP/1.1\r\n\r\n"));
    assert_eq!(r.status, Status::NotFound);

    let r = t.serve(&parse_request(b"POST /carreras HTTP/1.1\r\n\r\n{\"name\": Systems"));
    assert_eq!(r.status, Status::ServerError);
    assert_eq!(r.body, "Error");
    assert_eq!(r.to_text(), "HTTP/1.1 500 INTERNAL SERVER ERROR\r\n\r\nError");
}
