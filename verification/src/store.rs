//! The table of records as the handlers rely on it, and a table in memory
//! that behaves so. The service proper keeps its table in a database; what
//! is stated here is what each statement does to a table and what it
//! answers.

use vstd::prelude::*;
use vstd::string::*;
use crate::carrera::{Carrera, CarreraView, views};
use crate::handlers::{answered, plan, planned, reject, rejected, respond, Command, CommandView, Outcome, OutcomeView, Step, StepView};
use crate::request::{Request, RequestView};
use crate::response::{Response, ResponseView};

verus! {

/// A table: its rows in the order of their insertion, and the id that the
/// next row will get.
pub struct TableView {
    pub rows: Seq<CarreraView>,
    pub next_id: int,
}

/// Every row has an id that was handed out already, and no two rows share
/// one.
pub open spec fn well_formed(t: TableView) -> bool {
    &&& 1 <= t.next_id <= i32::MAX
    &&& forall|i: int|
        0 <= i < t.rows.len() ==> (#[trigger] t.rows[i]).id is Some && 1 <= t.rows[i].id->0
            < t.next_id
    &&& forall|i: int, j: int|
        0 <= i < j < t.rows.len() ==> (#[trigger] t.rows[i]).id != (#[trigger] t.rows[j]).id
}

/// The position at or after `from` of the first row with the given id; the
/// number of rows where there is none.
pub open spec fn find_row(rows: Seq<CarreraView>, id: int, from: int) -> int
    decreases rows.len() - from,
{
    if from < 0 || from >= rows.len() {
        rows.len() as int
    } else if rows[from].id == Some(id) {
        from
    } else {
        find_row(rows, id, from + 1)
    }
}

/// Whether a row has the given id.
pub open spec fn has_row(rows: Seq<CarreraView>, id: int) -> bool {
    find_row(rows, id, 0) < rows.len()
}

/// `find_row` finds a row with the id, and none stands before it.
pub proof fn lemma_find_row(rows: Seq<CarreraView>, id: int, from: int)
    requires
        0 <= from <= rows.len(),
    ensures
        from <= find_row(rows, id, from) <= rows.len(),
        find_row(rows, id, from) < rows.len() ==> rows[find_row(rows, id, from)].id == Some(id),
        forall|i: int| from <= i < find_row(rows, id, from) ==> (#[trigger] rows[i]).id != Some(id),
    decreases rows.len() - from,
{
    if from < rows.len() && rows[from].id != Some(id) {
        lemma_find_row(rows, id, from + 1);
    }
}

/// What a statement does to a table, and what the table answers. An insert
/// fails where the ids have run out; nothing else does.
pub open spec fn ran(t: TableView, command: CommandView) -> (TableView, OutcomeView) {
    match command {
        CommandView::Insert { name, key } => if t.next_id < i32::MAX {
            (
                TableView {
                    rows: t.rows.push(CarreraView { id: Some(t.next_id), name, key }),
                    next_id: t.next_id + 1,
                },
                OutcomeView::Done,
            )
        } else {
            (t, OutcomeView::Failed)
        },
        CommandView::FetchOne { id } => if has_row(t.rows, id) {
            (t, OutcomeView::Row(t.rows[find_row(t.rows, id, 0)]))
        } else {
            (t, OutcomeView::NoRow)
        },
        CommandView::FetchAll => (t, OutcomeView::Rows(t.rows)),
        CommandView::Update { id, name, key } => if has_row(t.rows, id) {
            (
                TableView {
                    rows: t.rows.update(
                        find_row(t.rows, id, 0),
                        CarreraView { id: Some(id), name, key },
                    ),
                    next_id: t.next_id,
                },
                OutcomeView::Done,
            )
        } else {
            (t, OutcomeView::Done)
        },
        CommandView::Delete { id } => if has_row(t.rows, id) {
            (
                TableView { rows: t.rows.remove(find_row(t.rows, id, 0)), next_id: t.next_id },
                OutcomeView::Affected(1),
            )
        } else {
            (t, OutcomeView::Affected(0))
        },
    }
}

/// What serving a request does to a table, and the response.
pub open spec fn served(t: TableView, request: RequestView) -> (TableView, ResponseView) {
    match planned(request) {
        StepView::Run(command) => (ran(t, command).0, answered(command, ran(t, command).1)),
        StepView::Reject(why) => (t, rejected(why)),
    }
}

/// Statements keep a table well formed, and never take an id back.
pub proof fn lemma_ran_well_formed(t: TableView, command: CommandView)
    requires
        well_formed(t),
    ensures
        well_formed(ran(t, command).0),
        ran(t, command).0.next_id >= t.next_id,
{
    let after = ran(t, command).0;
    match command {
        CommandView::Insert { name, key } => {
            if t.next_id < i32::MAX {
                assert forall|i: int, j: int| 0 <= i < j < after.rows.len() implies (
                #[trigger] after.rows[i]).id != (#[trigger] after.rows[j]).id by {
                    assert(after.rows[i] == t.rows[i]);
                    if j < t.rows.len() {
                        assert(after.rows[j] == t.rows[j]);
                    }
                }
                assert forall|i: int| 0 <= i < after.rows.len() implies (
                #[trigger] after.rows[i]).id is Some && 1 <= after.rows[i].id->0
                    < after.next_id by {
                    if i < t.rows.len() {
                        assert(after.rows[i] == t.rows[i]);
                    }
                }
            }
        },
        CommandView::Update { id, name, key } => {
            lemma_find_row(t.rows, id, 0);
            if has_row(t.rows, id) {
                let p = find_row(t.rows, id, 0);
                assert forall|i: int| 0 <= i < after.rows.len() implies (
                #[trigger] after.rows[i]).id == t.rows[i].id by {}
                assert forall|i: int, j: int| 0 <= i < j < after.rows.len() implies (
                #[trigger] after.rows[i]).id != (#[trigger] after.rows[j]).id by {
                    assert(after.rows[i].id == t.rows[i].id);
                    assert(after.rows[j].id == t.rows[j].id);
                }
                assert forall|i: int| 0 <= i < after.rows.len() implies (
                #[trigger] after.rows[i]).id is Some && 1 <= after.rows[i].id->0
                    < after.next_id by {
                    assert(after.rows[i].id == t.rows[i].id);
                }
            }
        },
        CommandView::Delete { id } => {
            lemma_find_row(t.rows, id, 0);
            if has_row(t.rows, id) {
                let p = find_row(t.rows, id, 0);
                assert forall|i: int| 0 <= i < after.rows.len() implies #[trigger] after.rows[i]
                    == t.rows[if i < p {
                    i
                } else {
                    i + 1
                }] by {}
                assert forall|i: int, j: int| 0 <= i < j < after.rows.len() implies (
                #[trigger] after.rows[i]).id != (#[trigger] after.rows[j]).id by {
                    let a = if i < p { i } else { i + 1 };
                    let b = if j < p { j } else { j + 1 };
                    assert(after.rows[i] == t.rows[a]);
                    assert(after.rows[j] == t.rows[b]);
                }
                assert forall|i: int| 0 <= i < after.rows.len() implies (
                #[trigger] after.rows[i]).id is Some && 1 <= after.rows[i].id->0
                    < after.next_id by {
                    let a = if i < p { i } else { i + 1 };
                    assert(after.rows[i] == t.rows[a]);
                }
            }
        },
        _ => {},
    }
}

/// A table in memory.
pub struct Table {
    rows: Vec<Carrera>,
    next_id: i32,
}

impl View for Table {
    type V = TableView;

    closed spec fn view(&self) -> TableView {
        TableView { rows: views(self.rows@), next_id: self.next_id as int }
    }
}

impl Table {
    /// An empty table, whose first row will get the id 1.
    pub fn new() -> (r: Table)
        ensures
            well_formed(r@),
            r@ == (TableView { rows: Seq::empty(), next_id: 1 }),
    {
        let r = Table { rows: Vec::new(), next_id: 1 };
        assert(views(r.rows@) =~= Seq::<CarreraView>::empty());
        r
    }

    fn locate(&self, id: i32) -> (r: usize)
        ensures
            r == find_row(self@.rows, id as int, 0),
            r <= self.rows@.len(),
            self@.rows.len() == self.rows@.len(),
    {
        let mut i: usize = 0;
        while i < self.rows.len()
            invariant
                i <= self.rows@.len(),
                self@.rows == views(self.rows@),
                find_row(self@.rows, id as int, 0) == find_row(self@.rows, id as int, i as int),
            decreases self.rows.len() - i,
        {
            let found: bool = match self.rows[i].id {
                Some(k) => k == id,
                None => false,
            };
            if found {
                return i;
            }
            i += 1;
        }
        i
    }

    fn all_rows(&self) -> (r: Vec<Carrera>)
        ensures
            views(r@) == self@.rows,
    {
        let mut out: Vec<Carrera> = Vec::new();
        let mut i: usize = 0;
        while i < self.rows.len()
            invariant
                i <= self.rows@.len(),
                out@.len() == i,
                forall|j: int| 0 <= j < i ==> out@[j]@ == self.rows@[j]@,
            decreases self.rows.len() - i,
        {
            out.push(self.rows[i].clone());
            i += 1;
        }
        assert(views(out@) =~= views(self.rows@));
        out
    }

    /// Runs one statement.
    pub fn execute(&mut self, command: &Command) -> (r: Outcome)
        requires
            well_formed(old(self)@),
        ensures
            well_formed(final(self)@),
            (final(self)@, r@) == ran(old(self)@, command@),
    {
        proof {
            lemma_ran_well_formed(self@, command@);
        }
        match command {
            Command::Insert { name, key } => {
                if self.next_id < i32::MAX {
                    let row = Carrera {
                        id: Some(self.next_id),
                        name: name.clone(),
                        key: key.clone(),
                    };
                    self.rows.push(row);
                    self.next_id = self.next_id + 1;
                    assert(self@.rows =~= ran(old(self)@, command@).0.rows);
                    Outcome::Done
                } else {
                    Outcome::Failed
                }
            },
            Command::FetchOne { id } => {
                let p: usize = self.locate(*id);
                if p < self.rows.len() {
                    Outcome::Row(self.rows[p].clone())
                } else {
                    Outcome::NoRow
                }
            },
            Command::FetchAll => Outcome::Rows(self.all_rows()),
            Command::Update { id, name, key } => {
                let p: usize = self.locate(*id);
                if p < self.rows.len() {
                    let row = Carrera { id: Some(*id), name: name.clone(), key: key.clone() };
                    self.rows.set(p, row);
                    assert(self@.rows =~= ran(old(self)@, command@).0.rows);
                }
                Outcome::Done
            },
            Command::Delete { id } => {
                let p: usize = self.locate(*id);
                if p < self.rows.len() {
                    self.rows.remove(p);
                    assert(self@.rows =~= ran(old(self)@, command@).0.rows);
                    Outcome::Affected(1)
                } else {
                    Outcome::Affected(0)
                }
            },
        }
    }

    /// Serves one request: plans it, runs its statement, and responds.
    pub fn serve(&mut self, request: &Request) -> (r: Response)
        requires
            well_formed(old(self)@),
        ensures
            well_formed(final(self)@),
            (final(self)@, r@) == served(old(self)@, request@),
    {
        match plan(request) {
            Step::Run(command) => {
                let outcome: Outcome = self.execute(&command);
                respond(&command, &outcome)
            },
            Step::Reject(why) => reject(why),
        }
    }
}

} // verus!
