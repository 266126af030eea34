//! The schema manager: opens the database and makes sure that every table
//! and trigger the library relies on is there before anything else runs.

use crate::error::{DaoError, SchemaObject};
use crate::store::{
    fetch_row, first_integer, integer_in, open_connection, run_batch, SqlValue, SqlValueView,
    Statement, StatementView,
};
use vstd::prelude::*;

verus! {

/// Counts the objects of a given type and name in SQLite's catalogue.
pub const CATALOGUE_QUERY: &'static str =
    "SELECT COUNT(*) FROM sqlite_master WHERE type = ?1 AND name = ?2";

/// The one connection through which the store is reached.
pub struct Database {
    conn: rusqlite::Connection,
}

/// The tables that a sound schema holds, in the order in which they are
/// checked.
pub open spec fn required_tables() -> Seq<Seq<char>> {
    seq!["dev_logs"@, "languages"@, "code_snippets"@, "learning_notes"@, "snippets_used"@]
}

/// The triggers that keep `updated_at` current, in the order in which they
/// are checked.
pub open spec fn required_triggers() -> Seq<Seq<char>> {
    seq![
        "update_timestamp_after_update_code_snippets"@,
        "update_timestamp_after_update_languages"@,
        "update_timestamp_after_update_learning_notes"@,
    ]
}

/// `name` is a table or trigger, as `kind` says, that the schema must hold.
pub open spec fn is_required(kind: SchemaObject, name: Seq<char>) -> bool {
    match kind {
        SchemaObject::Table => required_tables().contains(name),
        SchemaObject::Trigger => required_triggers().contains(name),
    }
}

/// The texts of a list of names.
pub open spec fn names_of(names: Seq<&'static str>) -> Seq<Seq<char>> {
    names.map_values(|s: &'static str| s@)
}

/// What SQLite's catalogue calls objects of `kind`.
pub open spec fn catalogue_word(kind: SchemaObject) -> Seq<char> {
    match kind {
        SchemaObject::Table => "table"@,
        SchemaObject::Trigger => "trigger"@,
    }
}

/// The statement that counts the objects of `kind` called `name` in the
/// catalogue.
pub fn catalogue_statement(kind: SchemaObject, name: &str) -> (st: Statement)
    ensures
        st@ == (StatementView {
            sql: CATALOGUE_QUERY@,
            params: seq![SqlValueView::Text(catalogue_word(kind)), SqlValueView::Text(name@)],
        }),
{
    let word = match kind {
        SchemaObject::Table => "table",
        SchemaObject::Trigger => "trigger",
    };
    let mut params: Vec<SqlValue> = Vec::new();
    params.push(SqlValue::Text(word.to_owned()));
    params.push(SqlValue::Text(name.to_owned()));
    let st = Statement { sql: CATALOGUE_QUERY.to_owned(), params };
    assert(st@.params =~= seq![
        SqlValueView::Text(catalogue_word(kind)),
        SqlValueView::Text(name@),
    ]);
    st
}

/// The names of the required tables.
pub fn required_table_names() -> (names: Vec<&'static str>)
    ensures
        names_of(names@) == required_tables(),
{
    let names = vec!["dev_logs", "languages", "code_snippets", "learning_notes", "snippets_used"];
    assert(names_of(names@) =~= required_tables());
    names
}

/// The names of the required triggers.
pub fn required_trigger_names() -> (names: Vec<&'static str>)
    ensures
        names_of(names@) == required_triggers(),
{
    let names = vec![
        "update_timestamp_after_update_code_snippets",
        "update_timestamp_after_update_languages",
        "update_timestamp_after_update_learning_notes",
    ];
    assert(names_of(names@) =~= required_triggers());
    names
}

/// The objects that a sound schema holds, in the order in which they are
/// looked up: the tables first, then the triggers.
pub open spec fn required_objects() -> Seq<(SchemaObject, Seq<char>)> {
    required_tables().map_values(|name: Seq<char>| (SchemaObject::Table, name))
        + required_triggers().map_values(|name: Seq<char>| (SchemaObject::Trigger, name))
}

/// The kinds and the texts of a list of objects.
pub open spec fn objects_of(list: Seq<(SchemaObject, &'static str)>) -> Seq<
    (SchemaObject, Seq<char>),
> {
    list.map_values(|object: (SchemaObject, &'static str)| (object.0, object.1@))
}

/// The required objects, tables before triggers.
pub fn required_object_list() -> (objects: Vec<(SchemaObject, &'static str)>)
    ensures
        objects_of(objects@) == required_objects(),
{
    let tables = required_table_names();
    let triggers = required_trigger_names();
    let mut objects: Vec<(SchemaObject, &'static str)> = Vec::new();
    let ghost as_tables = required_tables().map_values(
        |name: Seq<char>| (SchemaObject::Table, name),
    );
    let ghost as_triggers = required_triggers().map_values(
        |name: Seq<char>| (SchemaObject::Trigger, name),
    );
    let mut i: usize = 0;
    assert(objects_of(objects@) =~= as_tables.take(0));
    while i < tables.len()
        invariant
            i <= tables.len(),
            names_of(tables@) == required_tables(),
            as_tables == required_tables().map_values(
                |name: Seq<char>| (SchemaObject::Table, name),
            ),
            objects_of(objects@) == as_tables.take(i as int),
        decreases tables.len() - i,
    {
        let ghost before = objects_of(objects@);
        objects.push((SchemaObject::Table, tables[i]));
        proof {
            assert(names_of(tables@)[i as int] == tables@[i as int]@);
            assert(objects_of(objects@) =~= before.push((SchemaObject::Table, tables@[i as int]@)));
            assert(as_tables[i as int] == (SchemaObject::Table, required_tables()[i as int]));
            assert(as_tables.take(i + 1) =~= as_tables.take(i as int).push(as_tables[i as int]));
        }
        i += 1;
    }
    assert(as_tables.take(tables@.len() as int) =~= as_tables);
    let mut k: usize = 0;
    assert(objects_of(objects@) =~= as_tables + as_triggers.take(0));
    while k < triggers.len()
        invariant
            k <= triggers.len(),
            names_of(triggers@) == required_triggers(),
            as_triggers == required_triggers().map_values(
                |name: Seq<char>| (SchemaObject::Trigger, name),
            ),
            objects_of(objects@) == as_tables + as_triggers.take(k as int),
        decreases triggers.len() - k,
    {
        let ghost before = objects_of(objects@);
        objects.push((SchemaObject::Trigger, triggers[k]));
        proof {
            assert(names_of(triggers@)[k as int] == triggers@[k as int]@);
            assert(objects_of(objects@) =~= before.push(
                (SchemaObject::Trigger, triggers@[k as int]@),
            ));
            assert(as_triggers[k as int] == (SchemaObject::Trigger, required_triggers()[k as int]));
            assert(as_triggers.take(k + 1) =~= as_triggers.take(k as int).push(
                as_triggers[k as int],
            ));
            assert(as_tables + as_triggers.take(k + 1) =~= (as_tables + as_triggers.take(
                k as int,
            )).push(as_triggers[k as int]));
        }
        k += 1;
    }
    assert(as_triggers.take(triggers@.len() as int) =~= as_triggers);
    objects
}

/// The required object at position `i` was found: the lookups got as far as
/// that object, and the answer was yes.
pub open spec fn was_found(answers: Seq<bool>, i: int) -> bool {
    0 <= i < answers.len() && answers[i]
}

/// Position `i` is that of the first required object that was not found.
pub open spec fn is_first_not_found(answers: Seq<bool>, i: int) -> bool {
    &&& 0 <= i < required_objects().len()
    &&& !was_found(answers, i)
    &&& forall|j: int| 0 <= j < i ==> was_found(answers, j)
}

/// `error` says that the schema lacks `object`.
pub open spec fn names_missing(error: DaoError, object: (SchemaObject, Seq<char>)) -> bool {
    error matches DaoError::SchemaMissing(kind, name) && kind == object.0 && name@ == object.1
}

/// Every required object is a required table or a required trigger.
pub proof fn lemma_required_objects(i: int)
    requires
        0 <= i < required_objects().len(),
    ensures
        is_required(required_objects()[i].0, required_objects()[i].1),
{
    let tables = required_tables();
    let triggers = required_triggers();
    if i < tables.len() {
        assert(required_objects()[i] == (SchemaObject::Table, tables[i]));
        assert(tables.contains(tables[i]));
    } else {
        let k = i - tables.len();
        assert(required_objects()[i] == (SchemaObject::Trigger, triggers[k]));
        assert(triggers.contains(triggers[k]));
    }
}

/// The verdict on the schema, from the answers of the lookups in the order
/// of the required objects, tables before triggers.
///
/// The schema is sound exactly when every required object was looked up and
/// found. Otherwise the verdict is a `SchemaMissing` that names the first
/// required object that was not found; an object that the lookups never
/// reached counts as not found.
pub fn schema_verdict(answers: &Vec<bool>) -> (r: Result<(), DaoError>)
    ensures
        r is Ok <==> forall|i: int| 0 <= i < required_objects().len() ==> was_found(answers@, i),
        r matches Err(e) ==> exists|i: int|
            is_first_not_found(answers@, i) && names_missing(e, required_objects()[i]),
{
    let objects = required_object_list();
    let mut i: usize = 0;
    while i < objects.len()
        invariant
            i <= objects.len(),
            objects_of(objects@) == required_objects(),
            forall|j: int| 0 <= j < i ==> was_found(answers@, j),
        decreases objects.len() - i,
    {
        if i >= answers.len() || !answers[i] {
            let object = objects[i];
            let error = DaoError::SchemaMissing(object.0, object.1.to_owned());
            proof {
                assert(objects_of(objects@)[i as int] == (object.0, object.1@));
                assert(is_first_not_found(answers@, i as int));
                assert(names_missing(error, required_objects()[i as int]));
            }
            return Err(error);
        }
        i += 1;
    }
    Ok(())
}

/// Reads the catalogue's answer: an object is there when at least one row
/// of the catalogue names it. A failure of the driver is handed on.
pub fn presence(count: Result<i64, rusqlite::Error>) -> (r: Result<bool, rusqlite::Error>)
    ensures
        match count {
            Ok(n) => r == Ok::<bool, rusqlite::Error>(n > 0),
            Err(e) => r == Err::<bool, rusqlite::Error>(e),
        },
{
    match count {
        Ok(n) => Ok(n > 0),
        Err(e) => Err(e),
    }
}

/// Whether the schema script is to be run: only where the table `dev_logs`
/// was not found, and only where there is a script.
pub fn wants_bootstrap(dev_logs_found: bool, init_script: Option<&str>) -> (r: bool)
    ensures
        r == (!dev_logs_found && init_script is Some),
{
    !dev_logs_found && init_script.is_some()
}

/// The verdict on one required object: fine where it was found, a
/// `SchemaMissing` that names it where it was not, and the driver's failure
/// where the catalogue could not be read.
pub fn require_present(kind: SchemaObject, name: &str, found: Result<bool, rusqlite::Error>) -> (r:
    Result<(), DaoError>)
    ensures
        match found {
            Ok(true) => r is Ok,
            Ok(false) => r matches Err(DaoError::SchemaMissing(k, n)) && k == kind && n@ == name@,
            Err(e) => r == Err::<(), DaoError>(DaoError::DatabaseError(e)),
        },
{
    match found {
        Ok(true) => Ok(()),
        Ok(false) => Err(DaoError::SchemaMissing(kind, name.to_owned())),
        Err(e) => Err(DaoError::DatabaseError(e)),
    }
}

impl Database {
    /// The connection that this database owns.
    pub closed spec fn connection(&self) -> rusqlite::Connection {
        self.conn
    }

    /// A database over a connection that is already open.
    pub fn from_connection(conn: rusqlite::Connection) -> (r: Database)
        ensures
            r.connection() == conn,
    {
        Database { conn }
    }

    /// Opens the database file at `db_path`, creating it where there is
    /// none. Whether that succeeds is for the file system to say.
    pub fn new(db_path: &str) -> (r: Result<Database, rusqlite::Error>) {
        match open_connection(db_path) {
            Ok(conn) => Ok(Database::from_connection(conn)),
            Err(e) => Err(e),
        }
    }

    /// Whether the catalogue holds an object of `kind` called `name`:
    /// whether the count that the database gives, in the first column of a
    /// row, is above zero.
    fn check_existence(&self, kind: SchemaObject, name: &str) -> (r: Result<
        bool,
        rusqlite::Error,
    >)
        ensures
            r matches Ok(found) ==> exists|row: &rusqlite::Row<'_>|
                integer_in(*row, 0) is Some && found == (integer_in(*row, 0)->0 > 0),
    {
        let st = catalogue_statement(kind, name);
        let counted = fetch_row(&self.conn, st.sql.as_str(), &st.params, first_integer);
        proof {
            if counted is Ok {
                let n = counted->Ok_0;
                let row = choose|row: &rusqlite::Row<'_>|
                    call_ensures(first_integer, (row,), Ok::<i64, rusqlite::Error>(n));
                assert(integer_in(*row, 0) is Some && (n > 0) == (integer_in(*row, 0)->0 > 0));
            }
        }
        presence(counted)
    }

    /// Looks the required objects up in order, tables before triggers, up
    /// to the first that is not found, and gives the verdict on the answers.
    /// A lookup that fails ends the call with the driver's failure.
    fn verify_objects(&self) -> (r: Result<(), DaoError>)
        ensures
            r matches Err(e) ==> (e is DatabaseError || (e matches DaoError::SchemaMissing(k, n)
                && is_required(k, n@))),
    {
        let objects = required_object_list();
        let mut answers: Vec<bool> = Vec::new();
        let mut all_found = true;
        let mut i: usize = 0;
        while i < objects.len() && all_found
            invariant
                i <= objects.len(),
            decreases objects.len() - i,
        {
            let object = objects[i];
            match self.check_existence(object.0, object.1) {
                Err(e) => {
                    return Err(DaoError::DatabaseError(e));
                },
                Ok(found) => {
                    answers.push(found);
                    all_found = found;
                },
            }
            i += 1;
        }
        let verdict = schema_verdict(&answers);
        proof {
            if verdict is Err {
                let e = verdict->Err_0;
                let at = choose|at: int|
                    is_first_not_found(answers@, at) && names_missing(e, required_objects()[at]);
                lemma_required_objects(at);
            }
        }
        verdict
    }

    /// Makes the schema ready, or says what is wrong with it.
    ///
    /// Where the table `dev_logs` is absent and `init_script` holds the
    /// schema script, the script is run as one batch. After that the
    /// required objects are looked up in order, tables before triggers, up
    /// to the first that is not found, and `schema_verdict` decides on the
    /// answers: success where every object was found, otherwise a
    /// `SchemaMissing` that names the first one that was not. A failure of
    /// the driver ends the call with a `DatabaseError`.
    /// What the database holds decides the outcome, so success is not owed
    /// on any input; but no other error is returned, and an object named as
    /// missing is always a required one.
    pub fn initialize(&self, init_script: Option<&str>) -> (r: Result<(), DaoError>)
        ensures
            r matches Err(e) ==> (e is DatabaseError || (e matches DaoError::SchemaMissing(
                kind,
                name,
            ) && is_required(kind, name@))),
    {
        let dev_logs_found = match self.check_existence(SchemaObject::Table, "dev_logs") {
            Err(e) => {
                return Err(DaoError::DatabaseError(e));
            },
            Ok(found) => found,
        };
        if wants_bootstrap(dev_logs_found, init_script) {
            if let Some(sql) = init_script {
                match run_batch(&self.conn, sql) {
                    Err(e) => {
                        return Err(DaoError::DatabaseError(e));
                    },
                    Ok(()) => {},
                }
            }
        }
        self.verify_objects()
    }

    /// The connection, for the entity operations.
    pub fn get_connection(&self) -> (r: &rusqlite::Connection)
        ensures
            *r == self.connection(),
    {
        &self.conn
    }
}

} // verus!
