use vstd::prelude::*;
use vstd::string::*;
use super::text::join;
use super::text::join_with;
use super::text::same_text;

verus! {

/// A value bound to a statement's parameter or read from a column.
#[derive(Clone, Debug)]
pub enum Value {
    Null,
    Integer(i64),
    Text(String),
}

/// What a `Value` stands for.
pub enum Datum {
    Null,
    Integer(int),
    Text(Seq<char>),
}

impl View for Value {
    type V = Datum;

    open spec fn view(&self) -> Datum {
        match self {
            Value::Null => Datum::Null,
            Value::Integer(number) => Datum::Integer(*number as int),
            Value::Text(text) => Datum::Text(text@),
        }
    }
}

/// What a sequence of values stands for, item by item.
pub open spec fn data(values: Seq<Value>) -> Seq<Datum> {
    values.map_values(|value: Value| value@)
}

/// An SQL statement whose values are bound to `?` placeholders, never written
/// into its text.
#[derive(Clone, Debug)]
pub struct Query {
    pub sql: String,
    pub parameters: Vec<Value>,
}

/// What a `Query` stands for: its text and the values that it binds.
pub struct Request {
    pub sql: Seq<char>,
    pub parameters: Seq<Datum>,
}

impl View for Query {
    type V = Request;

    open spec fn view(&self) -> Request {
        Request { sql: self.sql@, parameters: data(self.parameters@) }
    }
}

/// The tables of the catalog.
#[derive(Clone, Copy, Debug, PartialEq, Eq)]
pub enum Table {
    Rolas,
    Performers,
    Albums,
}

/// The columns of the catalog's tables. `Id` is the table's own key,
/// `Performer` and `Album` are the references that a song holds.
#[derive(Clone, Copy, Debug, PartialEq, Eq)]
pub enum Column {
    Id,
    Performer,
    Album,
    Type,
    Path,
    Name,
    Title,
    Track,
    Year,
    Genre,
}

/// A column of a table.
#[derive(Clone, Copy, Debug, PartialEq, Eq)]
pub struct TableColumn {
    pub table: Table,
    pub column: Column,
}

/// A condition of a `WHERE` clause.
#[derive(Clone, Debug)]
pub enum Conditional {
    /// Two columns hold the same value.
    Eq(TableColumn, TableColumn),
    /// A column holds the given text.
    EqVal(TableColumn, String),
    /// A column matches the given `LIKE` pattern.
    Like(TableColumn, String),
}

/// What a `Conditional` stands for.
pub enum Condition {
    Eq(TableColumn, TableColumn),
    EqVal(TableColumn, Seq<char>),
    Like(TableColumn, Seq<char>),
}

impl View for Conditional {
    type V = Condition;

    open spec fn view(&self) -> Condition {
        match self {
            Conditional::Eq(left, right) => Condition::Eq(*left, *right),
            Conditional::EqVal(column, value) => Condition::EqVal(*column, value@),
            Conditional::Like(column, pattern) => Condition::Like(*column, pattern@),
        }
    }
}

/// What a sequence of conditions stands for, item by item.
pub open spec fn conditions(conditionals: Seq<Conditional>) -> Seq<Condition> {
    conditionals.map_values(|conditional: Conditional| conditional@)
}

impl Table {
    /// The table's name in SQL.
    pub open spec fn spec_name(self) -> Seq<char> {
        match self {
            Table::Rolas => "rolas"@,
            Table::Performers => "performers"@,
            Table::Albums => "albums"@,
        }
    }

    /// The name of one row of the table: the table's name without its `s`.
    pub open spec fn spec_singular(self) -> Seq<char> {
        match self {
            Table::Rolas => "rola"@,
            Table::Performers => "performer"@,
            Table::Albums => "album"@,
        }
    }

    /// The table whose rows are called `singular`, if there is one.
    pub open spec fn spec_from_str(singular: Seq<char>) -> Option<Table> {
        if singular == Table::Rolas.spec_singular() {
            Some(Table::Rolas)
        } else if singular == Table::Performers.spec_singular() {
            Some(Table::Performers)
        } else if singular == Table::Albums.spec_singular() {
            Some(Table::Albums)
        } else {
            None
        }
    }

    /// Whether the table has the column.
    pub open spec fn has_column(self, column: Column) -> bool {
        match self {
            Table::Rolas => !(column is Type) && !(column is Name),
            Table::Performers => column is Id || column is Type || column is Name,
            Table::Albums => column is Id || column is Path || column is Name || column is Year,
        }
    }

    /// The table's name in SQL.
    pub fn name(self) -> (name: &'static str)
        ensures
            name@ == self.spec_name(),
    {
        match self {
            Table::Rolas => "rolas",
            Table::Performers => "performers",
            Table::Albums => "albums",
        }
    }

    /// The name of one row of the table.
    pub fn singular(self) -> (name: &'static str)
        ensures
            name@ == self.spec_singular(),
    {
        match self {
            Table::Rolas => "rola",
            Table::Performers => "performer",
            Table::Albums => "album",
        }
    }

    /// Finds a table by the name of its rows.
    pub fn from_str(singular: &str) -> (table: Option<Table>)
        ensures
            table == Table::spec_from_str(singular@),
    {
        if same_text(singular, Table::Rolas.singular()) {
            Some(Table::Rolas)
        } else if same_text(singular, Table::Performers.singular()) {
            Some(Table::Performers)
        } else if same_text(singular, Table::Albums.singular()) {
            Some(Table::Albums)
        } else {
            None
        }
    }

    /// Tells whether the table has the column.
    pub fn holds(self, column: Column) -> (holds: bool)
        ensures
            holds == self.has_column(column),
    {
        match self {
            Table::Rolas => match column {
                Column::Type => false,
                Column::Name => false,
                _ => true,
            },
            Table::Performers => match column {
                Column::Id => true,
                Column::Type => true,
                Column::Name => true,
                _ => false,
            },
            Table::Albums => match column {
                Column::Id => true,
                Column::Path => true,
                Column::Name => true,
                Column::Year => true,
                _ => false,
            },
        }
    }
}

impl Column {
    /// The column's name in the SQL of `table`.
    pub open spec fn spec_name(self, table: Table) -> Seq<char> {
        match self {
            Column::Id => "id_"@ + table.spec_singular(),
            Column::Performer => "id_performer"@,
            Column::Album => "id_album"@,
            Column::Type => "id_type"@,
            Column::Path => "path"@,
            Column::Name => "name"@,
            Column::Title => "title"@,
            Column::Track => "track"@,
            Column::Year => "year"@,
            Column::Genre => "genre"@,
        }
    }

    /// The column's name in the SQL of `table`.
    pub fn name(self, table: Table) -> (name: String)
        ensures
            name@ == self.spec_name(table),
    {
        match self {
            Column::Id => String::from_str("id_").concat(table.singular()),
            Column::Performer => String::from_str("id_performer"),
            Column::Album => String::from_str("id_album"),
            Column::Type => String::from_str("id_type"),
            Column::Path => String::from_str("path"),
            Column::Name => String::from_str("name"),
            Column::Title => String::from_str("title"),
            Column::Track => String::from_str("track"),
            Column::Year => String::from_str("year"),
            Column::Genre => String::from_str("genre"),
        }
    }
}

impl Column {
    /// Whether `name` is the name of this column in `table`.
    pub open spec fn is_named(self, table: Table, name: Seq<char>) -> bool {
        table.has_column(self) && self.spec_name(table) == name
    }

    /// The column of `table` called `name`, if it has one.
    pub open spec fn spec_from_str(table: Table, name: Seq<char>) -> Option<Column> {
        if Column::Id.is_named(table, name) {
            Some(Column::Id)
        } else if Column::Performer.is_named(table, name) {
            Some(Column::Performer)
        } else if Column::Album.is_named(table, name) {
            Some(Column::Album)
        } else if Column::Type.is_named(table, name) {
            Some(Column::Type)
        } else if Column::Path.is_named(table, name) {
            Some(Column::Path)
        } else if Column::Name.is_named(table, name) {
            Some(Column::Name)
        } else if Column::Title.is_named(table, name) {
            Some(Column::Title)
        } else if Column::Track.is_named(table, name) {
            Some(Column::Track)
        } else if Column::Year.is_named(table, name) {
            Some(Column::Year)
        } else if Column::Genre.is_named(table, name) {
            Some(Column::Genre)
        } else {
            None
        }
    }

    /// Tells whether `name` is the name of this column in `table`.
    pub fn has_name(self, table: Table, name: &str) -> (named: bool)
        ensures
            named == self.is_named(table, name@),
    {
        table.holds(self) && same_text(self.name(table).as_str(), name)
    }

    /// Finds a column of `table` by its name.
    pub fn from_str(table: Table, name: &str) -> (column: Option<Column>)
        ensures
            column == Column::spec_from_str(table, name@),
    {
        if Column::Id.has_name(table, name) {
            Some(Column::Id)
        } else if Column::Performer.has_name(table, name) {
            Some(Column::Performer)
        } else if Column::Album.has_name(table, name) {
            Some(Column::Album)
        } else if Column::Type.has_name(table, name) {
            Some(Column::Type)
        } else if Column::Path.has_name(table, name) {
            Some(Column::Path)
        } else if Column::Name.has_name(table, name) {
            Some(Column::Name)
        } else if Column::Title.has_name(table, name) {
            Some(Column::Title)
        } else if Column::Track.has_name(table, name) {
            Some(Column::Track)
        } else if Column::Year.has_name(table, name) {
            Some(Column::Year)
        } else if Column::Genre.has_name(table, name) {
            Some(Column::Genre)
        } else {
            None
        }
    }
}

impl TableColumn {
    /// The column written with its table, as in `rolas.title`.
    pub open spec fn spec_qualified(self) -> Seq<char> {
        self.table.spec_name() + "."@ + self.column.spec_name(self.table)
    }

    /// The column that `table` and `column` name, if the catalog has it.
    pub open spec fn spec_from_str(table: Seq<char>, column: Seq<char>) -> Option<TableColumn> {
        match Table::spec_from_str(table) {
            Some(table) => match Column::spec_from_str(table, column) {
                Some(column) => Some(TableColumn { table, column }),
                None => None,
            },
            None => None,
        }
    }

    /// The column `column` of `table`.
    pub fn new(table: Table, column: Column) -> (result: TableColumn)
        ensures
            result == (TableColumn { table, column }),
    {
        TableColumn { table, column }
    }

    /// Finds a column by the name of its table's rows (`rola`, `performer`,
    /// `album`) and its own name (`id_rola`, `name`, ...).
    pub fn from_str(table: &str, column: &str) -> (result: Option<TableColumn>)
        ensures
            result == TableColumn::spec_from_str(table@, column@),
    {
        match Table::from_str(table) {
            Some(table) => match Column::from_str(table, column) {
                Some(column) => Some(TableColumn { table, column }),
                None => None,
            },
            None => None,
        }
    }

    /// The column written with its table, as in `rolas.title`.
    pub fn qualified(&self) -> (text: String)
        ensures
            text@ == self.spec_qualified(),
    {
        let mut text = String::from_str(self.table.name());
        text.append(".");
        text.append(self.column.name(self.table).as_str());
        text
    }
}

impl Condition {
    /// The condition in SQL, with `?` in place of its value.
    pub open spec fn sql(self) -> Seq<char> {
        match self {
            Condition::Eq(left, right) => left.spec_qualified() + " = "@ + right.spec_qualified(),
            Condition::EqVal(column, _) => column.spec_qualified() + " = ?"@,
            Condition::Like(column, _) => column.spec_qualified() + " LIKE ?"@,
        }
    }

    /// The values that the condition binds, in the order of its placeholders.
    pub open spec fn parameters(self) -> Seq<Datum> {
        match self {
            Condition::Eq(_, _) => Seq::empty(),
            Condition::EqVal(_, value) => seq![Datum::Text(value)],
            Condition::Like(_, pattern) => seq![Datum::Text(pattern)],
        }
    }

    /// Whether the condition speaks of `table`.
    pub open spec fn mentions(self, table: Table) -> bool {
        match self {
            Condition::Eq(left, right) => left.table == table || right.table == table,
            Condition::EqVal(column, _) => column.table == table,
            Condition::Like(column, _) => column.table == table,
        }
    }
}

impl Conditional {
    /// The condition in SQL, with `?` in place of its value.
    pub fn sql(&self) -> (text: String)
        ensures
            text@ == self@.sql(),
    {
        match self {
            Conditional::Eq(left, right) => {
                let mut text = left.qualified();
                text.append(" = ");
                text.append(right.qualified().as_str());
                text
            },
            Conditional::EqVal(column, _) => {
                let mut text = column.qualified();
                text.append(" = ?");
                text
            },
            Conditional::Like(column, _) => {
                let mut text = column.qualified();
                text.append(" LIKE ?");
                text
            },
        }
    }

    /// Tells whether the condition speaks of `table`.
    pub fn speaks_of(&self, table: Table) -> (speaks: bool)
        ensures
            speaks == self@.mentions(table),
    {
        match self {
            Conditional::Eq(left, right) => left.table.is(table) || right.table.is(table),
            Conditional::EqVal(column, _) => column.table.is(table),
            Conditional::Like(column, _) => column.table.is(table),
        }
    }
}

/// The columns in SQL, each with its table.
pub open spec fn qualified_names(columns: Seq<TableColumn>) -> Seq<Seq<char>> {
    columns.map_values(|column: TableColumn| column.spec_qualified())
}

/// The conditions in SQL.
pub open spec fn condition_texts(conditions: Seq<Condition>) -> Seq<Seq<char>> {
    conditions.map_values(|condition: Condition| condition.sql())
}

/// The names of the tables.
pub open spec fn table_names(tables: Seq<Table>) -> Seq<Seq<char>> {
    tables.map_values(|table: Table| table.spec_name())
}

/// The values that the conditions bind, in the order of their placeholders.
pub open spec fn parameters_of(conditions: Seq<Condition>) -> Seq<Datum>
    decreases conditions.len(),
{
    if conditions.len() == 0 {
        Seq::empty()
    } else {
        parameters_of(conditions.drop_last()) + conditions.last().parameters()
    }
}

/// Whether a column or a condition speaks of `table`.
pub open spec fn mentions(
    columns: Seq<TableColumn>,
    conditions: Seq<Condition>,
    table: Table,
) -> bool {
    ||| exists|i: int| 0 <= i < columns.len() && (#[trigger] columns[i]).table == table
    ||| exists|j: int| 0 <= j < conditions.len() && (#[trigger] conditions[j]).mentions(table)
}

/// `table` alone where it is spoken of, nothing where it is not.
pub open spec fn table_if_mentioned(
    columns: Seq<TableColumn>,
    conditions: Seq<Condition>,
    table: Table,
) -> Seq<Table> {
    if mentions(columns, conditions, table) {
        seq![table]
    } else {
        Seq::empty()
    }
}

/// The tables that a selection reads: those that its columns and conditions
/// speak of, songs first, then performers, then albums.
pub open spec fn tables_of(columns: Seq<TableColumn>, conditions: Seq<Condition>) -> Seq<Table> {
    table_if_mentioned(columns, conditions, Table::Rolas) + table_if_mentioned(
        columns,
        conditions,
        Table::Performers,
    ) + table_if_mentioned(columns, conditions, Table::Albums)
}

/// The `WHERE` clause of the conditions, which must all hold; empty where
/// there is no condition.
pub open spec fn where_clause(conditions: Seq<Condition>) -> Seq<char> {
    if conditions.len() == 0 {
        Seq::empty()
    } else {
        " WHERE "@ + join(condition_texts(conditions), " AND "@)
    }
}

/// The text of the selection of `columns` from the rows that meet all of
/// `conditions`.
pub open spec fn select_sql(columns: Seq<TableColumn>, conditions: Seq<Condition>) -> Seq<char> {
    "SELECT "@ + join(qualified_names(columns), ", "@) + " FROM "@ + join(
        table_names(tables_of(columns, conditions)),
        ", "@,
    ) + where_clause(conditions)
}

/// The selection of `columns` from the rows that meet all of `conditions`,
/// whose values it binds in their order.
pub open spec fn select_request(columns: Seq<TableColumn>, conditions: Seq<Condition>) -> Request {
    Request { sql: select_sql(columns, conditions), parameters: parameters_of(conditions) }
}

/// As many `?` as there are columns.
pub open spec fn placeholders(count: nat) -> Seq<Seq<char>> {
    Seq::new(count, |i: int| "?"@)
}

/// The names that the columns have in `table`.
pub open spec fn column_names(table: Table, columns: Seq<Column>) -> Seq<Seq<char>> {
    columns.map_values(|column: Column| column.spec_name(table))
}

/// The text of the insertion of one row into `table`, one placeholder for
/// each of `columns`.
pub open spec fn insert_sql(table: Table, columns: Seq<Column>) -> Seq<char> {
    "INSERT INTO "@ + table.spec_name() + " ("@ + join(column_names(table, columns), ", "@)
        + ") VALUES ("@ + join(placeholders(columns.len()), ", "@) + ")"@
}

/// The insertion of one row into `table` that holds `values` in `columns`.
pub open spec fn insert_request(table: Table, columns: Seq<Column>, values: Seq<Datum>) -> Request {
    Request { sql: insert_sql(table, columns), parameters: values }
}

/// The request for the key of the row that the connection inserted last.
pub open spec fn last_insert_id_request() -> Request {
    Request { sql: "SELECT last_insert_rowid()"@, parameters: Seq::empty() }
}

impl Table {
    /// Tells whether this table is `other`.
    pub fn is(self, other: Table) -> (same: bool)
        ensures
            same == (self == other),
    {
        match (self, other) {
            (Table::Rolas, Table::Rolas) => true,
            (Table::Performers, Table::Performers) => true,
            (Table::Albums, Table::Albums) => true,
            _ => false,
        }
    }
}

fn is_mentioned(columns: &[TableColumn], conditionals: &[Conditional], table: Table) -> (found:
    bool)
    ensures
        found == mentions(columns@, conditions(conditionals@), table),
{
    let mut i: usize = 0;
    while i < columns.len()
        invariant
            i <= columns.len(),
            forall|k: int| 0 <= k < i ==> (#[trigger] columns@[k]).table != table,
        decreases columns.len() - i,
    {
        if columns[i].table.is(table) {
            return true;
        }
        i += 1;
    }
    let mut j: usize = 0;
    while j < conditionals.len()
        invariant
            j <= conditionals.len(),
            forall|k: int| 0 <= k < columns.len() ==> (#[trigger] columns@[k]).table != table,
            forall|k: int|
                0 <= k < j ==> !(#[trigger] conditions(conditionals@)[k]).mentions(table),
        decreases conditionals.len() - j,
    {
        if conditionals[j].speaks_of(table) {
            assert(conditions(conditionals@)[j as int] == conditionals@[j as int]@);
            return true;
        }
        j += 1;
    }
    false
}

fn push_if_mentioned(
    names: &mut Vec<String>,
    columns: &[TableColumn],
    conditionals: &[Conditional],
    table: Table,
    Ghost(before): Ghost<Seq<Table>>,
)
    requires
        old(names).deep_view() == table_names(before),
    ensures
        final(names).deep_view() == table_names(
            before + table_if_mentioned(columns@, conditions(conditionals@), table),
        ),
{
    if is_mentioned(columns, conditionals, table) {
        let name = String::from_str(table.name());
        names.push(name);
        assert(table_names(before + seq![table]) =~= table_names(before).push(
            table.spec_name(),
        ));
    }
}

/// Selects `columns` from the rows that meet all of `conditionals`. The
/// statement reads the tables that its columns and conditions speak of, and
/// binds the conditions' values in their order.
pub fn select(columns: &[TableColumn], conditionals: &[Conditional]) -> (statement: Query)
    ensures
        statement@ == select_request(columns@, conditions(conditionals@)),
{
    let ghost all = conditions(conditionals@);
    let mut names: Vec<String> = Vec::new();
    let mut i: usize = 0;
    while i < columns.len()
        invariant
            i <= columns.len(),
            names.deep_view() == qualified_names(columns@.take(i as int)),
        decreases columns.len() - i,
    {
        let name = columns[i].qualified();
        names.push(name);
        assert(qualified_names(columns@.take(i + 1)) =~= qualified_names(
            columns@.take(i as int),
        ).push(columns@[i as int].spec_qualified()));
        i += 1;
    }
    assert(columns@.take(columns.len() as int) =~= columns@);

    let mut tables: Vec<String> = Vec::new();
    assert(tables.deep_view() =~= table_names(Seq::<Table>::empty()));
    let ghost first = table_if_mentioned(columns@, all, Table::Rolas);
    let ghost second = table_if_mentioned(columns@, all, Table::Performers);
    push_if_mentioned(&mut tables, columns, conditionals, Table::Rolas, Ghost(Seq::empty()));
    push_if_mentioned(&mut tables, columns, conditionals, Table::Performers, Ghost(first));
    push_if_mentioned(&mut tables, columns, conditionals, Table::Albums, Ghost(first + second));

    let mut texts: Vec<String> = Vec::new();
    let mut parameters: Vec<Value> = Vec::new();
    let mut j: usize = 0;
    while j < conditionals.len()
        invariant
            j <= conditionals.len(),
            all == conditions(conditionals@),
            texts.deep_view() == condition_texts(all.take(j as int)),
            data(parameters@) == parameters_of(all.take(j as int)),
        decreases conditionals.len() - j,
    {
        let text = conditionals[j].sql();
        let ghost bound = data(parameters@);
        texts.push(text);
        match &conditionals[j] {
            Conditional::Eq(_, _) => {},
            Conditional::EqVal(_, value) => {
                parameters.push(Value::Text(value.clone()));
            },
            Conditional::Like(_, pattern) => {
                parameters.push(Value::Text(pattern.clone()));
            },
        }
        proof {
            assert(condition_texts(all.take(j + 1)) =~= condition_texts(all.take(j as int)).push(
                all[j as int].sql(),
            ));
            assert(all.take(j + 1).drop_last() =~= all.take(j as int));
        }
        j += 1;
    }
    assert(all.take(conditionals.len() as int) =~= all);

    let mut sql = String::from_str("SELECT ");
    sql.append(join_with(&names, ", ").as_str());
    sql.append(" FROM ");
    sql.append(join_with(&tables, ", ").as_str());
    if conditionals.len() > 0 {
        sql.append(" WHERE ");
        sql.append(join_with(&texts, " AND ").as_str());
    }
    assert(sql@ =~= select_sql(columns@, all));
    Query { sql, parameters }
}

/// Inserts one row into `table`: `values` are bound, in their order, to one
/// placeholder for each of `columns`.
pub fn insert(table: Table, columns: &[Column], values: Vec<Value>) -> (statement: Query)
    ensures
        statement@ == insert_request(table, columns@, data(values@)),
        statement.parameters == values,
{
    let mut names: Vec<String> = Vec::new();
    let mut marks: Vec<String> = Vec::new();
    let mut i: usize = 0;
    while i < columns.len()
        invariant
            i <= columns.len(),
            names.deep_view() == column_names(table, columns@.take(i as int)),
            marks.deep_view() == placeholders(i as nat),
        decreases columns.len() - i,
    {
        let name = columns[i].name(table);
        let mark = String::from_str("?");
        names.push(name);
        marks.push(mark);
        assert(column_names(table, columns@.take(i + 1)) =~= column_names(
            table,
            columns@.take(i as int),
        ).push(columns@[i as int].spec_name(table)));
        assert(placeholders((i + 1) as nat) =~= placeholders(i as nat).push("?"@));
        i += 1;
    }
    assert(columns@.take(columns.len() as int) =~= columns@);
    let mut sql = String::from_str("INSERT INTO ");
    sql.append(table.name());
    sql.append(" (");
    sql.append(join_with(&names, ", ").as_str());
    sql.append(") VALUES (");
    sql.append(join_with(&marks, ", ").as_str());
    sql.append(")");
    Query { sql, parameters: values }
}

/// Asks for the key of the row that this connection inserted last.
pub fn last_insert_id() -> (statement: Query)
    ensures
        statement@ == last_insert_id_request(),
{
    let statement = Query {
        sql: String::from_str("SELECT last_insert_rowid()"),
        parameters: Vec::new(),
    };
    assert(data(statement.parameters@) =~= Seq::<Datum>::empty());
    statement
}

} // verus!
