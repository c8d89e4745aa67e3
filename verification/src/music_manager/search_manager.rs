use vstd::prelude::*;
use vstd::string::*;
use super::catalog::spec_first_texts;
use super::music_database::unconnected;
use super::music_database::Answer;
use super::music_database::Exchange;
use super::music_database::MusicDatabase;
use super::store::StorageError;
use super::query_manager::select;
use super::query_manager::select_request;
use super::query_manager::Request;
use super::query_manager::Column;
use super::query_manager::Condition;
use super::query_manager::Conditional;
use super::query_manager::Datum;
use super::query_manager::Query;
use super::query_manager::Table;
use super::query_manager::TableColumn;
use super::text::join;
use super::text::join_with;
use super::text::same_text;
use super::text::split_whitespace;
use super::text::words;

verus! {

/// What a search looks at.
#[derive(Clone, Copy, Debug, PartialEq, Eq)]
pub enum SearchTarget {
    Title,
    Performer,
    Album,
    Genre,
}

/// A search as the user wrote it: what to look at, and the text to look for.
#[derive(Clone, Debug)]
pub struct SearchRule {
    /// `None` where the query names no target: such a query finds nothing.
    pub target: Option<SearchTarget>,
    pub value: String,
}

/// The target that a word of a query chooses: `T:` the title, `P:` the
/// performer, `A:` the album, `G:` the genre. Any other word is text to look
/// for.
pub open spec fn target_of(word: Seq<char>) -> Option<SearchTarget> {
    if word == "T:"@ {
        Some(SearchTarget::Title)
    } else if word == "P:"@ {
        Some(SearchTarget::Performer)
    } else if word == "A:"@ {
        Some(SearchTarget::Album)
    } else if word == "G:"@ {
        Some(SearchTarget::Genre)
    } else {
        None
    }
}

/// The target of a query: the one that its last target word chooses.
pub open spec fn last_target(words: Seq<Seq<char>>) -> Option<SearchTarget>
    decreases words.len(),
{
    if words.len() == 0 {
        None
    } else if target_of(words.last()) is Some {
        target_of(words.last())
    } else {
        last_target(words.drop_last())
    }
}

/// The words of a query that choose no target, in their order.
pub open spec fn value_words(words: Seq<Seq<char>>) -> Seq<Seq<char>>
    decreases words.len(),
{
    if words.len() == 0 {
        Seq::empty()
    } else if target_of(words.last()) is Some {
        value_words(words.drop_last())
    } else {
        value_words(words.drop_last()).push(words.last())
    }
}

/// The `LIKE` pattern that finds `value` anywhere in a column.
pub open spec fn pattern_of(value: Seq<char>) -> Seq<char> {
    "%"@ + value + "%"@
}

/// The column that a search reports: the song's title.
pub open spec fn title_column() -> TableColumn {
    TableColumn { table: Table::Rolas, column: Column::Title }
}

/// The conditions under which a song is found: the column that `target`
/// names matches `pattern`, where that column belongs to the song's performer
/// or album, of that performer or album.
pub open spec fn search_conditions(target: SearchTarget, pattern: Seq<char>) -> Seq<Condition> {
    match target {
        SearchTarget::Title => seq![Condition::Like(title_column(), pattern)],
        SearchTarget::Performer => seq![
            Condition::Eq(
                TableColumn { table: Table::Rolas, column: Column::Performer },
                TableColumn { table: Table::Performers, column: Column::Id },
            ),
            Condition::Like(
                TableColumn { table: Table::Performers, column: Column::Name },
                pattern,
            ),
        ],
        SearchTarget::Album => seq![
            Condition::Eq(
                TableColumn { table: Table::Rolas, column: Column::Album },
                TableColumn { table: Table::Albums, column: Column::Id },
            ),
            Condition::Like(TableColumn { table: Table::Albums, column: Column::Name }, pattern),
        ],
        SearchTarget::Genre => seq![
            Condition::Like(TableColumn { table: Table::Rolas, column: Column::Genre }, pattern),
        ],
    }
}

/// The search for the songs for which the column that `target` names holds
/// `value` somewhere: it gives their titles.
pub open spec fn search_request(target: SearchTarget, value: Seq<char>) -> Request {
    select_request(seq![title_column()], search_conditions(target, pattern_of(value)))
}

/// Tells which target `word` chooses.
pub fn target_of_word(word: &str) -> (target: Option<SearchTarget>)
    ensures
        target == target_of(word@),
{
    if same_text(word, "T:") {
        Some(SearchTarget::Title)
    } else if same_text(word, "P:") {
        Some(SearchTarget::Performer)
    } else if same_text(word, "A:") {
        Some(SearchTarget::Album)
    } else if same_text(word, "G:") {
        Some(SearchTarget::Genre)
    } else {
        None
    }
}

impl SearchRule {
    /// Reads a query. Its words are split at whitespace; the last of the
    /// words `T:`, `P:`, `A:` and `G:` chooses the target, and the other
    /// words, with one space between each two, are the text to look for.
    pub fn parse(query: &str) -> (rule: SearchRule)
        ensures
            rule.target == last_target(words(query@)),
            rule.value@ == join(value_words(words(query@)), " "@),
    {
        let parts = split_whitespace(query);
        let mut target: Option<SearchTarget> = None;
        let mut values: Vec<String> = Vec::new();
        let mut i: usize = 0;
        let ghost all = parts.deep_view();
        while i < parts.len()
            invariant
                i <= parts.len(),
                all == parts.deep_view(),
                target == last_target(all.take(i as int)),
                values.deep_view() == value_words(all.take(i as int)),
            decreases parts.len() - i,
        {
            proof {
                assert(all.take(i + 1).drop_last() =~= all.take(i as int));
            }
            match target_of_word(parts[i].as_str()) {
                Some(chosen) => {
                    target = Some(chosen);
                },
                None => {
                    values.push(parts[i].clone());
                },
            }
            i += 1;
        }
        assert(all.take(parts.len() as int) =~= all);
        SearchRule { target, value: join_with(&values, " ") }
    }

    /// The statement that finds the titles of the songs that the rule
    /// describes; `None` where the rule has no target.
    pub fn statement(&self) -> (statement: Option<Query>)
        ensures
            self.target is None <==> statement is None,
            statement matches Some(found) ==> found@ == search_request(
                self.target->0,
                self.value@,
            ),
    {
        let target = match self.target {
            Some(target) => target,
            None => {
                return None;
            },
        };
        let mut pattern = String::from_str("%");
        pattern.append(self.value.as_str());
        pattern.append("%");
        let title = TableColumn::new(Table::Rolas, Column::Title);
        let mut columns: Vec<TableColumn> = Vec::new();
        columns.push(title);
        let mut conditionals: Vec<Conditional> = Vec::new();
        match target {
            SearchTarget::Title => {
                conditionals.push(Conditional::Like(title, pattern));
            },
            SearchTarget::Performer => {
                conditionals.push(
                    Conditional::Eq(
                        TableColumn::new(Table::Rolas, Column::Performer),
                        TableColumn::new(Table::Performers, Column::Id),
                    ),
                );
                conditionals.push(
                    Conditional::Like(TableColumn::new(Table::Performers, Column::Name), pattern),
                );
            },
            SearchTarget::Album => {
                conditionals.push(
                    Conditional::Eq(
                        TableColumn::new(Table::Rolas, Column::Album),
                        TableColumn::new(Table::Albums, Column::Id),
                    ),
                );
                conditionals.push(
                    Conditional::Like(TableColumn::new(Table::Albums, Column::Name), pattern),
                );
            },
            SearchTarget::Genre => {
                conditionals.push(
                    Conditional::Like(TableColumn::new(Table::Rolas, Column::Genre), pattern),
                );
            },
        }
        let found = select(columns.as_slice(), conditionals.as_slice());
        proof {
            let wanted = search_conditions(target, pattern_of(self.value@));
            assert(super::query_manager::conditions(conditionals@) =~= wanted);
        }
        Some(found)
    }
}

/// A search binds one value: its pattern.
pub proof fn lemma_search_parameters(target: SearchTarget, value: Seq<char>)
    ensures
        search_request(target, value).parameters == seq![Datum::Text(pattern_of(value))],
{
    reveal_with_fuel(super::query_manager::parameters_of, 3);
}

/// A search manager has a music database connection and a vector of results
/// (that contain the songs' title) after a search is made.
pub struct SearchManager {
    results: Vec<String>,
    database: MusicDatabase,
}

/// What holds of a search: the request is handed to the store, and the
/// titles that the store answers with are the new results. Where the store
/// fails, the search fails, and the results stay as they were.
pub open spec fn searching(
    request: Request,
    issued: Seq<Exchange>,
    before: Seq<Seq<char>>,
    after: Seq<Seq<char>>,
    searched: Result<(), StorageError>,
) -> bool {
    &&& issued.len() == 1
    &&& issued[0].request == request
    &&& match issued[0].answer {
        Answer::Rows(rows) => searched is Ok && after == spec_first_texts(rows),
        _ => searched matches Err(StorageError::StatementFailed(_)) && after == before,
    }
}

impl SearchManager {
    /// The titles that the last search found.
    pub closed spec fn results(&self) -> Seq<Seq<char>> {
        self.results.deep_view()
    }

    /// The database that the manager searches.
    pub closed spec fn store(&self) -> MusicDatabase {
        self.database
    }

    /// Creates a new instance of a search manager that searches `database`.
    /// It has no results yet.
    pub fn new(database: MusicDatabase) -> (manager: SearchManager)
        ensures
            manager.results().len() == 0,
            manager.store() == database,
    {
        SearchManager { results: Vec::new(), database }
    }

    /// Given a query from the user, the search manager creates the corresponding SQL statement.
    /// If the statement is valid, it makes the query to the database, storing the results.
    ///
    /// A query that names no target, such as the empty query, finds nothing:
    /// nothing is handed to the store, and there are no results afterwards,
    /// whatever was searched before. Where a search fails, the results stay
    /// as they are.
    pub fn set_rules(&mut self, query: &str) -> (searched: Result<(), StorageError>)
        ensures
            final(self).store().continues(&old(self).store()),
            match last_target(words(query@)) {
                None => {
                    &&& searched is Ok
                    &&& final(self).results().len() == 0
                    &&& final(self).store().issued_since(&old(self).store()).len() == 0
                },
                Some(target) => if old(self).store().is_connected() {
                    searching(
                        search_request(target, join(value_words(words(query@)), " "@)),
                        final(self).store().issued_since(&old(self).store()),
                        old(self).results(),
                        final(self).results(),
                        searched,
                    )
                } else {
                    &&& unconnected(final(self).store().issued_since(&old(self).store()), searched)
                    &&& final(self).results() == old(self).results()
                },
            },
    {
        proof {
            self.database.lemma_nothing_issued();
        }
        let rule = SearchRule::parse(query);
        match rule.statement() {
            Some(statement) => {
                match self.database.search_songs(&statement) {
                    Ok(titles) => {
                        self.results = titles;
                        Ok(())
                    },
                    Err(error) => Err(error),
                }
            },
            None => {
                self.results = Vec::new();
                Ok(())
            },
        }
    }

    /// Given a song's title, it determines whether the song should be visible or not:
    /// whether the last search found it.
    pub fn is_visible(&self, title: &str) -> (visible: bool)
        ensures
            visible == self.results().contains(title@),
    {
        let mut i: usize = 0;
        while i < self.results.len()
            invariant
                i <= self.results.len(),
                forall|k: int| 0 <= k < i ==> #[trigger] self.results()[k] != title@,
            decreases self.results.len() - i,
        {
            assert(self.results()[i as int] == self.results[i as int]@);
            if same_text(self.results[i].as_str(), title) {
                return true;
            }
            i += 1;
        }
        false
    }
}

} // verus!
