//! Query options and the SQL text they stand for.
//!
//! All text here is written against the normalized relations of the
//! normalizing CTE (`notes`, `tags`, `note_tags`, `note_links`); the
//! [`Queryable`] gateway puts that CTE in front of it.

use vstd::prelude::*;
use crate::decimal::{decimal, push_decimal};
use crate::models::NoteId;

verus! {

/// Separates the normalizing CTE from the caller's query.
pub const QUERY_SEPARATOR: &'static str = "\n";

/// Prepends a normalizing CTE to query text written against the normalized
/// relations (`notes`, `tags`, `note_tags`, `note_links`).
pub struct Queryable<'a> {
    normalizing_cte: &'a str,
}

/// The text handed to the database for `user` under the CTE `cte`.
pub open spec fn full_query(cte: Seq<char>, user: Seq<char>) -> Seq<char> {
    cte + QUERY_SEPARATOR@ + user
}

impl<'a> Queryable<'a> {
    pub closed spec fn cte(&self) -> Seq<char> {
        self.normalizing_cte@
    }

    /// Creates a gateway from a pre-generated normalizing CTE.
    pub fn new(normalizing_cte: &'a str) -> (r: Self)
        ensures
            r.cte() == normalizing_cte@,
    {
        Queryable { normalizing_cte }
    }

    /// The statement text for `user_sql`: the normalizing CTE first, then
    /// the caller's query, which should use the normalized relation names.
    pub fn prepare(&self, user_sql: &str) -> (r: String)
        ensures
            r@ == full_query(self.cte(), user_sql@),
    {
        let mut full = String::from_str(self.normalizing_cte);
        full.append(QUERY_SEPARATOR);
        full.append(user_sql);
        full
    }
}

/// Statement text with the values to bind to its `?` placeholders, in order.
#[derive(Debug, Clone)]
pub struct Statement {
    pub sql: String,
    pub params: Vec<String>,
}

/// Options for listing notes. By default: the 10 most recently modified
/// notes, excluding trashed and archived ones.
#[derive(Debug, Clone, Copy, PartialEq, Eq, Structural)]
pub struct NotesQuery {
    limit: Option<u32>,
    include_trashed: bool,
    include_archived: bool,
}

impl NotesQuery {
    pub closed spec fn spec_limit(self) -> Option<u32> {
        self.limit
    }

    pub closed spec fn spec_include_trashed(self) -> bool {
        self.include_trashed
    }

    pub closed spec fn spec_include_archived(self) -> bool {
        self.include_archived
    }

    /// A query with the default settings (limit 10, no trashed or archived
    /// notes).
    pub fn new() -> (r: Self)
        ensures
            r.spec_limit() == Some(10u32),
            !r.spec_include_trashed(),
            !r.spec_include_archived(),
    {
        Self::default()
    }

    /// Returns at most `limit` notes.
    pub fn limit(self, limit: u32) -> (r: Self)
        ensures
            r.spec_limit() == Some(limit),
            r.spec_include_trashed() == self.spec_include_trashed(),
            r.spec_include_archived() == self.spec_include_archived(),
    {
        NotesQuery { limit: Some(limit), ..self }
    }

    /// Returns all matching notes.
    pub fn no_limit(self) -> (r: Self)
        ensures
            r.spec_limit() == None::<u32>,
            r.spec_include_trashed() == self.spec_include_trashed(),
            r.spec_include_archived() == self.spec_include_archived(),
    {
        NotesQuery { limit: None, ..self }
    }

    /// Includes trashed notes.
    pub fn include_trashed(self) -> (r: Self)
        ensures
            r.spec_limit() == self.spec_limit(),
            r.spec_include_trashed(),
            r.spec_include_archived() == self.spec_include_archived(),
    {
        NotesQuery { include_trashed: true, ..self }
    }

    /// Includes archived notes.
    pub fn include_archived(self) -> (r: Self)
        ensures
            r.spec_limit() == self.spec_limit(),
            r.spec_include_trashed() == self.spec_include_trashed(),
            r.spec_include_archived(),
    {
        NotesQuery { include_archived: true, ..self }
    }

    /// Includes both trashed and archived notes.
    pub fn include_all(self) -> (r: Self)
        ensures
            r.spec_limit() == self.spec_limit(),
            r.spec_include_trashed(),
            r.spec_include_archived(),
    {
        NotesQuery { include_trashed: true, include_archived: true, ..self }
    }
}

impl Default for NotesQuery {
    fn default() -> (r: Self)
        ensures
            r.spec_limit() == Some(10u32),
            !r.spec_include_trashed(),
            !r.spec_include_archived(),
    {
        NotesQuery { limit: Some(10), include_trashed: false, include_archived: false }
    }
}

/// The field to sort on.
#[derive(Debug, Clone, Copy, PartialEq, Eq, Structural)]
pub enum SortOn {
    /// Modification timestamp.
    Modified,
    /// Creation timestamp.
    Created,
    /// Note title.
    Title,
}

/// Sort order of search results.
#[derive(Debug, Clone, Copy, PartialEq, Eq, Structural)]
pub enum SortOrder {
    /// Ascending (oldest / A-Z first).
    Asc(SortOn),
    /// Descending (newest / Z-A first).
    Desc(SortOn),
}

impl SortOn {
    /// Ascending order on this field.
    pub fn asc(self) -> (r: SortOrder)
        ensures
            r == SortOrder::Asc(self),
    {
        SortOrder::Asc(self)
    }

    /// Descending order on this field.
    pub fn desc(self) -> (r: SortOrder)
        ensures
            r == SortOrder::Desc(self),
    {
        SortOrder::Desc(self)
    }
}

impl Default for SortOrder {
    /// Most recently modified first.
    fn default() -> (r: Self)
        ensures
            r == SortOrder::Desc(SortOn::Modified),
    {
        SortOrder::Desc(SortOn::Modified)
    }
}

pub const ORDER_MODIFIED_DESC: &'static str = "modified DESC";

pub const ORDER_MODIFIED_ASC: &'static str = "modified ASC";

pub const ORDER_CREATED_DESC: &'static str = "created DESC";

pub const ORDER_CREATED_ASC: &'static str = "created ASC";

pub const ORDER_TITLE_ASC: &'static str = "title ASC";

pub const ORDER_TITLE_DESC: &'static str = "title DESC";

/// The `ORDER BY` term of a sort order.
pub open spec fn sort_sql(o: SortOrder) -> Seq<char> {
    match o {
        SortOrder::Desc(SortOn::Modified) => ORDER_MODIFIED_DESC@,
        SortOrder::Asc(SortOn::Modified) => ORDER_MODIFIED_ASC@,
        SortOrder::Desc(SortOn::Created) => ORDER_CREATED_DESC@,
        SortOrder::Asc(SortOn::Created) => ORDER_CREATED_ASC@,
        SortOrder::Asc(SortOn::Title) => ORDER_TITLE_ASC@,
        SortOrder::Desc(SortOn::Title) => ORDER_TITLE_DESC@,
    }
}

impl SortOrder {
    /// The `ORDER BY` term of this order.
    pub fn to_sql(&self) -> (r: &'static str)
        ensures
            r@ == sort_sql(*self),
    {
        match self {
            SortOrder::Desc(SortOn::Modified) => ORDER_MODIFIED_DESC,
            SortOrder::Asc(SortOn::Modified) => ORDER_MODIFIED_ASC,
            SortOrder::Desc(SortOn::Created) => ORDER_CREATED_DESC,
            SortOrder::Asc(SortOn::Created) => ORDER_CREATED_ASC,
            SortOrder::Asc(SortOn::Title) => ORDER_TITLE_ASC,
            SortOrder::Desc(SortOn::Title) => ORDER_TITLE_DESC,
        }
    }
}

/// Column list of the typed note queries, ending after `FROM notes`.
pub const NOTE_COLUMNS: &'static str = r"
      SELECT
        id,
        unique_id,
        title,
        content,
        modified,
        created,
        is_pinned
      FROM notes
      ";

pub const ORDER_BY: &'static str = "\n      ORDER BY ";

pub const LINE_BREAK: &'static str = "\n      ";

pub const WHERE_KEYWORD: &'static str = "WHERE ";

pub const AND_KEYWORD: &'static str = " AND ";

pub const OR_KEYWORD: &'static str = " OR ";

pub const LIMIT_KEYWORD: &'static str = "LIMIT ";

pub const NOT_TRASHED: &'static str = "is_trashed <> 1";

pub const NOT_ARCHIVED: &'static str = "is_archived <> 1";

pub const LIKE_OPERATOR: &'static str = "LIKE";

pub const GLOB_OPERATOR: &'static str = "GLOB";

pub const LIKE_WILDCARD: &'static str = "%";

pub const GLOB_WILDCARD: &'static str = "*";

pub const TITLE_FIELD: &'static str = "title ";

pub const CONTENT_FIELD: &'static str = "content ";

pub const PLACEHOLDER: &'static str = " ?";

pub const OPEN_PAREN: &'static str = "(";

pub const CLOSE_PAREN: &'static str = ")";

/// The `LIMIT` clause for an optional limit (empty when there is none).
pub open spec fn limit_sql(limit: Option<u32>) -> Seq<char> {
    match limit {
        Some(n) => LIMIT_KEYWORD@ + decimal(n as nat),
        None => Seq::empty(),
    }
}

/// The `WHERE` clause of a note listing: one condition for each kind of
/// note left out, joined by `AND`; empty when nothing is left out.
pub open spec fn notes_filter_sql(include_trashed: bool, include_archived: bool) -> Seq<char> {
    if include_trashed && include_archived {
        Seq::empty()
    } else if include_trashed {
        WHERE_KEYWORD@ + NOT_ARCHIVED@
    } else if include_archived {
        WHERE_KEYWORD@ + NOT_TRASHED@
    } else {
        WHERE_KEYWORD@ + NOT_TRASHED@ + AND_KEYWORD@ + NOT_ARCHIVED@
    }
}

/// The text of a note listing: most recently modified first.
pub open spec fn notes_sql(q: NotesQuery) -> Seq<char> {
    NOTE_COLUMNS@ + notes_filter_sql(q.spec_include_trashed(), q.spec_include_archived()) + ORDER_BY@
        + ORDER_MODIFIED_DESC@ + LINE_BREAK@ + limit_sql(q.spec_limit())
}

/// Appends the `LIMIT` clause for `limit` to `s`.
fn push_limit(s: &mut String, limit: Option<u32>)
    ensures
        final(s)@ == old(s)@ + limit_sql(limit),
{
    match limit {
        Some(n) => {
            s.append(LIMIT_KEYWORD);
            push_decimal(s, n);
        },
        None => {},
    }
    assert(final(s)@ =~= old(s)@ + limit_sql(limit));
}

impl NotesQuery {
    /// The statement listing the notes this query selects, most recently
    /// modified first; it binds no parameters.
    pub fn to_statement(&self) -> (r: Statement)
        ensures
            r.sql@ == notes_sql(*self),
            r.params@.len() == 0,
    {
        let mut sql = String::from_str(NOTE_COLUMNS);
        if !self.include_trashed || !self.include_archived {
            sql.append(WHERE_KEYWORD);
            if !self.include_trashed {
                sql.append(NOT_TRASHED);
                if !self.include_archived {
                    sql.append(AND_KEYWORD);
                    sql.append(NOT_ARCHIVED);
                }
            } else {
                sql.append(NOT_ARCHIVED);
            }
        }
        sql.append(ORDER_BY);
        sql.append(ORDER_MODIFIED_DESC);
        sql.append(LINE_BREAK);
        push_limit(&mut sql, self.limit);
        assert(sql@ =~= notes_sql(*self));
        Statement { sql, params: Vec::new() }
    }
}

/// Options for searching notes by title and/or content. By default: both
/// fields, case-insensitive, at most 50 results, most recently modified
/// first, no trashed or archived notes.
#[derive(Debug, Clone)]
pub struct SearchQuery {
    query: String,
    search_title: bool,
    search_content: bool,
    case_sensitive: bool,
    limit: Option<u32>,
    sort_by: SortOrder,
    include_trashed: bool,
    include_archived: bool,
}

/// The plain-value content of a [`SearchQuery`].
pub struct SearchQueryView {
    pub query: Seq<char>,
    pub search_title: bool,
    pub search_content: bool,
    pub case_sensitive: bool,
    pub limit: Option<u32>,
    pub sort_by: SortOrder,
    pub include_trashed: bool,
    pub include_archived: bool,
}

impl View for SearchQuery {
    type V = SearchQueryView;

    closed spec fn view(&self) -> SearchQueryView {
        SearchQueryView {
            query: self.query@,
            search_title: self.search_title,
            search_content: self.search_content,
            case_sensitive: self.case_sensitive,
            limit: self.limit,
            sort_by: self.sort_by,
            include_trashed: self.include_trashed,
            include_archived: self.include_archived,
        }
    }
}

/// The comparison operator of a search: `GLOB` when case-sensitive, else
/// `LIKE`.
pub open spec fn like_operator(case_sensitive: bool) -> Seq<char> {
    if case_sensitive {
        GLOB_OPERATOR@
    } else {
        LIKE_OPERATOR@
    }
}

/// The pattern bound for a search: the query between two wildcards of the
/// operator in use.
pub open spec fn search_pattern(query: Seq<char>, case_sensitive: bool) -> Seq<char> {
    if case_sensitive {
        GLOB_WILDCARD@ + query + GLOB_WILDCARD@
    } else {
        LIKE_WILDCARD@ + query + LIKE_WILDCARD@
    }
}

/// The parenthesized disjunction of the searched fields' conditions.
pub open spec fn search_condition_sql(title: bool, content: bool, op: Seq<char>) -> Seq<char> {
    OPEN_PAREN@ + (if title {
        TITLE_FIELD@ + op + PLACEHOLDER@
    } else {
        Seq::empty()
    }) + (if title && content {
        OR_KEYWORD@
    } else {
        Seq::empty()
    }) + (if content {
        CONTENT_FIELD@ + op + PLACEHOLDER@
    } else {
        Seq::empty()
    }) + CLOSE_PAREN@
}

/// The conditions leaving out trashed and/or archived notes, each led by
/// `AND`.
pub open spec fn exclusion_sql(include_trashed: bool, include_archived: bool) -> Seq<char> {
    (if include_trashed {
        Seq::empty()
    } else {
        AND_KEYWORD@ + NOT_TRASHED@
    }) + (if include_archived {
        Seq::empty()
    } else {
        AND_KEYWORD@ + NOT_ARCHIVED@
    })
}

/// The text of a search.
pub open spec fn search_sql(q: SearchQueryView) -> Seq<char> {
    NOTE_COLUMNS@ + WHERE_KEYWORD@ + search_condition_sql(
        q.search_title,
        q.search_content,
        like_operator(q.case_sensitive),
    ) + exclusion_sql(q.include_trashed, q.include_archived) + ORDER_BY@ + sort_sql(q.sort_by)
        + LINE_BREAK@ + limit_sql(q.limit)
}

/// Number of placeholders of a search: one per searched field.
pub open spec fn search_param_count(q: SearchQueryView) -> nat {
    (if q.search_title {
        1nat
    } else {
        0nat
    }) + (if q.search_content {
        1nat
    } else {
        0nat
    })
}

/// Appends the parenthesized condition on the searched fields to `s`.
fn push_search_condition(s: &mut String, title: bool, content: bool, op: &str)
    ensures
        final(s)@ == old(s)@ + search_condition_sql(title, content, op@),
{
    s.append(OPEN_PAREN);
    if title {
        s.append(TITLE_FIELD);
        s.append(op);
        s.append(PLACEHOLDER);
    }
    if title && content {
        s.append(OR_KEYWORD);
    }
    if content {
        s.append(CONTENT_FIELD);
        s.append(op);
        s.append(PLACEHOLDER);
    }
    s.append(CLOSE_PAREN);
    assert(final(s)@ =~= old(s)@ + search_condition_sql(title, content, op@));
}

/// Appends the conditions leaving out trashed and/or archived notes to `s`.
fn push_exclusions(s: &mut String, include_trashed: bool, include_archived: bool)
    ensures
        final(s)@ == old(s)@ + exclusion_sql(include_trashed, include_archived),
{
    if !include_trashed {
        s.append(AND_KEYWORD);
        s.append(NOT_TRASHED);
    }
    if !include_archived {
        s.append(AND_KEYWORD);
        s.append(NOT_ARCHIVED);
    }
    assert(final(s)@ =~= old(s)@ + exclusion_sql(include_trashed, include_archived));
}

impl SearchQuery {
    /// A search for `query` with the default settings.
    pub fn new(query: &str) -> (r: Self)
        ensures
            r@.query == query@,
            r@.search_title,
            r@.search_content,
            !r@.case_sensitive,
            r@.limit == Some(50u32),
            r@.sort_by == SortOrder::Desc(SortOn::Modified),
            !r@.include_trashed,
            !r@.include_archived,
    {
        SearchQuery {
            query: String::from_str(query),
            search_title: true,
            search_content: true,
            case_sensitive: false,
            limit: Some(50),
            sort_by: SortOrder::default(),
            include_trashed: false,
            include_archived: false,
        }
    }

    /// Searches note titles only.
    pub fn title_only(self) -> (r: Self)
        ensures
            r@ == (SearchQueryView { search_title: true, search_content: false, ..self@ }),
    {
        SearchQuery { search_title: true, search_content: false, ..self }
    }

    /// Searches note content only.
    pub fn content_only(self) -> (r: Self)
        ensures
            r@ == (SearchQueryView { search_title: false, search_content: true, ..self@ }),
    {
        SearchQuery { search_title: false, search_content: true, ..self }
    }

    /// Searches both title and content.
    pub fn title_and_content(self) -> (r: Self)
        ensures
            r@ == (SearchQueryView { search_title: true, search_content: true, ..self@ }),
    {
        SearchQuery { search_title: true, search_content: true, ..self }
    }

    /// Matches case-sensitively.
    pub fn case_sensitive(self) -> (r: Self)
        ensures
            r@ == (SearchQueryView { case_sensitive: true, ..self@ }),
    {
        SearchQuery { case_sensitive: true, ..self }
    }

    /// Returns at most `limit` notes.
    pub fn limit(self, limit: u32) -> (r: Self)
        ensures
            r@ == (SearchQueryView { limit: Some(limit), ..self@ }),
    {
        SearchQuery { limit: Some(limit), ..self }
    }

    /// Returns all matching notes.
    pub fn no_limit(self) -> (r: Self)
        ensures
            r@ == (SearchQueryView { limit: None, ..self@ }),
    {
        SearchQuery { limit: None, ..self }
    }

    /// Sorts the results by `sort`.
    pub fn sort_by(self, sort: SortOrder) -> (r: Self)
        ensures
            r@ == (SearchQueryView { sort_by: sort, ..self@ }),
    {
        SearchQuery { sort_by: sort, ..self }
    }

    /// Includes trashed notes.
    pub fn include_trashed(self) -> (r: Self)
        ensures
            r@ == (SearchQueryView { include_trashed: true, ..self@ }),
    {
        SearchQuery { include_trashed: true, ..self }
    }

    /// Includes archived notes.
    pub fn include_archived(self) -> (r: Self)
        ensures
            r@ == (SearchQueryView { include_archived: true, ..self@ }),
    {
        SearchQuery { include_archived: true, ..self }
    }

    /// Includes both trashed and archived notes.
    pub fn include_all(self) -> (r: Self)
        ensures
            r@ == (SearchQueryView { include_trashed: true, include_archived: true, ..self@ }),
    {
        SearchQuery { include_trashed: true, include_archived: true, ..self }
    }

    /// The search's statement and its parameters: the pattern, once for each
    /// searched field. `None` when no field is searched, so nothing can
    /// match.
    pub fn to_statement(&self) -> (r: Option<Statement>)
        ensures
            match r {
                None => !self@.search_title && !self@.search_content,
                Some(st) => {
                    &&& self@.search_title || self@.search_content
                    &&& st.sql@ == search_sql(self@)
                    &&& st.params@.len() == search_param_count(self@)
                    &&& forall|i: int|
                        0 <= i < st.params@.len() ==> (#[trigger] st.params@[i])@ == search_pattern(
                            self@.query,
                            self@.case_sensitive,
                        )
                },
            },
    {
        if !self.search_title && !self.search_content {
            return None;
        }
        let op = if self.case_sensitive {
            GLOB_OPERATOR
        } else {
            LIKE_OPERATOR
        };
        let wildcard = if self.case_sensitive {
            GLOB_WILDCARD
        } else {
            LIKE_WILDCARD
        };
        let mut pattern = String::from_str(wildcard);
        pattern.append(self.query.as_str());
        pattern.append(wildcard);
        assert(pattern@ == search_pattern(self@.query, self@.case_sensitive));

        let mut params: Vec<String> = Vec::new();
        if self.search_title {
            params.push(pattern.clone());
        }
        if self.search_content {
            params.push(pattern.clone());
        }
        let mut sql = String::from_str(NOTE_COLUMNS);
        sql.append(WHERE_KEYWORD);
        push_search_condition(&mut sql, self.search_title, self.search_content, op);
        push_exclusions(&mut sql, self.include_trashed, self.include_archived);
        sql.append(ORDER_BY);
        sql.append(self.sort_by.to_sql());
        sql.append(LINE_BREAK);
        push_limit(&mut sql, self.limit);
        assert(sql@ =~= search_sql(self@));
        Some(Statement { sql, params })
    }
}

/// All tags, by name.
pub const TAGS_SQL: &'static str = r"
      SELECT
        id,
        name,
        modified
      FROM tags
      ORDER BY name ASC";

/// The note with a given UUID.
pub const NOTE_BY_ID_SQL: &'static str = r"
      SELECT
        id,
        unique_id,
        title,
        content,
        modified,
        created,
        is_pinned
      FROM notes
      WHERE unique_id = ?";

/// The untrashed, unarchived notes linked from the note with a given UUID,
/// most recently modified first.
pub const NOTE_LINKS_SQL: &'static str = r"
      SELECT
        n.id,
        n.unique_id,
        n.title,
        n.content,
        n.modified,
        n.created,
        n.is_pinned
      FROM notes as n
      INNER JOIN note_links as nl ON nl.to_note_id = n.id
      INNER JOIN notes as src ON nl.from_note_id = src.id
      WHERE n.is_trashed <> 1 AND n.is_archived <> 1 AND src.unique_id = ?
      ORDER BY n.modified DESC";

/// The tag ids of the note with a given UUID.
pub const NOTE_TAGS_SQL: &'static str = r"
      SELECT
        nt.tag_id
      FROM note_tags nt
      INNER JOIN notes as n ON nt.note_id = n.id
      WHERE n.unique_id = ?";

/// A statement of fixed text with one parameter, the note's UUID.
fn note_statement(sql: &str, id: &NoteId) -> (r: Statement)
    ensures
        r.sql@ == sql@,
        r.params@.len() == 1,
        r.params@[0]@ == id@,
{
    let mut params: Vec<String> = Vec::new();
    params.push(String::from_str(id.as_str()));
    Statement { sql: String::from_str(sql), params }
}

/// The statement that reads all tags, by name.
pub fn tags_statement() -> (r: Statement)
    ensures
        r.sql@ == TAGS_SQL@,
        r.params@.len() == 0,
{
    Statement { sql: String::from_str(TAGS_SQL), params: Vec::new() }
}

/// The statement that reads the note with UUID `id`.
pub fn note_by_id_statement(id: &NoteId) -> (r: Statement)
    ensures
        r.sql@ == NOTE_BY_ID_SQL@,
        r.params@.len() == 1,
        r.params@[0]@ == id@,
{
    note_statement(NOTE_BY_ID_SQL, id)
}

/// The statement that reads the notes linked from the note with UUID `from`.
pub fn note_links_statement(from: &NoteId) -> (r: Statement)
    ensures
        r.sql@ == NOTE_LINKS_SQL@,
        r.params@.len() == 1,
        r.params@[0]@ == from@,
{
    note_statement(NOTE_LINKS_SQL, from)
}

/// The statement that reads the tag ids of the note with UUID `from`.
pub fn note_tags_statement(from: &NoteId) -> (r: Statement)
    ensures
        r.sql@ == NOTE_TAGS_SQL@,
        r.params@.len() == 1,
        r.params@[0]@ == from@,
{
    note_statement(NOTE_TAGS_SQL, from)
}

} // verus!
