//! Schema discovery and normalization for Bear's Core Data database.
//!
//! Bear's junction table between notes and tags is named with a number that
//! changes across versions (`Z_5TAGS`, `Z_7TAGS`, ...), and so are its two
//! columns. Discovery matches those names in an enumerated catalog; the
//! normalizing CTE then re-exposes the physical tables under stable names.

use vstd::prelude::*;
use crate::text::{
    is_ascii_digit, digits_between, ends_with, starts_with, str_digits_between, str_ends_with, str_starts_with,
};

verus! {

/// Leading part of the junction table's name.
pub const JUNCTION_PREFIX: &'static str = "Z_";

/// Trailing part of the junction table's name and of its tag column.
pub const TAGS_SUFFIX: &'static str = "TAGS";

/// Trailing part of the junction table's note column.
pub const NOTES_SUFFIX: &'static str = "NOTES";

/// Opening of the normalizing CTE, up to the junction table's note column.
pub const CTE_HEAD: &'static str = r"
WITH
  core_data AS (
    SELECT 978307200 as epoch
  ),
  notes AS (
    SELECT
      n.Z_PK as id,
      n.ZUNIQUEIDENTIFIER as unique_id,
      n.ZTITLE as title,
      n.ZTEXT as content,
      datetime(n.ZMODIFICATIONDATE + cd.epoch, 'unixepoch') as modified,
      datetime(n.ZCREATIONDATE + cd.epoch, 'unixepoch') as created,
      n.ZPINNED as is_pinned,
      n.ZTRASHED as is_trashed,
      n.ZARCHIVED as is_archived
    FROM ZSFNOTE as n, core_data as cd
  ),
  tags AS (
    SELECT
      t.Z_PK as id,
      t.ZTITLE as name,
      datetime(t.ZMODIFICATIONDATE + cd.epoch, 'unixepoch') as modified
    FROM ZSFNOTETAG as t, core_data as cd
  ),
  note_tags AS (
    SELECT
      nt.";

/// Text between the junction table's note column and its tag column.
pub const CTE_NOTES_TO_TAGS: &'static str = r" as note_id,
      nt.";

/// Text between the junction table's tag column and the table's name.
pub const CTE_TAGS_TO_TABLE: &'static str = r" as tag_id
    FROM ";

/// Closing of the normalizing CTE, after the junction table's name.
pub const CTE_TAIL: &'static str = r" as nt
  ),
  note_links AS (
    SELECT
      nl.ZLINKEDBY as from_note_id,
      nl.ZLINKINGTO as to_note_id
    FROM ZSFNOTEBACKLINK as nl
  )
";

/// One table of the database catalog: its name and its column names, in
/// catalog order.
#[derive(Debug, Clone)]
pub struct TableInfo {
    pub name: String,
    pub columns: Vec<String>,
}

/// Metadata discovered from Bear's database schema: the variable parts of
/// Bear's Core Data schema that change across versions.
#[derive(Debug, Clone)]
pub struct BearDbMetadata {
    /// Name of the junction table linking notes to tags (e.g. `Z_5TAGS`).
    pub junction_table_name: String,
    /// Column of the junction table that references notes (e.g. `Z_5NOTES`).
    pub junction_notes_column: String,
    /// Column of the junction table that references tags (e.g. `Z_13TAGS`).
    pub junction_tags_column: String,
}

/// Why the versioned junction table could not be located.
#[derive(Debug, Clone, Copy, PartialEq, Eq, Structural)]
pub enum SchemaDiscoveryError {
    /// No table is named `Z_<digits>TAGS`.
    NoJunctionTable,
    /// The junction table has no column ending in `NOTES`.
    NoNotesColumn,
    /// The junction table has no column ending in `TAGS`.
    NoTagsColumn,
}

/// `s` is `Z_`, one or more ASCII digits, then `TAGS`.
pub open spec fn is_junction_table_name(s: Seq<char>) -> bool {
    let lo = JUNCTION_PREFIX@.len() as int;
    let hi = s.len() - TAGS_SUFFIX@.len();
    &&& lo < hi
    &&& starts_with(s, JUNCTION_PREFIX@)
    &&& ends_with(s, TAGS_SUFFIX@)
    &&& digits_between(s, lo, hi)
}

/// `t` is the first table of `catalog` named like the junction table.
pub open spec fn first_junction_table(catalog: Seq<TableInfo>, t: int) -> bool {
    &&& 0 <= t < catalog.len()
    &&& is_junction_table_name(catalog[t].name@)
    &&& forall|j: int| 0 <= j < t ==> !is_junction_table_name((#[trigger] catalog[j]).name@)
}

/// No table of `catalog` is named like the junction table.
pub open spec fn no_junction_table(catalog: Seq<TableInfo>) -> bool {
    forall|j: int| 0 <= j < catalog.len() ==> !is_junction_table_name((#[trigger] catalog[j]).name@)
}

/// `a` is the first of `columns` whose name ends with `suffix`.
pub open spec fn first_column_ending(columns: Seq<String>, suffix: Seq<char>, a: int) -> bool {
    &&& 0 <= a < columns.len()
    &&& ends_with(columns[a]@, suffix)
    &&& forall|j: int| 0 <= j < a ==> !ends_with((#[trigger] columns[j])@, suffix)
}

/// None of `columns` has a name ending with `suffix`.
pub open spec fn no_column_ending(columns: Seq<String>, suffix: Seq<char>) -> bool {
    forall|j: int| 0 <= j < columns.len() ==> !ends_with((#[trigger] columns[j])@, suffix)
}

/// `r` is what discovery yields on `catalog`: the first table named like the
/// junction table, and in it the first column ending in `NOTES` and the
/// first ending in `TAGS`; or the error naming the first of these that is
/// missing.
pub open spec fn discovers(catalog: Seq<TableInfo>, r: Result<BearDbMetadata, SchemaDiscoveryError>) -> bool {
    match r {
        Ok(m) => exists|t: int, a: int, b: int|
            {
                &&& #[trigger] first_junction_table(catalog, t)
                &&& #[trigger] first_column_ending(catalog[t].columns@, NOTES_SUFFIX@, a)
                &&& #[trigger] first_column_ending(catalog[t].columns@, TAGS_SUFFIX@, b)
                &&& m.junction_table_name@ == catalog[t].name@
                &&& m.junction_notes_column@ == catalog[t].columns@[a]@
                &&& m.junction_tags_column@ == catalog[t].columns@[b]@
            },
        Err(SchemaDiscoveryError::NoJunctionTable) => no_junction_table(catalog),
        Err(SchemaDiscoveryError::NoNotesColumn) => exists|t: int|
            {
                &&& #[trigger] first_junction_table(catalog, t)
                &&& no_column_ending(catalog[t].columns@, NOTES_SUFFIX@)
            },
        Err(SchemaDiscoveryError::NoTagsColumn) => exists|t: int|
            {
                &&& #[trigger] first_junction_table(catalog, t)
                &&& !no_column_ending(catalog[t].columns@, NOTES_SUFFIX@)
                &&& no_column_ending(catalog[t].columns@, TAGS_SUFFIX@)
            },
    }
}

/// Whether `name` is `Z_`, one or more digits, then `TAGS`.
pub fn is_junction_table(name: &str) -> (r: bool)
    ensures
        r == is_junction_table_name(name@),
{
    let n = name.unicode_len();
    let lo = JUNCTION_PREFIX.unicode_len();
    let tail = TAGS_SUFFIX.unicode_len();
    if n < tail || lo >= n - tail {
        return false;
    }
    str_starts_with(name, JUNCTION_PREFIX) && str_ends_with(name, TAGS_SUFFIX) && str_digits_between(
        name,
        lo,
        n - tail,
    )
}

/// Position of the first column whose name ends with `suffix`.
fn find_column(columns: &Vec<String>, suffix: &str) -> (r: Option<usize>)
    ensures
        match r {
            Some(i) => first_column_ending(columns@, suffix@, i as int),
            None => no_column_ending(columns@, suffix@),
        },
{
    let mut i: usize = 0;
    while i < columns.len()
        invariant
            i <= columns@.len(),
            forall|j: int| 0 <= j < i ==> !ends_with((#[trigger] columns@[j])@, suffix@),
        decreases columns.len() - i,
    {
        if str_ends_with(columns[i].as_str(), suffix) {
            return Some(i);
        }
        i = i + 1;
    }
    None
}

/// Position of the first table named like the junction table.
pub fn find_junction_table(catalog: &Vec<TableInfo>) -> (r: Option<usize>)
    ensures
        match r {
            Some(i) => first_junction_table(catalog@, i as int),
            None => no_junction_table(catalog@),
        },
{
    let mut i: usize = 0;
    while i < catalog.len()
        invariant
            i <= catalog@.len(),
            forall|j: int| 0 <= j < i ==> !is_junction_table_name((#[trigger] catalog@[j]).name@),
        decreases catalog.len() - i,
    {
        if is_junction_table(catalog[i].name.as_str()) {
            return Some(i);
        }
        i = i + 1;
    }
    None
}

/// Discovers the variable parts of Bear's schema from an enumerated catalog
/// (table names with their column names, in catalog order).
///
/// The junction table is the first table named `Z_<digits>TAGS`; its note
/// column is the first column ending in `NOTES`, its tag column the first
/// ending in `TAGS`. Fails when any of the three is missing.
pub fn discover_metadata(catalog: &Vec<TableInfo>) -> (r: Result<BearDbMetadata, SchemaDiscoveryError>)
    ensures
        discovers(catalog@, r),
{
    let t = match find_junction_table(catalog) {
        Some(t) => t,
        None => return Err(SchemaDiscoveryError::NoJunctionTable),
    };
    let table = &catalog[t];
    let a = match find_column(&table.columns, NOTES_SUFFIX) {
        Some(a) => a,
        None => {
            assert(first_junction_table(catalog@, t as int));
            return Err(SchemaDiscoveryError::NoNotesColumn);
        },
    };
    let b = match find_column(&table.columns, TAGS_SUFFIX) {
        Some(b) => b,
        None => {
            assert(first_junction_table(catalog@, t as int));
            assert(ends_with(table.columns@[a as int]@, NOTES_SUFFIX@));
            return Err(SchemaDiscoveryError::NoTagsColumn);
        },
    };
    let m = BearDbMetadata {
        junction_table_name: table.name.clone(),
        junction_notes_column: table.columns[a].clone(),
        junction_tags_column: table.columns[b].clone(),
    };
    assert(first_junction_table(catalog@, t as int));
    Ok(m)
}

/// The normalizing CTE over a junction table `table` whose note column is
/// `notes` and whose tag column is `tags`.
///
/// It defines `notes`, `tags`, `note_tags` and `note_links` under stable
/// names; only `note_tags` reads the three discovered names, and timestamps
/// are shifted by the Core Data epoch (2001-01-01, 978307200 s after the Unix
/// epoch) and rendered as date-times.
pub open spec fn normalizing_cte(notes: Seq<char>, tags: Seq<char>, table: Seq<char>) -> Seq<char> {
    CTE_HEAD@ + notes + CTE_NOTES_TO_TAGS@ + tags + CTE_TAGS_TO_TABLE@ + table + CTE_TAIL@
}

/// The normalizing CTE for discovered metadata.
pub open spec fn metadata_cte(m: BearDbMetadata) -> Seq<char> {
    normalizing_cte(m.junction_notes_column@, m.junction_tags_column@, m.junction_table_name@)
}

/// Generates the normalizing CTE that abstracts Bear's Core Data schema.
pub fn generate_normalizing_cte(metadata: &BearDbMetadata) -> (r: String)
    ensures
        r@ == metadata_cte(*metadata),
{
    let mut cte = String::from_str(CTE_HEAD);
    cte.append(metadata.junction_notes_column.as_str());
    cte.append(CTE_NOTES_TO_TAGS);
    cte.append(metadata.junction_tags_column.as_str());
    cte.append(CTE_TAGS_TO_TABLE);
    cte.append(metadata.junction_table_name.as_str());
    cte.append(CTE_TAIL);
    cte
}

/// Generating the normalizing CTE is deterministic: metadata with the same
/// names always yields the same text.
pub proof fn lemma_cte_deterministic(m1: BearDbMetadata, m2: BearDbMetadata)
    requires
        m1.junction_table_name@ == m2.junction_table_name@,
        m1.junction_notes_column@ == m2.junction_notes_column@,
        m1.junction_tags_column@ == m2.junction_tags_column@,
    ensures
        metadata_cte(m1) == metadata_cte(m2),
{
}

/// A catalog without any table named like the junction table makes
/// discovery fail with `NoJunctionTable`.
pub proof fn lemma_no_junction_table_fails(
    catalog: Seq<TableInfo>,
    r: Result<BearDbMetadata, SchemaDiscoveryError>,
)
    requires
        discovers(catalog, r),
        no_junction_table(catalog),
    ensures
        r == Err::<BearDbMetadata, SchemaDiscoveryError>(SchemaDiscoveryError::NoJunctionTable),
{
    match r {
        Ok(m) => {
            let (t, a, b) = choose|t: int, a: int, b: int|
                {
                    &&& #[trigger] first_junction_table(catalog, t)
                    &&& #[trigger] first_column_ending(catalog[t].columns@, NOTES_SUFFIX@, a)
                    &&& #[trigger] first_column_ending(catalog[t].columns@, TAGS_SUFFIX@, b)
                    &&& m.junction_table_name@ == catalog[t].name@
                    &&& m.junction_notes_column@ == catalog[t].columns@[a]@
                    &&& m.junction_tags_column@ == catalog[t].columns@[b]@
                };
            assert(!is_junction_table_name(catalog[t].name@));
        },
        Err(SchemaDiscoveryError::NoNotesColumn) => {
            let t = choose|t: int|
                {
                    &&& #[trigger] first_junction_table(catalog, t)
                    &&& no_column_ending(catalog[t].columns@, NOTES_SUFFIX@)
                };
            assert(!is_junction_table_name(catalog[t].name@));
        },
        Err(SchemaDiscoveryError::NoTagsColumn) => {
            let t = choose|t: int|
                {
                    &&& #[trigger] first_junction_table(catalog, t)
                    &&& !no_column_ending(catalog[t].columns@, NOTES_SUFFIX@)
                    &&& no_column_ending(catalog[t].columns@, TAGS_SUFFIX@)
                };
            assert(!is_junction_table_name(catalog[t].name@));
        },
        Err(SchemaDiscoveryError::NoJunctionTable) => {},
    }
}

proof fn lemma_name_literals()
    ensures
        JUNCTION_PREFIX@ == seq!['Z', '_'],
        TAGS_SUFFIX@ == seq!['T', 'A', 'G', 'S'],
        NOTES_SUFFIX@ == seq!['N', 'O', 'T', 'E', 'S'],
{
    reveal_strlit("Z_");
    reveal_strlit("TAGS");
    reveal_strlit("NOTES");
    assert(JUNCTION_PREFIX@ =~= seq!['Z', '_']);
    assert(TAGS_SUFFIX@ =~= seq!['T', 'A', 'G', 'S']);
    assert(NOTES_SUFFIX@ =~= seq!['N', 'O', 'T', 'E', 'S']);
}

/// `v` is a version number: one or more ASCII digits.
pub open spec fn is_version(v: Seq<char>) -> bool {
    v.len() > 0 && digits_between(v, 0, v.len() as int)
}

/// The name `Z_<v><suffix>` of a versioned table or column.
pub open spec fn versioned_name(v: Seq<char>, suffix: Seq<char>) -> Seq<char> {
    JUNCTION_PREFIX@ + v + suffix
}

/// The normalized surface does not depend on the schema's version numbers.
///
/// Whatever the version numbers `d` and `e` of an installation, where its
/// junction table is `Z_<d>TAGS` with the columns `Z_<d>NOTES` and
/// `Z_<e>TAGS`, and no table before it in the catalog is named like a
/// junction table, discovery finds exactly these three names, and the
/// normalizing CTE is the one fixed template in which `note_tags` reads
/// `note_id` and `tag_id` from those columns of that table. So every
/// installation exposes the same pairs under the same stable names.
pub proof fn lemma_version_invariant_surface(
    catalog: Seq<TableInfo>,
    t: int,
    d: Seq<char>,
    e: Seq<char>,
    r: Result<BearDbMetadata, SchemaDiscoveryError>,
)
    requires
        discovers(catalog, r),
        is_version(d),
        is_version(e),
        0 <= t < catalog.len(),
        catalog[t].name@ == versioned_name(d, TAGS_SUFFIX@),
        catalog[t].columns@.len() == 2,
        catalog[t].columns@[0]@ == versioned_name(d, NOTES_SUFFIX@),
        catalog[t].columns@[1]@ == versioned_name(e, TAGS_SUFFIX@),
        forall|j: int| 0 <= j < t ==> !is_junction_table_name((#[trigger] catalog[j]).name@),
    ensures
        r is Ok,
        r->Ok_0.junction_table_name@ == versioned_name(d, TAGS_SUFFIX@),
        r->Ok_0.junction_notes_column@ == versioned_name(d, NOTES_SUFFIX@),
        r->Ok_0.junction_tags_column@ == versioned_name(e, TAGS_SUFFIX@),
        metadata_cte(r->Ok_0) == normalizing_cte(
            versioned_name(d, NOTES_SUFFIX@),
            versioned_name(e, TAGS_SUFFIX@),
            versioned_name(d, TAGS_SUFFIX@),
        ),
{
    lemma_name_literals();
    let name = versioned_name(d, TAGS_SUFFIX@);
    let cols = catalog[t].columns@;
    let c0 = versioned_name(d, NOTES_SUFFIX@);
    let c1 = versioned_name(e, TAGS_SUFFIX@);
    assert(name.subrange(0, 2) =~= JUNCTION_PREFIX@);
    assert(name.subrange(name.len() - 4, name.len() as int) =~= TAGS_SUFFIX@);
    assert forall|i: int| 2 <= i < name.len() - 4 implies is_ascii_digit(#[trigger] name[i]) by {
        assert(name[i] == d[i - 2]);
    }
    assert(is_junction_table_name(name));
    assert(first_junction_table(catalog, t));
    assert(c0.subrange(c0.len() - 5, c0.len() as int) =~= NOTES_SUFFIX@);
    assert(c0.subrange(c0.len() - 4, c0.len() as int)[0] == 'O');
    assert(!ends_with(c0, TAGS_SUFFIX@));
    assert(c1.subrange(c1.len() - 4, c1.len() as int) =~= TAGS_SUFFIX@);
    assert(first_column_ending(cols, NOTES_SUFFIX@, 0));
    assert(first_column_ending(cols, TAGS_SUFFIX@, 1));
    assert forall|u: int| #[trigger] first_junction_table(catalog, u) implies u == t by {
        if u < t {
            assert(!is_junction_table_name(catalog[u].name@));
        } else if u > t {
            assert(!is_junction_table_name(catalog[t].name@));
        }
    }
    match r {
        Ok(m) => {
            let (u, a, b) = choose|u: int, a: int, b: int|
                {
                    &&& #[trigger] first_junction_table(catalog, u)
                    &&& #[trigger] first_column_ending(catalog[u].columns@, NOTES_SUFFIX@, a)
                    &&& #[trigger] first_column_ending(catalog[u].columns@, TAGS_SUFFIX@, b)
                    &&& m.junction_table_name@ == catalog[u].name@
                    &&& m.junction_notes_column@ == catalog[u].columns@[a]@
                    &&& m.junction_tags_column@ == catalog[u].columns@[b]@
                };
            assert(u == t);
            if a > 0 {
                assert(!ends_with(cols[0]@, NOTES_SUFFIX@));
            }
            if b == 0 {
                assert(ends_with(cols[0]@, TAGS_SUFFIX@));
            }
            assert(a == 0 && b == 1);
        },
        Err(SchemaDiscoveryError::NoJunctionTable) => {
            assert(!is_junction_table_name(catalog[t].name@));
        },
        Err(SchemaDiscoveryError::NoNotesColumn) => {
            let u = choose|u: int|
                {
                    &&& #[trigger] first_junction_table(catalog, u)
                    &&& no_column_ending(catalog[u].columns@, NOTES_SUFFIX@)
                };
            assert(u == t);
            assert(!ends_with(cols[0]@, NOTES_SUFFIX@));
        },
        Err(SchemaDiscoveryError::NoTagsColumn) => {
            let u = choose|u: int|
                {
                    &&& #[trigger] first_junction_table(catalog, u)
                    &&& !no_column_ending(catalog[u].columns@, NOTES_SUFFIX@)
                    &&& no_column_ending(catalog[u].columns@, TAGS_SUFFIX@)
                };
            assert(u == t);
            assert(!ends_with(cols[1]@, TAGS_SUFFIX@));
        },
    }
}

} // verus!
