use vstd::prelude::*;

verus! {

/// The whole seconds since the Unix epoch that `text` names when read in the
/// strftime-style `layout` as a UTC date and time, or none where it does not
/// parse.
pub uninterp spec fn parsed_seconds(text: Seq<char>, layout: Seq<char>) -> Option<i64>;

/// Relies on chrono's `NaiveDateTime::parse_from_str`, then `and_utc` and
/// `timestamp`: the text read in the layout, counted in seconds since the
/// epoch. The result depends on the two texts alone.
#[verifier::external_body]
fn parse_seconds(text: &str, layout: &str) -> (r: Option<i64>)
    ensures
        r == parsed_seconds(text@, layout@),
{
    match chrono::NaiveDateTime::parse_from_str(text, layout) {
        Ok(t) => Some(t.and_utc().timestamp()),
        Err(_) => None,
    }
}

/// The instant a store row records as `created` (`YYYY-MM-DD HH:MM:SS`, UTC).
pub open spec fn created_time(text: Seq<char>) -> Option<i64> {
    parsed_seconds(text, "%Y-%m-%d %H:%M:%S"@)
}

/// A point in time, in whole seconds since the Unix epoch (UTC).
#[derive(Debug, Clone, Copy, PartialEq, Eq, Structural, PartialOrd, Ord, Hash)]
pub struct Timestamp {
    pub seconds: i64,
}

/// Reads the `created` column of a store row.
pub fn date(value: &str) -> (r: Option<Timestamp>)
    ensures
        created_time(value@) matches Some(s) ==> r == Some(Timestamp { seconds: s }),
        created_time(value@) is None ==> r is None,
{
    match parse_seconds(value, "%Y-%m-%d %H:%M:%S") {
        Some(s) => Some(Timestamp { seconds: s }),
        None => None,
    }
}

/// Why a lookup produced no revision.
#[derive(Debug, Clone, Copy, PartialEq, Eq, Structural)]
pub enum RecipeLookupError {
    NotFound,
    DatabaseError,
}

/// How a query against the store failed: it matched no row, or anything else
/// went wrong.
#[derive(Debug, Clone, Copy, PartialEq, Eq, Structural)]
pub enum QueryFailure {
    RowNotFound,
    Other,
}

impl From<QueryFailure> for RecipeLookupError {
    fn from(value: QueryFailure) -> (r: RecipeLookupError) {
        match value {
            QueryFailure::RowNotFound => RecipeLookupError::NotFound,
            QueryFailure::Other => RecipeLookupError::DatabaseError,
        }
    }
}

impl vstd::std_specs::convert::FromSpecImpl<QueryFailure> for RecipeLookupError {
    open spec fn obeys_from_spec() -> bool {
        true
    }

    open spec fn from_spec(v: QueryFailure) -> RecipeLookupError {
        match v {
            QueryFailure::RowNotFound => RecipeLookupError::NotFound,
            QueryFailure::Other => RecipeLookupError::DatabaseError,
        }
    }
}

/// The columns of a stored revision that lookups read.
#[derive(Debug, Clone, PartialEq, Eq)]
pub struct RevisionRow {
    pub revision: String,
    pub created: String,
}

/// A revision of a recipe.
#[derive(Debug, Clone, PartialEq, Eq)]
pub struct Recipe {
    pub revision: String,
    pub time: Timestamp,
}

/// A revision of a package built from a recipe revision.
#[derive(Debug, Clone, PartialEq, Eq)]
pub struct Package {
    pub revision: String,
    pub time: Timestamp,
}

impl Recipe {
    /// The revision a stored row describes; a `created` value that does not
    /// read as a date is a store fault.
    pub fn from_row(row: &RevisionRow) -> (r: Result<Recipe, RecipeLookupError>)
        ensures
            match created_time(row.created@) {
                None => r == Err::<Recipe, _>(RecipeLookupError::DatabaseError),
                Some(s) => r matches Ok(x) && x.revision@ == row.revision@ && x.time.seconds == s,
            },
    {
        match date(row.created.as_str()) {
            Some(time) => Ok(Recipe { revision: row.revision.clone(), time }),
            None => Err(RecipeLookupError::DatabaseError),
        }
    }
}

impl Package {
    /// The revision a stored row describes; a `created` value that does not
    /// read as a date is a store fault.
    pub fn from_row(row: &RevisionRow) -> (r: Result<Package, RecipeLookupError>)
        ensures
            match created_time(row.created@) {
                None => r == Err::<Package, _>(RecipeLookupError::DatabaseError),
                Some(s) => r matches Ok(x) && x.revision@ == row.revision@ && x.time.seconds == s,
            },
    {
        match date(row.created.as_str()) {
            Some(time) => Ok(Package { revision: row.revision.clone(), time }),
            None => Err(RecipeLookupError::DatabaseError),
        }
    }
}

} // verus!
