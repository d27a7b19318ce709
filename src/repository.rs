use vstd::prelude::*;
use crate::revision::{
    created_time, Package, QueryFailure, Recipe, RecipeLookupError, RevisionRow, Timestamp,
};

verus! {

/// `j` is the position of the newest entry of `times`; of entries that share
/// the newest time, the last one.
pub open spec fn is_latest(times: Seq<i64>, j: int) -> bool {
    &&& 0 <= j < times.len()
    &&& forall|i: int| 0 <= i < times.len() ==> times[i] <= times[j]
    &&& forall|i: int| j < i < times.len() ==> times[i] < times[j]
}

/// Every row's `created` value reads as a date.
pub open spec fn all_dated(rows: Seq<RevisionRow>) -> bool {
    forall|i: int| 0 <= i < rows.len() ==> created_time(#[trigger] rows[i].created@) is Some
}

/// The creation instants of `rows`, in order.
pub open spec fn row_times(rows: Seq<RevisionRow>) -> Seq<i64> {
    rows.map_values(|r: RevisionRow| created_time(r.created@)->Some_0)
}

/// `revision` and `seconds` are those of the newest of `rows`.
pub open spec fn resolves_latest(rows: Seq<RevisionRow>, revision: Seq<char>, seconds: i64) -> bool {
    exists|j: int|
        is_latest(row_times(rows), j) && rows[j].revision@ == revision && row_times(rows)[j]
            == seconds
}

pub open spec fn lookup_error(f: QueryFailure) -> RecipeLookupError {
    match f {
        QueryFailure::RowNotFound => RecipeLookupError::NotFound,
        QueryFailure::Other => RecipeLookupError::DatabaseError,
    }
}

/// The position of the newest time, scanning left to right and keeping the
/// later of two equal times.
pub fn latest_position(times: &Vec<i64>) -> (r: usize)
    requires
        times.len() > 0,
    ensures
        is_latest(times@, r as int),
{
    let mut best: usize = 0;
    let mut i: usize = 1;
    while i < times.len()
        invariant
            1 <= i <= times@.len(),
            best < i,
            forall|k: int| 0 <= k < i ==> times@[k] <= times@[best as int],
            forall|k: int| best < k < i ==> times@[k] < times@[best as int],
        decreases times@.len() - i,
    {
        if !(times[best] > times[i]) {
            best = i;
        }
        i = i + 1;
    }
    best
}

/// The creation instants of `rows`; a row whose `created` value does not
/// read as a date is a store fault.
fn dated_times(rows: &Vec<RevisionRow>) -> (r: Result<Vec<i64>, RecipeLookupError>)
    ensures
        r matches Ok(ts) ==> all_dated(rows@) && ts@ == row_times(rows@),
        r is Err ==> !all_dated(rows@) && r == Err::<Vec<i64>, _>(RecipeLookupError::DatabaseError),
{
    let mut ts: Vec<i64> = Vec::new();
    let mut i: usize = 0;
    while i < rows.len()
        invariant
            i <= rows@.len(),
            ts@.len() == i,
            forall|k: int| 0 <= k < i ==> created_time(#[trigger] rows@[k].created@) == Some(ts@[k]),
        decreases rows@.len() - i,
    {
        match crate::revision::date(rows[i].created.as_str()) {
            Some(t) => ts.push(t.seconds),
            None => {
                assert(created_time(rows@[i as int].created@) is None);
                return Err(RecipeLookupError::DatabaseError);
            },
        }
        i = i + 1;
    }
    assert(ts@ =~= row_times(rows@));
    Ok(ts)
}

/// The newest of `rows` as its revision string and creation instant.
fn newest_row(rows: &Vec<RevisionRow>) -> (r: Result<(String, Timestamp), RecipeLookupError>)
    ensures
        rows@.len() == 0 ==> r == Err::<(String, Timestamp), _>(RecipeLookupError::NotFound),
        rows@.len() > 0 && !all_dated(rows@) ==> r == Err::<(String, Timestamp), _>(
            RecipeLookupError::DatabaseError,
        ),
        rows@.len() > 0 && all_dated(rows@) ==> (r matches Ok(x) && resolves_latest(
            rows@,
            x.0@,
            x.1.seconds,
        )),
{
    if rows.len() == 0 {
        return Err(RecipeLookupError::NotFound);
    }
    let ts = match dated_times(rows) {
        Ok(ts) => ts,
        Err(e) => return Err(e),
    };
    let j = latest_position(&ts);
    Ok((rows[j].revision.clone(), Timestamp { seconds: ts[j] }))
}

/// The newest recipe revision among the rows stored under an identifier;
/// of two with the same creation instant, the later row.
pub fn get_latest_recipe(fetched: Result<Vec<RevisionRow>, QueryFailure>) -> (r: Result<
    Recipe,
    RecipeLookupError,
>)
    ensures
        match fetched {
            Err(f) => r == Err::<Recipe, _>(lookup_error(f)),
            Ok(rows) => if rows@.len() == 0 {
                r == Err::<Recipe, _>(RecipeLookupError::NotFound)
            } else if !all_dated(rows@) {
                r == Err::<Recipe, _>(RecipeLookupError::DatabaseError)
            } else {
                r matches Ok(x) && resolves_latest(rows@, x.revision@, x.time.seconds)
            },
        },
{
    match fetched {
        Err(f) => Err(RecipeLookupError::from(f)),
        Ok(rows) => match newest_row(&rows) {
            Ok((revision, time)) => Ok(Recipe { revision, time }),
            Err(e) => Err(e),
        },
    }
}

/// The newest package revision among the rows stored for a recipe revision
/// and package reference; of two with the same creation instant, the later
/// row.
pub fn get_latest_package(fetched: Result<Vec<RevisionRow>, QueryFailure>) -> (r: Result<
    Package,
    RecipeLookupError,
>)
    ensures
        match fetched {
            Err(f) => r == Err::<Package, _>(lookup_error(f)),
            Ok(rows) => if rows@.len() == 0 {
                r == Err::<Package, _>(RecipeLookupError::NotFound)
            } else if !all_dated(rows@) {
                r == Err::<Package, _>(RecipeLookupError::DatabaseError)
            } else {
                r matches Ok(x) && resolves_latest(rows@, x.revision@, x.time.seconds)
            },
        },
{
    match fetched {
        Err(f) => Err(RecipeLookupError::from(f)),
        Ok(rows) => match newest_row(&rows) {
            Ok((revision, time)) => Ok(Package { revision, time }),
            Err(e) => Err(e),
        },
    }
}

/// The recipe revision that a point lookup by identifier and revision
/// string fetched.
pub fn get_recipe(fetched: Result<RevisionRow, QueryFailure>) -> (r: Result<
    Recipe,
    RecipeLookupError,
>)
    ensures
        match fetched {
            Err(f) => r == Err::<Recipe, _>(lookup_error(f)),
            Ok(row) => match created_time(row.created@) {
                None => r == Err::<Recipe, _>(RecipeLookupError::DatabaseError),
                Some(s) => r matches Ok(x) && x.revision@ == row.revision@ && x.time.seconds == s,
            },
        },
{
    match fetched {
        Err(f) => Err(RecipeLookupError::from(f)),
        Ok(row) => Recipe::from_row(&row),
    }
}

/// The package revision that a point lookup by package revision string
/// fetched.
pub fn get_package(fetched: Result<RevisionRow, QueryFailure>) -> (r: Result<
    Package,
    RecipeLookupError,
>)
    ensures
        match fetched {
            Err(f) => r == Err::<Package, _>(lookup_error(f)),
            Ok(row) => match created_time(row.created@) {
                None => r == Err::<Package, _>(RecipeLookupError::DatabaseError),
                Some(s) => r matches Ok(x) && x.revision@ == row.revision@ && x.time.seconds == s,
            },
        },
{
    match fetched {
        Err(f) => Err(RecipeLookupError::from(f)),
        Ok(row) => Package::from_row(&row),
    }
}

/// Where one row is strictly newer than every other, the latest revision is
/// that row's.
pub proof fn lemma_newest_row_wins(rows: Seq<RevisionRow>, k: int, revision: Seq<char>, seconds: i64)
    requires
        all_dated(rows),
        0 <= k < rows.len(),
        forall|i: int| 0 <= i < rows.len() && i != k ==> row_times(rows)[i] < row_times(rows)[k],
        resolves_latest(rows, revision, seconds),
    ensures
        revision == rows[k].revision@,
        seconds == row_times(rows)[k],
{
    let j = choose|j: int|
        is_latest(row_times(rows), j) && rows[j].revision@ == revision && row_times(rows)[j]
            == seconds;
    if j != k {
        assert(row_times(rows)[k] <= row_times(rows)[j]);
    }
}

/// The rows and their order decide the latest revision: two resolutions of
/// the same rows agree.
pub proof fn lemma_latest_is_determined(
    rows: Seq<RevisionRow>,
    revision1: Seq<char>,
    seconds1: i64,
    revision2: Seq<char>,
    seconds2: i64,
)
    requires
        resolves_latest(rows, revision1, seconds1),
        resolves_latest(rows, revision2, seconds2),
    ensures
        revision1 == revision2,
        seconds1 == seconds2,
{
    let t = row_times(rows);
    let j1 = choose|j: int| is_latest(t, j) && rows[j].revision@ == revision1 && t[j] == seconds1;
    let j2 = choose|j: int| is_latest(t, j) && rows[j].revision@ == revision2 && t[j] == seconds2;
    if j1 < j2 {
        assert(t[j2] < t[j1]);
        assert(t[j1] <= t[j2]);
    } else if j2 < j1 {
        assert(t[j1] < t[j2]);
        assert(t[j2] <= t[j1]);
    }
}

/// Where the two newest rows share their creation instant, the later of the
/// two is the latest revision.
pub proof fn lemma_tie_goes_to_later_row(
    rows: Seq<RevisionRow>,
    j: int,
    k: int,
    revision: Seq<char>,
    seconds: i64,
)
    requires
        all_dated(rows),
        0 <= j < k < rows.len(),
        row_times(rows)[j] == row_times(rows)[k],
        forall|i: int|
            0 <= i < rows.len() && i != j && i != k ==> row_times(rows)[i] < row_times(rows)[k],
        resolves_latest(rows, revision, seconds),
    ensures
        revision == rows[k].revision@,
        seconds == row_times(rows)[k],
{
    let t = row_times(rows);
    let m = choose|m: int| is_latest(t, m) && rows[m].revision@ == revision && t[m] == seconds;
    if m != k {
        assert(t[k] <= t[m]);
        if m < k {
            assert(t[k] < t[m]);
        }
    }
}

} // verus!
