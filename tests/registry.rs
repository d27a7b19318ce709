use cimmeria::api::{
    latest_package, latest_package_request, missing_parameter_status, package_files,
    package_files_request, ping, recipe_files, recipe_files_request, recipe_latest,
    static_package_file, static_recipe_file, status_of, FilePath, PackageFiles,
    PackageRevisionFiles, RecipeFiles, RecipeRevisionFiles,
};
use cimmeria::identifier::{parameter, MissingParameterError, RecipeIdentifier};
use cimmeria::repository::{
    get_latest_package, get_latest_recipe, get_package, get_recipe, latest_position,
};
use cimmeria::revision::{
    date, Package, QueryFailure, Recipe, RecipeLookupError, RevisionRow, Timestamp,
};

fn params(pairs: &[(&str, &str)]) -> Vec<(String, String)> {
    pairs
        .iter()
        .map(|(k, v)| (k.to_string(), v.to_string()))
        .collect()
}

fn row(revision: &str, created: &str) -> RevisionRow {
    RevisionRow {
        revision: revision.to_string(),
        created: created.to_string(),
    }
}

fn identifier_params() -> Vec<(String, String)> {
    params(&[
        ("name", "zlib"),
        ("version", "1.2.13"),
        ("user", "conan"),
        ("channel", "stable"),
    ])
}

#[test]
fn identifier_formats_canonically() {
    let id = RecipeIdentifier::new(
        "zlib".to_string(),
        "1.2.13".to_string(),
        "conan".to_string(),
        "stable".to_string(),
    );
    assert_eq!(id.to_string(), "zlib/1.2.13@conan/stable");
}

#[test]
fn identifier_from_parameters_formats_canonically() {
    let id = RecipeIdentifier::from_parameters(&identifier_params()).unwrap();
    assert_eq!(id.name, "zlib");
    assert_eq!(id.channel, "stable");
    assert_eq!(id.to_string(), "zlib/1.2.13@conan/stable");
}

#[test]
fn identifier_accepts_blank_values() {
    let p = params(&[("name", ""), ("version", ""), ("user", ""), ("channel", "")]);
    let id = RecipeIdentifier::from_parameters(&p).unwrap();
    assert_eq!(id.to_string(), "/@/");
}

#[test]
fn identifier_missing_each_parameter_is_named() {
    for key in ["name", "version", "user", "channel"] {
        let p: Vec<(String, String)> = identifier_params()
            .into_iter()
            .filter(|(k, _)| k != key)
            .collect();
        assert_eq!(
            RecipeIdentifier::from_parameters(&p),
            Err(MissingParameterError(key.to_string()))
        );
    }
}

#[test]
fn identifier_missing_everything_names_name_first() {
    assert_eq!(
        RecipeIdentifier::from_parameters(&Vec::new()),
        Err(MissingParameterError("name".to_string()))
    );
}

#[test]
fn missing_parameter_message_and_status() {
    let e = MissingParameterError("user".to_string());
    assert_eq!(e.message(), "missing parameter: user");
    assert_eq!(missing_parameter_status(&e), 400);
}

#[test]
fn parameter_takes_first_binding() {
    let p = params(&[("a", "1"), ("b", "2"), ("a", "3")]);
    assert_eq!(parameter(&p, "a"), Some("1".to_string()));
    assert_eq!(parameter(&p, "b"), Some("2".to_string()));
    assert_eq!(parameter(&p, "c"), None);
}

#[test]
fn date_reads_store_layout() {
    assert_eq!(
        date("2024-01-02 03:04:05"),
        Some(Timestamp {
            seconds: 1704164645
        })
    );
    assert_eq!(date("1970-01-01 00:00:00"), Some(Timestamp { seconds: 0 }));
}

#[test]
fn date_rejects_other_text() {
    assert_eq!(date("yesterday"), None);
    assert_eq!(date("2024-13-01 00:00:00"), None);
}

#[test]
fn latest_position_keeps_later_of_equal_times() {
    assert_eq!(latest_position(&vec![3, 9, 2, 9, 1]), 3);
    assert_eq!(latest_position(&vec![5]), 0);
    assert_eq!(latest_position(&vec![1, 2, 3]), 2);
    assert_eq!(latest_position(&vec![3, 2, 1]), 0);
}

#[test]
fn latest_recipe_returns_newer_revision() {
    let rows = vec![
        row("first", "2024-01-01 00:00:00"),
        row("second", "2024-01-02 00:00:00"),
    ];
    let r = get_latest_recipe(Ok(rows)).unwrap();
    assert_eq!(r.revision, "second");
    assert_eq!(r.time, Timestamp { seconds: 1704153600 });

    let rows = vec![
        row("second", "2024-01-02 00:00:00"),
        row("first", "2024-01-01 00:00:00"),
    ];
    assert_eq!(get_latest_recipe(Ok(rows)).unwrap().revision, "second");
}

#[test]
fn latest_recipe_of_no_revisions_is_not_found() {
    assert_eq!(get_latest_recipe(Ok(Vec::new())), Err(RecipeLookupError::NotFound));
}

#[test]
fn latest_recipe_tie_goes_to_later_row() {
    let rows = vec![
        row("a", "2024-01-01 00:00:00"),
        row("b", "2024-01-01 00:00:00"),
    ];
    let first = get_latest_recipe(Ok(rows.clone())).unwrap();
    let second = get_latest_recipe(Ok(rows)).unwrap();
    assert_eq!(first.revision, "b");
    assert_eq!(first, second);
}

#[test]
fn latest_recipe_with_undated_row_is_store_fault() {
    let rows = vec![row("a", "2024-01-01 00:00:00"), row("b", "not a date")];
    assert_eq!(get_latest_recipe(Ok(rows)), Err(RecipeLookupError::DatabaseError));
}

#[test]
fn latest_recipe_passes_query_failures_on() {
    assert_eq!(
        get_latest_recipe(Err(QueryFailure::Other)),
        Err(RecipeLookupError::DatabaseError)
    );
    assert_eq!(
        get_latest_recipe(Err(QueryFailure::RowNotFound)),
        Err(RecipeLookupError::NotFound)
    );
}

#[test]
fn latest_package_returns_newest() {
    let rows = vec![
        row("pkg-june", "2023-06-01 12:00:00"),
        row("pkg-july", "2023-07-01 12:00:00"),
        row("pkg-may", "2023-05-01 12:00:00"),
    ];
    let p = get_latest_package(Ok(rows)).unwrap();
    assert_eq!(p.revision, "pkg-july");
    assert_eq!(get_latest_package(Ok(Vec::new())), Err(RecipeLookupError::NotFound));
}

#[test]
fn recipe_by_key() {
    let r = get_recipe(Ok(row("abc", "2024-01-02 03:04:05"))).unwrap();
    assert_eq!(
        r,
        Recipe {
            revision: "abc".to_string(),
            time: Timestamp {
                seconds: 1704164645
            }
        }
    );
    assert_eq!(get_recipe(Err(QueryFailure::RowNotFound)), Err(RecipeLookupError::NotFound));
    assert_eq!(
        get_recipe(Ok(row("abc", "bad"))),
        Err(RecipeLookupError::DatabaseError)
    );
}

#[test]
fn package_by_key() {
    let p = get_package(Ok(row("pkg", "1970-01-01 00:01:00"))).unwrap();
    assert_eq!(
        p,
        Package {
            revision: "pkg".to_string(),
            time: Timestamp { seconds: 60 }
        }
    );
}

#[test]
fn unknown_package_revision_is_404_and_store_fault_is_500() {
    assert_eq!(package_files(get_package(Err(QueryFailure::RowNotFound))), Err(404));
    assert_eq!(package_files(get_package(Err(QueryFailure::Other))), Err(500));
}

#[test]
fn lookup_error_statuses() {
    assert_eq!(status_of(RecipeLookupError::NotFound), 404);
    assert_eq!(status_of(RecipeLookupError::DatabaseError), 500);
    assert_eq!(RecipeLookupError::from(QueryFailure::RowNotFound), RecipeLookupError::NotFound);
    assert_eq!(RecipeLookupError::from(QueryFailure::Other), RecipeLookupError::DatabaseError);
}

#[test]
fn recipe_latest_maps_outcomes() {
    let r = Recipe {
        revision: "x".to_string(),
        time: Timestamp { seconds: 1 },
    };
    assert_eq!(recipe_latest(Ok(r.clone())), Ok(r));
    assert_eq!(recipe_latest(Err(RecipeLookupError::NotFound)), Err(404));
    assert_eq!(recipe_latest(Err(RecipeLookupError::DatabaseError)), Err(500));
}

#[test]
fn latest_package_maps_outcomes() {
    let p = Package {
        revision: "y".to_string(),
        time: Timestamp { seconds: 2 },
    };
    assert_eq!(latest_package(Ok(p.clone())), Ok(p));
    assert_eq!(latest_package(Err(RecipeLookupError::NotFound)), Err(404));
}

#[test]
fn file_listings_are_fixed() {
    let recipe = Recipe {
        revision: "x".to_string(),
        time: Timestamp { seconds: 1 },
    };
    assert_eq!(
        recipe_files(Ok(recipe)),
        Ok(RecipeRevisionFiles {
            files: RecipeFiles {
                export: FilePath {},
                sources: FilePath {},
                manifest: FilePath {},
                conanfile: FilePath {},
            }
        })
    );
    assert_eq!(recipe_files(Err(RecipeLookupError::DatabaseError)), Err(500));
    let package = Package {
        revision: "y".to_string(),
        time: Timestamp { seconds: 2 },
    };
    assert_eq!(
        package_files(Ok(package)),
        Ok(PackageRevisionFiles {
            files: PackageFiles {
                info: FilePath {},
                package: FilePath {},
                manifest: FilePath {},
            }
        })
    );
    assert_eq!(PackageRevisionFiles::default(), package_files(Ok(Package { revision: String::new(), time: Timestamp { seconds: 0 } })).unwrap());
}

#[test]
fn recipe_files_request_reads_parameters() {
    let mut p = identifier_params();
    p.push(("revision".to_string(), "r1".to_string()));
    let (id, rev) = recipe_files_request(&p).unwrap();
    assert_eq!(id.to_string(), "zlib/1.2.13@conan/stable");
    assert_eq!(rev, "r1");
    assert_eq!(recipe_files_request(&identifier_params()), Err(400));
    let p = params(&[("revision", "r1")]);
    assert_eq!(recipe_files_request(&p), Err(400));
}

#[test]
fn latest_package_request_reads_parameters() {
    let p = params(&[("recipe_revision", "r1"), ("package_reference", "ref")]);
    assert_eq!(
        latest_package_request(&p),
        Ok(("r1".to_string(), "ref".to_string()))
    );
    let p = params(&[("recipe_revision", "r1")]);
    assert_eq!(latest_package_request(&p), Err(400));
}

#[test]
fn package_files_request_reads_parameters() {
    let p = params(&[("package_revision", "pr")]);
    assert_eq!(package_files_request(&p), Ok("pr".to_string()));
    assert_eq!(package_files_request(&Vec::new()), Err(400));
}

#[test]
fn static_files_redirect_to_host() {
    let p = params(&[("revision", "r1"), ("filename", "conanfile.py")]);
    assert_eq!(
        static_recipe_file(&p, "http://localhost:8000"),
        Ok("http://localhost:8000/r1/conanfile.py".to_string())
    );
    let p = params(&[("revision", "r1")]);
    assert_eq!(static_recipe_file(&p, "http://h"), Err(400));
    let p = params(&[("package_revision", "pr"), ("filename", "conaninfo.txt")]);
    assert_eq!(
        static_package_file(&p, "http://h"),
        Ok("http://h/pr/conaninfo.txt".to_string())
    );
    let p = params(&[("filename", "conaninfo.txt")]);
    assert_eq!(static_package_file(&p, "http://h"), Err(400));
}

#[test]
fn ping_advertises_revisions() {
    for _ in 0..2 {
        let r = ping();
        assert_eq!(r.status, 200);
        assert_eq!(r.header_name, "X-Conan-Server-Capabilities");
        assert_eq!(r.header_value, "revisions");
    }
}

#[test]
fn distinct_identifiers_format_differently() {
    let a = RecipeIdentifier::new(
        "ab".to_string(),
        "1".to_string(),
        "u".to_string(),
        "c".to_string(),
    );
    let b = RecipeIdentifier::new(
        "a".to_string(),
        "b1".to_string(),
        "u".to_string(),
        "c".to_string(),
    );
    assert_ne!(a.to_string(), b.to_string());
    assert_eq!(a.to_string(), "ab/1@u/c");
    assert_eq!(b.to_string(), "a/b1@u/c");
}
