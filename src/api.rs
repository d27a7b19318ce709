use vstd::prelude::*;
use crate::identifier::{
    first_missing, parameter, parameter_value, MissingParameterError, RecipeIdentifier,
};
use crate::repository::lookup_error;
use crate::revision::{Package, QueryFailure, Recipe, RecipeLookupError};

verus! {

pub const STATUS_OK: u16 = 200;

pub const STATUS_BAD_REQUEST: u16 = 400;

pub const STATUS_NOT_FOUND: u16 = 404;

pub const STATUS_INTERNAL_SERVER_ERROR: u16 = 500;

/// The response status that reports a failed lookup.
pub open spec fn lookup_status(e: RecipeLookupError) -> u16 {
    match e {
        RecipeLookupError::NotFound => STATUS_NOT_FOUND,
        RecipeLookupError::DatabaseError => STATUS_INTERNAL_SERVER_ERROR,
    }
}

/// A point lookup that matches no row answers 404; one that the store could
/// not serve answers 500.
pub proof fn lemma_lookup_failure_status(f: QueryFailure)
    ensures
        f == QueryFailure::RowNotFound ==> lookup_status(lookup_error(f)) == STATUS_NOT_FOUND,
        f == QueryFailure::Other ==> lookup_status(lookup_error(f)) == STATUS_INTERNAL_SERVER_ERROR,
{
}

/// A lookup that found nothing answers 404; a store fault answers 500.
pub fn status_of(e: RecipeLookupError) -> (r: u16)
    ensures
        r == lookup_status(e),
{
    match e {
        RecipeLookupError::NotFound => STATUS_NOT_FOUND,
        RecipeLookupError::DatabaseError => STATUS_INTERNAL_SERVER_ERROR,
    }
}

/// A request that lacks a parameter is malformed: 400.
pub fn missing_parameter_status(e: &MissingParameterError) -> (r: u16)
    ensures
        r == STATUS_BAD_REQUEST,
{
    STATUS_BAD_REQUEST
}

/// The value of a path parameter the route requires; 400 where it is absent.
pub fn required(parameters: &Vec<(String, String)>, key: &str) -> (r: Result<String, u16>)
    ensures
        match parameter_value(parameters@, key@) {
            Some(v) => r matches Ok(s) && s@ == v,
            None => r == Err::<String, u16>(STATUS_BAD_REQUEST),
        },
{
    match parameter(parameters, key) {
        Some(v) => Ok(v),
        None => Err(STATUS_BAD_REQUEST),
    }
}

/// An entry of a file listing; it carries no data of its own.
#[derive(Debug, Clone, Copy, PartialEq, Eq, Structural)]
pub struct FilePath {}

impl Default for FilePath {
    fn default() -> (r: FilePath)
        ensures
            r == (FilePath {}),
    {
        FilePath {}
    }
}

/// The files every recipe revision offers.
#[derive(Debug, Clone, Copy, PartialEq, Eq, Structural)]
pub struct RecipeFiles {
    pub export: FilePath,
    pub sources: FilePath,
    pub manifest: FilePath,
    pub conanfile: FilePath,
}

impl Default for RecipeFiles {
    fn default() -> (r: RecipeFiles)
        ensures
            r == (RecipeFiles {
                export: FilePath {},
                sources: FilePath {},
                manifest: FilePath {},
                conanfile: FilePath {},
            }),
    {
        RecipeFiles {
            export: FilePath {},
            sources: FilePath {},
            manifest: FilePath {},
            conanfile: FilePath {},
        }
    }
}

/// The file listing of a recipe revision.
#[derive(Debug, Clone, Copy, PartialEq, Eq, Structural)]
pub struct RecipeRevisionFiles {
    pub files: RecipeFiles,
}

impl Default for RecipeRevisionFiles {
    fn default() -> (r: RecipeRevisionFiles)
        ensures
            r == (RecipeRevisionFiles {
                files: RecipeFiles {
                    export: FilePath {},
                    sources: FilePath {},
                    manifest: FilePath {},
                    conanfile: FilePath {},
                },
            }),
    {
        RecipeRevisionFiles { files: RecipeFiles::default() }
    }
}

/// The files every package revision offers.
#[derive(Debug, Clone, Copy, PartialEq, Eq, Structural)]
pub struct PackageFiles {
    pub info: FilePath,
    pub package: FilePath,
    pub manifest: FilePath,
}

impl Default for PackageFiles {
    fn default() -> (r: PackageFiles)
        ensures
            r == (PackageFiles { info: FilePath {}, package: FilePath {}, manifest: FilePath {} }),
    {
        PackageFiles { info: FilePath {}, package: FilePath {}, manifest: FilePath {} }
    }
}

/// The file listing of a package revision.
#[derive(Debug, Clone, Copy, PartialEq, Eq, Structural)]
pub struct PackageRevisionFiles {
    pub files: PackageFiles,
}

impl Default for PackageRevisionFiles {
    fn default() -> (r: PackageRevisionFiles)
        ensures
            r == (PackageRevisionFiles {
                files: PackageFiles { info: FilePath {}, package: FilePath {}, manifest: FilePath {} },
            }),
    {
        PackageRevisionFiles { files: PackageFiles::default() }
    }
}

/// The answer to the latest-recipe route: the revision found, or the status
/// that reports why there is none.
pub fn recipe_latest(outcome: Result<Recipe, RecipeLookupError>) -> (r: Result<Recipe, u16>)
    ensures
        match outcome {
            Ok(x) => r == Ok::<Recipe, u16>(x),
            Err(e) => r == Err::<Recipe, u16>(lookup_status(e)),
        },
{
    match outcome {
        Ok(x) => Ok(x),
        Err(e) => Err(status_of(e)),
    }
}

/// The identifier and revision string that the recipe-files route names;
/// 400 where one of them is absent.
pub fn recipe_files_request(parameters: &Vec<(String, String)>) -> (r: Result<(RecipeIdentifier, String), u16>)
    ensures
        first_missing(parameters@) is Some ==> r == Err::<(RecipeIdentifier, String), u16>(
            STATUS_BAD_REQUEST,
        ),
        first_missing(parameters@) is None ==> match parameter_value(parameters@, "revision"@) {
            None => r == Err::<(RecipeIdentifier, String), u16>(STATUS_BAD_REQUEST),
            Some(v) => r matches Ok(x) && x.1@ == v
                && parameter_value(parameters@, "name"@) == Some(x.0.name@)
                && parameter_value(parameters@, "version"@) == Some(x.0.version@)
                && parameter_value(parameters@, "user"@) == Some(x.0.user@)
                && parameter_value(parameters@, "channel"@) == Some(x.0.channel@),
        },
{
    let identifier = match RecipeIdentifier::from_parameters(parameters) {
        Ok(id) => id,
        Err(e) => return Err(missing_parameter_status(&e)),
    };
    let revision = match required(parameters, "revision") {
        Ok(v) => v,
        Err(s) => return Err(s),
    };
    Ok((identifier, revision))
}

/// The answer to the recipe-files route: the fixed listing where the
/// revision exists.
pub fn recipe_files(outcome: Result<Recipe, RecipeLookupError>) -> (r: Result<RecipeRevisionFiles, u16>)
    ensures
        match outcome {
            Ok(_) => r == Ok::<RecipeRevisionFiles, u16>(
                RecipeRevisionFiles {
                    files: RecipeFiles {
                        export: FilePath {},
                        sources: FilePath {},
                        manifest: FilePath {},
                        conanfile: FilePath {},
                    },
                },
            ),
            Err(e) => r == Err::<RecipeRevisionFiles, u16>(lookup_status(e)),
        },
{
    match outcome {
        Ok(_) => Ok(RecipeRevisionFiles::default()),
        Err(e) => Err(status_of(e)),
    }
}

/// `base/revision/filename`: where the static file host keeps a file.
pub open spec fn file_location(base: Seq<char>, revision: Seq<char>, filename: Seq<char>) -> Seq<char> {
    base + "/"@ + revision + "/"@ + filename
}

fn location(base: &str, revision: &String, filename: &String) -> (r: String)
    ensures
        r@ == file_location(base@, revision@, filename@),
{
    let r = String::from_str(base);
    let r = r.concat("/");
    let r = r.concat(revision.as_str());
    let r = r.concat("/");
    r.concat(filename.as_str())
}

/// The redirect target for a file of a recipe revision; 400 where the
/// revision or the file name is absent.
pub fn static_recipe_file(parameters: &Vec<(String, String)>, base: &str) -> (r: Result<String, u16>)
    ensures
        match (parameter_value(parameters@, "revision"@), parameter_value(parameters@, "filename"@)) {
            (Some(rev), Some(file)) => r matches Ok(s) && s@ == file_location(base@, rev, file),
            _ => r == Err::<String, u16>(STATUS_BAD_REQUEST),
        },
{
    let revision = match required(parameters, "revision") {
        Ok(v) => v,
        Err(s) => return Err(s),
    };
    let filename = match required(parameters, "filename") {
        Ok(v) => v,
        Err(s) => return Err(s),
    };
    Ok(location(base, &revision, &filename))
}

/// The recipe revision and package reference that the latest-package route
/// names; 400 where one of them is absent.
pub fn latest_package_request(parameters: &Vec<(String, String)>) -> (r: Result<(String, String), u16>)
    ensures
        match (
            parameter_value(parameters@, "recipe_revision"@),
            parameter_value(parameters@, "package_reference"@),
        ) {
            (Some(rev), Some(reference)) => r matches Ok(x) && x.0@ == rev && x.1@ == reference,
            _ => r == Err::<(String, String), u16>(STATUS_BAD_REQUEST),
        },
{
    let recipe_revision = match required(parameters, "recipe_revision") {
        Ok(v) => v,
        Err(s) => return Err(s),
    };
    let package_reference = match required(parameters, "package_reference") {
        Ok(v) => v,
        Err(s) => return Err(s),
    };
    Ok((recipe_revision, package_reference))
}

/// The answer to the latest-package route.
pub fn latest_package(outcome: Result<Package, RecipeLookupError>) -> (r: Result<Package, u16>)
    ensures
        match outcome {
            Ok(x) => r == Ok::<Package, u16>(x),
            Err(e) => r == Err::<Package, u16>(lookup_status(e)),
        },
{
    match outcome {
        Ok(x) => Ok(x),
        Err(e) => Err(status_of(e)),
    }
}

/// The package revision string that the package-files route names; 400
/// where it is absent.
pub fn package_files_request(parameters: &Vec<(String, String)>) -> (r: Result<String, u16>)
    ensures
        match parameter_value(parameters@, "package_revision"@) {
            Some(v) => r matches Ok(s) && s@ == v,
            None => r == Err::<String, u16>(STATUS_BAD_REQUEST),
        },
{
    required(parameters, "package_revision")
}

/// The answer to the package-files route: the fixed listing where the
/// revision exists.
pub fn package_files(outcome: Result<Package, RecipeLookupError>) -> (r: Result<PackageRevisionFiles, u16>)
    ensures
        match outcome {
            Ok(_) => r == Ok::<PackageRevisionFiles, u16>(
                PackageRevisionFiles {
                    files: PackageFiles { info: FilePath {}, package: FilePath {}, manifest: FilePath {} },
                },
            ),
            Err(e) => r == Err::<PackageRevisionFiles, u16>(lookup_status(e)),
        },
{
    match outcome {
        Ok(_) => Ok(PackageRevisionFiles::default()),
        Err(e) => Err(status_of(e)),
    }
}

/// The redirect target for a file of a package revision; 400 where the
/// package revision or the file name is absent.
pub fn static_package_file(parameters: &Vec<(String, String)>, base: &str) -> (r: Result<String, u16>)
    ensures
        match (
            parameter_value(parameters@, "package_revision"@),
            parameter_value(parameters@, "filename"@),
        ) {
            (Some(rev), Some(file)) => r matches Ok(s) && s@ == file_location(base@, rev, file),
            _ => r == Err::<String, u16>(STATUS_BAD_REQUEST),
        },
{
    let revision = match required(parameters, "package_revision") {
        Ok(v) => v,
        Err(s) => return Err(s),
    };
    let filename = match required(parameters, "filename") {
        Ok(v) => v,
        Err(s) => return Err(s),
    };
    Ok(location(base, &revision, &filename))
}

/// The answer to the capability probe.
#[derive(Debug, Clone, PartialEq, Eq)]
pub struct Ping {
    pub status: u16,
    pub header_name: String,
    pub header_value: String,
}

/// Advertises revision support; it reads no state.
pub fn ping() -> (r: Ping)
    ensures
        r.status == STATUS_OK,
        r.header_name@ == "X-Conan-Server-Capabilities"@,
        r.header_value@ == "revisions"@,
{
    Ping {
        status: STATUS_OK,
        header_name: String::from_str("X-Conan-Server-Capabilities"),
        header_value: String::from_str("revisions"),
    }
}

} // verus!
