//! Which configuration file is read.
use vstd::prelude::*;

verus! {

/// The name of a configuration file in the folders that are searched for one.
pub const CONFIG_FILE_NAME: &'static str = "config.toml";

/// A place where a configuration file may be, and whether there is one.
#[derive(Debug, PartialEq, Eq)]
pub struct Candidate<P> {
    pub path: P,
    pub exists: bool,
}

/// The configuration file that was asked for does not exist.
#[derive(Debug, PartialEq, Eq)]
pub struct MissingConfigFile<P> {
    pub path: P,
}

/// The first of two places where there is a file.
pub open spec fn first_existing<P>(current: Candidate<P>, xdg: Candidate<P>) -> Option<P> {
    if current.exists {
        Some(current.path)
    } else if xdg.exists {
        Some(xdg.path)
    } else {
        None
    }
}

/// The configuration file that is read: the one that was asked for, or else the one that was
/// found.
pub open spec fn chosen<P>(given: Option<Candidate<P>>, found: Option<P>) -> Result<
    Option<P>,
    MissingConfigFile<P>,
> {
    match given {
        Some(given) if given.exists => Ok(Some(given.path)),
        Some(given) => Err(MissingConfigFile { path: given.path }),
        None => Ok(found),
    }
}

/// Looks for a configuration file in the current folder, and otherwise in the folder that the
/// operating system has for configuration files.
pub fn try_determine_config_file_path<P>(current: Candidate<P>, xdg: Candidate<P>) -> (result:
    Option<P>)
    ensures
        result == first_existing(current, xdg),
{
    if current.exists {
        Some(current.path)
    } else if xdg.exists {
        Some(xdg.path)
    } else {
        None
    }
}

/// Decides which configuration file is read. A file that was asked for has to exist; where none
/// was asked for, it is the one that was found, if any.
pub fn config_file_path<P>(given: Option<Candidate<P>>, found: Option<P>) -> (result: Result<
    Option<P>,
    MissingConfigFile<P>,
>)
    ensures
        result == chosen(given, found),
{
    match given {
        Some(given) => {
            if given.exists {
                Ok(Some(given.path))
            } else {
                Err(MissingConfigFile { path: given.path })
            }
        },
        None => Ok(found),
    }
}

/// What a missing configuration file is reported as, given the file's path as it is shown.
pub fn missing_config_file_message(path: &str) -> (result: String)
    ensures
        result@ == "Config file '"@ + path@ + "' does not exist"@,
{
    let mut result: String = "Config file '".to_owned();
    result.append(path);
    result.append("' does not exist");
    result
}

/// A configuration file that was asked for and exists is the one that is read, whatever else was
/// found.
pub proof fn given_file_is_read<P>(
    given: Candidate<P>,
    found: Option<P>,
    result: Result<Option<P>, MissingConfigFile<P>>,
)
    requires
        call_ensures(config_file_path::<P>, (Some(given), found), result),
        given.exists,
    ensures
        result == Ok::<_, MissingConfigFile<P>>(Some(given.path)),
{
}

/// No configuration file is read that does not exist, and one that was asked for is never
/// replaced by another one.
pub proof fn chosen_file_exists<P>(
    given: Option<Candidate<P>>,
    current: Candidate<P>,
    xdg: Candidate<P>,
)
    ensures
        chosen(given, first_existing(current, xdg)) matches Ok(Some(path)) ==> match given {
            Some(given) => given.exists && path == given.path,
            None => {
                ||| current.exists && path == current.path
                ||| !current.exists && xdg.exists && path == xdg.path
            },
        },
        chosen(given, first_existing(current, xdg)) is Err <==> given is Some && !given->0.exists,
{
}

/// A configuration file that was asked for and does not exist is an error, whatever else was found.
pub proof fn missing_file_is_an_error<P>(
    given: Candidate<P>,
    found: Option<P>,
    result: Result<Option<P>, MissingConfigFile<P>>,
)
    requires
        call_ensures(config_file_path::<P>, (Some(given), found), result),
        !given.exists,
    ensures
        result is Err,
        result->Err_0.path == given.path,
{
}

/// Where no configuration file was asked for, the one that was found is read, and none where none
/// was found.
pub proof fn found_file_is_read<P>(
    found: Option<P>,
    result: Result<Option<P>, MissingConfigFile<P>>,
)
    requires
        call_ensures(config_file_path::<P>, (None, found), result),
    ensures
        result == Ok::<Option<P>, MissingConfigFile<P>>(found),
{
}

/// The file of the current folder is found wherever there is one. The other folder decides
/// exactly where there is none.
pub proof fn current_folder_goes_first<P>(
    current: Candidate<P>,
    xdg: Candidate<P>,
    result: Option<P>,
)
    requires
        call_ensures(try_determine_config_file_path::<P>, (current, xdg), result),
    ensures
        current.exists ==> result == Some(current.path),
        !current.exists && xdg.exists ==> result == Some(xdg.path),
        !current.exists && !xdg.exists ==> result is None,
{
}

/// The report of a missing file names it: files of different paths are reported differently.
pub proof fn missing_file_is_named(path: &str, other: &str, result: String, other_result: String)
    requires
        call_ensures(missing_config_file_message, (path,), result),
        call_ensures(missing_config_file_message, (other,), other_result),
    ensures
        result@ == "Config file '"@ + path@ + "' does not exist"@,
        result@ == other_result@ <==> path@ == other@,
{
    let before = "Config file '"@;
    let after = "' does not exist"@;
    if result@ == other_result@ {
        let i = before.len() as int;
        assert(result@.subrange(i, result@.len() - after.len()) =~= path@);
        assert(other_result@.subrange(i, other_result@.len() - after.len()) =~= other@);
    }
}

} // verus!
