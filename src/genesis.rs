//! Command-line pieces of the genesis tool: its commands, and the checked
//! parsing of the optional string fields of validator configuration files.
use vstd::prelude::*;
use vstd::string::*;

verus! {

/// File, under the output directory, that receives the genesis transaction.
pub const GENESIS_FILE: &'static str = "genesis.blob";

/// File, under the output directory, that receives the genesis waypoint.
pub const WAYPOINT_FILE: &'static str = "waypoint.txt";

/// Generates a genesis transaction and its waypoint from a repository of
/// validator configurations.
pub struct GenerateGenesis {
    /// Directory for the genesis file and the waypoint; the current
    /// directory when absent.
    pub output_dir: Option<String>,
    /// Whether this is the genesis of mainnet.
    pub mainnet: bool,
}

impl GenerateGenesis {
    pub fn command_name(&self) -> (r: &'static str)
        ensures
            r@ == "GenerateGenesis"@,
    {
        "GenerateGenesis"
    }
}

/// The subcommands of the genesis tool.
pub enum GenesisTool {
    GenerateGenesis(GenerateGenesis),
    GenerateKeys,
    GenerateLayoutTemplate,
    GenerateAdminWriteSet,
    SetupGit,
    SetValidatorConfiguration,
}

/// Why a field of a configuration file could not be read.
#[derive(Debug)]
pub enum FieldError<E> {
    /// The file lacks the field.
    Missing { file: String, field_name: String },
    /// The field is present and its parser refused it with `err`.
    Invalid { file: String, field_name: String, err: E },
}

/// `r` is what `parse` returns for some string that reads `text`.
pub open spec fn parsed_as<F: Fn(&str) -> Result<T, E>, T, E>(parse: F, text: Seq<char>, r: Result<T, E>) -> bool {
    exists|s: &str| s@ == text && call_ensures(parse, (s,), r)
}

/// Parses a field that the file must have.
pub fn parse_required_option<F: Fn(&str) -> Result<T, E>, T, E>(
    option: &Option<String>,
    file: &str,
    field_name: &str,
    parse: F,
) -> (r: Result<T, FieldError<E>>)
    requires
        forall|s: &str| call_requires(parse, (s,)),
    ensures
        match *option {
            None => r matches Err(FieldError::Missing { file: f, field_name: n }) && f@ == file@ && n@
                == field_name@,
            Some(text) => match r {
                Ok(v) => parsed_as(parse, text@, Ok(v)),
                Err(FieldError::Invalid { file: f, field_name: n, err }) => f@ == file@ && n@ == field_name@
                    && parsed_as(parse, text@, Err(err)),
                Err(FieldError::Missing { .. }) => false,
            },
        },
{
    match option {
        Some(field) => match parse(field.as_str()) {
            Ok(v) => Ok(v),
            Err(err) => Err(
                FieldError::Invalid { file: String::from_str(file), field_name: String::from_str(field_name), err },
            ),
        },
        None => Err(FieldError::Missing { file: String::from_str(file), field_name: String::from_str(field_name) }),
    }
}

/// Parses a field that the file may lack; a missing field gives `Ok(None)`.
pub fn parse_optional_option<F: Fn(&str) -> Result<T, E>, T, E>(
    option: &Option<String>,
    file: &str,
    field_name: &str,
    parse: F,
) -> (r: Result<Option<T>, FieldError<E>>)
    requires
        forall|s: &str| call_requires(parse, (s,)),
    ensures
        match *option {
            None => r matches Ok(None),
            Some(text) => match r {
                Ok(Some(v)) => parsed_as(parse, text@, Ok(v)),
                Err(FieldError::Invalid { file: f, field_name: n, err }) => f@ == file@ && n@ == field_name@
                    && parsed_as(parse, text@, Err(err)),
                _ => false,
            },
        },
{
    match option {
        Some(field) => match parse(field.as_str()) {
            Ok(v) => Ok(Some(v)),
            Err(err) => Err(
                FieldError::Invalid { file: String::from_str(file), field_name: String::from_str(field_name), err },
            ),
        },
        None => Ok(None),
    }
}

} // verus!
