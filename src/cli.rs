//! The command line: which entry to inspect, whether a digest is asked for,
//! and how each failure ends the process.
use vstd::prelude::*;

verus! {

/// What one invocation asks for.
pub struct Invocation {
    /// The path to inspect, as given.
    pub path: String,
    /// Whether a content digest was asked for.
    pub wants_hash: bool,
}

/// Why an inspection could not produce a report.
#[derive(Clone, Copy, Debug, PartialEq, Eq, Structural)]
pub enum InspectError {
    /// No path was given.
    MissingArgument,
    /// The entry's metadata could not be read.
    MetadataRead,
    /// The working directory could not be determined.
    WorkingDirectory,
    /// The path could not be resolved to its canonical form.
    Canonicalization,
}

impl InspectError {
    /// The exit status for this failure.
    pub open spec fn spec_exit_code(self) -> i32 {
        match self {
            InspectError::MissingArgument => 404,
            _ => 500,
        }
    }

    /// The exit status for this failure: 404 when no path was given, 500
    /// for every failure of the filesystem.
    pub fn exit_code(&self) -> (r: i32)
        ensures
            r == self.spec_exit_code(),
    {
        match self {
            InspectError::MissingArgument => 404,
            _ => 500,
        }
    }

    /// The first part of the diagnostic for this failure.
    pub open spec fn spec_message(self) -> Seq<char> {
        match self {
            InspectError::MissingArgument => "Missing expected argument: file"@,
            InspectError::MetadataRead => "Failed to read file metadata"@,
            InspectError::WorkingDirectory => "Error getting cwd"@,
            InspectError::Canonicalization => "Failed to resolve the absolute path"@,
        }
    }

    /// The first part of the diagnostic for this failure; the operating
    /// system's own description of the cause, where there is one, follows it.
    pub fn message(&self) -> (r: String)
        ensures
            r@ == self.spec_message(),
    {
        match self {
            InspectError::MissingArgument => "Missing expected argument: file".to_owned(),
            InspectError::MetadataRead => "Failed to read file metadata".to_owned(),
            InspectError::WorkingDirectory => "Error getting cwd".to_owned(),
            InspectError::Canonicalization => "Failed to resolve the absolute path".to_owned(),
        }
    }
}

/// Whether `arg` asks for a content digest: `--sha256`, or `-h` for short.
pub open spec fn is_hash_flag(arg: Seq<char>) -> bool {
    arg == "--sha256"@ || arg == "-h"@
}

/// Whether any argument after the path asks for a content digest.
pub open spec fn asks_for_hash(args: Seq<String>) -> bool {
    exists|i: int| 1 <= i < args.len() && is_hash_flag(#[trigger] args[i]@)
}

/// Whether `arg` asks for a content digest.
pub fn hash_flag(arg: &String) -> (r: bool)
    ensures
        r == is_hash_flag(arg@),
{
    let long = "--sha256".to_owned();
    let short = "-h".to_owned();
    *arg == long || *arg == short
}

/// Reads the arguments that follow the program's name: the first is the path,
/// and of the rest only `--sha256` and `-h` mean anything. Fails with
/// `MissingArgument` exactly when there are none.
pub fn parse_args(args: &Vec<String>) -> (r: Result<Invocation, InspectError>)
    ensures
        args@.len() == 0 <==> r == Err::<Invocation, InspectError>(InspectError::MissingArgument),
        r is Ok <==> args@.len() > 0,
        match r {
            Ok(inv) => inv.path@ == args@[0]@ && inv.wants_hash == asks_for_hash(args@),
            Err(_) => true,
        },
{
    if args.len() == 0 {
        return Err(InspectError::MissingArgument);
    }
    let mut wants_hash = false;
    let mut i: usize = 1;
    while i < args.len()
        invariant
            1 <= i <= args@.len(),
            wants_hash == exists|j: int| 1 <= j < i && is_hash_flag(#[trigger] args@[j]@),
        decreases args@.len() - i,
    {
        if hash_flag(&args[i]) {
            wants_hash = true;
        }
        i = i + 1;
    }
    Ok(Invocation { path: args[0].clone(), wants_hash })
}

} // verus!
