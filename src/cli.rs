use vstd::prelude::*;

verus! {

/// Which file source a run uses.
#[derive(Clone, Copy, Debug, PartialEq, Eq, Structural)]
pub enum Mode {
    /// Every file under the root directory.
    Directory,
    /// The files that version control tracks under the root.
    Repository,
}

/// A run-level precondition that does not hold.
#[derive(Clone, Copy, Debug, PartialEq, Eq, Structural)]
pub enum CliError {
    /// Not exactly one positional argument.
    Usage,
    /// The root does not exist or is not a directory.
    InvalidPath,
}

/// Checks an invocation before any work is done: exactly one positional
/// argument; in directory mode it must name an existing directory. Repository
/// mode checks no path here: a bad one makes the listing command fail.
pub fn check_invocation(mode: Mode, positional: usize, exists: bool, is_dir: bool) -> (r: Result<
    (),
    CliError,
>)
    ensures
        positional != 1 ==> r == Err::<(), CliError>(CliError::Usage),
        positional == 1 && mode == Mode::Directory && !(exists && is_dir) ==> r == Err::<
            (),
            CliError,
        >(CliError::InvalidPath),
        positional == 1 && (mode == Mode::Repository || (exists && is_dir)) ==> r is Ok,
{
    if positional != 1 {
        Err(CliError::Usage)
    } else if mode == Mode::Directory && !(exists && is_dir) {
        Err(CliError::InvalidPath)
    } else {
        Ok(())
    }
}

} // verus!
