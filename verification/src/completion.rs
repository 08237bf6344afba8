//! Choice of the shell whose completion script `idle completion` prints.
use crate::text::str_equals;
use vstd::prelude::*;

verus! {

/// Shells with a completion script.
#[derive(Clone, Copy, Debug, PartialEq, Eq)]
pub enum CompletionShell {
    Bash,
    Zsh,
    Fish,
    Nu,
}

/// Why no script was chosen.
#[derive(Clone, Copy, Debug, PartialEq, Eq)]
pub enum CompletionError {
    /// No shell was named.
    MissingShell,
    /// The named shell has no script.
    UnsupportedShell,
}

/// The shell a name stands for.
pub open spec fn shell_named(name: Seq<char>) -> Option<CompletionShell> {
    if name == "bash"@ {
        Some(CompletionShell::Bash)
    } else if name == "zsh"@ {
        Some(CompletionShell::Zsh)
    } else if name == "fish"@ {
        Some(CompletionShell::Fish)
    } else if name == "nu"@ || name == "nushell"@ {
        Some(CompletionShell::Nu)
    } else {
        None
    }
}

/// The shell named by the first argument of `idle completion`.
pub fn completion_shell(args: &[String]) -> (r: Result<CompletionShell, CompletionError>)
    ensures
        args@.len() == 0 ==> r == Err::<CompletionShell, CompletionError>(CompletionError::MissingShell),
        args@.len() > 0 ==> match shell_named(args@[0]@) {
            Some(s) => r == Ok::<CompletionShell, CompletionError>(s),
            None => r == Err::<CompletionShell, CompletionError>(CompletionError::UnsupportedShell),
        },
{
    if args.len() == 0 {
        return Err(CompletionError::MissingShell);
    }
    let name = args[0].as_str();
    if str_equals(name, "bash") {
        Ok(CompletionShell::Bash)
    } else if str_equals(name, "zsh") {
        Ok(CompletionShell::Zsh)
    } else if str_equals(name, "fish") {
        Ok(CompletionShell::Fish)
    } else if str_equals(name, "nu") || str_equals(name, "nushell") {
        Ok(CompletionShell::Nu)
    } else {
        Err(CompletionError::UnsupportedShell)
    }
}

} // verus!
