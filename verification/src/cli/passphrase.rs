//! The pure part of passphrase resolution: which source is used, and how
//! a passphrase read from it is trimmed.
use vstd::prelude::*;
use crate::cli::error::CliError;
use crate::text::push_str;

verus! {

/// Where the passphrase of an encrypted database comes from.
#[derive(Debug, Clone, Copy, PartialEq, Eq, Structural)]
pub enum PassphraseSource {
    /// The given file descriptor.
    Fd(i32),
    /// The `--passphrase-file` file.
    File,
    /// The output of the `BEANKEEPER_PASSPHRASE_CMD` command.
    Command,
    /// A prompt on the terminal.
    Prompt,
    /// None: the database is not encrypted.
    Unencrypted,
}

/// Chooses the passphrase source: a file descriptor first, then a file,
/// then a non-empty passphrase command, then a prompt when one is wanted.
pub fn passphrase_source(fd: Option<i32>, has_file: bool, command: Option<&str>, prompt: bool) -> (s: PassphraseSource)
    ensures
        s == (match fd {
            Some(n) => PassphraseSource::Fd(n),
            None => if has_file {
                PassphraseSource::File
            } else if command matches Some(c) && c@.len() > 0 {
                PassphraseSource::Command
            } else if prompt {
                PassphraseSource::Prompt
            } else {
                PassphraseSource::Unencrypted
            },
        }),
{
    if let Some(n) = fd {
        return PassphraseSource::Fd(n);
    }
    if has_file {
        return PassphraseSource::File;
    }
    if let Some(c) = command {
        if c.unicode_len() > 0 {
            return PassphraseSource::Command;
        }
    }
    if prompt {
        PassphraseSource::Prompt
    } else {
        PassphraseSource::Unencrypted
    }
}

/// `s` without its trailing newlines (`str::trim_end_matches('\n')`).
pub open spec fn without_trailing_newlines(s: Seq<char>) -> Seq<char>
    decreases s.len(),
{
    if s.len() > 0 && s.last() == '\n' {
        without_trailing_newlines(s.drop_last())
    } else {
        s
    }
}

/// The passphrase in what was read: without trailing newlines, and not
/// empty; `what` names the source in the error.
pub fn passphrase_from_text(text: &str, what: &str) -> (r: Result<String, CliError>)
    ensures
        without_trailing_newlines(text@).len() > 0 ==> (r matches Ok(p) && p@ == without_trailing_newlines(text@)),
        without_trailing_newlines(text@).len() == 0 ==> (r matches Err(CliError::Usage(m)) && m@ == what@ + " is empty"@),
{
    let n = text.unicode_len();
    let mut end = n;
    assert(text@.take(n as int) =~= text@);
    while end > 0 && text.get_char(end - 1) == '\n'
        invariant
            n == text@.len(),
            end <= n,
            without_trailing_newlines(text@) == without_trailing_newlines(text@.take(end as int)),
        decreases end,
    {
        proof {
            let t = text@.take(end as int);
            assert(t.drop_last() =~= text@.take(end - 1));
        }
        end = end - 1;
    }
    assert(without_trailing_newlines(text@.take(end as int)) == text@.take(end as int));
    if end == 0 {
        let mut m = what.to_string();
        push_str(&mut m, " is empty");
        return Err(CliError::Usage(m));
    }
    let mut out = String::new();
    let mut i: usize = 0;
    while i < end
        invariant
            end <= n == text@.len(),
            i <= end,
            out@ == text@.take(i as int),
        decreases end - i,
    {
        crate::text::string_push(&mut out, text.get_char(i));
        i = i + 1;
        assert(out@ =~= text@.take(i as int));
    }
    Ok(out)
}

/// The passphrase printed by the passphrase command, without its trailing
/// newlines; output that is empty once they are removed is refused.
pub fn passphrase_from_command_output(text: &str) -> (r: Result<String, CliError>)
    ensures
        without_trailing_newlines(text@).len() > 0 ==> (r matches Ok(p) && p@
            == without_trailing_newlines(text@)),
        without_trailing_newlines(text@).len() == 0 ==> (r matches Err(CliError::Usage(m)) && m@
            == "passphrase command produced empty output"@),
{
    match passphrase_from_text(text, "passphrase command output") {
        Ok(p) => Ok(p),
        Err(_) => Err(CliError::Usage("passphrase command produced empty output".to_string())),
    }
}

/// A passphrase typed at the prompt, kept as typed; an empty one is
/// refused.
pub fn prompted_passphrase(typed: String) -> (r: Result<String, CliError>)
    ensures
        typed@.len() > 0 ==> r == Ok::<String, CliError>(typed),
        typed@.len() == 0 ==> (r matches Err(CliError::Usage(m)) && m@
            == "passphrase cannot be empty"@),
{
    if typed.unicode_len() == 0 {
        return Err(CliError::Usage("passphrase cannot be empty".to_string()));
    }
    Ok(typed)
}

/// A new passphrase typed twice: accepted when both entries are equal.
pub fn confirm_new_passphrase(first: String, confirm: &str) -> (r: Result<String, CliError>)
    ensures
        first@ == confirm@ ==> r == Ok::<String, CliError>(first),
        first@ != confirm@ ==> (r matches Err(CliError::Validation(m)) && m@
            == "passphrases do not match"@),
{
    if !crate::text::str_eq(first.as_str(), confirm) {
        return Err(CliError::Validation("passphrases do not match".to_string()));
    }
    Ok(first)
}

} // verus!
