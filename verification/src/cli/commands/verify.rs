//! The pure part of `bk verify`: the verdict on the integrity checks.
use vstd::prelude::*;
use crate::cli::error::CliError;
use crate::text::{join_with_sep_spec, push_str, str_eq};

verus! {

/// The texts of a list of strings joined by `sep`.
pub open spec fn joined(v: Seq<Seq<char>>, sep: Seq<char>) -> Seq<char> {
    join_with_sep_spec(v, sep)
}

/// The verdict of `bk verify`: foreign key violations (listed, separated by
/// commas), else a failed SQLite integrity check, else healthy.
pub fn verify_outcome(fk_violations: &Vec<String>, integrity: &str) -> (r: Result<(), CliError>)
    ensures
        fk_violations@.len() > 0 ==> (r matches Err(CliError::Database(m)) && m@ == "foreign key violations: "@
            + joined(crate::text::string_views(fk_violations@), ", "@)),
        fk_violations@.len() == 0 && integrity@ != "ok"@ ==> (r matches Err(CliError::Database(m)) && m@
            == "integrity check failed: "@ + integrity@),
        fk_violations@.len() == 0 && integrity@ == "ok"@ ==> r is Ok,
{
    if fk_violations.len() > 0 {
        let mut m = "foreign key violations: ".to_string();
        let list = crate::text::join_with_sep(fk_violations, ", ");
        m.append(list.as_str());
        return Err(CliError::Database(m));
    }
    if !str_eq(integrity, "ok") {
        let mut m = "integrity check failed: ".to_string();
        push_str(&mut m, integrity);
        return Err(CliError::Database(m));
    }
    Ok(())
}

} // verus!
