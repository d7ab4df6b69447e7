//! The invocation's arguments: derive names and the path of the calling file.
use crate::errors::MacroError;
use vstd::prelude::*;

verus! {

/// Every element before `i` is `Ok`.
pub open spec fn ok_before(v: Seq<Result<String, String>>, i: int) -> bool {
    forall|j: int| 0 <= j < i ==> (#[trigger] v[j]) is Ok
}

/// `v[i]` is the first error of `v`.
pub open spec fn first_err(v: Seq<Result<String, String>>, i: int) -> bool {
    0 <= i < v.len() && ok_before(v, i) && v[i] is Err
}

/// `e` is an input error whose message is `prefix` followed by `detail`.
pub open spec fn input_error(e: MacroError, prefix: Seq<char>, detail: Seq<char>) -> bool {
    e matches MacroError::InputError(m) && m@ == prefix + detail
}

fn first_error(v: &Vec<Result<String, String>>) -> (r: Option<usize>)
    ensures
        match r {
            None => ok_before(v@, v@.len() as int),
            Some(i) => first_err(v@, i as int),
        },
{
    let mut i: usize = 0;
    while i < v.len()
        invariant
            0 <= i <= v@.len(),
            ok_before(v@, i as int),
        decreases v@.len() - i,
    {
        if v[i].is_err() {
            return Some(i);
        }
        i += 1;
    }
    None
}

/// Decides the invocation's arguments from its tokens, already read as
/// identifiers (`idents`) and string literals (`literals`), each either its
/// text or the reason it could not be read.
///
/// An identifier that could not be read fails first, then a literal that could
/// not be read; without any literal there is no path. Otherwise the result is
/// every identifier, in order, and the first literal.
pub fn parse_input(idents: Vec<Result<String, String>>, literals: Vec<Result<String, String>>) -> (r:
    Result<(Vec<String>, String), MacroError>)
    ensures
        match r {
            Ok((ds, path)) => ok_before(idents@, idents@.len() as int) && ok_before(
                literals@,
                literals@.len() as int,
            ) && literals@.len() > 0 && path == literals@[0]->Ok_0 && ds@.len() == idents@.len()
                && forall|j: int| 0 <= j < ds@.len() ==> idents@[j] == Ok::<String, String>(#[trigger] ds@[j]),
            Err(e) => (exists|i: int|
                first_err(idents@, i) && input_error(
                    e,
                    "Cannot parse ident: "@,
                    idents@[i]->Err_0@,
                )) || (ok_before(idents@, idents@.len() as int) && exists|i: int|
                first_err(literals@, i) && input_error(
                    e,
                    "Cannot parse path: "@,
                    literals@[i]->Err_0@,
                )) || (ok_before(idents@, idents@.len() as int) && literals@.len() == 0 && input_error(
                e,
                "No path were specified"@,
                seq![],
            )),
        },
{
    match first_error(&idents) {
        Some(i) => {
            let m = String::from_str("Cannot parse ident: ").concat(idents[i].as_ref().unwrap_err().as_str());
            return Err(MacroError::InputError(m));
        },
        None => {},
    }
    match first_error(&literals) {
        Some(i) => {
            let m = String::from_str("Cannot parse path: ").concat(literals[i].as_ref().unwrap_err().as_str());
            return Err(MacroError::InputError(m));
        },
        None => {},
    }
    if literals.len() == 0 {
        let m = String::from_str("No path were specified");
        assert(m@ == "No path were specified"@ + seq![]);
        return Err(MacroError::InputError(m));
    }
    let mut ds: Vec<String> = Vec::new();
    let mut j: usize = 0;
    while j < idents.len()
        invariant
            0 <= j <= idents@.len(),
            ok_before(idents@, idents@.len() as int),
            ds@.len() == j,
            forall|k: int| 0 <= k < j ==> idents@[k] == Ok::<String, String>(#[trigger] ds@[k]),
        decreases idents@.len() - j,
    {
        ds.push(idents[j].as_ref().unwrap().clone());
        j += 1;
    }
    let path = literals[0].as_ref().unwrap().clone();
    Ok((ds, path))
}

} // verus!
