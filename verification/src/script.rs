//! Script files: which are run, how each line becomes a command line, and
//! how a line that fails is reported.
use crate::repl::{lines, lines_from, split_whitespace, words};
use crate::text::{decimal, i64_to_string, string_views};
use vstd::prelude::*;
use vstd::string::*;

verus! {

/// The error for a script file that does not exist.
pub open spec fn missing_script_message(file: Seq<char>) -> Seq<char> {
    "script file "@ + file + " doesnt exist"@
}

/// Whether the scripts may run: only when every one of them exists. Where
/// one does not, the error names the first such file, and none is run.
pub fn check_scripts(files: &Vec<String>, exists: &Vec<bool>) -> (res: Result<(), String>)
    requires
        files.len() == exists.len(),
    ensures
        res is Ok <==> (forall|i: int| 0 <= i < exists.len() ==> exists@[i]),
        res matches Err(m) ==> exists|i: int|
            0 <= i < exists.len() && !exists@[i] && (forall|j: int| 0 <= j < i ==> exists@[j])
                && m@ == missing_script_message(files@[i]@),
{
    let mut i: usize = 0;
    while i < files.len()
        invariant
            files.len() == exists.len(),
            i <= files.len(),
            forall|j: int| 0 <= j < i ==> exists@[j],
        decreases files.len() - i,
    {
        if !exists[i] {
            let mut m = "script file ".to_string();
            m.append(files[i].as_str());
            m.append(" doesnt exist");
            return Err(m);
        }
        i = i + 1;
    }
    Ok(())
}

/// The arguments that a script line is parsed from: the program name, then
/// the words of the line.
pub open spec fn script_args(line: Seq<char>) -> Seq<Seq<char>> {
    seq!["gram"@] + words(line)
}

/// The command lines of a script, one for each of its lines.
pub fn script_commands(contents: &str) -> (res: Vec<Vec<String>>)
    ensures
        res@.len() == lines_from(contents@, 0).len(),
        forall|i: int|
            0 <= i < res@.len() ==> string_views(#[trigger] res@[i]@) == script_args(
                lines_from(contents@, 0)[i],
            ),
{
    let ls = lines(contents);
    let ghost lv = lines_from(contents@, 0);
    assert(ls@.len() == lv.len()) by {
        assert(string_views(ls@).len() == ls@.len());
    }
    let mut res: Vec<Vec<String>> = Vec::new();
    let mut i: usize = 0;
    while i < ls.len()
        invariant
            string_views(ls@) == lv,
            ls@.len() == lv.len(),
            i <= ls.len(),
            res@.len() == i,
            forall|k: int| 0 <= k < i ==> string_views(#[trigger] res@[k]@) == script_args(lv[k]),
        decreases ls.len() - i,
    {
        let mut args: Vec<String> = Vec::new();
        args.push("gram".to_string());
        let mut ws = split_whitespace(ls[i].as_str());
        let ghost first = args@;
        let ghost rest = ws@;
        args.append(&mut ws);
        assert(lv[i as int] == ls@[i as int]@);
        assert(string_views(args@) =~= script_args(lv[i as int])) by {
            assert(args@ =~= first + rest);
            assert(string_views(first) =~= seq!["gram"@]);
        }
        res.push(args);
        i = i + 1;
    }
    res
}

/// The report for a script line that failed: what failed, where (the line
/// counted from 1), and the error.
pub open spec fn script_error_message(kind: Seq<char>, file: Seq<char>, line_index: int, err: Seq<char>) -> Seq<char> {
    kind + " in "@ + file + ":"@ + decimal(line_index + 1) + " -> "@ + err
}

/// Reports a script line that failed; `kind` is `"parse error"` or
/// `"command conversion error"`.
pub fn script_error(kind: &str, file: &str, line_index: usize, err: &str) -> (res: String)
    requires
        line_index < i64::MAX,
    ensures
        res@ == script_error_message(kind@, file@, line_index as int, err@),
{
    let mut res = kind.to_string();
    res.append(" in ");
    res.append(file);
    res.append(":");
    let n = i64_to_string(line_index as i64 + 1);
    res.append(n.as_str());
    res.append(" -> ");
    res.append(err);
    res
}

} // verus!
