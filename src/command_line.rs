use vstd::prelude::*;
use crate::copy::views;

verus! {

/// The options of a run: the file that lists the nodes, and the tag that
/// selects among them.
pub struct Args {
    pub config: String,
    pub tag: Option<String>,
}

/// What one line typed by the operator asks for.
pub enum LineAction {
    /// Nothing: the line is empty.
    Skip,
    /// Run the line as a command on every host.
    Run(String),
    /// Copy these local files to every host.
    Copy(Vec<String>),
}

/// The words of a line as a POSIX shell splits them, as `shell_words::split`
/// gives them; none where a quote is left open or a line ends in an escape.
pub uninterp spec fn shell_split(line: Seq<char>) -> Option<Seq<Seq<char>>>;

/// Relies on `shell_words::split`: the line's words after quoting and escapes
/// are resolved, or an error for an unterminated quote or escape.
#[verifier::external_body]
fn split_words(line: &str) -> (r: Option<Vec<String>>)
    ensures
        match r {
            Some(w) => shell_split(line@) == Some(views(w@)),
            None => shell_split(line@) is None,
        },
{
    match shell_words::split(line) {
        Ok(words) => Some(words),
        Err(_) => None,
    }
}

/// Whether a word names the copy action.
pub open spec fn is_copy_word(w: Seq<char>) -> bool {
    w == ".copy"@ || w == ".cp"@
}

/// Whether the split words of a line ask for a copy.
pub open spec fn asks_copy(words: Option<Seq<Seq<char>>>) -> bool {
    words matches Some(w) && w.len() > 0 && is_copy_word(w[0])
}

fn names_copy(w: &String) -> (r: bool)
    ensures
        r == is_copy_word(w@),
{
    let copy_word = ".copy".to_owned();
    let cp_word = ".cp".to_owned();
    *w == copy_word || *w == cp_word
}

/// The action of a line, given its shell words (none where it cannot be split):
/// an empty line asks for nothing; a line whose first word is `.copy` or `.cp`
/// asks to copy the files that its other words name; any other line is a command.
pub fn action_of_words(line: String, words: Option<Vec<String>>) -> (r: LineAction)
    ensures
        line@.len() == 0 ==> r is Skip,
        line@.len() > 0 && asks_copy(
            match words {
                Some(w) => Some(views(w@)),
                None => None,
            },
        ) ==> (r matches LineAction::Copy(files) && words matches Some(w) && views(files@) == views(
            w@,
        ).subrange(1, w@.len() as int)),
        line@.len() > 0 && !asks_copy(
            match words {
                Some(w) => Some(views(w@)),
                None => None,
            },
        ) ==> (r matches LineAction::Run(c) && c@ == line@),
{
    if line.as_str().is_empty() {
        return LineAction::Skip;
    }
    match words {
        Some(mut w) => {
            if w.len() > 0 && names_copy(&w[0]) {
                let ghost all = w@;
                w.remove(0);
                assert(views(w@) =~= views(all).subrange(1, all.len() as int));
                LineAction::Copy(w)
            } else {
                LineAction::Run(line)
            }
        },
        None => LineAction::Run(line),
    }
}

/// Reads one line typed by the operator, splitting it into words as a shell does.
pub fn parse_line(line: &str) -> (r: LineAction)
    ensures
        line@.len() == 0 ==> r is Skip,
        line@.len() > 0 && asks_copy(shell_split(line@)) ==> (r matches LineAction::Copy(files)
            && shell_split(line@) matches Some(w) && views(files@) == w.subrange(1, w.len() as int)),
        line@.len() > 0 && !asks_copy(shell_split(line@)) ==> (r matches LineAction::Run(c) && c@
            == line@),
{
    let words = split_words(line);
    action_of_words(line.to_owned(), words)
}

} // verus!
