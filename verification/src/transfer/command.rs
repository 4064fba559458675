//! The shell commands of the fallback strategy.

use crate::text::{octal, push_octal};
use vstd::prelude::*;
use vstd::string::*;

verus! {

/// What `snailquote::escape` makes of a word.
pub uninterp spec fn shell_escaped(word: Seq<char>) -> Seq<char>;

/// `snailquote::escape`, which quotes a word for a shell and hands back
/// unchanged one that needs no quoting.
#[verifier::external_body]
fn escape(word: &str) -> (escaped: String)
    ensures
        escaped@ == shell_escaped(word@),
{
    snailquote::escape(word).into_owned()
}

/// A word between single quotes.
pub open spec fn single_quoted(word: Seq<char>) -> Seq<char> {
    seq!['\''] + word + seq!['\'']
}

/// The quoted form of a word, given its escaped form: the escaped form itself
/// where escaping changed the word, and else the word between single quotes,
/// so that every word is quoted.
pub open spec fn quoted_from(word: Seq<char>, escaped: Seq<char>) -> Seq<char> {
    if escaped == word {
        single_quoted(word)
    } else {
        escaped
    }
}

/// The quoted form of a word.
pub open spec fn quoted(word: Seq<char>) -> Seq<char> {
    quoted_from(word, shell_escaped(word))
}

/// Quotes a word whose escaped form is known.
pub fn quote_escaped(word: &str, escaped: String) -> (r: String)
    ensures
        r@ == quoted_from(word@, escaped@),
{
    if escaped == String::from_str(word) {
        let mut r = String::from_str("'");
        r.append(word);
        r.append("'");
        proof {
            reveal_strlit("'");
            assert("'"@ == seq!['\'']);
        }
        r
    } else {
        escaped
    }
}

/// Quotes a word for the shell of the device.
pub fn quote(word: &str) -> (r: String)
    ensures
        r@ == quoted(word@),
{
    quote_escaped(word, escape(word))
}

/// The command that creates a directory, with those above it, and sets its
/// mode.
pub open spec fn mkdir_line(path: Seq<char>, mode: u32) -> Seq<char> {
    "mkdir -p "@ + quoted(path) + " && chmod "@ + octal(mode as nat) + " "@ + quoted(path)
}

/// The command that writes its input to a file.
pub open spec fn put_line(path: Seq<char>) -> Seq<char> {
    "cat > "@ + quoted(path)
}

/// The command that writes a file to its output.
pub open spec fn get_line(path: Seq<char>) -> Seq<char> {
    "cat "@ + quoted(path)
}

/// The command that removes a file or a directory with all below it.
pub open spec fn rm_line(path: Seq<char>) -> Seq<char> {
    "rm -rf "@ + quoted(path)
}

/// Writes the command that creates a directory and sets its mode.
pub fn mkdir_command(path: &str, mode: u32) -> (line: String)
    ensures
        line@ == mkdir_line(path@, mode),
{
    let word = quote(path);
    let mut line = String::from_str("mkdir -p ");
    line.append(word.as_str());
    line.append(" && chmod ");
    push_octal(&mut line, mode);
    line.append(" ");
    line.append(word.as_str());
    line
}

/// Writes the command that takes a file's new contents from its input.
pub fn put_command(path: &str) -> (line: String)
    ensures
        line@ == put_line(path@),
{
    let mut line = String::from_str("cat > ");
    line.append(quote(path).as_str());
    line
}

/// Writes the command that sends a file's contents to its output.
pub fn get_command(path: &str) -> (line: String)
    ensures
        line@ == get_line(path@),
{
    let mut line = String::from_str("cat ");
    line.append(quote(path).as_str());
    line
}

/// Writes the command that removes a path with all below it.
pub fn rm_command(path: &str) -> (line: String)
    ensures
        line@ == rm_line(path@),
{
    let mut line = String::from_str("rm -rf ");
    line.append(quote(path).as_str());
    line
}

} // verus!
