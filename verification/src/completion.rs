//! The zsh completion script of the client: clap's script, with the id of
//! `info` and `characters` completed by searching AniList. The program
//! builds its command line and has clap write the script; the library
//! finishes it.

use vstd::prelude::*;
use vstd::utf8::{decode_utf8, valid_utf8};

use crate::pattern::{compiles, replaced_first, Pattern};
use crate::text::{replace_first, replace_first_occurrence};

verus! {

#[verifier::external_type_specification]
#[verifier::external_body]
pub struct ExFromUtf8Error(std::string::FromUtf8Error);

/// The zsh function that completes an AniList id by asking the client
/// itself (`ani completion-search`) for anime whose title matches.
pub const ANIME_INFO_ZSH_COMPLETION: &'static str = r#"
_ani_info() {
    # a previous completion call already produced and displayed a list
    # reuse it and begin selecting the items
    if [[ "${compstate[old_list]}" == "shown" ]]; then
        compstate[old_list]=keep
        compstate[insert]=menu
        return
    fi

    local -a ids displays lines

    local line id title output

    local query="${words[CURRENT]}"

    if (( ${#query} < 2 )); then
        _message 'Type at least 2 characters to search AniList'
        return
    fi

    zle -M "Searching AniList for '$query'..."

    output="$(ani completion-search "$query" 2>/dev/null)"

    if [[ -z "$output" ]]; then
        _message "No anime found for '$query'"
        return
    fi

    lines=("${(f)output}")

    for line in "${lines[@]}"; do
        id="${line%%$'\t'*}"
        title="${line#*$'\t'}"

        ids+=("$id")
        displays+=("${(r:8:)id} $title")
    done

    compadd -U -Q -d displays -a ids

    # first tab shows the list but doesn't modify the command line
    compstate[list]='list force'
    compstate[insert]=''
}"#;

/// The id argument of `info` in clap's script, completed by default.
pub const INFO_FUNCTION_PATTERN: &'static str = r"(?<start>\(info\).*?:id[^\n]*:)_default";

/// The id argument of `characters` in clap's script, completed by default.
pub const CHARACTERS_FUNCTION_PATTERN: &'static str =
    r"(?<start>\(characters\).*?:id[^\n]*:)_default";

/// What the default completion of an id is replaced by.
pub const INFO_COMPLETER: &'static str = "${start}_ani_info";

/// The first line of clap's script.
pub const COMPDEF_LINE: &'static str = "#compdef ani";

/// Why no completion script came out.
#[derive(Debug)]
pub enum CompletionError {
    /// A pattern did not compile.
    Pattern(regex::Error),
    /// clap's script was not UTF-8.
    Utf8(std::string::FromUtf8Error),
}

/// Whether both patterns that find the id arguments compile (with `.`
/// matching line breaks and `^`, `$` matching at them).
pub open spec fn completion_patterns_compile() -> bool {
    compiles(INFO_FUNCTION_PATTERN@, true, true) && compiles(CHARACTERS_FUNCTION_PATTERN@, true, true)
}

/// The finished script: in clap's script, the first `info` id argument and
/// then the first `characters` id argument complete with `_ani_info`, and
/// that function follows the first `#compdef ani` line.
pub open spec fn completion_script(script: Seq<char>) -> Seq<char> {
    let info = replaced_first(INFO_FUNCTION_PATTERN@, true, true, script, INFO_COMPLETER@);
    let characters = replaced_first(
        CHARACTERS_FUNCTION_PATTERN@,
        true,
        true,
        info,
        INFO_COMPLETER@,
    );
    replace_first(
        characters,
        COMPDEF_LINE@,
        COMPDEF_LINE@ + seq!['\n'] + ANIME_INFO_ZSH_COMPLETION@,
    )
}

/// What finishing clap's script, given as bytes, yields: a pattern error
/// when a pattern does not compile; else a UTF-8 error when the bytes are no
/// UTF-8; else the finished script.
pub open spec fn is_completion_outcome(bytes: Seq<u8>, r: Result<String, CompletionError>) -> bool {
    if !completion_patterns_compile() {
        r matches Err(CompletionError::Pattern(_))
    } else if !valid_utf8(bytes) {
        r matches Err(CompletionError::Utf8(_))
    } else {
        r matches Ok(s) && s@ == completion_script(decode_utf8(bytes))
    }
}

/// `String::from_utf8`: the contract claims, as std documents, that it
/// succeeds exactly on valid UTF-8 and then holds the decoded characters.
#[verifier::external_body]
fn string_from_utf8(bytes: Vec<u8>) -> (r: Result<String, std::string::FromUtf8Error>)
    ensures
        r is Ok <==> valid_utf8(bytes@),
        r matches Ok(s) ==> s@ == decode_utf8(bytes@),
{
    String::from_utf8(bytes)
}

/// Finishes clap's zsh script, given as the bytes clap wrote.
pub fn finish_zsh_completion(script: Vec<u8>) -> (r: Result<String, CompletionError>)
    ensures
        is_completion_outcome(script@, r),
{
    let ghost bytes = script@;
    let info_function = match Pattern::new(INFO_FUNCTION_PATTERN, true, true) {
        Ok(p) => p,
        Err(e) => return Err(CompletionError::Pattern(e)),
    };
    let characters_function = match Pattern::new(CHARACTERS_FUNCTION_PATTERN, true, true) {
        Ok(p) => p,
        Err(e) => return Err(CompletionError::Pattern(e)),
    };
    let zsh_completion = match string_from_utf8(script) {
        Ok(s) => s,
        Err(e) => return Err(CompletionError::Utf8(e)),
    };
    let zsh_completion = info_function.replace_first(zsh_completion.as_str(), INFO_COMPLETER);
    let zsh_completion = characters_function.replace_first(zsh_completion.as_str(), INFO_COMPLETER);
    let mut header = String::from_str(COMPDEF_LINE);
    header.append("\n");
    header.append(ANIME_INFO_ZSH_COMPLETION);
    let finished = replace_first_occurrence(zsh_completion.as_str(), COMPDEF_LINE, header.as_str());
    proof {
        reveal_strlit("\n");
    }
    assert(header@ =~= COMPDEF_LINE@ + seq!['\n'] + ANIME_INFO_ZSH_COMPLETION@);
    Ok(finished)
}

} // verus!
