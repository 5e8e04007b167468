//! The live filter input: editing the search text character by character,
//! and recompiling its regular expression only when the text changes.

use crate::keys::Key;
use crate::text::pop_char;
use crate::text::push_char;
use vstd::prelude::*;
use vstd::string::StringExecFns;

verus! {

/// Whether `pat` is an expression the regex engine accepts.
pub uninterp spec fn regex_ok(pat: Seq<char>) -> bool;

/// The pattern a compiled expression holds: the text it was built from.
pub uninterp spec fn regex_pattern(re: regex::Regex) -> Seq<char>;

/// Whether the expression built from `pat` matches somewhere in `text`.
pub uninterp spec fn regex_matches(pat: Seq<char>, text: Seq<char>) -> bool;

#[verifier::external_type_specification]
#[verifier::external_body]
pub struct ExRegex(regex::Regex);

/// Relies on regex::Regex::new (and as_str): acceptance depends on the
/// pattern text alone, and the compiled expression keeps its pattern.
#[verifier::external_body]
pub(crate) fn compile_regex(pat: &str) -> (r: Option<regex::Regex>)
    ensures
        r is Some <==> regex_ok(pat@),
        r matches Some(re) ==> regex_pattern(re) == pat@,
{
    regex::Regex::new(pat).ok()
}

/// Relies on regex::Regex::is_match: the result depends on the compiled
/// pattern and the haystack alone.
#[verifier::external_body]
pub(crate) fn regex_is_match(re: &regex::Regex, text: &str) -> (r: bool)
    ensures
        r == regex_matches(regex_pattern(*re), text@),
{
    re.is_match(text)
}

/// Whether a recomputation produced a new value or left the old one valid.
pub enum ShouldUpdate<T> {
    /// A new value to store.
    Update(T),
    /// The stored value is still the right one.
    NoUpdate,
}

/// Edits the search text by one key: a character is appended, backspace
/// removes the last character, typing into no search starts one, and any
/// other key leaves the text alone.
pub fn handle_search_input(current_search: &mut Option<String>, key: &Key)
    ensures
        *key matches Key::Char(c) ==> (match *old(current_search) {
            Some(s) => (*final(current_search)) matches Some(t) && t@ == s@.push(c),
            None => (*final(current_search)) matches Some(t) && t@ == seq![c],
        }),
        *key == Key::Backspace ==> (match *old(current_search) {
            Some(s) => (*final(current_search)) matches Some(t) && t@ == (if s@.len() > 0 {
                s@.drop_last()
            } else {
                s@
            }),
            None => (*final(current_search)) is None,
        }),
        !(*key matches Key::Char(_)) && *key != Key::Backspace ==> *final(current_search) == *old(
            current_search,
        ),
{
    let mut cur: Option<String> = None;
    core::mem::swap(current_search, &mut cur);
    let updated = match (key, cur) {
        (Key::Char(c), Some(mut s)) => {
            push_char(&mut s, *c);
            Some(s)
        },
        (Key::Char(c), None) => {
            let mut s = String::new();
            push_char(&mut s, *c);
            proof {
                assert(s@ =~= seq![*c]);
            }
            Some(s)
        },
        (Key::Backspace, Some(mut s)) => {
            pop_char(&mut s);
            Some(s)
        },
        (_, other) => other,
    };
    *current_search = updated;
}

/// Recomputes the compiled filter expression only when the text changed: no
/// text or empty text clears it; changed text is compiled with the
/// configured flags in front; a malformed expression is silently ignored —
/// the stored expression simply does not update — as is unchanged text.
pub fn maybe_update_search_regexp(
    search: Option<&String>,
    last_search: Option<&String>,
    regex_flags: &String,
) -> (r: ShouldUpdate<Option<regex::Regex>>)
    ensures
        search is None ==> (r matches ShouldUpdate::Update(o) && o is None),
        search matches Some(s) && s@.len() == 0 ==> (r matches ShouldUpdate::Update(o)
            && o is None),
        search matches Some(s) && s@.len() > 0 && (match last_search {
            Some(l) => l@ != s@,
            None => true,
        }) ==> (if regex_ok(regex_flags@ + search->0@) {
            r matches ShouldUpdate::Update(o) && o matches Some(re) && regex_pattern(re)
                == regex_flags@ + search->0@
        } else {
            r is NoUpdate
        }),
        search matches Some(s) && s@.len() > 0 && (match last_search {
            Some(l) => l@ == s@,
            None => false,
        }) ==> r is NoUpdate,
{
    match search {
        None => ShouldUpdate::Update(None),
        Some(s) => {
            if s.as_str().unicode_len() == 0 {
                return ShouldUpdate::Update(None);
            }
            let changed = match last_search {
                Some(l) => !s.eq(l),
                None => true,
            };
            if changed {
                let mut pat = regex_flags.clone();
                pat.append(s.as_str());
                match compile_regex(pat.as_str()) {
                    Some(re) => ShouldUpdate::Update(Some(re)),
                    None => ShouldUpdate::NoUpdate,
                }
            } else {
                ShouldUpdate::NoUpdate
            }
        },
    }
}

} // verus!
