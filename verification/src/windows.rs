//! Finding a window of an application among those that the window manager
//! lists: which windows there are, and whether one belongs to the
//! application. Asking the window manager is the caller's part.

use vstd::prelude::*;
use crate::text::{
    chars_of, contains, has_substring, lines_of, non_empty, split_lines, text_of, views,
};

verus! {

/// Whether `c` is white space, as `char::is_whitespace` says.
pub uninterp spec fn white_space(c: char) -> bool;

/// `text` in lower case, as `str::to_lowercase` gives it.
pub uninterp spec fn lowercase(text: Seq<char>) -> Seq<char>;

/// `char::is_whitespace`: whether the character has the Unicode property
/// White_Space. The contract only gives the answer its name.
#[verifier::external_body]
fn is_white_space(c: char) -> (out: bool)
    ensures
        out == white_space(c),
{
    c.is_whitespace()
}

/// `str::to_lowercase`: the lower case equivalent of the text, by the
/// Unicode rules. The contract only gives the result its name.
#[verifier::external_body]
fn to_lowercase(text: &str) -> (out: String)
    ensures
        out@ == lowercase(text@),
{
    text.to_lowercase()
}

/// For each character of `text`, whether it is white space.
pub open spec fn blanks_of(text: Seq<char>) -> Seq<bool> {
    text.map_values(|c: char| white_space(c))
}

/// How many of the first entries of `flags` are set, up to the first that is
/// not.
pub open spec fn leading(flags: Seq<bool>) -> nat
    decreases flags.len(),
{
    if flags.len() > 0 && flags[0] {
        1 + leading(flags.skip(1))
    } else {
        0
    }
}

/// How many of the last entries of `flags` are set, down to the last that is
/// not.
pub open spec fn trailing(flags: Seq<bool>) -> nat
    decreases flags.len(),
{
    if flags.len() > 0 && flags.last() {
        1 + trailing(flags.drop_last())
    } else {
        0
    }
}

/// Where the part of a text begins that is left when the flagged characters
/// at its two ends are taken away.
pub open spec fn kept_from(flags: Seq<bool>) -> int {
    leading(flags) as int
}

/// Where that part ends. Where every character is flagged, it is empty.
pub open spec fn kept_to(flags: Seq<bool>) -> int {
    if leading(flags) + trailing(flags) >= flags.len() {
        leading(flags) as int
    } else {
        flags.len() - trailing(flags)
    }
}

/// `text` without the white space at its two ends.
pub open spec fn trimmed(text: Seq<char>) -> Seq<char> {
    text.subrange(kept_from(blanks_of(text)), kept_to(blanks_of(text)))
}

/// The identifiers of the windows in what the window manager lists: one on
/// each line, without the white space around it; lines that hold nothing
/// else name no window.
pub open spec fn window_ids_of(listing: Seq<char>) -> Seq<Seq<char>> {
    lines_of(listing).map_values(|line: Seq<char>| trimmed(line)).filter(non_empty())
}

/// `value`, a property of a window, speaks of the application `app_id`: it
/// holds `app_id`, whatever the case of the letters.
pub open spec fn names_app(value: Seq<char>, app_id: Seq<char>) -> bool {
    has_substring(lowercase(value), lowercase(app_id))
}

/// The object of the window `window_id` at the window manager.
pub open spec fn window_path(window_id: Seq<char>) -> Seq<char> {
    "/KWin/Window/"@ + window_id
}

/// The line that shows a window in the list of windows.
pub open spec fn window_row_text(window_id: Seq<char>, class: Seq<char>, title: Seq<char>) -> Seq<
    char,
> {
    "  "@ + window_id + " | class: '"@ + class + "' | title: '"@ + title + "'"@
}

/// The first `k` flags are set and the next, if there is one, is not: so `k`
/// flags lead.
pub proof fn lemma_leading(flags: Seq<bool>, k: int)
    requires
        0 <= k <= flags.len(),
        forall|j: int| 0 <= j < k ==> flags[j],
        k < flags.len() ==> !flags[k],
    ensures
        leading(flags) == k,
    decreases k,
{
    if k > 0 {
        let rest = flags.skip(1);
        assert forall|j: int| 0 <= j < k - 1 implies rest[j] by {
            assert(rest[j] == flags[j + 1]);
        }
        lemma_leading(rest, k - 1);
    }
}

/// The last `k` flags are set and the one before them, if there is one, is
/// not: so `k` flags trail.
pub proof fn lemma_trailing(flags: Seq<bool>, k: int)
    requires
        0 <= k <= flags.len(),
        forall|j: int| flags.len() - k <= j < flags.len() ==> flags[j],
        k < flags.len() ==> !flags[flags.len() - k - 1],
    ensures
        trailing(flags) == k,
    decreases k,
{
    if k > 0 {
        let rest = flags.drop_last();
        assert forall|j: int| rest.len() - (k - 1) <= j < rest.len() implies rest[j] by {
            assert(rest[j] == flags[j]);
        }
        lemma_trailing(rest, k - 1);
    }
}

/// Where the part of a text begins and ends that is left when the flagged
/// characters at its two ends are taken away.
pub fn kept_range(flags: &Vec<bool>) -> (out: (usize, usize))
    ensures
        out.0 == kept_from(flags@),
        out.1 == kept_to(flags@),
        out.0 <= out.1 <= flags.len(),
{
    let mut from: usize = 0;
    while from < flags.len() && flags[from]
        invariant
            from <= flags.len(),
            forall|j: int| 0 <= j < from ==> flags@[j],
        decreases flags.len() - from,
    {
        from += 1;
    }
    proof {
        lemma_leading(flags@, from as int);
    }
    let mut to: usize = flags.len();
    while to > from && flags[to - 1]
        invariant
            from <= to <= flags.len(),
            forall|j: int| to <= j < flags.len() ==> flags@[j],
        decreases to - from,
    {
        to -= 1;
    }
    proof {
        if to > from {
            lemma_trailing(flags@, flags.len() - to);
        } else {
            // Every flag from `from` on is set, and the one at `from` is not:
            // there is none, and all flags are set.
            assert(from == flags.len());
            lemma_trailing(flags@, flags.len() as int);
        }
    }
    (from, to)
}

/// `text` without the white space at its two ends.
pub fn trim(text: &str) -> (out: String)
    ensures
        out@ == trimmed(text@),
{
    let chars = chars_of(text);
    let mut flags: Vec<bool> = Vec::new();
    let mut i: usize = 0;
    while i < chars.len()
        invariant
            i <= chars.len(),
            flags.len() == i,
            forall|j: int| 0 <= j < i ==> flags@[j] == white_space(chars@[j]),
        decreases chars.len() - i,
    {
        flags.push(is_white_space(chars[i]));
        i += 1;
    }
    assert(flags@ =~= blanks_of(chars@));
    let (from, to) = kept_range(&flags);
    text_of(&chars, from, to)
}

/// The identifiers of the windows in what the window manager lists.
pub fn window_ids(listing: &str) -> (out: Vec<String>)
    ensures
        views(out@) == window_ids_of(listing@),
{
    let lines = split_lines(listing);
    let mut out: Vec<String> = Vec::new();
    let mut i: usize = 0;
    let ghost cut = lines_of(listing@).map_values(|line: Seq<char>| trimmed(line));
    assert(cut.take(0) =~= Seq::<Seq<char>>::empty());
    assert(views(out@) =~= Seq::<Seq<char>>::empty());
    while i < lines.len()
        invariant
            i <= lines.len(),
            views(lines@) == lines_of(listing@),
            cut == lines_of(listing@).map_values(|line: Seq<char>| trimmed(line)),
            views(out@) == cut.take(i as int).filter(non_empty()),
        decreases lines.len() - i,
    {
        let id = trim(lines[i].as_str());
        proof {
            assert(views(lines@)[i as int] == lines@[i as int]@);
            assert(cut[i as int] == id@);
            assert(cut.take(i + 1) =~= cut.take(i as int).push(cut[i as int]));
            cut.take(i as int).lemma_filter_push(cut[i as int], non_empty());
        }
        if !id.as_str().is_empty() {
            assert(views(out@.push(id)) =~= views(out@).push(id@));
            out.push(id);
        }
        i += 1;
    }
    assert(cut.take(lines.len() as int) =~= cut);
    out
}

/// The value of a property from what the window manager answered: the
/// answer without the white space around it, or nothing where that is all
/// it holds.
pub fn property_value(answer: &str) -> (out: Option<String>)
    ensures
        out is Some <==> trimmed(answer@).len() > 0,
        out matches Some(value) ==> value@ == trimmed(answer@),
{
    let value = trim(answer);
    if value.as_str().is_empty() {
        None
    } else {
        Some(value)
    }
}

/// Whether `value`, a property of a window, speaks of the application
/// `app_id`.
pub fn matches_app(value: &str, app_id: &str) -> (out: bool)
    ensures
        out == names_app(value@, app_id@),
{
    let hay = to_lowercase(value);
    let needle = to_lowercase(app_id);
    contains(hay.as_str(), needle.as_str())
}

/// Whether a property that may be missing speaks of the application
/// `app_id`. A missing property speaks of none.
pub fn property_matches(value: &Option<String>, app_id: &str) -> (out: bool)
    ensures
        out == (value matches Some(text) && names_app(text@, app_id@)),
{
    match value {
        Some(text) => matches_app(text.as_str(), app_id),
        None => false,
    }
}

/// The object of the window `window_id` at the window manager.
pub fn window_object_path(window_id: &str) -> (out: String)
    ensures
        out@ == window_path(window_id@),
{
    let mut out = String::from_str("/KWin/Window/");
    out.append(window_id);
    out
}

/// The arguments that ask the window manager for its windows.
pub fn list_arguments() -> (out: Vec<String>)
    ensures
        views(out@) == seq!["org.kde.KWin"@, "/KWin"@, "org.kde.KWin.Windows"@],
{
    let out = vec![
        String::from_str("org.kde.KWin"),
        String::from_str("/KWin"),
        String::from_str("org.kde.KWin.Windows"),
    ];
    assert(views(out@) =~= seq!["org.kde.KWin"@, "/KWin"@, "org.kde.KWin.Windows"@]);
    out
}

/// The arguments that call `member` of the window `window_id` at the window
/// manager: a property to read, or an action to carry out.
pub fn window_arguments(window_id: &str, member: &str) -> (out: Vec<String>)
    ensures
        views(out@) == seq![
            "org.kde.KWin"@,
            window_path(window_id@),
            "org.kde.KWin.Window"@,
            member@,
        ],
{
    let out = vec![
        String::from_str("org.kde.KWin"),
        window_object_path(window_id),
        String::from_str("org.kde.KWin.Window"),
        String::from_str(member),
    ];
    assert(views(out@) =~= seq![
        "org.kde.KWin"@,
        window_path(window_id@),
        "org.kde.KWin.Window"@,
        member@,
    ]);
    out
}

/// The line that shows a window in the list of windows, or nothing for a
/// window that has neither class nor title.
pub fn window_row(window_id: &str, class: &str, title: &str) -> (out: Option<String>)
    ensures
        out is Some <==> class@.len() > 0 || title@.len() > 0,
        out matches Some(row) ==> row@ == window_row_text(window_id@, class@, title@),
{
    if class.is_empty() && title.is_empty() {
        None
    } else {
        let mut row = String::from_str("  ");
        row.append(window_id);
        row.append(" | class: '");
        row.append(class);
        row.append("' | title: '");
        row.append(title);
        row.append("'");
        Some(row)
    }
}

} // verus!
