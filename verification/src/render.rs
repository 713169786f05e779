//! The log line of a record: the record written out field by field, every
//! string between quotes as `Debug` prints it.

use vstd::prelude::*;
use vstd::string::*;
use crate::aux_map::Entries;
use crate::schema::{Version, VersionView};
use crate::text::{append_decimal, debug_quoted, decimal, quote};

verus! {

/// One entry of the map, from its quoted key and value.
pub open spec fn entry_text(quoted: (Seq<char>, Seq<char>)) -> Seq<char> {
    "("@ + quoted.0 + ", "@ + quoted.1 + ")"@
}

/// The entries in order, separated by a comma and a space.
pub open spec fn joined_entries(quoted: Entries) -> Seq<char>
    decreases quoted.len(),
{
    if quoted.len() == 0 {
        Seq::empty()
    } else if quoted.len() == 1 {
        entry_text(quoted[0])
    } else {
        joined_entries(quoted.drop_last()) + ", "@ + entry_text(quoted.last())
    }
}

/// The map, from its quoted entries: a list in square brackets.
pub open spec fn entries_text(quoted: Entries) -> Seq<char> {
    "["@ + joined_entries(quoted) + "]"@
}

/// A first-generation record, from its quoted name and entries.
pub open spec fn v1_text(name: Seq<char>, quoted: Entries) -> Seq<char> {
    "V1(Version1 { name: "@ + name + ", map: "@ + entries_text(quoted) + " })"@
}

/// A second-generation record, from its quoted fields.
pub open spec fn v2_text(favorite_color: Seq<char>, favorite_musician: Seq<char>) -> Seq<char> {
    "V2(Version2 { favorite_color: "@ + favorite_color + ", favorite_musician: "@
        + favorite_musician + " })"@
}

/// A third-generation record, from the quoted fields of its account.
pub open spec fn v3_text(first_name: Seq<char>, last_name: Seq<char>, pronoun: Seq<char>) -> Seq<
    char,
> {
    "V3(Version3 { account: Account { first_name: "@ + first_name + ", last_name: "@ + last_name
        + ", pronoun: "@ + pronoun + " } })"@
}

/// The log line for the record at `index`, from the record's text.
pub open spec fn log_line(index: nat, record: Seq<char>) -> Seq<char> {
    "State info for version at index "@ + decimal(index) + ": "@ + record
}

/// Every key and value of `entries`, quoted.
pub open spec fn quoted_entries(entries: Entries) -> Entries {
    entries.map_values(|e: (Seq<char>, Seq<char>)| (debug_quoted(e.0), debug_quoted(e.1)))
}

/// The text of a record: its fields quoted and written out.
pub open spec fn version_text(version: VersionView) -> Seq<char> {
    match version {
        VersionView::V1(v) => v1_text(debug_quoted(v.name), quoted_entries(v.map)),
        VersionView::V2(v) => v2_text(
            debug_quoted(v.favorite_color),
            debug_quoted(v.favorite_musician),
        ),
        VersionView::V3(v) => v3_text(
            debug_quoted(v.account.first_name),
            debug_quoted(v.account.last_name),
            debug_quoted(v.account.pronoun),
        ),
    }
}

/// Writes out a map from its quoted entries.
pub fn compose_entries(quoted: &Vec<(String, String)>) -> (text: String)
    ensures
        text@ == entries_text(quoted.deep_view()),
{
    let ghost q = quoted.deep_view();
    let mut joined = String::new();
    let n = quoted.len();
    let mut i: usize = 0;
    while i < n
        invariant
            n == quoted@.len(),
            q == quoted.deep_view(),
            i <= n,
            joined@ == joined_entries(q.take(i as int)),
        decreases n - i,
    {
        let ghost before = joined@;
        if i > 0 {
            joined.append(", ");
        }
        joined.append("(");
        joined.append(quoted[i].0.as_str());
        joined.append(", ");
        joined.append(quoted[i].1.as_str());
        joined.append(")");
        proof {
            let next = q.take(i as int + 1);
            assert(next.drop_last() =~= q.take(i as int));
            assert(next.last() == q[i as int]);
            assert(q[i as int] == (quoted@[i as int].0@, quoted@[i as int].1@));
            if i == 0 {
                assert(before =~= Seq::<char>::empty());
                assert(joined@ =~= entry_text(q[0]));
            } else {
                assert(joined@ =~= before + ", "@ + entry_text(q[i as int]));
            }
        }
        i = i + 1;
    }
    proof {
        assert(q.take(n as int) =~= q);
    }
    let mut text = "[".to_owned();
    text.append(joined.as_str());
    text.append("]");
    text
}

/// Writes out a first-generation record from its quoted name and entries.
pub fn compose_v1(name: &String, quoted: &Vec<(String, String)>) -> (text: String)
    ensures
        text@ == v1_text(name@, quoted.deep_view()),
{
    let map = compose_entries(quoted);
    let mut text = "V1(Version1 { name: ".to_owned();
    text.append(name.as_str());
    text.append(", map: ");
    text.append(map.as_str());
    text.append(" })");
    text
}

/// Writes out a second-generation record from its quoted fields.
pub fn compose_v2(favorite_color: &String, favorite_musician: &String) -> (text: String)
    ensures
        text@ == v2_text(favorite_color@, favorite_musician@),
{
    let mut text = "V2(Version2 { favorite_color: ".to_owned();
    text.append(favorite_color.as_str());
    text.append(", favorite_musician: ");
    text.append(favorite_musician.as_str());
    text.append(" })");
    text
}

/// Writes out a third-generation record from the quoted fields of its account.
pub fn compose_v3(first_name: &String, last_name: &String, pronoun: &String) -> (text: String)
    ensures
        text@ == v3_text(first_name@, last_name@, pronoun@),
{
    let mut text = "V3(Version3 { account: Account { first_name: ".to_owned();
    text.append(first_name.as_str());
    text.append(", last_name: ");
    text.append(last_name.as_str());
    text.append(", pronoun: ");
    text.append(pronoun.as_str());
    text.append(" } })");
    text
}

/// Writes out the log line for the record at `index` from the record's text.
pub fn compose_log_line(index: u64, record: &String) -> (line: String)
    ensures
        line@ == log_line(index as nat, record@),
{
    let mut line = "State info for version at index ".to_owned();
    append_decimal(&mut line, index);
    line.append(": ");
    line.append(record.as_str());
    line
}

/// Quotes every key and value of `pairs`.
fn quote_entries(pairs: &Vec<(String, String)>) -> (quoted: Vec<(String, String)>)
    ensures
        quoted.deep_view() == quoted_entries(pairs.deep_view()),
{
    let mut quoted: Vec<(String, String)> = Vec::new();
    let n = pairs.len();
    let mut i: usize = 0;
    while i < n
        invariant
            n == pairs@.len(),
            i <= n,
            quoted@.len() == i,
            forall|j: int|
                0 <= j < i ==> (#[trigger] quoted@[j]).0@ == debug_quoted(pairs@[j].0@)
                    && quoted@[j].1@ == debug_quoted(pairs@[j].1@),
        decreases n - i,
    {
        let key = quote(pairs[i].0.as_str());
        let value = quote(pairs[i].1.as_str());
        quoted.push((key, value));
        i = i + 1;
    }
    assert(quoted.deep_view() =~= quoted_entries(pairs.deep_view()));
    quoted
}

impl Version {
    /// The record written out for a log line.
    pub fn debug_text(&self) -> (text: String)
        ensures
            text@ == version_text(self@),
    {
        match self {
            Version::V1(v) => {
                let name = quote(v.name.as_str());
                let pairs = v.map.to_vec();
                let quoted = quote_entries(&pairs);
                compose_v1(&name, &quoted)
            },
            Version::V2(v) => {
                let favorite_color = quote(v.favorite_color.as_str());
                let favorite_musician = quote(v.favorite_musician.as_str());
                compose_v2(&favorite_color, &favorite_musician)
            },
            Version::V3(v) => {
                let first_name = quote(v.account.first_name().as_str());
                let last_name = quote(v.account.last_name().as_str());
                let pronoun = quote(v.account.pronoun().as_str());
                compose_v3(&first_name, &last_name, &pronoun)
            },
        }
    }
}

} // verus!
