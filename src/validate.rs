use vstd::prelude::*;
use vstd::string::*;
use crate::todo::TodoInformation;

verus! {

/// The values of (name, value) pairs.
pub open spec fn entries_view(e: Seq<(String, String)>) -> Seq<(Seq<char>, Seq<char>)> {
    e.map_values(|p: (String, String)| (p.0@, p.1@))
}

/// The values of a sequence of strings.
pub open spec fn strings_view(v: Seq<String>) -> Seq<Seq<char>> {
    v.map_values(|s: String| s@)
}

/// The message for a field left empty: its name followed by " is empty".
pub open spec fn empty_message(key: Seq<char>) -> Seq<char> {
    key + " is empty"@
}

/// One message per entry whose value is empty, in the entries' order.
pub open spec fn field_errors(e: Seq<(Seq<char>, Seq<char>)>) -> Seq<Seq<char>>
    decreases e.len(),
{
    if e.len() == 0 {
        Seq::empty()
    } else {
        let rest = field_errors(e.drop_last());
        if e.last().1.len() == 0 {
            rest.push(empty_message(e.last().0))
        } else {
            rest
        }
    }
}

impl TodoInformation {
    /// The fields as (name, value) pairs: `title`, then `description`.
    pub fn collect_as_strings(&self) -> (r: Vec<(String, String)>)
        ensures
            entries_view(r@) == seq![("title"@, self.title@), ("description"@, self.description@)],
    {
        let mut r: Vec<(String, String)> = Vec::new();
        r.push(("title".to_owned(), self.title.clone()));
        r.push(("description".to_owned(), self.description.clone()));
        assert(entries_view(r@) =~= seq![("title"@, self.title@), ("description"@, self.description@)]);
        r
    }

    /// The messages for this payload's empty fields.
    pub fn validate(&self) -> (r: Vec<String>)
        ensures
            strings_view(r@) == field_errors(
                seq![("title"@, self.title@), ("description"@, self.description@)],
            ),
    {
        let entries = self.collect_as_strings();
        empty_field_errors(&entries)
    }
}

/// One message, `"<name> is empty"`, for each entry whose value is empty.
pub fn empty_field_errors(entries: &Vec<(String, String)>) -> (r: Vec<String>)
    ensures
        strings_view(r@) == field_errors(entries_view(entries@)),
{
    let mut errors: Vec<String> = Vec::new();
    let mut i: usize = 0;
    while i < entries.len()
        invariant
            i <= entries@.len(),
            strings_view(errors@) == field_errors(entries_view(entries@.take(i as int))),
        decreases entries@.len() - i,
    {
        let ghost before = errors@;
        proof {
            assert(entries_view(entries@.take(i as int + 1)).drop_last()
                =~= entries_view(entries@.take(i as int)));
        }
        let (key, value) = (&entries[i].0, &entries[i].1);
        if value.as_str().is_empty() {
            let message = key.clone().concat(" is empty");
            errors.push(message);
            assert(errors@ =~= before.push(message));
            assert(strings_view(errors@) =~= strings_view(before).push(message@));
        }
        i = i + 1;
    }
    assert(entries@.take(entries@.len() as int) =~= entries@);
    errors
}

} // verus!
