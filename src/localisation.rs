//! The localisation table: display names of country tags, read from the
//! lines of a localisation file.

use vstd::prelude::*;

verus! {

/// The tag and display name that a localisation line declares, if any: the
/// two groups of the first match of `(\w\d{2}):0 "(.*)"` in the line.
pub uninterp spec fn localisation_capture(line: Seq<char>) -> Option<(Seq<char>, Seq<char>)>;

/// A pair of strings seen as their characters.
pub open spec fn pair_view(p: Option<(String, String)>) -> Option<(Seq<char>, Seq<char>)> {
    match p {
        Some(x) => Some((x.0@, x.1@)),
        None => None,
    }
}

/// Pairs of strings seen as their characters.
pub open spec fn pairs_view(v: Seq<(String, String)>) -> Seq<(Seq<char>, Seq<char>)> {
    v.map_values(|p: (String, String)| (p.0@, p.1@))
}

/// The entries that are present, in order.
pub open spec fn kept(caps: Seq<Option<(Seq<char>, Seq<char>)>>) -> Seq<(Seq<char>, Seq<char>)>
    decreases caps.len(),
{
    if caps.len() == 0 {
        Seq::empty()
    } else {
        match caps.last() {
            Some(p) => kept(caps.drop_last()).push(p),
            None => kept(caps.drop_last()),
        }
    }
}

/// Relies on `regex::Regex::new` compiling `(\w\d{2}):0 "(.*)"` and on
/// `Regex::captures`: groups one and two of the first match in the line.
#[verifier::external_body]
fn capture_entry(line: &str) -> (r: Option<(String, String)>)
    ensures
        pair_view(r) == localisation_capture(line@),
{
    let re = regex::Regex::new("(\\w\\d{2}):0 \"(.*)\"").ok()?;
    let caps = re.captures(line)?;
    Some((caps.get(1)?.as_str().to_string(), caps.get(2)?.as_str().to_string()))
}

/// Keeps the entries that are present, in order.
pub fn collect_entries(captures: &Vec<Option<(String, String)>>) -> (r: Vec<(String, String)>)
    ensures
        pairs_view(r@) == kept(captures@.map_values(|c: Option<(String, String)>| pair_view(c))),
{
    let ghost views = captures@.map_values(|c: Option<(String, String)>| pair_view(c));
    let mut out: Vec<(String, String)> = Vec::new();
    let mut i: usize = 0;
    while i < captures.len()
        invariant
            i <= captures@.len(),
            views == captures@.map_values(|c: Option<(String, String)>| pair_view(c)),
            pairs_view(out@) == kept(views.take(i as int)),
        decreases captures@.len() - i,
    {
        assert(views.take(i as int + 1).drop_last() =~= views.take(i as int));
        assert(views.take(i as int + 1).last() == pair_view(captures@[i as int]));
        match &captures[i] {
            Some(p) => {
                let ghost before = out@;
                out.push((p.0.clone(), p.1.clone()));
                assert(pairs_view(out@) =~= pairs_view(before).push((p.0@, p.1@)));
            },
            None => {},
        }
        i += 1;
    }
    assert(views.take(captures@.len() as int) =~= views);
    out
}

/// The tag and display name declared by each line that declares one, in
/// line order.
pub fn localisation_table(lines: &Vec<String>) -> (r: Vec<(String, String)>)
    ensures
        pairs_view(r@) == kept(lines@.map_values(|l: String| localisation_capture(l@))),
{
    let mut caps: Vec<Option<(String, String)>> = Vec::new();
    let mut i: usize = 0;
    while i < lines.len()
        invariant
            i <= lines@.len(),
            caps@.len() == i,
            forall|j: int|
                0 <= j < i ==> pair_view(#[trigger] caps@[j]) == localisation_capture(
                    lines@[j]@,
                ),
        decreases lines@.len() - i,
    {
        let c = capture_entry(lines[i].as_str());
        caps.push(c);
        i += 1;
    }
    assert(caps@.map_values(|c: Option<(String, String)>| pair_view(c)) =~= lines@.map_values(
        |l: String| localisation_capture(l@),
    ));
    collect_entries(&caps)
}

} // verus!
