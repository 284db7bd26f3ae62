//! Locating the window icon.
//!
//! The icon is looked up first among the bundled resources; failing that,
//! among a fixed list of places relative to the working directory, where the
//! first that exists wins.
use vstd::prelude::*;

verus! {

/// Path of the icon among the bundled resources.
pub const ICON_RESOURCE: &'static str = "icons/icon.ico";

/// The places, relative to the working directory, where the icon may lie,
/// each as its sequence of path components, in the order they are tried.
pub open spec fn candidate_paths() -> Seq<Seq<Seq<char>>> {
    seq![
        seq!["icons"@, "icon.ico"@],
        seq!["src-tauri"@, "icons"@, "icon.ico"@],
        seq![".."@, "icons"@, "icon.ico"@],
        seq![".."@, "src-tauri"@, "icons"@, "icon.ico"@],
    ]
}

/// The views of a list of path components.
pub open spec fn components_view(v: Vec<String>) -> Seq<Seq<char>> {
    v@.map_values(|s: String| s@)
}

/// Where the icon was found.
#[derive(PartialEq, Eq, Structural, Clone, Copy, Debug)]
pub enum IconSource {
    /// Among the bundled resources, at `ICON_RESOURCE`.
    Resource,
    /// At the candidate of this index, in the list of `icon_candidates`.
    Candidate(usize),
}

fn components(parts: &[&str]) -> (r: Vec<String>)
    ensures
        r@.len() == parts@.len(),
        forall|i: int| 0 <= i < parts@.len() ==> #[trigger] r@[i]@ == parts@[i]@,
{
    let mut r: Vec<String> = Vec::new();
    let mut i: usize = 0;
    while i < parts.len()
        invariant
            i <= parts@.len(),
            r@.len() == i,
            forall|j: int| 0 <= j < i ==> #[trigger] r@[j]@ == parts@[j]@,
        decreases parts@.len() - i,
    {
        r.push(String::from_str(parts[i]));
        i = i + 1;
    }
    r
}

/// The candidate places of the icon, relative to the working directory, in
/// the order they are tried.
pub fn icon_candidates() -> (r: Vec<Vec<String>>)
    ensures
        r@.len() == candidate_paths().len(),
        forall|i: int|
            0 <= i < r@.len() ==> #[trigger] components_view(r@[i]) == candidate_paths()[i],
{
    let r = vec![
        components(&["icons", "icon.ico"]),
        components(&["src-tauri", "icons", "icon.ico"]),
        components(&["..", "icons", "icon.ico"]),
        components(&["..", "src-tauri", "icons", "icon.ico"]),
    ];
    assert forall|i: int| 0 <= i < r@.len() implies #[trigger] components_view(r@[i])
        == candidate_paths()[i] by {
        assert(components_view(r@[i]) =~= candidate_paths()[i]);
    }
    r
}

/// `i` is the first index at which `found` holds.
pub open spec fn is_first_found(found: Seq<bool>, i: int) -> bool {
    &&& 0 <= i < found.len()
    &&& found[i]
    &&& forall|j: int| 0 <= j < i ==> !found[j]
}

/// The index of the first place that exists, given for each place, in
/// order, whether it exists; `None` when none does.
pub fn first_existing(exists: &Vec<bool>) -> (r: Option<usize>)
    ensures
        r matches Some(i) ==> is_first_found(exists@, i as int),
        r is None <==> forall|j: int| 0 <= j < exists@.len() ==> !exists@[j],
{
    let mut i: usize = 0;
    while i < exists.len()
        invariant
            i <= exists@.len(),
            forall|j: int| 0 <= j < i ==> !exists@[j],
        decreases exists@.len() - i,
    {
        if exists[i] {
            return Some(i);
        }
        i = i + 1;
    }
    None
}

/// Chooses where the icon comes from. `resource_found` tells whether the
/// bundled resource could be resolved; `probe` holds, for each of
/// `icon_candidates` in order, whether it exists, or is `None` when the
/// working directory is unknown. The bundled resource is preferred, then the
/// first candidate that exists.
pub fn choose_icon(resource_found: bool, probe: Option<Vec<bool>>) -> (r: Option<IconSource>)
    ensures
        resource_found ==> r == Some(IconSource::Resource),
        !resource_found ==> match probe {
            None => r is None,
            Some(v) => {
                &&& (r is None <==> forall|j: int| 0 <= j < v@.len() ==> !v@[j])
                &&& (r matches Some(s) ==> (s matches IconSource::Candidate(i)
                    && is_first_found(v@, i as int)))
            },
        },
{
    if resource_found {
        return Some(IconSource::Resource);
    }
    match probe {
        None => None,
        Some(v) => match first_existing(&v) {
            None => None,
            Some(i) => Some(IconSource::Candidate(i)),
        },
    }
}

} // verus!
