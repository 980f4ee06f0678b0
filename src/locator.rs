//! Finding the capture backend: the ordered candidate locations, and the
//! choice of the first one that holds an executable.

use vstd::prelude::*;

verus! {

/// The capture backend was found nowhere.
#[derive(Debug, Clone, Copy, PartialEq, Eq, Structural)]
pub enum LocateError {
    NotFound,
}

impl LocateError {
    /// What the user can do about it.
    pub fn remediation(&self) -> (r: &'static str)
        ensures
            r@ == install_hint(),
    {
        "ffmpeg was not found. Install it (e.g. `brew install ffmpeg` or `apt install ffmpeg`) and try again."
    }
}

/// The install guidance shown when the backend is missing.
pub open spec fn install_hint() -> Seq<char> {
    "ffmpeg was not found. Install it (e.g. `brew install ffmpeg` or `apt install ffmpeg`) and try again."@
}

/// The well-known install locations, searched before the search path.
pub open spec fn well_known() -> Seq<Seq<char>> {
    seq!["/opt/homebrew/bin/ffmpeg"@, "/usr/local/bin/ffmpeg"@, "/usr/bin/ffmpeg"@]
}

/// The suffix that turns a search-path directory into a candidate.
pub open spec fn backend_suffix() -> Seq<char> {
    "/ffmpeg"@
}

/// Every candidate location, in search order: the well-known install paths,
/// then the backend's name in each directory of `search_dirs`, in order.
pub fn candidate_paths(search_dirs: &Vec<String>) -> (r: Vec<String>)
    requires
        search_dirs@.len() + 3 <= usize::MAX,
    ensures
        r@.len() == well_known().len() + search_dirs@.len(),
        forall|i: int| 0 <= i < well_known().len() ==> (#[trigger] r@[i])@ == well_known()[i],
        forall|j: int| 0 <= j < search_dirs@.len()
            ==> (#[trigger] r@[well_known().len() + j])@ == search_dirs@[j]@ + backend_suffix(),
{
    let mut r: Vec<String> = Vec::new();
    r.push(String::from_str("/opt/homebrew/bin/ffmpeg"));
    r.push(String::from_str("/usr/local/bin/ffmpeg"));
    r.push(String::from_str("/usr/bin/ffmpeg"));
    let mut j: usize = 0;
    while j < search_dirs.len()
        invariant
            j <= search_dirs@.len(),
            r@.len() == 3 + j,
            forall|i: int| 0 <= i < 3 ==> (#[trigger] r@[i])@ == well_known()[i],
            forall|k: int| 0 <= k < j ==> (#[trigger] r@[3 + k])@ == search_dirs@[k]@ + backend_suffix(),
        decreases search_dirs@.len() - j,
    {
        let c = search_dirs[j].clone().concat("/ffmpeg");
        r.push(c);
        j = j + 1;
    }
    r
}

/// Whether candidate `i` is marked as an executable.
pub open spec fn marked(executable: Seq<bool>, i: int) -> bool {
    0 <= i < executable.len() && executable[i]
}

/// Picks the first candidate that holds an executable, given for each
/// candidate whether it does (a candidate with no mark does not). Fails with
/// `NotFound` when none does.
pub fn locate(candidates: &Vec<String>, executable: &Vec<bool>) -> (r: Result<String, LocateError>)
    ensures
        r is Err <==> forall|i: int| 0 <= i < candidates@.len() ==> !marked(executable@, i),
        r is Err ==> r == Err::<String, LocateError>(LocateError::NotFound),
        r matches Ok(p) ==> exists|i: int|
            0 <= i < candidates@.len()
            && marked(executable@, i)
            && p@ == candidates@[i]@
            && forall|k: int| 0 <= k < i ==> !marked(executable@, k),
{
    let mut i: usize = 0;
    while i < candidates.len()
        invariant
            i <= candidates@.len(),
            forall|k: int| 0 <= k < i ==> !marked(executable@, k),
        decreases candidates@.len() - i,
    {
        if i < executable.len() && executable[i] {
            let p = candidates[i].clone();
            assert(marked(executable@, i as int));
            return Ok(p);
        }
        i = i + 1;
    }
    Err(LocateError::NotFound)
}

} // verus!
