//! The keyword list that biases transcription: parsing it from the stored
//! text, editing it, and writing it back as text. Reading and writing the
//! file itself is the caller's part.

use vstd::prelude::*;

use crate::text::{trim_text, trimmed};

verus! {

/// The lines of a text, as `str::lines` splits it.
pub uninterp spec fn lines_of(s: Seq<char>) -> Seq<Seq<char>>;

/// Relies on `str::lines`: splits a text at line ends, the line ends dropped.
#[verifier::external_body]
fn split_lines(s: &str) -> (r: Vec<String>)
    ensures
        r@.map_values(|l: String| l@) == lines_of(s@),
{
    s.lines().map(|l| l.to_string()).collect()
}

/// The non-blank entries of a list of trimmed lines, in order.
pub open spec fn non_blank(lines: Seq<Seq<char>>) -> Seq<Seq<char>> {
    lines.filter(|l: Seq<char>| l.len() > 0)
}

/// The keywords stored in a list of lines: each line trimmed, blank ones left out.
pub open spec fn keywords_in(lines: Seq<Seq<char>>) -> Seq<Seq<char>> {
    non_blank(lines.map_values(|l: Seq<char>| trimmed(l)))
}

/// The file the keyword list is kept in, under `dir`, as `Path::join` forms
/// it: the bare file name under an empty directory, and no doubled separator
/// after a directory that ends in one.
pub open spec fn keywords_path(dir: Seq<char>) -> Seq<char> {
    if dir.len() == 0 {
        "keywords.txt"@
    } else if dir.last() == '/' {
        dir + "keywords.txt"@
    } else {
        dir + "/keywords.txt"@
    }
}

/// The stored text of a keyword list: one keyword per line.
pub open spec fn text_of(ks: Seq<Seq<char>>) -> Seq<char>
    decreases ks.len(),
{
    if ks.len() == 0 {
        Seq::empty()
    } else if ks.len() == 1 {
        ks[0]
    } else {
        text_of(ks.drop_last()) + "\n"@ + ks.last()
    }
}

/// The views of a list of strings.
pub open spec fn texts(v: Seq<String>) -> Seq<Seq<char>> {
    v.map_values(|s: String| s@)
}

/// Each line trimmed, in order.
fn trim_all(lines: &Vec<String>) -> (r: Vec<String>)
    ensures
        texts(r@) == texts(lines@).map_values(|l: Seq<char>| trimmed(l)),
{
    let mut r: Vec<String> = Vec::new();
    let mut i: usize = 0;
    while i < lines.len()
        invariant
            i <= lines@.len(),
            texts(r@) == texts(lines@.subrange(0, i as int)).map_values(|l: Seq<char>| trimmed(l)),
        decreases lines@.len() - i,
    {
        let ghost prev = r@;
        let k = trim_text(lines[i].as_str());
        r.push(k);
        assert(texts(r@) =~= texts(prev).push(k@));
        assert(texts(lines@.subrange(0, i + 1)).map_values(|l: Seq<char>| trimmed(l))
            =~= texts(lines@.subrange(0, i as int)).map_values(|l: Seq<char>| trimmed(l)).push(k@));
        i = i + 1;
    }
    assert(lines@.subrange(0, lines@.len() as int) =~= lines@);
    r
}

/// The non-blank entries of `lines`, in order.
pub fn keep_non_blank(lines: Vec<String>) -> (r: Vec<String>)
    ensures
        texts(r@) == non_blank(texts(lines@)),
{
    let ghost t = texts(lines@);
    let ghost f = |l: Seq<char>| l.len() > 0;
    let mut r: Vec<String> = Vec::new();
    let mut i: usize = 0;
    let n = lines.len();
    while i < n
        invariant
            n == t.len(),
            i <= n,
            t == texts(lines@),
            f == (|l: Seq<char>| l.len() > 0),
            texts(r@) == t.subrange(0, i as int).filter(f),
        decreases n - i,
    {
        let k = lines[i].clone();
        assert(k@ == t[i as int]);
        proof {
            reveal(Seq::filter);
            assert(t.subrange(0, i + 1).drop_last() =~= t.subrange(0, i as int));
        }
        let ghost prev = r@;
        let ghost kv = k@;
        if k.as_str().unicode_len() > 0 {
            r.push(k);
            assert(texts(r@) =~= texts(prev).push(kv));
        }
        assert(texts(r@) == t.subrange(0, i + 1).filter(f));
        i = i + 1;
    }
    assert(t.subrange(0, n as int) =~= t);
    r
}

/// The keywords stored in `content`, in order.
pub fn parse_keywords(content: &str) -> (r: Vec<String>)
    ensures
        texts(r@) == keywords_in(lines_of(content@)),
{
    let lines = split_lines(content);
    let trimmed_lines = trim_all(&lines);
    keep_non_blank(trimmed_lines)
}

/// The keywords stored in the config directory.
pub struct KeywordsManager {
    file_path: String,
    keywords: Vec<String>,
}

impl KeywordsManager {
    pub closed spec fn spec_path(&self) -> Seq<char> {
        self.file_path@
    }

    /// The keywords, in order.
    pub closed spec fn spec_keywords(&self) -> Seq<Seq<char>> {
        texts(self.keywords@)
    }

    /// An empty list kept in `keywords.txt` under `config_dir`.
    pub fn new(config_dir: &str) -> (r: Self)
        ensures
            r.spec_path() == keywords_path(config_dir@),
            r.spec_keywords() == Seq::<Seq<char>>::empty(),
    {
        let n = config_dir.unicode_len();
        let file_path = if n == 0 {
            String::from_str("keywords.txt")
        } else if config_dir.get_char(n - 1) == '/' {
            String::from_str(config_dir).concat("keywords.txt")
        } else {
            String::from_str(config_dir).concat("/keywords.txt")
        };
        let r = KeywordsManager { file_path, keywords: Vec::new() };
        assert(r.spec_keywords() =~= Seq::<Seq<char>>::empty());
        r
    }

    /// The file the list is kept in.
    pub fn file_path(&self) -> (r: String)
        ensures
            r@ == self.spec_path(),
    {
        self.file_path.clone()
    }

    /// Replaces the list with the keywords stored in `content`.
    pub fn load_keywords(&mut self, content: &str)
        ensures
            final(self).spec_path() == old(self).spec_path(),
            final(self).spec_keywords() == keywords_in(lines_of(content@)),
    {
        self.keywords = parse_keywords(content);
    }

    /// The keywords, in order.
    pub fn keywords(&self) -> (r: Vec<String>)
        ensures
            texts(r@) == self.spec_keywords(),
    {
        let mut r: Vec<String> = Vec::new();
        let mut i: usize = 0;
        while i < self.keywords.len()
            invariant
                i <= self.keywords@.len(),
                texts(r@) == texts(self.keywords@.subrange(0, i as int)),
            decreases self.keywords@.len() - i,
        {
            let ghost prev = r@;
            let c = self.keywords[i].clone();
            assert(c@ == self.keywords@[i as int]@);
            r.push(c);
            assert(texts(r@) =~= texts(prev).push(c@));
            assert(texts(self.keywords@.subrange(0, i + 1)) =~= texts(self.keywords@.subrange(0, i as int)).push(c@));
            i = i + 1;
        }
        assert(self.keywords@.subrange(0, self.keywords@.len() as int) =~= self.keywords@);
        r
    }

    /// Whether `keyword` is in the list.
    pub fn contains(&self, keyword: &String) -> (r: bool)
        ensures
            r == self.spec_keywords().contains(keyword@),
    {
        let mut i: usize = 0;
        while i < self.keywords.len()
            invariant
                i <= self.keywords@.len(),
                forall|j: int| 0 <= j < i ==> self.keywords@[j]@ != keyword@,
            decreases self.keywords@.len() - i,
        {
            if self.keywords[i] == *keyword {
                assert(self.spec_keywords()[i as int] == keyword@);
                return true;
            }
            i = i + 1;
        }
        proof {
            if self.spec_keywords().contains(keyword@) {
                let j = choose|j: int| 0 <= j < self.spec_keywords().len() && self.spec_keywords()[j] == keyword@;
                assert(self.keywords@[j]@ == keyword@);
            }
        }
        false
    }

    /// Adds `keyword` at the end unless it is already listed. Returns whether
    /// the list changed, so that the caller knows to save it.
    pub fn add_keyword(&mut self, keyword: String) -> (changed: bool)
        ensures
            final(self).spec_path() == old(self).spec_path(),
            changed == !old(self).spec_keywords().contains(keyword@),
            changed ==> final(self).spec_keywords() == old(self).spec_keywords().push(keyword@),
            !changed ==> final(self).spec_keywords() == old(self).spec_keywords(),
    {
        if self.contains(&keyword) {
            return false;
        }
        let ghost k = keyword@;
        self.keywords.push(keyword);
        assert(texts(self.keywords@) =~= texts(old(self).keywords@).push(k));
        true
    }

    /// Removes the keyword at `index`; an index past the end changes nothing.
    /// Returns whether the list changed.
    pub fn remove_keyword(&mut self, index: usize) -> (changed: bool)
        ensures
            final(self).spec_path() == old(self).spec_path(),
            changed == (index < old(self).spec_keywords().len()),
            changed ==> final(self).spec_keywords() == old(self).spec_keywords().remove(index as int),
            !changed ==> final(self).spec_keywords() == old(self).spec_keywords(),
    {
        if index >= self.keywords.len() {
            return false;
        }
        let _ = self.keywords.remove(index);
        assert(texts(self.keywords@) =~= texts(old(self).keywords@).remove(index as int));
        true
    }

    /// The text to store: one keyword per line.
    pub fn to_text(&self) -> (r: String)
        ensures
            r@ == text_of(self.spec_keywords()),
    {
        let mut r = String::new();
        let mut i: usize = 0;
        while i < self.keywords.len()
            invariant
                i <= self.keywords@.len(),
                r@ == text_of(texts(self.keywords@).subrange(0, i as int)),
            decreases self.keywords@.len() - i,
        {
            let ghost before = texts(self.keywords@).subrange(0, i as int);
            let ghost after = texts(self.keywords@).subrange(0, i + 1);
            assert(after.drop_last() =~= before);
            if i > 0 {
                r = r.concat("\n");
            }
            r = r.concat(self.keywords[i].as_str());
            proof {
                if i == 0 {
                    assert(r@ =~= after[0]);
                }
            }
            i = i + 1;
        }
        assert(texts(self.keywords@).subrange(0, self.keywords@.len() as int) =~= texts(self.keywords@));
        r
    }
}

} // verus!
