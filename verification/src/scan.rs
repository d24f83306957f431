//! Project-context scanning: deciding from a directory's immediate entries
//! whether a detector unit should activate, and the per-directory listing
//! cache shared by all criteria during one prompt render.

use vstd::prelude::*;
use crate::text::str_eq;
use crate::template::copy_range;
use crate::text::{str_to_chars, chars_to_string};

verus! {

/// One immediate entry of a directory: its name and whether it is itself a
/// directory.
#[derive(Debug, PartialEq, Eq)]
pub struct DirEntry {
    pub name: String,
    pub is_dir: bool,
}

/// The mathematical shape of a directory entry.
pub struct DirEntryModel {
    pub name: Seq<char>,
    pub is_dir: bool,
}

impl View for DirEntry {
    type V = DirEntryModel;

    open spec fn view(&self) -> DirEntryModel {
        DirEntryModel { name: self.name@, is_dir: self.is_dir }
    }
}

/// The models of a directory listing, in order.
pub open spec fn listing_model(l: Seq<DirEntry>) -> Seq<DirEntryModel> {
    l.map_values(|e: DirEntry| e@)
}

/// The position of the last `.` of `s` at or before `i` that is not the
/// first character, or `-1` if there is none.
pub open spec fn last_dot(s: Seq<char>, i: int) -> int
    decreases i + 1,
{
    if i < 1 || i >= s.len() {
        if i >= s.len() && i >= 1 {
            last_dot(s, s.len() - 1)
        } else {
            -1
        }
    } else if s[i] == '.' {
        i
    } else {
        last_dot(s, i - 1)
    }
}

/// The extension of a file name: what follows the last `.`, provided that
/// dot is neither the first character (a leading dot marks a hidden file,
/// not an extension) nor absent.
pub open spec fn spec_extension(name: Seq<char>) -> Option<Seq<char>> {
    let p = last_dot(name, name.len() - 1);
    if p >= 1 {
        Some(name.subrange(p + 1, name.len() as int))
    } else {
        None
    }
}

/// Whether one of the names in `xs` is `s`.
pub open spec fn names_contain(xs: Seq<Seq<char>>, s: Seq<char>) -> bool {
    exists|i: int| 0 <= i < xs.len() && xs[i] == s
}

/// The models of a list of names.
pub open spec fn names_model(xs: Seq<String>) -> Seq<Seq<char>> {
    xs.map_values(|x: String| x@)
}

/// The criteria a scan session accumulates: required file names, folder
/// names and file extensions.
pub struct ScanCriteriaModel {
    pub files: Seq<Seq<char>>,
    pub folders: Seq<Seq<char>>,
    pub extensions: Seq<Seq<char>>,
}

/// One directory-matching query, built from file, folder and extension
/// criteria; all three default to empty.
#[derive(Debug, PartialEq, Eq)]
pub struct ScanCriteria {
    pub files: Vec<String>,
    pub folders: Vec<String>,
    pub extensions: Vec<String>,
}

impl View for ScanCriteria {
    type V = ScanCriteriaModel;

    open spec fn view(&self) -> ScanCriteriaModel {
        ScanCriteriaModel {
            files: names_model(self.files@),
            folders: names_model(self.folders@),
            extensions: names_model(self.extensions@),
        }
    }
}

/// Whether one directory entry satisfies the criteria: a listed folder name
/// for a directory, a listed file name or a listed extension for a file.
pub open spec fn entry_matches(c: ScanCriteriaModel, e: DirEntryModel) -> bool {
    if e.is_dir {
        names_contain(c.folders, e.name)
    } else {
        names_contain(c.files, e.name) || (match spec_extension(e.name) {
            Some(x) => names_contain(c.extensions, x),
            None => false,
        })
    }
}

/// Whether a directory matches: some entry satisfies the criteria. Matching
/// is an OR across all three categories, and a criteria set with all three
/// empty never matches.
pub open spec fn spec_matches(c: ScanCriteriaModel, l: Seq<DirEntryModel>) -> bool {
    exists|i: int| 0 <= i < l.len() && entry_matches(c, l[i])
}

/// Whether one of the strings in `xs` equals `s`.
fn contains_name(xs: &Vec<String>, s: &str) -> (b: bool)
    ensures
        b == names_contain(names_model(xs@), s@),
{
    let n = xs.len();
    let mut i: usize = 0;
    while i < n
        invariant
            n == xs@.len(),
            i <= n,
            forall|j: int| 0 <= j < i ==> names_model(xs@)[j] != s@,
        decreases n - i,
    {
        if str_eq(xs[i].as_str(), s) {
            proof {
                assert(names_model(xs@)[i as int] == s@);
            }
            return true;
        }
        i = i + 1;
    }
    false
}

/// The extension of a file name, matching `spec_extension`.
fn extension_of(name: &str) -> (r: Option<String>)
    ensures
        match r {
            Some(x) => spec_extension(name@) == Some(x@),
            None => spec_extension(name@) is None,
        },
{
    let cs = str_to_chars(name);
    let n = cs.len();
    if n < 2 {
        return None;
    }
    let mut i: usize = n - 1;
    while i >= 1 && cs[i] != '.'
        invariant
            n == cs@.len(),
            0 <= i <= n - 1,
            last_dot(cs@, n - 1) == last_dot(cs@, i as int),
        decreases i,
    {
        i = i - 1;
    }
    if i >= 1 {
        let ext = copy_range(&cs, i + 1, n);
        Some(chars_to_string(&ext))
    } else {
        None
    }
}

impl ScanCriteria {
    /// A session with no criteria at all; it matches nothing.
    pub fn new() -> (r: ScanCriteria)
        ensures
            r@.files == Seq::<Seq<char>>::empty(),
            r@.folders == Seq::<Seq<char>>::empty(),
            r@.extensions == Seq::<Seq<char>>::empty(),
    {
        let r = ScanCriteria { files: Vec::new(), folders: Vec::new(), extensions: Vec::new() };
        proof {
            assert(r@.files =~= Seq::<Seq<char>>::empty());
            assert(r@.folders =~= Seq::<Seq<char>>::empty());
            assert(r@.extensions =~= Seq::<Seq<char>>::empty());
        }
        r
    }

    /// Replaces the required file names.
    pub fn set_files(self, files: Vec<String>) -> (r: ScanCriteria)
        ensures
            r@ == (ScanCriteriaModel { files: names_model(files@), ..self@ }),
    {
        ScanCriteria { files, ..self }
    }

    /// Replaces the required folder names.
    pub fn set_folders(self, folders: Vec<String>) -> (r: ScanCriteria)
        ensures
            r@ == (ScanCriteriaModel { folders: names_model(folders@), ..self@ }),
    {
        ScanCriteria { folders, ..self }
    }

    /// Replaces the required file extensions.
    pub fn set_extensions(self, extensions: Vec<String>) -> (r: ScanCriteria)
        ensures
            r@ == (ScanCriteriaModel { extensions: names_model(extensions@), ..self@ }),
    {
        ScanCriteria { extensions, ..self }
    }

    /// Whether the listed directory matches these criteria.
    pub fn is_match(&self, listing: &Vec<DirEntry>) -> (b: bool)
        ensures
            b == spec_matches(self@, listing_model(listing@)),
    {
        let n = listing.len();
        let mut i: usize = 0;
        while i < n
            invariant
                n == listing@.len(),
                i <= n,
                forall|j: int| 0 <= j < i ==> !entry_matches(self@, listing_model(listing@)[j]),
            decreases n - i,
        {
            let e = &listing[i];
            let hit: bool;
            if e.is_dir {
                hit = contains_name(&self.folders, e.name.as_str());
            } else if contains_name(&self.files, e.name.as_str()) {
                hit = true;
            } else {
                match extension_of(e.name.as_str()) {
                    Some(x) => {
                        hit = contains_name(&self.extensions, x.as_str());
                    },
                    None => {
                        hit = false;
                    },
                }
            }
            if hit {
                proof {
                    assert(entry_matches(self@, listing_model(listing@)[i as int]));
                }
                return true;
            }
            i = i + 1;
        }
        false
    }
}

/// The per-render listing cache: what each directory's immediate entries
/// were, keyed by directory path, with the first recording of a directory
/// kept for the rest of the render.
pub struct ListingCache {
    entries: Vec<(String, Vec<DirEntry>)>,
}

/// The map a run of cache entries denotes; an earlier entry for a directory
/// shadows any later one.
pub open spec fn cache_model(es: Seq<(String, Vec<DirEntry>)>) -> Map<Seq<char>, Seq<DirEntryModel>>
    decreases es.len(),
{
    if es.len() == 0 {
        Map::empty()
    } else {
        cache_model(es.subrange(1, es.len() as int)).insert(es[0].0@, listing_model(es[0].1@))
    }
}

/// A cached directory is exactly one some entry names.
proof fn lemma_cache_model_domain(es: Seq<(String, Vec<DirEntry>)>, d: Seq<char>)
    ensures
        cache_model(es).contains_key(d) <==> exists|i: int| 0 <= i < es.len() && es[i].0@ == d,
    decreases es.len(),
{
    if es.len() > 0 {
        lemma_cache_model_domain(es.subrange(1, es.len() as int), d);
        if es[0].0@ != d {
            if cache_model(es).contains_key(d) {
                let i = choose|i: int|
                    0 <= i < es.subrange(1, es.len() as int).len() && es.subrange(
                        1,
                        es.len() as int,
                    )[i].0@ == d;
                assert(es[i + 1].0@ == d);
            }
            if exists|i: int| 0 <= i < es.len() && es[i].0@ == d {
                let i = choose|i: int| 0 <= i < es.len() && es[i].0@ == d;
                assert(es.subrange(1, es.len() as int)[i - 1].0@ == d);
            }
        }
    }
}

/// Appending an entry for a fresh directory adds exactly that mapping.
proof fn lemma_cache_model_push(es: Seq<(String, Vec<DirEntry>)>, x: (String, Vec<DirEntry>))
    requires
        forall|i: int| 0 <= i < es.len() ==> es[i].0@ != x.0@,
    ensures
        cache_model(es.push(x)) == cache_model(es).insert(x.0@, listing_model(x.1@)),
    decreases es.len(),
{
    if es.len() == 0 {
        assert(es.push(x).subrange(1, 1) =~= Seq::<(String, Vec<DirEntry>)>::empty());
        assert(es.push(x)[0] == x);
        assert(cache_model(es.push(x)) == cache_model(es.push(x).subrange(1, 1)).insert(
            x.0@,
            listing_model(x.1@),
        ));
        assert(cache_model(es.push(x)) =~= cache_model(es).insert(x.0@, listing_model(x.1@)));
    } else {
        let tail = es.subrange(1, es.len() as int);
        assert(es.push(x).subrange(1, es.push(x).len() as int) =~= tail.push(x));
        assert(forall|i: int| 0 <= i < tail.len() ==> tail[i] == es[i + 1]);
        lemma_cache_model_push(tail, x);
        assert(es.push(x)[0] == es[0]);
        assert(cache_model(es.push(x)) == cache_model(tail).insert(x.0@, listing_model(x.1@)).insert(
            es[0].0@,
            listing_model(es[0].1@),
        ));
        assert(es[0].0@ != x.0@);
        assert(cache_model(es.push(x)) =~= cache_model(es).insert(x.0@, listing_model(x.1@)));
    }
}

impl View for ListingCache {
    type V = Map<Seq<char>, Seq<DirEntryModel>>;

    closed spec fn view(&self) -> Map<Seq<char>, Seq<DirEntryModel>> {
        cache_model(self.entries@)
    }
}

impl ListingCache {
    /// An empty cache, as each prompt render starts with.
    pub fn new() -> (r: ListingCache)
        ensures
            r@ == Map::<Seq<char>, Seq<DirEntryModel>>::empty(),
    {
        ListingCache { entries: Vec::new() }
    }

    /// The cached listing of a directory, if one was recorded.
    pub fn get(&self, dir: &str) -> (r: Option<&Vec<DirEntry>>)
        ensures
            match r {
                Some(l) => self@.contains_key(dir@) && listing_model(l@) == self@[dir@],
                None => !self@.contains_key(dir@),
            },
    {
        let n = self.entries.len();
        proof {
            assert(self.entries@.subrange(0, n as int) =~= self.entries@);
        }
        let mut i: usize = 0;
        while i < n
            invariant
                n == self.entries@.len(),
                i <= n,
                cache_model(self.entries@).contains_key(dir@) == cache_model(
                    self.entries@.subrange(i as int, n as int),
                ).contains_key(dir@),
                cache_model(self.entries@).contains_key(dir@) ==> cache_model(self.entries@)[dir@]
                    == cache_model(self.entries@.subrange(i as int, n as int))[dir@],
            decreases n - i,
        {
            proof {
                assert(self.entries@.subrange(i as int, n as int).subrange(
                    1,
                    (n - i) as int,
                ) =~= self.entries@.subrange(i as int + 1, n as int));
            }
            if str_eq(self.entries[i].0.as_str(), dir) {
                proof {
                    assert(self.entries@.subrange(i as int, n as int)[0] == self.entries@[i as int]);
                }
                return Some(&self.entries[i].1);
            }
            i = i + 1;
        }
        proof {
            assert(self.entries@.subrange(n as int, n as int)
                =~= Seq::<(String, Vec<DirEntry>)>::empty());
        }
        None
    }

    /// Records a directory's listing. The first recording wins: a directory
    /// already present is left exactly as it was, so a listing is stored at
    /// most once per directory and render.
    pub fn insert(&mut self, dir: String, listing: Vec<DirEntry>)
        ensures
            final(self)@ == if old(self)@.contains_key(dir@) {
                old(self)@
            } else {
                old(self)@.insert(dir@, listing_model(listing@))
            },
    {
        let n = self.entries.len();
        let mut i: usize = 0;
        while i < n
            invariant
                n == self.entries@.len(),
                i <= n,
                *self == *old(self),
                forall|j: int| 0 <= j < i ==> self.entries@[j].0@ != dir@,
            decreases n - i,
        {
            if str_eq(self.entries[i].0.as_str(), dir.as_str()) {
                proof {
                    lemma_cache_model_domain(self.entries@, dir@);
                }
                return ;
            }
            i = i + 1;
        }
        proof {
            lemma_cache_model_domain(self.entries@, dir@);
            lemma_cache_model_push(self.entries@, (dir, listing));
        }
        self.entries.push((dir, listing));
    }
}

/// Within one render, a second query of a cached directory sees exactly the
/// listing recorded for it, so nothing need be read again.
pub proof fn lemma_cache_hit(
    m: Map<Seq<char>, Seq<DirEntryModel>>,
    dir: Seq<char>,
    listing: Seq<DirEntryModel>,
)
    requires
        !m.contains_key(dir),
    ensures
        m.insert(dir, listing).contains_key(dir),
        m.insert(dir, listing)[dir] == listing,
{
}

/// Matching is a pure function of the criteria and the listing: two
/// `is_match` queries with equal criteria against equal listings return the
/// same boolean.
pub proof fn lemma_match_deterministic(
    c1: ScanCriteriaModel,
    c2: ScanCriteriaModel,
    l1: Seq<DirEntryModel>,
    l2: Seq<DirEntryModel>,
)
    requires
        c1 == c2,
        l1 == l2,
    ensures
        spec_matches(c1, l1) == spec_matches(c2, l2),
{
}

} // verus!
