//! Artifact placement, modeled as a store of placed files: the library
//! decides what placement means — copying a built artifact to its
//! canonical destination overwrites whatever was there, so placement is
//! last-write-wins and placing the same artifact twice is the same as
//! placing it once. The store's view is the map from destination path
//! to content that the destination directory tree would show.

use vstd::prelude::*;
use vstd::string::StringExecFns;

verus! {

/// One placed artifact: its destination path and its content.
pub struct PlacedFile {
    pub path: String,
    pub content: Vec<u8>,
}

/// The placements a run has made, in order. Later placements at the
/// same destination shadow earlier ones, as a file copy does.
pub struct FileStore {
    log: Vec<PlacedFile>,
}

/// The file tree a sequence of placements leaves behind: each placement
/// in turn overwrites its destination.
pub closed spec fn store_map(s: Seq<PlacedFile>) -> Map<Seq<char>, Seq<u8>>
    decreases s.len(),
{
    if s.len() == 0 {
        Map::empty()
    } else {
        store_map(s.drop_last()).insert(s.last().path@, s.last().content@)
    }
}

impl View for FileStore {
    type V = Map<Seq<char>, Seq<u8>>;

    closed spec fn view(&self) -> Map<Seq<char>, Seq<u8>> {
        store_map(self.log@)
    }
}

proof fn lemma_store_map_last_match(s: Seq<PlacedFile>, k: int, p: Seq<char>)
    requires
        0 <= k < s.len(),
        s[k].path@ == p,
        forall|j: int| k < j < s.len() ==> s[j].path@ != p,
    ensures
        store_map(s).contains_key(p),
        store_map(s)[p] == s[k].content@,
    decreases s.len(),
{
    if k < s.len() - 1 {
        lemma_store_map_last_match(s.drop_last(), k, p);
    }
}

proof fn lemma_store_map_no_match(s: Seq<PlacedFile>, p: Seq<char>)
    requires
        forall|j: int| 0 <= j < s.len() ==> s[j].path@ != p,
    ensures
        !store_map(s).contains_key(p),
    decreases s.len(),
{
    if s.len() > 0 {
        lemma_store_map_no_match(s.drop_last(), p);
    }
}

impl FileStore {
    /// An empty destination tree.
    pub fn new() -> (r: FileStore)
        ensures
            r@ == Map::<Seq<char>, Seq<u8>>::empty(),
    {
        FileStore { log: Vec::new() }
    }

    /// Places `content` at `path`, overwriting any earlier placement
    /// there: the tree afterwards is the tree before with exactly this
    /// one binding updated.
    pub fn place(&mut self, path: String, content: Vec<u8>)
        ensures
            final(self)@ == old(self)@.insert(path@, content@),
    {
        let ghost before = self.log@;
        self.log.push(PlacedFile { path, content });
        proof {
            assert(self.log@.drop_last() =~= before);
        }
    }

    /// The content placed at `path`, from the latest placement there;
    /// `None` where nothing was placed.
    pub fn lookup(&self, path: &str) -> (r: Option<&Vec<u8>>)
        ensures
            match r {
                Some(c) => self@.contains_key(path@) && self@[path@] == c@,
                None => !self@.contains_key(path@),
            },
    {
        let p = String::from_str(path);
        let n = self.log.len();
        let mut k = n;
        while k > 0
            invariant
                k <= n,
                n == self.log@.len(),
                p@ == path@,
                forall|j: int| k <= j < n ==> self.log@[j].path@ != path@,
            decreases k,
        {
            if self.log[k - 1].path.eq(&p) {
                proof {
                    lemma_store_map_last_match(self.log@, k - 1, path@);
                }
                return Some(&self.log[k - 1].content);
            }
            k -= 1;
        }
        proof {
            lemma_store_map_no_match(self.log@, path@);
        }
        None
    }
}

/// Placement is idempotent: placing the same artifact at the same
/// destination twice leaves exactly the tree that placing it once does.
pub proof fn lemma_place_idempotent(m: Map<Seq<char>, Seq<u8>>, p: Seq<char>, c: Seq<u8>)
    ensures
        m.insert(p, c).insert(p, c) == m.insert(p, c),
{
    assert(m.insert(p, c).insert(p, c) =~= m.insert(p, c));
}

/// Placement is last-write-wins: after two placements at one
/// destination the tree holds one file there, with the later content,
/// and is the tree the later placement alone would have made.
pub proof fn lemma_place_last_write_wins(
    m: Map<Seq<char>, Seq<u8>>,
    p: Seq<char>,
    c1: Seq<u8>,
    c2: Seq<u8>,
)
    ensures
        m.insert(p, c1).insert(p, c2) == m.insert(p, c2),
        m.insert(p, c2)[p] == c2,
        m.insert(p, c1).insert(p, c2).dom() == m.insert(p, c2).dom(),
{
    assert(m.insert(p, c1).insert(p, c2) =~= m.insert(p, c2));
}

} // verus!
