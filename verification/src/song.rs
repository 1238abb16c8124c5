//! One song as a value: name, author, tags, and a filepath placeholder.

use vstd::prelude::*;

verus! {

/// Mathematical value of one song: every field as a sequence.
#[verifier::ext_equal]
pub ghost struct SongEntrySpec {
    pub name: Seq<char>,
    pub author: Seq<char>,
    pub tags: Seq<Seq<char>>,
    pub filepath: Seq<char>,
}

/// One song. The value is immutable once constructed: the catalog and the
/// selection only ever hold, copy and drop whole entries.
///
/// `name` doubles as the display identity of a catalog row; `tags` is
/// display-only and keeps its stored order; `filepath` may be empty and is
/// a placeholder for future loading.
pub struct SongEntry {
    pub name: String,
    pub author: String,
    pub tags: Vec<String>,
    pub filepath: String,
}

impl View for SongEntry {
    type V = SongEntrySpec;

    open spec fn view(&self) -> SongEntrySpec {
        SongEntrySpec {
            name: self.name@,
            author: self.author@,
            tags: self.tags@.map_values(|t: String| t@),
            filepath: self.filepath@,
        }
    }
}

/// Copies a list of tag strings, keeping order and contents.
fn clone_tags(tags: &Vec<String>) -> (res: Vec<String>)
    ensures
        res@ == tags@,
{
    let mut res: Vec<String> = Vec::new();
    let mut i: usize = 0;
    while i < tags.len()
        invariant
            i <= tags@.len(),
            res@ == tags@.subrange(0, i as int),
        decreases tags@.len() - i,
    {
        res.push(tags[i].clone());
        assert(res@ =~= tags@.subrange(0, i + 1 as int));
        i = i + 1;
    }
    assert(res@ =~= tags@);
    res
}

impl Clone for SongEntry {
    /// A copy of the entry: every field carries over unchanged.
    fn clone(&self) -> (res: Self)
        ensures
            res@ == self@,
    {
        let res = SongEntry {
            name: self.name.clone(),
            author: self.author.clone(),
            tags: clone_tags(&self.tags),
            filepath: self.filepath.clone(),
        };
        assert(res@ =~= self@);
        res
    }
}

} // verus!
