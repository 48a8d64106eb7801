//! The store of command snippets.
//!
//! The snippets are kept in one file. Reading and writing that file is the
//! caller's; what the list holds after a change is decided here.

use std::path::PathBuf;
use vstd::prelude::*;

verus! {

/// The standard library's owned file path.
#[verifier::external_type_specification]
#[verifier::external_body]
pub struct ExPathBuf(std::path::PathBuf);

/// A command that the user keeps for later, for one connection or for all.
#[derive(Debug, Clone)]
pub struct Snippet {
    pub id: String,
    pub name: String,
    pub command: String,
    pub category: Option<String>,
    pub tags: Option<Vec<String>>,
    pub connection_id: Option<String>,
}

/// What the snippets file holds.
#[derive(Debug, Clone)]
pub struct SnippetsData {
    pub snippets: Vec<Snippet>,
}

/// The index of the first snippet with the given id, or the length of the list.
pub open spec fn position_of(snippets: Seq<Snippet>, id: Seq<char>) -> int
    decreases snippets.len(),
{
    if snippets.len() == 0 || snippets[0].id@ == id {
        0
    } else {
        1 + position_of(snippets.skip(1), id)
    }
}

/// The list after `snippet` is saved: it takes the place of the first snippet
/// with its id, or goes to the end if there is none.
pub open spec fn saved(snippets: Seq<Snippet>, snippet: Snippet) -> Seq<Snippet> {
    let at = position_of(snippets, snippet.id@);
    if 0 <= at < snippets.len() {
        snippets.update(at, snippet)
    } else {
        snippets.push(snippet)
    }
}

/// The list without the snippets that have the given id.
pub open spec fn deleted(snippets: Seq<Snippet>, id: Seq<char>) -> Seq<Snippet> {
    snippets.filter(|s: Snippet| s.id@ != id)
}

proof fn lemma_position_of(snippets: Seq<Snippet>, id: Seq<char>, n: int)
    requires
        0 <= n <= snippets.len(),
        forall|j: int| 0 <= j < n ==> (#[trigger] snippets[j]).id@ != id,
        n < snippets.len() ==> snippets[n].id@ == id,
    ensures
        position_of(snippets, id) == n,
    decreases snippets.len(),
{
    if snippets.len() > 0 && snippets[0].id@ != id {
        assert forall|j: int| 0 <= j < n - 1 implies (#[trigger] snippets.skip(1)[j]).id@ != id by {
            assert(snippets.skip(1)[j] == snippets[j + 1]);
        }
        lemma_position_of(snippets.skip(1), id, n - 1);
    }
}

/// The keeper of the snippets file.
pub struct SnippetsManager {
    app_data_dir: PathBuf,
    file_name: String,
}

impl SnippetsManager {
    /// The directory that the file is in.
    pub closed spec fn directory(&self) -> PathBuf {
        self.app_data_dir
    }

    /// The name of the file in its directory.
    pub closed spec fn name(&self) -> Seq<char> {
        self.file_name@
    }

    /// The keeper of the file `snippets.json` in the directory `app_data_dir`.
    pub fn new(app_data_dir: PathBuf) -> (manager: SnippetsManager)
        ensures
            manager.directory() == app_data_dir,
            manager.name() == "snippets.json"@,
    {
        SnippetsManager { app_data_dir, file_name: "snippets.json".to_string() }
    }

    /// The directory that the file is in.
    pub fn app_data_dir(&self) -> (dir: &PathBuf)
        ensures
            *dir == self.directory(),
    {
        &self.app_data_dir
    }

    /// The name of the file in its directory.
    pub fn file_name(&self) -> (name: &String)
        ensures
            name@ == self.name(),
    {
        &self.file_name
    }

    /// The snippets, given what the file holds: those in it, or none where
    /// there is no file.
    pub fn list(&self, stored: Option<SnippetsData>) -> (snippets: Vec<Snippet>)
        ensures
            snippets@ == match stored {
                Some(data) => data.snippets@,
                None => Seq::<Snippet>::empty(),
            },
    {
        match stored {
            Some(data) => data.snippets,
            None => Vec::new(),
        }
    }

    /// What the file is to hold after `snippet` is saved into `snippets`.
    pub fn save(&self, snippets: Vec<Snippet>, snippet: Snippet) -> (data: SnippetsData)
        ensures
            data.snippets@ == saved(snippets@, snippet),
    {
        let mut snippets = snippets;
        let ghost before = snippets@;
        let mut i: usize = 0;
        while i < snippets.len() && snippets[i].id != snippet.id
            invariant
                i <= snippets@.len(),
                snippets@ == before,
                forall|j: int| 0 <= j < i ==> (#[trigger] before[j]).id@ != snippet.id@,
            decreases snippets@.len() - i,
        {
            i += 1;
        }
        proof {
            lemma_position_of(before, snippet.id@, i as int);
        }
        if i < snippets.len() {
            snippets.set(i, snippet);
        } else {
            snippets.push(snippet);
        }
        SnippetsData { snippets }
    }

    /// What the file is to hold after the snippets with the id `id` are deleted
    /// from `snippets`.
    pub fn delete(&self, snippets: Vec<Snippet>, id: &str) -> (data: SnippetsData)
        ensures
            data.snippets@ == deleted(snippets@, id@),
    {
        let mut snippets = snippets;
        let id = id.to_string();
        let ghost before = snippets@;
        let ghost keep = |s: Snippet| s.id@ != id@;
        let ghost mut seen: int = 0;
        let mut i: usize = 0;
        proof {
            reveal(Seq::filter);
            assert(before.skip(0) == before);
        }
        while i < snippets.len()
            invariant
                0 <= seen <= before.len(),
                keep == |s: Snippet| s.id@ != id@,
                i == before.take(seen).filter(keep).len(),
                snippets@ == before.take(seen).filter(keep) + before.skip(seen),
            decreases snippets@.len() - i,
        {
            proof {
                reveal(Seq::filter);
                assert(before.take(seen + 1).drop_last() == before.take(seen));
                assert(snippets@[i as int] == before[seen]);
            }
            if snippets[i].id == id {
                snippets.remove(i);
            } else {
                i += 1;
            }
            proof {
                seen = seen + 1;
            }
        }
        assert(before.take(seen) == before);
        SnippetsData { snippets }
    }
}

} // verus!
