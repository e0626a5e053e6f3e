//! The library registry: id-to-root-path resolution and the bookkeeping
//! of registered libraries, as a plain service object the program
//! constructs at startup.

use vstd::prelude::*;

use crate::ident::new_uuid;
use crate::media::ErrorKind;
use crate::text::str_eq;
use vstd::pervasive::VecAdditionalExecFns;

verus! {

/// One registered library: an opaque id, display attributes, and the root
/// path its storage lives under.
#[derive(Debug, Clone, PartialEq)]
pub struct LibraryEntry {
    pub id: String,
    pub name: String,
    pub icon: char,
    pub color: String,
    pub path: String,
}

/// The registry of libraries, constructed once at startup and handed to
/// the ingestion pipeline; the surrounding program loads and persists it.
#[derive(Debug, PartialEq)]
pub struct Registry {
    pub entries: Vec<LibraryEntry>,
}

/// There is no entry under this id.
pub open spec fn no_entry(entries: Seq<LibraryEntry>, id: Seq<char>) -> bool {
    forall|i: int| 0 <= i < entries.len() ==> entries[i].id@ != id
}

/// `p` is the path of the first entry under this id.
pub open spec fn resolves_to(entries: Seq<LibraryEntry>, id: Seq<char>, p: Seq<char>) -> bool {
    exists|i: int|
        0 <= i < entries.len() && (#[trigger] entries[i]).id@ == id && p == entries[i].path@ && (
        forall|j: int| 0 <= j < i ==> entries[j].id@ != id)
}

/// How one entry relates to its old self after a path update: entries
/// under the id point at the new path with all else kept, others are
/// untouched.
pub open spec fn path_updated(
    e0: LibraryEntry,
    e1: LibraryEntry,
    id: Seq<char>,
    new_path: Seq<char>,
) -> bool {
    if e0.id@ == id {
        e1.id == e0.id && e1.name == e0.name && e1.icon == e0.icon && e1.color == e0.color
            && e1.path@ == new_path
    } else {
        e1 == e0
    }
}

/// Rebuilds an entry with a new path.
fn entry_with_path(entry: &LibraryEntry, new_path: &str) -> (r: LibraryEntry)
    ensures
        r.id == entry.id,
        r.name == entry.name,
        r.icon == entry.icon,
        r.color == entry.color,
        r.path@ == new_path@,
{
    LibraryEntry {
        id: entry.id.clone(),
        name: entry.name.clone(),
        icon: entry.icon,
        color: entry.color.clone(),
        path: crate::text::treat_msg(new_path),
    }
}

impl Registry {
    /// An empty registry: no library is known.
    pub fn new() -> (r: Registry)
        ensures
            r.entries@.len() == 0,
    {
        Registry { entries: Vec::new() }
    }

    /// The root path registered for a library id: the first entry under
    /// that id decides; an unknown id is the registry miss.
    pub fn resolve(&self, library_id: &str) -> (r: Result<String, ErrorKind>)
        ensures
            match r {
                Ok(p) => resolves_to(self.entries@, library_id@, p@),
                Err(k) => k == ErrorKind::LibraryNotFound && no_entry(self.entries@, library_id@),
            },
    {
        let n = self.entries.len();
        let mut i: usize = 0;
        while i < n
            invariant
                n == self.entries@.len(),
                i <= n,
                forall|j: int| 0 <= j < i ==> self.entries@[j].id@ != library_id@,
            decreases n - i,
        {
            if str_eq(self.entries[i].id.as_str(), library_id) {
                return Ok(self.entries[i].path.clone());
            }
            i = i + 1;
        }
        Err(ErrorKind::LibraryNotFound)
    }

    /// Registers a new library under a fresh id, appended after the
    /// existing entries, and hands the id back.
    pub fn create_library(&mut self, name: &str, icon: char, color: &str, path: &str) -> (r:
        String)
        ensures
            final(self).entries@.len() == old(self).entries@.len() + 1,
            final(self).entries@.subrange(0, old(self).entries@.len() as int) == old(
                self,
            ).entries@,
            final(self).entries@.last().id == r,
            r@.len() == 36,
            final(self).entries@.last().name@ == name@,
            final(self).entries@.last().icon == icon,
            final(self).entries@.last().color@ == color@,
            final(self).entries@.last().path@ == path@,
    {
        let id = new_uuid();
        let entry = LibraryEntry {
            id: id.clone(),
            name: crate::text::treat_msg(name),
            icon,
            color: crate::text::treat_msg(color),
            path: crate::text::treat_msg(path),
        };
        self.entries.push(entry);
        proof {
            assert(self.entries@.subrange(0, old(self).entries@.len() as int) =~= old(
                self,
            ).entries@);
        }
        id
    }

    /// Points every entry under the given id at a new path; entries under
    /// other ids, and every other field, stay untouched.
    pub fn update_library_path(&mut self, library_id: &str, new_path: &str)
        ensures
            final(self).entries@.len() == old(self).entries@.len(),
            forall|i: int|
                0 <= i < old(self).entries@.len() ==> path_updated(
                    old(self).entries@[i],
                    #[trigger] final(self).entries@[i],
                    library_id@,
                    new_path@,
                ),
    {
        let ghost base = self.entries@;
        let n = self.entries.len();
        let mut i: usize = 0;
        while i < n
            invariant
                n == base.len(),
                i <= n,
                self.entries@.len() == base.len(),
                forall|j: int| i <= j < n ==> self.entries@[j] == base[j],
                forall|j: int|
                    0 <= j < i ==> path_updated(
                        base[j],
                        #[trigger] self.entries@[j],
                        library_id@,
                        new_path@,
                    ),
            decreases n - i,
        {
            if str_eq(self.entries[i].id.as_str(), library_id) {
                let updated = entry_with_path(&self.entries[i], new_path);
                self.entries.set(i, updated);
            }
            i = i + 1;
        }
    }

    /// Drops every entry under the given id, keeping the others in order.
    pub fn remove_library(&mut self, library_id: &str)
        ensures
            final(self).entries@ == old(self).entries@.filter(
                |e: LibraryEntry| e.id@ != library_id@,
            ),
    {
        let ghost base = self.entries@;
        let n = self.entries.len();
        let mut kept: Vec<LibraryEntry> = Vec::new();
        let mut rest: Vec<LibraryEntry> = Vec::new();
        core::mem::swap(&mut rest, &mut self.entries);
        let mut i: usize = 0;
        while rest.len() > 0
            invariant
                n == base.len(),
                i + rest@.len() == base.len(),
                rest@ == base.subrange(i as int, base.len() as int),
                kept@ == base.subrange(0, i as int).filter(|e: LibraryEntry| e.id@ != library_id@),
            decreases rest@.len(),
        {
            let entry = rest.remove(0);
            proof {
                assert(base.subrange(i as int, base.len() as int)[0] == base[i as int]);
                assert(rest@ =~= base.subrange(i + 1, base.len() as int));
                assert(base.subrange(0, i + 1).drop_last() =~= base.subrange(0, i as int));
                reveal(Seq::filter);
            }
            if !str_eq(entry.id.as_str(), library_id) {
                kept.push(entry);
            }
            i = i + 1;
        }
        proof {
            assert(base.subrange(0, base.len() as int) =~= base);
        }
        self.entries = kept;
    }
}

} // verus!
