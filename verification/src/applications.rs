//! Installed-application deltas.
//!
//! OS integration enumerates installed applications and settings panes on
//! a worker and reports them as structured add/remove deltas against the
//! caller's view of the list — never as raw OS handles.  The enumeration
//! itself is the embedding shell's job; applying a delta to the list is
//! verified here.

use vstd::prelude::*;

verus! {

/// One installed application as the enumeration reports it.
pub struct DesktopApplication {
    pub name: String,
    pub icon: Option<Vec<u8>>,
}

/// One settings pane of an OS that addresses panes by path.
pub struct DesktopSettingsPre13Data {
    pub name: String,
    pub path: String,
    pub icon: Option<Vec<u8>>,
}

/// One settings pane of an OS that addresses panes by preferences
/// identifier.
pub struct DesktopSettings13AndPostData {
    pub name: String,
    pub preferences_id: String,
    pub icon: Option<Vec<u8>>,
}

/// One delta against the caller's view of the installed applications.
pub enum DesktopPathAction {
    /// The application `id` appeared or changed.
    Add { id: String, data: DesktopApplication },
    /// The application `id` disappeared.
    Remove { id: String },
}

/// One entry of the caller's view of the installed applications.
pub struct DesktopEntry {
    pub id: String,
    pub data: DesktopApplication,
}

/// The position of the entry with identifier `id`, searched from the
/// front.
pub open spec fn entry_index(list: Seq<DesktopEntry>, id: Seq<char>) -> Option<int>
    decreases list.len(),
{
    if list.len() == 0 {
        None
    } else if list[0].id@ == id {
        Some(0int)
    } else {
        match entry_index(list.drop_first(), id) {
            Some(i) => Some(i + 1),
            None => None,
        }
    }
}

/// The list after one delta: an addition replaces the entry with that
/// identifier in place, or appends when none exists; a removal deletes
/// the entry with that identifier and keeps the order of the rest, and is
/// a no-op when none exists.
pub open spec fn applied(list: Seq<DesktopEntry>, action: DesktopPathAction) -> Seq<DesktopEntry> {
    match action {
        DesktopPathAction::Add { id, data } => match entry_index(list, id@) {
            Some(i) => list.update(i, DesktopEntry { id, data }),
            None => list.push(DesktopEntry { id, data }),
        },
        DesktopPathAction::Remove { id } => match entry_index(list, id@) {
            Some(i) => list.remove(i),
            None => list,
        },
    }
}

/// A found position is a valid index and carries the identifier searched
/// for.
pub proof fn lemma_entry_index_bounds(list: Seq<DesktopEntry>, id: Seq<char>)
    ensures
        match entry_index(list, id) {
            Some(i) => 0 <= i < list.len() && list[i].id@ == id,
            None => true,
        },
    decreases list.len(),
{
    if list.len() > 0 && list[0].id@ != id {
        lemma_entry_index_bounds(list.drop_first(), id);
    }
}

/// The position of the entry with identifier `id`, as [`entry_index`]
/// gives it.
fn find_entry(list: &Vec<DesktopEntry>, id: &String) -> (r: Option<usize>)
    ensures
        match entry_index(list@, id@) {
            Some(i) => r == Some(i as usize),
            None => r is None,
        },
{
    let n = list.len();
    let mut i: usize = 0;
    proof {
        assert(list@.skip(0) =~= list@);
    }
    while i < n
        invariant
            n == list@.len(),
            i <= n,
            match entry_index(list@.skip(i as int), id@) {
                Some(k) => entry_index(list@, id@) == Some(k + i),
                None => entry_index(list@, id@) is None,
            },
        decreases n - i,
    {
        proof {
            assert(list@.skip(i as int)[0] == list@[i as int]);
            assert(list@.skip(i as int).drop_first() =~= list@.skip(i + 1));
        }
        if list[i].id.eq(id) {
            return Some(i);
        }
        i = i + 1;
    }
    proof {
        assert(list@.skip(n as int) =~= Seq::<DesktopEntry>::empty());
    }
    None
}

/// Apply one reported delta to the caller's view of the installed
/// applications.
pub fn apply_path_action(list: &mut Vec<DesktopEntry>, action: DesktopPathAction)
    ensures
        final(list)@ == applied(old(list)@, action),
{
    match action {
        DesktopPathAction::Add { id, data } => {
            proof {
                lemma_entry_index_bounds(list@, id@);
            }
            match find_entry(list, &id) {
                Some(i) => {
                    list.set(i, DesktopEntry { id, data });
                    proof {
                        assert(list@ =~= applied(old(list)@, action));
                    }
                },
                None => {
                    list.push(DesktopEntry { id, data });
                    proof {
                        assert(list@ =~= applied(old(list)@, action));
                    }
                },
            }
        },
        DesktopPathAction::Remove { id } => {
            proof {
                lemma_entry_index_bounds(list@, id@);
            }
            match find_entry(list, &id) {
                Some(i) => {
                    let _ = list.remove(i);
                    proof {
                        assert(list@ =~= applied(old(list)@, action));
                    }
                },
                None => {
                    proof {
                        assert(list@ =~= applied(old(list)@, action));
                    }
                },
            }
        },
    }
}

} // verus!
