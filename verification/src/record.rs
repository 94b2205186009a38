//! A ready-made visitor that records, in observation order, the name of
//! every path occurrence and of every re-export the engine reports.

use vstd::prelude::*;

verus! {

use crate::events::Event;
use crate::ir::{Path, Use};
use crate::visit::Visitor;

/// The names of the path occurrences among `es`, in order.
pub open spec fn path_names(es: Seq<Event>) -> Seq<Seq<char>>
    decreases es.len(),
{
    if es.len() == 0 {
        Seq::empty()
    } else {
        path_names(es.drop_last()) + (match es.last() {
            Event::Path(path) => seq![path.path@],
            Event::Reexport(use_) => Seq::empty(),
        })
    }
}

/// The names under which the re-exports among `es` bring items in, in
/// order.
pub open spec fn reexport_names(es: Seq<Event>) -> Seq<Seq<char>>
    decreases es.len(),
{
    if es.len() == 0 {
        Seq::empty()
    } else {
        reexport_names(es.drop_last()) + (match es.last() {
            Event::Path(path) => Seq::empty(),
            Event::Reexport(use_) => seq![use_.name@],
        })
    }
}

/// A visitor that accumulates the name of every observed path and the
/// name of every observed re-export. Its invariant ties the two name
/// lists to the full event record, so a caller of the engine knows the
/// lists hold exactly the names of the events the walk produced, in
/// order.
pub struct PathRecorder {
    /// The names of the observed path occurrences, in order.
    pub paths: Vec<String>,
    /// The names of the observed re-exports, in order.
    pub reexports: Vec<String>,
    /// The full record of observed events.
    pub log: Ghost<Seq<Event>>,
}

impl PathRecorder {
    /// A recorder that has observed nothing yet.
    pub fn new() -> (r: PathRecorder)
        ensures
            r.inv(),
            r.events() == Seq::<Event>::empty(),
            r.paths@.len() == 0,
            r.reexports@.len() == 0,
    {
        let r = PathRecorder { paths: Vec::new(), reexports: Vec::new(), log: Ghost(Seq::empty()) };
        proof {
            assert(r.paths@.map_values(|s: String| s@) =~= path_names(r.log@));
            assert(r.reexports@.map_values(|s: String| s@) =~= reexport_names(r.log@));
        }
        r
    }
}

impl Visitor for PathRecorder {
    /// The recorded names are exactly the names of the logged events.
    open spec fn inv(&self) -> bool {
        &&& self.paths@.map_values(|s: String| s@) == path_names(self.log@)
        &&& self.reexports@.map_values(|s: String| s@) == reexport_names(self.log@)
    }

    open spec fn events(&self) -> Seq<Event> {
        self.log@
    }

    fn visit_path(&mut self, path: &Path) {
        self.paths.push(path.path.clone());
        self.log = Ghost(self.log@.push(Event::Path(*path)));
        proof {
            assert(self.log@.drop_last() =~= old(self).log@);
            assert(self.paths@.map_values(|s: String| s@) =~= path_names(self.log@));
            assert(self.reexports@.map_values(|s: String| s@) =~= reexport_names(self.log@));
        }
    }

    fn visit_use(&mut self, use_: &Use) {
        self.reexports.push(use_.name.clone());
        self.log = Ghost(self.log@.push(Event::Reexport(*use_)));
        proof {
            assert(self.log@.drop_last() =~= old(self).log@);
            assert(self.paths@.map_values(|s: String| s@) =~= path_names(self.log@));
            assert(self.reexports@.map_values(|s: String| s@) =~= reexport_names(self.log@));
        }
    }
}


} // verus!
