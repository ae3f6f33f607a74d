//! A house: a list of rooms, with reports over all rooms and devices.

use vstd::prelude::*;
use vstd::string::*;
use crate::room::{devices_report, swap_removed, Room};

verus! {

/// A house holding rooms.
#[derive(Debug)]
pub struct House {
    pub rooms: Vec<Room>,
}

/// First index at or after `i` whose room carries `name`, or `rooms.len()`
/// if there is none.
pub open spec fn find_room(rooms: Seq<Room>, name: Seq<char>, i: int) -> int
    decreases rooms.len() - i when 0 <= i <= rooms.len()
{
    if i < 0 || i >= rooms.len() {
        rooms.len() as int
    } else if rooms[i].name@ == name {
        i
    } else {
        find_room(rooms, name, i + 1)
    }
}

/// One line per room: its name followed by a newline.
pub open spec fn rooms_report_spec(rooms: Seq<Room>) -> Seq<char>
    decreases rooms.len(),
{
    if rooms.len() == 0 {
        Seq::empty()
    } else {
        rooms_report_spec(rooms.drop_last()) + rooms.last().name@ + seq!['\n']
    }
}

/// The full report: for each room, its name, a colon and a newline, the
/// room's own device report, then a blank line.
pub open spec fn house_report_spec(rooms: Seq<Room>) -> Seq<char>
    decreases rooms.len(),
{
    if rooms.len() == 0 {
        Seq::empty()
    } else {
        house_report_spec(rooms.drop_last()) + rooms.last().name@ + seq![':', '\n']
            + devices_report(rooms.last().devices@) + seq!['\n']
    }
}

proof fn lemma_find_room_value(rooms: Seq<Room>, name: Seq<char>, i: int, pos: int)
    requires
        0 <= i <= pos <= rooms.len(),
        forall|k: int| i <= k < pos ==> rooms[k].name@ != name,
        pos == rooms.len() || rooms[pos].name@ == name,
    ensures
        find_room(rooms, name, i) == pos,
    decreases pos - i,
{
    if i < pos {
        lemma_find_room_value(rooms, name, i + 1, pos);
    }
}

impl House {
    /// An empty house.
    pub fn new() -> (h: House)
        ensures
            h.rooms@ == Seq::<Room>::empty(),
    {
        let rooms: Vec<Room> = Vec::new();
        proof {
            assert(rooms@ =~= Seq::<Room>::empty());
        }
        House { rooms }
    }

    /// Adds one more room at the end of the list.
    pub fn add_room(&mut self, room: Room)
        ensures
            final(self).rooms@ == old(self).rooms@.push(room),
    {
        self.rooms.push(room);
    }

    /// Removes the first room carrying `name`, swapping the last room into
    /// its place; errs if no room matches.
    pub fn remove_room(&mut self, name: String) -> (r: Result<(), &'static str>)
        ensures
            ({
                let pos = find_room(old(self).rooms@, name@, 0);
                if pos < old(self).rooms@.len() {
                    &&& r is Ok
                    &&& final(self).rooms@ == swap_removed(old(self).rooms@, pos)
                } else {
                    &&& r matches Err(e) && e@ == "Room to remove not found"@
                    &&& *final(self) == *old(self)
                }
            }),
    {
        let n = self.rooms.len();
        let mut i: usize = 0;
        while i < n
            invariant
                *self == *old(self),
                n == self.rooms@.len(),
                i <= n,
                forall|k: int| 0 <= k < i ==> self.rooms@[k].name@ != name@,
            decreases n - i,
        {
            let room_name = self.rooms[i].name();
            if crate::text::str_eq(room_name.as_str(), name.as_str()) {
                proof {
                    lemma_find_room_value(self.rooms@, name@, 0, i as int);
                }
                let _removed = self.rooms.swap_remove(i);
                return Ok(());
            }
            i += 1;
        }
        proof {
            lemma_find_room_value(self.rooms@, name@, 0, n as int);
        }
        Err("Room to remove not found")
    }

    /// For each room: its name, a colon, the room's device report, and a
    /// blank line.
    pub fn make_report(&self) -> (report: String)
        ensures
            report@ == house_report_spec(self.rooms@),
    {
        let mut report = String::new();
        let n = self.rooms.len();
        let mut i: usize = 0;
        while i < n
            invariant
                n == self.rooms@.len(),
                i <= n,
                report@ == house_report_spec(self.rooms@.take(i as int)),
            decreases n - i,
        {
            let room_name = self.rooms[i].name();
            report.append(room_name.as_str());
            report.append(":\n");
            let inner = self.rooms[i].make_report();
            report.append(inner.as_str());
            report.append("\n");
            proof {
                reveal_strlit(":\n");
                reveal_strlit("\n");
                let rooms = self.rooms@;
                assert(rooms.take(i as int + 1).drop_last() =~= rooms.take(i as int));
                assert(rooms.take(i as int + 1).last() == rooms[i as int]);
                assert(":\n"@ =~= seq![':', '\n']);
                assert("\n"@ =~= seq!['\n']);
                assert(report@ =~= house_report_spec(rooms.take(i as int + 1)));
            }
            i += 1;
        }
        proof {
            assert(self.rooms@.take(n as int) =~= self.rooms@);
        }
        report
    }

    /// One line per room: its name followed by a newline.
    pub fn rooms_report(&self) -> (report: String)
        ensures
            report@ == rooms_report_spec(self.rooms@),
    {
        let mut report = String::new();
        let n = self.rooms.len();
        let mut i: usize = 0;
        while i < n
            invariant
                n == self.rooms@.len(),
                i <= n,
                report@ == rooms_report_spec(self.rooms@.take(i as int)),
            decreases n - i,
        {
            let room_name = self.rooms[i].name();
            report.append(room_name.as_str());
            report.append("\n");
            proof {
                reveal_strlit("\n");
                let rooms = self.rooms@;
                assert(rooms.take(i as int + 1).drop_last() =~= rooms.take(i as int));
                assert(rooms.take(i as int + 1).last() == rooms[i as int]);
                assert(report@ =~= rooms_report_spec(rooms.take(i as int + 1)));
            }
            i += 1;
        }
        proof {
            assert(self.rooms@.take(n as int) =~= self.rooms@);
        }
        report
    }
}

impl Default for House {
    fn default() -> (h: House)
        ensures
            h.rooms@ == Seq::<Room>::empty(),
    {
        House::new()
    }
}

} // verus!
