//! A room: a named list of registered devices.

use vstd::prelude::*;
use vstd::string::*;
use crate::device::{device_description, Device};
use crate::errors::ErrorSm;
use crate::traits::Described;

verus! {

/// A named room holding devices.
#[derive(Debug)]
pub struct Room {
    pub name: String,
    pub devices: Vec<Device>,
}

/// First index at or after `i` whose device is described by `name`, or
/// `devs.len()` if there is none.
pub open spec fn find_device(devs: Seq<Device>, name: Seq<char>, i: int) -> int
    decreases devs.len() - i when 0 <= i <= devs.len()
{
    if i < 0 || i >= devs.len() {
        devs.len() as int
    } else if device_description(devs[i]) == name {
        i
    } else {
        find_device(devs, name, i + 1)
    }
}

/// The list after removing index `i` by swapping the last element into its
/// place.
pub open spec fn swap_removed<T>(s: Seq<T>, i: int) -> Seq<T> {
    s.update(i, s.last()).drop_last()
}

/// The report of a device list: each description followed by a newline.
pub open spec fn devices_report(devs: Seq<Device>) -> Seq<char>
    decreases devs.len(),
{
    if devs.len() == 0 {
        Seq::empty()
    } else {
        devices_report(devs.drop_last()) + device_description(devs.last()) + seq!['\n']
    }
}

proof fn lemma_find_device_value(devs: Seq<Device>, name: Seq<char>, i: int, pos: int)
    requires
        0 <= i <= pos <= devs.len(),
        forall|k: int| i <= k < pos ==> device_description(devs[k]) != name,
        pos == devs.len() || device_description(devs[pos]) == name,
    ensures
        find_device(devs, name, i) == pos,
    decreases pos - i,
{
    if i < pos {
        lemma_find_device_value(devs, name, i + 1, pos);
    }
}

impl Room {
    /// An empty room with the given name.
    pub fn new(name: String) -> (r: Room)
        ensures
            r.name == name,
            r.devices@ == Seq::<Device>::empty(),
    {
        let devices: Vec<Device> = Vec::new();
        proof {
            assert(devices@ =~= Seq::<Device>::empty());
        }
        Room { name, devices }
    }

    /// The room's name.
    pub fn name(&self) -> (n: String)
        ensures
            n == self.name,
    {
        self.name.clone()
    }

    /// Registers one more device at the end of the list.
    pub fn add_device(&mut self, dev: Device)
        ensures
            final(self).name == old(self).name,
            final(self).devices@ == old(self).devices@.push(dev),
    {
        self.devices.push(dev);
    }

    /// Removes the first device described by `name`, swapping the last
    /// device into its place; errs if no device matches.
    pub fn remove_device(&mut self, name: String) -> (r: Result<(), ErrorSm>)
        ensures
            ({
                let pos = find_device(old(self).devices@, name@, 0);
                if pos < old(self).devices@.len() {
                    &&& r is Ok
                    &&& final(self).name == old(self).name
                    &&& final(self).devices@ == swap_removed(old(self).devices@, pos)
                } else {
                    &&& r matches Err(e) && e.msg@ == "Device to remove not found"@
                    &&& *final(self) == *old(self)
                }
            }),
    {
        let n = self.devices.len();
        let mut i: usize = 0;
        while i < n
            invariant
                *self == *old(self),
                n == self.devices@.len(),
                i <= n,
                forall|k: int| 0 <= k < i ==> device_description(self.devices@[k]) != name@,
            decreases n - i,
        {
            let desc = self.devices[i].description();
            if crate::text::str_eq(desc.as_str(), name.as_str()) {
                proof {
                    lemma_find_device_value(self.devices@, name@, 0, i as int);
                }
                let _removed = self.devices.swap_remove(i);
                return Ok(());
            }
            i += 1;
        }
        proof {
            lemma_find_device_value(self.devices@, name@, 0, n as int);
        }
        Err(ErrorSm { msg: String::from_str("Device to remove not found") })
    }

    /// One line per device: its description followed by a newline.
    pub fn make_report(&self) -> (report: String)
        ensures
            report@ == devices_report(self.devices@),
    {
        proof {
            reveal_strlit("\n");
        }
        let mut report = String::new();
        let n = self.devices.len();
        let mut i: usize = 0;
        while i < n
            invariant
                n == self.devices@.len(),
                i <= n,
                report@ == devices_report(self.devices@.take(i as int)),
        decreases n - i,
        {
            let desc = self.devices[i].description();
            report.append(desc.as_str());
            report.append("\n");
            proof {
                reveal_strlit("\n");
                let devs = self.devices@;
                assert(devs.take(i as int + 1).drop_last() =~= devs.take(i as int));
                assert(devs.take(i as int + 1).last() == devs[i as int]);
                assert(report@ =~= devices_report(devs.take(i as int + 1)));
            }
            i += 1;
        }
        proof {
            assert(self.devices@.take(n as int) =~= self.devices@);
        }
        report
    }
}

impl Described for Room {
    fn description(&mut self) -> (d: String)
        ensures
            *final(self) == *old(self),
            d == old(self).name,
    {
        self.name.clone()
    }
}

} // verus!
