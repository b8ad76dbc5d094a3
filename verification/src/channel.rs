//! The transport session that a command arrives on.

use vstd::prelude::*;

verus! {

/// Identifies the logical transport session of a command.  Each transport
/// kind has a variant of its own, which carries that transport's session tag.
#[derive(Clone, Copy, Debug)]
pub enum Channel {
    /// The main HID interface, with the channel identifier of the session.
    MainHid([u8; 4]),
    /// The vendor HID interface, with the channel identifier of the session.
    VendorHid([u8; 4]),
}

fn tags_equal(a: &[u8; 4], b: &[u8; 4]) -> (same: bool)
    ensures
        same == (*a == *b),
{
    let same = a[0] == b[0] && a[1] == b[1] && a[2] == b[2] && a[3] == b[3];
    proof {
        if same {
            assert(*a =~= *b);
        }
    }
    same
}

impl Channel {
    /// Whether two commands belong to one transport session.
    pub fn same(&self, other: &Channel) -> (same: bool)
        ensures
            same == (*self == *other),
    {
        match (self, other) {
            (Channel::MainHid(a), Channel::MainHid(b)) => tags_equal(a, b),
            (Channel::VendorHid(a), Channel::VendorHid(b)) => tags_equal(a, b),
            _ => false,
        }
    }
}

} // verus!
