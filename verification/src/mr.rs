//! Memory regions and scatter/gather lists.

use vstd::prelude::*;

use crate::ints::{c_uint, usize_to_u32};

verus! {

/// A registered memory region.
#[derive(Debug, Clone, Copy, PartialEq, Eq, Structural)]
pub struct Mr {
    /// Address of the first byte.
    pub addr: usize,
    /// Local key.
    pub lkey: u32,
}

/// A range of a local memory region.
#[derive(Debug, Clone, Copy, PartialEq, Eq)]
pub struct MrSlice<'a> {
    pub mr: &'a Mr,
    /// Offset of the range into the region.
    pub offset: usize,
    /// Length of the range.
    pub len: usize,
}

/// A range of a remote memory region.
#[derive(Debug, Clone, Copy, PartialEq, Eq, Structural)]
pub struct RemoteMrSlice {
    /// Address of the first byte of the range.
    pub addr: u64,
    /// Remote key.
    pub rkey: u32,
}

/// A scatter/gather element.
#[derive(Debug, Clone, Copy, PartialEq, Eq, Structural)]
pub struct Sge {
    pub addr: u64,
    pub length: u32,
    pub lkey: u32,
}

impl<'a> MrSlice<'a> {
    /// The range starts at an address.
    pub open spec fn addressable(self) -> bool {
        self.mr.addr + self.offset <= u64::MAX
    }

    /// The scatter/gather element of the range.
    pub open spec fn sge(self) -> Sge {
        Sge {
            addr: (self.mr.addr + self.offset) as u64,
            length: c_uint(self.len as int) as u32,
            lkey: self.mr.lkey,
        }
    }
}

/// Every range starts at an address.
pub open spec fn all_addressable(slices: Seq<MrSlice<'_>>) -> bool {
    forall|i: int| 0 <= i < slices.len() ==> (#[trigger] slices[i]).addressable()
}

/// The scatter/gather list of `slices`: one element for each, in order.
pub open spec fn sgl(slices: Seq<MrSlice<'_>>) -> Seq<Sge> {
    Seq::new(slices.len(), |i: int| slices[i].sge())
}

/// Builds the scatter/gather list of `slices`.
pub fn build_sgl<'a>(slices: &'a [MrSlice<'a>]) -> (r: Vec<Sge>)
    requires
        all_addressable(slices@),
    ensures
        r@ == sgl(slices@),
{
    let mut list: Vec<Sge> = Vec::new();
    let mut i: usize = 0;
    while i < slices.len()
        invariant
            i <= slices@.len(),
            all_addressable(slices@),
            list@ == sgl(slices@).take(i as int),
        decreases slices@.len() - i,
    {
        let slice = &slices[i];
        assert(slices@[i as int].addressable());
        list.push(
            Sge {
                addr: slice.mr.addr as u64 + slice.offset as u64,
                length: usize_to_u32(slice.len),
                lkey: slice.mr.lkey,
            },
        );
        i += 1;
        assert(list@ =~= sgl(slices@).take(i as int));
    }
    assert(sgl(slices@).take(i as int) =~= sgl(slices@));
    list
}

/// A scatter/gather list has one element for each range, and every element is
/// that of the range at its own place, whatever the other ranges are: it starts
/// where the range starts in its region, is as long as the range where 32 bits
/// can hold the length, and carries the key of the range's own region.
pub proof fn law_elements_name_their_ranges(slices: &[MrSlice<'_>], list: Vec<Sge>)
    requires
        call_ensures(build_sgl, (slices,), list),
    ensures
        list@ == sgl(slices@),
        list@.len() == slices@.len(),
        forall|i: int|
            #![trigger list@[i]]
            #![trigger slices@[i]]
            0 <= i < slices@.len() ==> {
                let (range, element) = (slices@[i], list@[i]);
                &&& range.mr.addr + range.offset <= u64::MAX ==> element.addr == range.mr.addr
                    + range.offset
                &&& range.len <= u32::MAX ==> element.length == range.len
                &&& (range.len - element.length) % 0x1_0000_0000 == 0
                &&& element.lkey == range.mr.lkey
            },
{
}

/// Ranges can be made into a scatter/gather list if and only if each starts at
/// an address of 64 bits; their number and lengths do not matter.
pub proof fn law_any_addressable_ranges_will_do(slices: &[MrSlice<'_>])
    requires
        forall|i: int|
            #![trigger slices@[i]]
            0 <= i < slices@.len() ==> slices@[i].mr.addr + slices@[i].offset <= u64::MAX,
    ensures
        call_requires(build_sgl, (slices,)),
{
}

} // verus!
