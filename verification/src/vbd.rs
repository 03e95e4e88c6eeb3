//! One virtual block device of a domain, and the kinds of device there are.

use vstd::pervasive::unreached;
use vstd::prelude::*;

verus! {

/// The kind of a virtual block device. The classification is closed: the
/// backend knows these three and no other.
#[derive(Clone, Copy, Debug, PartialEq, Eq, Structural)]
pub enum VbdType {
    Unidentified,
    BlkBack,
    BlkTap,
}

impl VbdType {
    /// The kind a code of the backend stands for; `None` for a code that
    /// stands for none.
    pub open spec fn of_code(code: u32) -> Option<VbdType> {
        if code == 0 {
            Some(VbdType::Unidentified)
        } else if code == 1 {
            Some(VbdType::BlkBack)
        } else if code == 2 {
            Some(VbdType::BlkTap)
        } else {
            None
        }
    }

    /// The code by which the backend names this kind.
    pub open spec fn code(self) -> u32 {
        match self {
            VbdType::Unidentified => 0,
            VbdType::BlkBack => 1,
            VbdType::BlkTap => 2,
        }
    }

    /// Decodes a code of the backend. A code outside the three the backend
    /// is bound to gives `None`, never a default kind.
    pub fn from_code(code: u32) -> (kind: Option<VbdType>)
        ensures
            kind == Self::of_code(code),
    {
        match code {
            0 => Some(VbdType::Unidentified),
            1 => Some(VbdType::BlkBack),
            2 => Some(VbdType::BlkTap),
            _ => None,
        }
    }
}

/// The codes 0, 1 and 2 and the three kinds correspond one to one: exactly
/// these codes decode, no two of them to the same kind, and every kind is
/// the decoding of its own code.
pub proof fn lemma_vbd_type_bijection()
    ensures
        forall|code: u32| #[trigger] VbdType::of_code(code) is Some <==> code <= 2,
        forall|a: u32, b: u32|
            #[trigger] VbdType::of_code(a) is Some && VbdType::of_code(a) == #[trigger] VbdType::of_code(b)
                ==> a == b,
        forall|kind: VbdType| VbdType::of_code(#[trigger] kind.code()) == Some(kind),
        forall|code: u32| code <= 2 ==> (#[trigger] VbdType::of_code(code))->0.code() == code,
{
}

/// What the backend reported of one virtual block device.
#[derive(Clone, Copy, Debug, PartialEq, Eq, Structural)]
pub struct Vbd {
    /// The kind of the device, as the code the backend gave.
    pub type_code: u32,
    /// The device number.
    pub dev: u32,
    /// Requests that arrived out of order.
    pub oo_reqs: u64,
    /// Read requests.
    pub rd_reqs: u64,
    /// Write requests.
    pub wr_reqs: u64,
    /// Sectors read.
    pub rd_sects: u64,
    /// Sectors written.
    pub wr_sects: u64,
}

impl Vbd {
    /// Whether the backend gave this device one of the three kinds.
    pub open spec fn has_known_type(&self) -> bool {
        VbdType::of_code(self.type_code) is Some
    }

    /// The kind of the device. A code that stands for no kind means that
    /// this layer and the backend disagree about the interface; such a
    /// record is not to be asked for its kind, and `VbdType::from_code`
    /// tells beforehand.
    pub fn get_type(&self) -> (kind: VbdType)
        requires
            self.has_known_type(),
        ensures
            VbdType::of_code(self.type_code) == Some(kind),
    {
        match self.type_code {
            0 => VbdType::Unidentified,
            1 => VbdType::BlkBack,
            2 => VbdType::BlkTap,
            _ => unreached(),
        }
    }

    /// The device number of the block device.
    pub fn vbd_dev(&self) -> (dev: u32)
        ensures
            dev == self.dev,
    {
        self.dev
    }

    /// Requests that arrived out of order.
    pub fn oo_reqs(&self) -> (n: u64)
        ensures
            n == self.oo_reqs,
    {
        self.oo_reqs
    }

    /// Read requests.
    pub fn rd_reqs(&self) -> (n: u64)
        ensures
            n == self.rd_reqs,
    {
        self.rd_reqs
    }

    /// Write requests.
    pub fn wr_reqs(&self) -> (n: u64)
        ensures
            n == self.wr_reqs,
    {
        self.wr_reqs
    }

    /// Sectors read.
    pub fn rd_sects(&self) -> (n: u64)
        ensures
            n == self.rd_sects,
    {
        self.rd_sects
    }

    /// Sectors written.
    pub fn wr_sects(&self) -> (n: u64)
        ensures
            n == self.wr_sects,
    {
        self.wr_sects
    }
}

} // verus!
