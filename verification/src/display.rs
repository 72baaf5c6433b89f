//! One enumerated display: geometry, rotation and device name, plus the
//! backend handles it owns.

use vstd::prelude::*;
use crate::backend::Action;

verus! {

broadcast use vstd::array::group_array_axioms;

/// Number of UTF-16 units in the fixed-capacity device-name field of an
/// output descriptor.
pub const NAME_CAPACITY: usize = 32;

/// Screen orientation of an output, decoded from the backend's rotation code.
#[derive(Clone, Copy, PartialEq, Eq, Structural, Debug)]
pub enum Rotation {
    /// The backend reported no or an unrecognized rotation.
    Unspecified,
    /// No rotation.
    Identity,
    /// Rotated by 90 degrees.
    Rotate90,
    /// Rotated by 180 degrees.
    Rotate180,
    /// Rotated by 270 degrees.
    Rotate270,
}

/// The backend's rotation code for the identity orientation.
pub const ROTATION_IDENTITY: u32 = 1;

/// The backend's rotation code for a 90 degree rotation.
pub const ROTATION_ROTATE90: u32 = 2;

/// The backend's rotation code for a 180 degree rotation.
pub const ROTATION_ROTATE180: u32 = 3;

/// The backend's rotation code for a 270 degree rotation.
pub const ROTATION_ROTATE270: u32 = 4;

/// The orientation each backend rotation code decodes to.
pub open spec fn rotation_spec(code: u32) -> Rotation {
    if code == ROTATION_IDENTITY {
        Rotation::Identity
    } else if code == ROTATION_ROTATE90 {
        Rotation::Rotate90
    } else if code == ROTATION_ROTATE180 {
        Rotation::Rotate180
    } else if code == ROTATION_ROTATE270 {
        Rotation::Rotate270
    } else {
        Rotation::Unspecified
    }
}

/// The descriptor the backend reports for an output: the display's bounding
/// rectangle in desktop coordinates, its rotation code, and its device name
/// as a fixed-capacity field with terminator semantics.
#[derive(Clone, Copy, Debug)]
pub struct OutputDescriptor {
    /// Left edge of the bounding rectangle.
    pub left: i32,
    /// Top edge of the bounding rectangle.
    pub top: i32,
    /// Right edge of the bounding rectangle.
    pub right: i32,
    /// Bottom edge of the bounding rectangle.
    pub bottom: i32,
    /// The backend's rotation code; see [`rotation_spec`].
    pub rotation: u32,
    /// The device name, valid up to the first terminator unit.
    pub name: [u16; 32],
}

impl OutputDescriptor {
    /// A descriptor is well formed when its bounding rectangle is ordered and
    /// its extents fit the coordinate type.
    pub open spec fn wf(self) -> bool {
        &&& self.left <= self.right
        &&& self.top <= self.bottom
        &&& self.right - self.left <= i32::MAX
        &&& self.bottom - self.top <= i32::MAX
    }
}

/// An owned reference to one enumerated display. Immutable after creation;
/// holds the duplication-capable output handle and one shared reference to
/// the owning adapter, both released together through [`Display::release_actions`].
#[derive(Clone, Copy, Debug)]
pub struct Display {
    /// Backend handle of the duplication-capable output.
    pub output: u64,
    /// Backend handle of the owning adapter; the display holds one shared
    /// reference on it.
    pub adapter: u64,
    /// Geometry, rotation and name captured at enumeration time.
    pub desc: OutputDescriptor,
}

impl Display {
    /// A display is well formed when its descriptor is.
    pub open spec fn wf(self) -> bool {
        self.desc.wf()
    }

    /// Width of the display's bounding rectangle, in pixels. Non-negative
    /// for any well-formed descriptor.
    pub fn width(&self) -> (r: i32)
        requires
            self.wf(),
        ensures
            r == self.desc.right - self.desc.left,
            r >= 0,
    {
        self.desc.right - self.desc.left
    }

    /// Height of the display's bounding rectangle, in pixels. Non-negative
    /// for any well-formed descriptor.
    pub fn height(&self) -> (r: i32)
        requires
            self.wf(),
        ensures
            r == self.desc.bottom - self.desc.top,
            r >= 0,
    {
        self.desc.bottom - self.desc.top
    }

    /// The display's orientation, decoded from the descriptor's rotation
    /// code.
    pub fn rotation(&self) -> (r: Rotation)
        ensures
            r == rotation_spec(self.desc.rotation),
    {
        if self.desc.rotation == ROTATION_IDENTITY {
            Rotation::Identity
        } else if self.desc.rotation == ROTATION_ROTATE90 {
            Rotation::Rotate90
        } else if self.desc.rotation == ROTATION_ROTATE180 {
            Rotation::Rotate180
        } else if self.desc.rotation == ROTATION_ROTATE270 {
            Rotation::Rotate270
        } else {
            Rotation::Unspecified
        }
    }

    /// The device name: the descriptor's name field up to, and not
    /// including, its first terminator unit; the whole field when no
    /// terminator occurs. Never longer than the fixed capacity.
    pub fn name(&self) -> (r: Vec<u16>)
        ensures
            r@.len() <= NAME_CAPACITY,
            r@ == self.desc.name@.take(r@.len() as int),
            forall|j: int| 0 <= j < r@.len() ==> self.desc.name@[j] != 0,
            r@.len() < NAME_CAPACITY ==> self.desc.name@[r@.len() as int] == 0,
    {
        let mut r: Vec<u16> = Vec::new();
        let mut i: usize = 0;
        while i < NAME_CAPACITY && self.desc.name[i] != 0
            invariant
                0 <= i <= NAME_CAPACITY,
                r@.len() == i,
                r@ == self.desc.name@.take(i as int),
                forall|j: int| 0 <= j < i ==> self.desc.name@[j] != 0,
            decreases NAME_CAPACITY - i,
        {
            r.push(self.desc.name[i]);
            assert(r@ =~= self.desc.name@.take(i + 1 as int));
            i = i + 1;
        }
        r
    }

    /// The releases owed when this display is dropped: the output reference
    /// first, then the shared adapter reference.
    pub fn release_actions(&self) -> (r: Vec<Action>)
        ensures
            r@.len() == 2,
            r@[0] == (Action::ReleaseDuplicableOutput { output: self.output }),
            r@[1] == (Action::ReleaseAdapter { adapter: self.adapter }),
    {
        let mut r: Vec<Action> = Vec::new();
        r.push(Action::ReleaseDuplicableOutput { output: self.output });
        r.push(Action::ReleaseAdapter { adapter: self.adapter });
        r
    }
}

} // verus!
