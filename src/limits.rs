use crate::error::{Error, LimitKind};
use vstd::prelude::*;

verus! {

/// Ceilings on the dimensions of a decoded image and on the memory a decoder
/// may allocate. `None` means no ceiling.
#[derive(Clone, Copy, Debug, PartialEq, Eq, Structural)]
pub struct ResourceLimits {
    pub max_image_width: Option<u32>,
    pub max_image_height: Option<u32>,
    pub max_alloc: Option<u64>,
}

impl ResourceLimits {
    /// Whether an image of the given dimensions is within the width and height ceilings.
    pub open spec fn allows(self, width: u32, height: u32) -> bool {
        &&& (self.max_image_width matches Some(w) ==> width <= w)
        &&& (self.max_image_height matches Some(h) ==> height <= h)
    }

    /// The allocation ceiling handed to the png crate: the configured one, or
    /// everything when there is none, and at most what a `usize` holds.
    pub open spec fn alloc_ceiling_spec(self) -> usize {
        let bytes: int = match self.max_alloc {
            Some(b) => b as int,
            None => u64::MAX as int,
        };
        if bytes <= usize::MAX as int {
            bytes as usize
        } else {
            usize::MAX
        }
    }

    /// Limits that constrain nothing.
    pub open spec fn no_limits_spec() -> ResourceLimits {
        ResourceLimits { max_image_width: None, max_image_height: None, max_alloc: None }
    }

    /// Limits that constrain nothing.
    pub fn no_limits() -> (r: ResourceLimits)
        ensures
            r == Self::no_limits_spec(),
    {
        ResourceLimits { max_image_width: None, max_image_height: None, max_alloc: None }
    }

    /// Fails with a dimension limit error when the width or the height is above its ceiling.
    pub fn check_dimensions(&self, width: u32, height: u32) -> (r: Result<(), Error>)
        ensures
            r is Ok <==> self.allows(width, height),
            r is Err ==> r matches Err(Error::Limits(LimitKind::Dimensions)),
    {
        if let Some(max_width) = self.max_image_width {
            if width > max_width {
                return Err(Error::Limits(LimitKind::Dimensions));
            }
        }
        if let Some(max_height) = self.max_image_height {
            if height > max_height {
                return Err(Error::Limits(LimitKind::Dimensions));
            }
        }
        Ok(())
    }

    /// The allocation ceiling in bytes, saturated to what a `usize` holds.
    pub fn alloc_ceiling(&self) -> (r: usize)
        ensures
            r == self.alloc_ceiling_spec(),
    {
        let bytes: u64 = match self.max_alloc {
            Some(b) => b,
            None => u64::MAX,
        };
        if bytes as u128 <= usize::MAX as u128 {
            bytes as usize
        } else {
            usize::MAX
        }
    }
}

} // verus!
