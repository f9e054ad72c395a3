use vstd::prelude::*;

verus! {

/// Where a loaded image came from and its size in pixels.
#[derive(Debug, Clone, PartialEq, Eq)]
pub struct SourceImage {
    pub path: String,
    pub width: i32,
    pub height: i32,
}

impl SourceImage {
    /// The image size as unsigned numbers, as stored in project files (each
    /// converted with `as u32`, which keeps the sizes of decoded images).
    pub fn dimensions(&self) -> (r: (u32, u32))
        ensures
            r == (self.width as u32, self.height as u32),
            self.width >= 0 ==> r.0 == self.width,
            self.height >= 0 ==> r.1 == self.height,
    {
        (self.width as u32, self.height as u32)
    }
}

} // verus!
