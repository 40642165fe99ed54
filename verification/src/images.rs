//! Images that the helper works on.

use vstd::prelude::*;
use vstd::string::*;
use crate::error::Naps2Error;

verus! {

/// What can be asked of an image.
pub trait Image {
    /// The width in pixels.
    spec fn spec_width(&self) -> u32;

    /// The height in pixels.
    spec fn spec_height(&self) -> u32;

    /// Writes the image to a file.
    fn save(&self, path: &str) -> Result<(), Naps2Error>;

    /// The width in pixels.
    fn width(&self) -> (w: u32)
        ensures
            w == self.spec_width(),
    ;

    /// The height in pixels.
    fn height(&self) -> (h: u32)
        ensures
            h == self.spec_height(),
    ;
}

/// An image that is known by the file it lies in. Its size is not read from
/// the file: it is zero by zero until something measures it.
#[derive(Debug)]
pub struct Naps2Image {
    path: String,
    width: u32,
    height: u32,
}

impl Naps2Image {
    /// The file that the image lies in.
    pub closed spec fn path(&self) -> Seq<char> {
        self.path@
    }

    /// The image in the file at `path`.
    pub fn from_file(path: &str) -> (r: Result<Self, Naps2Error>)
        ensures
            r matches Ok(image) && image.path() == path@ && image.spec_width() == 0
                && image.spec_height() == 0,
    {
        Ok(Self { path: String::from_str(path), width: 0, height: 0 })
    }

    /// The file that the image lies in.
    pub fn file_path(&self) -> (path: &str)
        ensures
            path@ == self.path(),
    {
        self.path.as_str()
    }
}

impl Image for Naps2Image {
    closed spec fn spec_width(&self) -> u32 {
        self.width
    }

    closed spec fn spec_height(&self) -> u32 {
        self.height
    }

    /// Nothing is written: the image stays where it is, and that succeeds.
    fn save(&self, path: &str) -> (r: Result<(), Naps2Error>)
        ensures
            r is Ok,
    {
        Ok(())
    }

    fn width(&self) -> (w: u32) {
        self.width
    }

    fn height(&self) -> (h: u32) {
        self.height
    }
}

} // verus!
