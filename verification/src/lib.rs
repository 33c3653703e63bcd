//! The scanline compositor of a handheld console's two 2D display engines,
//! with the parts of the emulator core that surround it.

pub mod bytes;
pub mod color;
pub mod cpu;
pub mod engine_2d;
pub mod handoff;
pub mod oam;
pub mod pixel;
pub mod regs;
pub mod rendering_data;
pub mod vram;

use vstd::prelude::*;

verus! {

/// The model of the emulated console.
#[derive(Clone, Copy, Debug, PartialEq, Eq)]
pub enum Model {
    Ds,
    Lite,
    Ique,
    IqueLite,
    Dsi,
}

impl Default for Model {
    /// The model that is emulated unless another is chosen.
    fn default() -> (model: Model)
        ensures
            model == Model::Lite,
    {
        Model::Lite
    }
}

/// The contents of a save file: those that exist, or the size of the ones to
/// create.
pub enum SaveContents {
    Existing(Vec<u8>),
    New(usize),
}

impl Clone for SaveContents {
    fn clone(&self) -> (copy: SaveContents)
        ensures
            match (*self, copy) {
                (SaveContents::Existing(data), SaveContents::Existing(copied)) => copied@ == data@,
                (SaveContents::New(len), SaveContents::New(copied)) => copied == len,
                _ => false,
            },
    {
        match self {
            SaveContents::Existing(data) => SaveContents::Existing(data.clone()),
            SaveContents::New(len) => SaveContents::New(*len),
        }
    }
}

impl From<Vec<u8>> for SaveContents {
    fn from(other: Vec<u8>) -> (contents: SaveContents) {
        SaveContents::Existing(other)
    }
}

impl vstd::std_specs::convert::FromSpecImpl<Vec<u8>> for SaveContents {
    open spec fn obeys_from_spec() -> bool {
        true
    }

    open spec fn from_spec(other: Vec<u8>) -> SaveContents {
        SaveContents::Existing(other)
    }
}

impl SaveContents {
    /// The size of the contents in bytes.
    pub open spec fn spec_len(&self) -> usize {
        match self {
            SaveContents::Existing(data) => data.len(),
            SaveContents::New(len) => *len,
        }
    }

    /// The existing contents, or what `f` creates for the size of new ones.
    pub fn get_or_create<F: FnOnce(usize) -> Vec<u8>>(self, f: F) -> (data: Vec<u8>)
        requires
            self matches SaveContents::New(len) ==> f.requires((len,)),
        ensures
            match self {
                SaveContents::Existing(existing) => data == existing,
                SaveContents::New(len) => f.ensures((len,), data),
            },
    {
        match self {
            SaveContents::Existing(data) => data,
            SaveContents::New(len) => f(len),
        }
    }

    /// The size of the contents in bytes.
    #[verifier::when_used_as_spec(spec_len)]
    pub fn len(&self) -> (len: usize)
        ensures
            len == self.spec_len(),
    {
        match self {
            SaveContents::Existing(data) => data.len(),
            SaveContents::New(len) => *len,
        }
    }
}

} // verus!
