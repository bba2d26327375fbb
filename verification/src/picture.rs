use crate::error::FatalError;
use crate::renderer::{byte_len, picture_bytes};
use vstd::prelude::*;
use vstd::slice::slice_to_vec;

verus! {

/// A file name that marks its file as hidden: it starts with a dot.
pub open spec fn hidden(name: Seq<char>) -> bool {
    name.len() > 0 && name[0] == '.'
}

/// Whether a directory entry of this name is passed over as hidden.
pub fn is_hidden(name: &str) -> (skip: bool)
    ensures
        skip == hidden(name@),
{
    if name.is_empty() {
        false
    } else {
        name.get_char(0) == '.'
    }
}

/// One entry of the picture directory: its file name, and its pixels as
/// RGBA8 where the file could be decoded as an image.
#[derive(Debug)]
pub struct SourceEntry {
    pub name: String,
    pub pixels: Option<Vec<u8>>,
}

impl SourceEntry {
    /// The entry yields a picture of the given dimensions: it is not hidden,
    /// it was decoded, and it holds exactly one picture's bytes.
    pub open spec fn usable(&self, width: u32, height: u32) -> bool {
        &&& !hidden(self.name@)
        &&& self.pixels.is_some()
        &&& self.pixels.unwrap()@.len() == byte_len(width, height)
    }
}

/// The pictures that a directory yields: the pixels of its usable entries, in
/// the directory's order.
pub open spec fn usable_pictures(entries: Seq<SourceEntry>, width: u32, height: u32) -> Seq<
    Seq<u8>,
>
    decreases entries.len(),
{
    if entries.len() == 0 {
        Seq::empty()
    } else {
        let before = usable_pictures(entries.drop_last(), width, height);
        if entries.last().usable(width, height) {
            before.push(entries.last().pixels.unwrap()@)
        } else {
            before
        }
    }
}

/// The pictures to rotate through: at least one, all of the same dimensions.
#[derive(Debug)]
pub struct PictureSet {
    pub width: u32,
    pub height: u32,
    pub buffers: Vec<Vec<u8>>,
}

impl PictureSet {
    /// The pictures as byte sequences, in order.
    pub open spec fn view(&self) -> Seq<Seq<u8>> {
        Seq::new(self.buffers@.len(), |i: int| self.buffers@[i]@)
    }

    /// The set is not empty, and each buffer holds exactly one picture.
    pub open spec fn wf(&self) -> bool {
        &&& self.buffers@.len() > 0
        &&& forall|i: int|
            0 <= i < self.buffers@.len() ==> (#[trigger] self.buffers@[i])@.len() == byte_len(
                self.width,
                self.height,
            )
    }

    /// Number of pictures in the set.
    pub fn len(&self) -> (count: usize)
        ensures
            count == self@.len(),
    {
        self.buffers.len()
    }

    /// The picture at `index`.
    pub fn get(&self, index: usize) -> (picture: &[u8])
        requires
            index < self@.len(),
        ensures
            picture@ == self@[index as int],
    {
        self.buffers[index].as_slice()
    }
}

/// Builds the picture set from the entries of the picture directory. Hidden
/// entries, entries that were not decoded and entries of another size are
/// passed over; the rest are kept in order. A directory that yields no
/// picture is fatal.
pub fn load_pictures(entries: &Vec<SourceEntry>, width: u32, height: u32) -> (loaded: Result<
    PictureSet,
    FatalError,
>)
    ensures
        loaded.is_ok() <==> usable_pictures(entries@, width, height).len() > 0,
        loaded.is_err() ==> loaded == Err::<PictureSet, FatalError>(FatalError::NoPictures),
        loaded.is_ok() ==> {
            let set = loaded.unwrap();
            &&& set.wf()
            &&& set.width == width
            &&& set.height == height
            &&& set@ == usable_pictures(entries@, width, height)
        },
{
    let expected: Option<usize> = picture_bytes(width, height);
    let mut buffers: Vec<Vec<u8>> = Vec::new();
    let mut at: usize = 0;
    assert(entries@.take(0) =~= Seq::<SourceEntry>::empty());
    while at < entries.len()
        invariant
            at <= entries@.len(),
            expected.is_some() ==> expected.unwrap() == byte_len(width, height),
            expected.is_none() ==> byte_len(width, height) > usize::MAX,
            buffers@.len() == usable_pictures(entries@.take(at as int), width, height).len(),
            forall|i: int|
                0 <= i < buffers@.len() ==> (#[trigger] buffers@[i])@ == usable_pictures(
                    entries@.take(at as int),
                    width,
                    height,
                )[i],
            forall|i: int|
                0 <= i < buffers@.len() ==> (#[trigger] buffers@[i])@.len() == byte_len(
                    width,
                    height,
                ),
        decreases entries@.len() - at,
    {
        let entry = &entries[at];
        proof {
            assert(entries@.take(at + 1).drop_last() =~= entries@.take(at as int));
        }
        let shown: bool = !is_hidden(entry.name.as_str());
        let mut keep: bool = false;
        if shown && entry.pixels.is_some() {
            let pixels: &Vec<u8> = entry.pixels.as_ref().unwrap();
            let len: usize = pixels.len();
            if expected == Some(len) {
                keep = true;
                buffers.push(slice_to_vec(pixels.as_slice()));
            }
        }
        at = at + 1;
    }
    assert(entries@.take(at as int) =~= entries@);
    if buffers.len() == 0 {
        Err(FatalError::NoPictures)
    } else {
        let set = PictureSet { width, height, buffers };
        assert(set@ =~= usable_pictures(entries@, width, height));
        Ok(set)
    }
}

} // verus!
