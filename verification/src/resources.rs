//! Named assets held in memory, and what can be loaded from them.

use image::ImageError;
use vstd::prelude::*;

verus! {

/// `image::ImageError`, carried through and never looked into.
#[verifier::external_type_specification]
#[verifier::external_body]
pub struct ExImageError(ImageError);

/// Why an asset could not be loaded.
#[derive(Debug, Clone, Copy, PartialEq, Eq, Structural)]
pub enum Error {
    /// There is no asset of that name.
    NotFound,
    /// The asset is there but is not what was asked for: text with a zero
    /// byte in it, or bytes that are no image.
    Decode,
}

/// An image of three bytes a pixel, red, green and blue, row after row.
pub struct RgbImage {
    pub width: u32,
    pub height: u32,
    pub pixels: Vec<u8>,
}

/// The image that `image::load_from_memory` reads out of `bytes`, turned into
/// RGB with one byte a channel: width, height and the pixel bytes; `None`
/// where it reads none.
pub uninterp spec fn decoded_rgb(bytes: Seq<u8>) -> Option<(u32, u32, Seq<u8>)>;

/// Calls `image::load_from_memory`, which guesses the format from the first
/// bytes and decodes, and turns the result into RGB with `into_rgb8`. The
/// contract only names the result: what comes back depends on the bytes alone.
#[verifier::external_body]
fn decode_rgb(bytes: &Vec<u8>) -> (decoded: Result<RgbImage, ImageError>)
    ensures
        match decoded {
            Ok(image) => decoded_rgb(bytes@) == Some((image.width, image.height, image.pixels@)),
            Err(_) => decoded_rgb(bytes@) is None,
        },
{
    let image = image::load_from_memory(bytes.as_slice())?.into_rgb8();
    Ok(RgbImage { width: image.width(), height: image.height(), pixels: image.into_raw() })
}

/// One asset: its name and its bytes.
pub struct Asset {
    name: String,
    data: Vec<u8>,
}

/// The bytes filed under `name`: those of the entry that was added last under
/// that name.
pub open spec fn found(assets: Seq<(Seq<char>, Seq<u8>)>, name: Seq<char>) -> Option<Seq<u8>>
    decreases assets.len(),
{
    if assets.len() == 0 {
        None
    } else if assets.last().0 == name {
        Some(assets.last().1)
    } else {
        found(assets.drop_last(), name)
    }
}

/// What loading text yields from the bytes found: the bytes themselves, unless
/// there are none or one of them is zero.
pub open spec fn text_of(bytes: Option<Seq<u8>>) -> Result<Seq<u8>, Error> {
    match bytes {
        None => Err(Error::NotFound),
        Some(bytes) => if bytes.contains(0u8) {
            Err(Error::Decode)
        } else {
            Ok(bytes)
        },
    }
}

/// What loading an image yields from the bytes found and from what the
/// decoder made of them.
pub open spec fn image_of(bytes: Option<Seq<u8>>) -> Result<(u32, u32, Seq<u8>), Error> {
    match bytes {
        None => Err(Error::NotFound),
        Some(bytes) => match decoded_rgb(bytes) {
            None => Err(Error::Decode),
            Some(image) => Ok(image),
        },
    }
}

/// Whether one of the bytes is zero.
pub fn has_zero_byte(bytes: &Vec<u8>) -> (has: bool)
    ensures
        has == bytes@.contains(0u8),
{
    let mut i: usize = 0;
    while i < bytes.len()
        invariant
            i <= bytes.len(),
            forall|j: int| 0 <= j < i ==> bytes@[j] != 0u8,
        decreases bytes.len() - i,
    {
        if bytes[i] == 0 {
            assert(bytes@[i as int] == 0u8);
            return true;
        }
        i = i + 1;
    }
    false
}

/// The assets of the program, by name.
pub struct Resources {
    assets: Vec<Asset>,
}

impl View for Resources {
    type V = Seq<(Seq<char>, Seq<u8>)>;

    /// The assets in the order in which they were added.
    closed spec fn view(&self) -> Seq<(Seq<char>, Seq<u8>)> {
        self.assets@.map_values(|asset: Asset| (asset.name@, asset.data@))
    }
}

impl Resources {
    /// No assets.
    pub fn new() -> (resources: Resources)
        ensures
            resources@ == Seq::<(Seq<char>, Seq<u8>)>::empty(),
    {
        let resources = Resources { assets: Vec::new() };
        assert(resources@ =~= Seq::<(Seq<char>, Seq<u8>)>::empty());
        resources
    }

    /// Files `data` under `name`, in front of whatever was filed under that
    /// name before.
    pub fn insert(&mut self, name: &str, data: Vec<u8>)
        ensures
            final(self)@ == old(self)@.push((name@, data@)),
    {
        self.assets.push(Asset { name: name.to_owned(), data });
        assert(self@ =~= old(self)@.push((name@, data@)));
    }

    /// The bytes filed under `name`.
    pub fn find(&self, name: &str) -> (bytes: Option<&Vec<u8>>)
        ensures
            match bytes {
                Some(bytes) => found(self@, name@) == Some(bytes@),
                None => found(self@, name@) is None,
            },
    {
        let wanted = name.to_owned();
        let mut i = self.assets.len();
        assert(self@.take(i as int) =~= self@);
        while i > 0
            invariant
                i <= self.assets.len(),
                wanted@ == name@,
                found(self@, name@) == found(self@.take(i as int), name@),
            decreases i,
        {
            i = i - 1;
            assert(self@.take(i + 1).drop_last() =~= self@.take(i as int));
            assert(self@.take(i + 1).last() == self@[i as int]);
            if self.assets[i].name == wanted {
                return Some(&self.assets[i].data);
            }
        }
        None
    }

    /// Loads an asset as text for the driver: its bytes, free of zero bytes.
    pub fn load_cstring(&self, name: &str) -> (text: Result<Vec<u8>, Error>)
        ensures
            match text {
                Ok(text) => text_of(found(self@, name@)) == Ok::<Seq<u8>, Error>(text@),
                Err(error) => text_of(found(self@, name@)) == Err::<Seq<u8>, Error>(error),
            },
    {
        match self.find(name) {
            None => Err(Error::NotFound),
            Some(bytes) => {
                if has_zero_byte(bytes) {
                    Err(Error::Decode)
                } else {
                    let text = bytes.clone();
                    assert(text@ =~= bytes@);
                    Ok(text)
                }
            },
        }
    }

    /// Loads an asset as an RGB image.
    pub fn load_rgb_image(&self, name: &str) -> (image: Result<RgbImage, Error>)
        ensures
            match image {
                Ok(image) => image_of(found(self@, name@)) == Ok::<(u32, u32, Seq<u8>), Error>(
                    (image.width, image.height, image.pixels@),
                ),
                Err(error) => image_of(found(self@, name@)) == Err::<(u32, u32, Seq<u8>), Error>(
                    error,
                ),
            },
    {
        match self.find(name) {
            None => Err(Error::NotFound),
            Some(bytes) => Self::image_from(decode_rgb(bytes)),
        }
    }

    /// Turns what the decoder returned into what loading returns: the image, or
    /// `Error::Decode` for any decoder error.
    pub fn image_from(decoded: Result<RgbImage, ImageError>) -> (image: Result<RgbImage, Error>)
        ensures
            match decoded {
                Ok(decoded) => image == Ok::<RgbImage, Error>(decoded),
                Err(_) => image == Err::<RgbImage, Error>(Error::Decode),
            },
    {
        match decoded {
            Ok(decoded) => Ok(decoded),
            Err(_) => Err(Error::Decode),
        }
    }
}

} // verus!
