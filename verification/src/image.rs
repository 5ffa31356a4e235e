//! Encoded images and the ordered view model that a page is rendered from.

use crate::codec::{
    base64_no_pad, decode_standard, encode_standard_no_pad, encoded_len, is_canonical,
    lemma_round_trip, lemma_text_is_canonical, padded,
};
use vstd::prelude::*;

verus! {

/// An encoded image as plain text: what the page shows of it.
pub struct ImageModel {
    pub src: Seq<char>,
    pub name: Seq<char>,
}

/// The label that every image is displayed under.
pub open spec fn label_text() -> Seq<char> {
    "test"@
}

/// The image that an uploaded part of `bytes` becomes.
pub open spec fn image_of(bytes: Seq<u8>) -> ImageModel {
    ImageModel { src: base64_no_pad(bytes), name: label_text() }
}

/// One uploaded part, ready to be shown inline: the unpadded base64 text of
/// its bytes and a display label. The text is fixed at creation.
#[derive(Debug)]
pub struct EncodedImage {
    src: String,
    name: String,
}

impl View for EncodedImage {
    type V = ImageModel;

    closed spec fn view(&self) -> ImageModel {
        ImageModel { src: self.src@, name: self.name@ }
    }
}

impl EncodedImage {
    #[verifier::type_invariant]
    spec fn src_is_base64(self) -> bool {
        is_canonical(self.src@)
    }

    /// The base64 text of the image. It is always canonical unpadded base64,
    /// so some bytes have exactly this text.
    pub fn src(&self) -> (text: &str)
        ensures
            text@ == self@.src,
            is_canonical(text@),
    {
        proof {
            use_type_invariant(self);
        }
        self.src.as_str()
    }

    /// The display label of the image.
    pub fn name(&self) -> (label: &str)
        ensures
            label@ == self@.name,
    {
        self.name.as_str()
    }
}

/// Encodes one uploaded part. Any bytes are accepted, the empty sequence
/// too, which gives the empty text; the one demand is that the length of the
/// text fits in `usize` (see [`text_len_fits`](crate::codec::text_len_fits)).
///
/// The text decodes back to exactly `bytes` by standard base64 decoding once
/// its padding is put back.
pub fn encode_image(bytes: &[u8]) -> (image: EncodedImage)
    requires
        encoded_len(bytes@.len()) <= usize::MAX,
    ensures
        image@ == image_of(bytes@),
        bytes@.len() == 0 ==> image@.src.len() == 0,
        decode_standard(padded(image@.src)) == Some(bytes@),
{
    let src = encode_standard_no_pad(bytes);
    let name = "test".to_owned();
    proof {
        lemma_text_is_canonical(bytes@);
        lemma_round_trip(bytes@);
    }
    EncodedImage { src, name }
}

/// The images of one request, in the order in which their parts were
/// uploaded; the page shows them in this order.
#[derive(Debug)]
pub struct RenderView {
    images: Vec<EncodedImage>,
}

impl View for RenderView {
    type V = Seq<ImageModel>;

    closed spec fn view(&self) -> Seq<ImageModel> {
        self.images@.map_values(|image: EncodedImage| image@)
    }
}

impl RenderView {
    /// How many images the view holds.
    pub fn len(&self) -> (n: usize)
        ensures
            n == self@.len(),
    {
        self.images.len()
    }

    /// The image at position `i`.
    pub fn get(&self, i: usize) -> (image: &EncodedImage)
        requires
            i < self@.len(),
        ensures
            image@ == self@[i as int],
    {
        &self.images[i]
    }
}

/// Builds the view model of an upload: one image per part, in upload order.
pub fn build_view(parts: Vec<Vec<u8>>) -> (view: RenderView)
    requires
        forall|i: int|
            0 <= i < parts@.len() ==> encoded_len(#[trigger] parts@[i]@.len()) <= usize::MAX,
    ensures
        view@.len() == parts@.len(),
        forall|i: int| 0 <= i < parts@.len() ==> #[trigger] view@[i] == image_of(parts@[i]@),
{
    let mut images: Vec<EncodedImage> = Vec::new();
    let mut i: usize = 0;
    while i < parts.len()
        invariant
            i <= parts@.len(),
            images@.len() == i,
            forall|k: int|
                0 <= k < parts@.len() ==> encoded_len(#[trigger] parts@[k]@.len()) <= usize::MAX,
            forall|k: int| 0 <= k < i ==> (#[trigger] images@[k])@ == image_of(parts@[k]@),
        decreases parts@.len() - i,
    {
        let image = encode_image(parts[i].as_slice());
        images.push(image);
        i += 1;
    }
    RenderView { images }
}

} // verus!
