//! An image input: shows the image a binding holds and replaces its data by
//! the bytes of a file the user picks.

use base64::prelude::{Engine, BASE64_STANDARD};
use vstd::prelude::*;

verus! {

/// Where the pixels of an image come from.
#[derive(Debug, PartialEq, Eq)]
pub enum ImageData {
    /// A file bundled with the application, by name.
    File(String),
    /// The bytes themselves, with the media type they were declared as.
    Data { bytes: Vec<u8>, mime: String },
}

/// An image with its attribution.
#[derive(Debug, PartialEq, Eq)]
pub struct Image {
    pub data: ImageData,
    pub attribution: String,
}

/// What an `ImageData` holds.
pub enum ImageDataView {
    File(Seq<char>),
    Data { bytes: Seq<u8>, mime: Seq<char> },
}

/// What an `Image` holds.
pub struct ImageView {
    pub data: ImageDataView,
    pub attribution: Seq<char>,
}

impl View for ImageData {
    type V = ImageDataView;

    open spec fn view(&self) -> ImageDataView {
        match self {
            ImageData::File(name) => ImageDataView::File(name@),
            ImageData::Data { bytes, mime } => ImageDataView::Data { bytes: bytes@, mime: mime@ },
        }
    }
}

impl View for Image {
    type V = ImageView;

    open spec fn view(&self) -> ImageView {
        ImageView { data: self.data@, attribution: self.attribution@ }
    }
}

impl Clone for ImageData {
    fn clone(&self) -> (copy: Self)
        ensures
            copy@ == self@,
    {
        match self {
            ImageData::File(name) => ImageData::File(name.clone()),
            ImageData::Data { bytes, mime } => {
                let copied = bytes.clone();
                ImageData::Data { bytes: copied, mime: mime.clone() }
            },
        }
    }
}

impl Clone for Image {
    fn clone(&self) -> (copy: Self)
        ensures
            copy@ == self@,
    {
        Image { data: self.data.clone(), attribution: self.attribution.clone() }
    }
}

/// The standard base64 text of `bytes`: standard alphabet, padded.
pub uninterp spec fn base64_standard(bytes: Seq<u8>) -> Seq<char>;

/// The length of the padded base64 text of `len` bytes.
pub open spec fn encoded_len(len: nat) -> nat {
    (len + 2) / 3 * 4
}

impl ImageDataView {
    /// Whether a source can be made for the data: the base64 text of inline
    /// bytes has to fit in one allocation.
    pub open spec fn displayable(self) -> bool {
        self matches ImageDataView::Data { bytes, .. } ==> encoded_len(bytes.len()) <= isize::MAX
    }

    /// The source an `img` element is given: the public path of a bundled
    /// file, or a data URL that embeds inline bytes.
    pub open spec fn source(self) -> Seq<char> {
        match self {
            ImageDataView::File(name) => "/public/images/"@ + name,
            ImageDataView::Data { bytes, mime } => data_url_of(mime, base64_standard(bytes)),
        }
    }
}

impl ImageView {
    /// The image after the user's file arrived: its data are the bytes read,
    /// under the media type the file declared; the rest is kept.
    pub open spec fn with_file(self, mime: Seq<char>, bytes: Seq<u8>) -> ImageView {
        ImageView { data: ImageDataView::Data { bytes, mime }, attribution: self.attribution }
    }
}

/// The data URL of a base64 payload of media type `mime`.
pub open spec fn data_url_of(mime: Seq<char>, payload: Seq<char>) -> Seq<char> {
    "data:"@ + mime + ";charset=utf-8;base64,"@ + payload
}

/// Wraps `Engine::encode` of the base64 crate, on its `STANDARD` engine.
/// Claimed of it: the text it returns depends on the bytes alone, and is
/// called `base64_standard(bytes)` here. The call panics where the text would
/// be longer than one allocation can be, which the bound leaves out.
#[verifier::external_body]
fn encode_base64(bytes: &Vec<u8>) -> (text: String)
    requires
        encoded_len(bytes@.len()) <= isize::MAX,
    ensures
        text@ == base64_standard(bytes@),
{
    BASE64_STANDARD.encode(bytes)
}

/// The data URL that carries `payload`, base64 text, as media type `mime`.
pub fn data_url(mime: &str, payload: &str) -> (url: String)
    ensures
        url@ == data_url_of(mime@, payload@),
{
    let mut url = String::from_str("data:");
    url.append(mime);
    url.append(";charset=utf-8;base64,");
    url.append(payload);
    url
}

/// The path under which a bundled image file is served.
pub fn public_path(name: &str) -> (path: String)
    ensures
        path@ == "/public/images/"@ + name@,
{
    let mut path = String::from_str("/public/images/");
    path.append(name);
    path
}

impl ImageData {
    /// Whether `image_src` can make a source for the data.
    pub fn is_displayable(&self) -> (r: bool)
        ensures
            r == self@.displayable(),
    {
        match self {
            ImageData::File(_) => true,
            ImageData::Data { bytes, .. } => {
                // (len + 2) / 3 * 4 <= isize::MAX
                bytes.len() <= (isize::MAX as usize) / 4 * 3
            },
        }
    }
}

/// The source to show `image` by.
pub fn image_src(image: &Image) -> (src: String)
    requires
        image@.data.displayable(),
    ensures
        src@ == image@.data.source(),
{
    match &image.data {
        ImageData::File(name) => public_path(name.as_str()),
        ImageData::Data { bytes, mime } => {
            let payload = encode_base64(bytes);
            data_url(mime.as_str(), payload.as_str())
        },
    }
}

/// A read of a picked file that is under way. It remembers the media type
/// the file declared when it was picked.
pub struct PendingRead {
    mime: String,
}

impl View for PendingRead {
    type V = Seq<char>;

    /// The media type captured at selection.
    closed spec fn view(&self) -> Seq<char> {
        self.mime@
    }
}

impl PendingRead {
    /// The media type captured at selection.
    pub fn mime(&self) -> (mime: &str)
        ensures
            mime@ == self@,
    {
        self.mime.as_str()
    }
}

/// An image input over a bound image.
pub struct ImageInput {
    image: Image,
}

impl View for ImageInput {
    type V = ImageView;

    /// The image the input holds.
    closed spec fn view(&self) -> ImageView {
        self.image@
    }
}

impl ImageInput {
    /// Mounts the input over the image the binding holds.
    pub fn new(bound: Image) -> (r: ImageInput)
        ensures
            r@ == bound@,
    {
        ImageInput { image: bound }
    }

    /// The image the input holds.
    pub fn image(&self) -> (image: &Image)
        ensures
            image@ == self@,
    {
        &self.image
    }

    /// Handles the selection of a file that declares the media type `mime`:
    /// the type is captured now, the bytes are read afterwards.
    pub fn on_select(&self, mime: String) -> (read: PendingRead)
        ensures
            read@ == mime@,
    {
        PendingRead { mime }
    }

    /// Handles the end of a read: the image now holds the bytes read, under
    /// the media type captured when the file was picked. The result is the
    /// image that is written to the binding.
    pub fn on_read(&mut self, read: PendingRead, bytes: Vec<u8>) -> (written: Image)
        ensures
            final(self)@ == old(self)@.with_file(read@, bytes@),
            written@ == final(self)@,
    {
        self.image.data = ImageData::Data { bytes, mime: read.mime };
        self.image.clone()
    }
}

/// A picked file replaces whatever the image held: afterwards the data are
/// inline, their bytes and media type are those of the file, and the source
/// is the data URL of their base64 text.
pub proof fn lemma_picked_file_is_shown_inline(before: ImageView, mime: Seq<char>, bytes: Seq<u8>)
    ensures
        before.with_file(mime, bytes).data == (ImageDataView::Data { bytes, mime }),
        before.with_file(mime, bytes).attribution == before.attribution,
        before.with_file(mime, bytes).data.source() == "data:"@ + mime + ";charset=utf-8;base64,"@
            + base64_standard(bytes),
{
}

/// Of two reads, the one that ends last decides what the image holds,
/// whichever file was picked first.
pub proof fn lemma_last_read_wins(
    before: ImageView,
    first: (Seq<char>, Seq<u8>),
    last: (Seq<char>, Seq<u8>),
)
    ensures
        before.with_file(first.0, first.1).with_file(last.0, last.1) == before.with_file(
            last.0,
            last.1,
        ),
{
}

} // verus!
