use vstd::prelude::*;
use vstd::string::StringExecFns;

verus! {

/// The text that `base64::encode` gives for `bytes`: their encoding in the standard
/// alphabet, with padding.
pub uninterp spec fn base64_text(bytes: Seq<u8>) -> Seq<char>;

/// Calls `base64::encode`. It returns the same text for the same bytes, and panics where the
/// length of that text does not fit in a `usize`.
#[verifier::external_body]
fn encode(data: &[u8]) -> (text: String)
    requires
        data@.len() / 3 * 4 + 4 <= usize::MAX,
    ensures
        text@ == base64_text(data@),
{
    base64::encode(data)
}

/// An image as text.
///
/// A web view has no access to the local file system, so the images that it shows are
/// handed to it as Base64 text.
pub struct EncodedImage {
    data: String,
    extension: String,
}

impl EncodedImage {
    /// The Base64 text of the image.
    pub closed spec fn data(self) -> Seq<char> {
        self.data@
    }

    /// The file extension of the image's format.
    pub closed spec fn extension(self) -> Seq<char> {
        self.extension@
    }

    /// The text to put in the `src` of an `img` element that shows the image.
    pub open spec fn html_src(self) -> Seq<char> {
        "data:image/"@ + self.extension() + ";base64,"@ + self.data()
    }

    /// Encodes the bytes of an image file whose format has the given file extension.
    pub fn from_bytes(data: &[u8], extension: &str) -> (image: Self)
        requires
            data@.len() / 3 * 4 + 4 <= usize::MAX,
        ensures
            image.data() == base64_text(data@),
            image.extension() == extension@,
    {
        Self { data: encode(data), extension: String::from_str(extension) }
    }

    /// The text to put in the `src` of an `img` element that shows the image.
    pub fn get_html_src_string(&self) -> (src: String)
        ensures
            src@ == self.html_src(),
    {
        let mut src = String::from_str("data:image/");
        src.append(self.extension.as_str());
        src.append(";base64,");
        src.append(self.data.as_str());
        src
    }
}

} // verus!
