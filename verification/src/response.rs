//! Response construction: the headers a resolved document is served with.

use vstd::prelude::*;
use crate::format::Format;

verus! {

/// The headers of a success response.
#[derive(Debug)]
pub struct ResponseHead {
    /// The target format's canonical content-type.
    pub content_type: String,
    /// `inline` (a bare filename) for the browser-viewable HTML format,
    /// an attachment otherwise.
    pub content_disposition: String,
}

/// The `Content-Disposition` header value for serving `file_name` in
/// `format`: HTML is displayed inline, every other format is offered as
/// an attachment.
pub open spec fn spec_content_disposition(format: Format, file_name: Seq<char>) -> Seq<char> {
    (if format == Format::Html {
        Seq::<char>::empty()
    } else {
        "attachment; "@
    }) + "filename=\""@ + file_name + "\""@
}

/// Builds the headers for serving a document named `file_name` in
/// `format`.
pub fn response_head(format: Format, file_name: &str) -> (r: ResponseHead)
    ensures
        r.content_type@ == format.spec_mime_type(),
        r.content_disposition@ == spec_content_disposition(format, file_name@),
{
    let content_type = format.mime_type().to_owned();
    let mut content_disposition = if matches!(format, Format::Html) {
        String::new()
    } else {
        "attachment; ".to_owned()
    };
    content_disposition.append("filename=\"");
    content_disposition.append(file_name);
    content_disposition.append("\"");
    proof {
        assert(content_disposition@ =~= spec_content_disposition(format, file_name@));
    }
    ResponseHead { content_type, content_disposition }
}

} // verus!
