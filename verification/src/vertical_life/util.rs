//! Addresses of the vendor's images.

use vstd::prelude::*;
use vstd::string::*;

verus! {

/// Where the vendor's API answers.
pub const BASE_URL: &'static str = "https://vlcapi.vertical-life.info";

/// The address of an image: the base address, `/images/`, the id,
/// `?width=` and the width.
pub open spec fn image_url_spec(id: Seq<char>, width: int) -> Seq<char> {
    BASE_URL@ + "/images/"@ + id + "?width="@ + (if width == 750 {
        "750"@
    } else {
        "3750"@
    })
}

/// The address of an image in one of the two widths that the vendor serves,
/// for example `https://vlcapi.vertical-life.info/images/<id>?width=3750`.
pub fn format_image_url(id: &str, width: i32) -> (url: String)
    requires
        width == 750 || width == 3750,
    ensures
        url@ == image_url_spec(id@, width as int),
{
    let mut url = String::from_str(BASE_URL);
    url.append("/images/");
    url.append(id);
    url.append("?width=");
    if width == 750 {
        url.append("750");
    } else {
        url.append("3750");
    }
    url
}

} // verus!
