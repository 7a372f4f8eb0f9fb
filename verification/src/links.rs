//! The content-side link interceptor. Anchor activations are classified:
//! only anchors the remote application marks as semantic links opening a new
//! browsing context (`role=link`, `target=_blank`) are intercepted. An
//! intercepted anchor whose resolved address uses the in-memory-object
//! scheme is fetched on the page side and forwarded as a save request with
//! a derived file name; any other intercepted anchor is forwarded to the OS
//! default external handler. Everything else passes through untouched.

use vstd::prelude::*;
use vstd::string::StrSliceExecFns;
use vstd::string::StringExecFns;
use crate::requests::BlobSaveRequest;
use crate::requests::LinkOpenRequest;
use crate::text::contains_char;
use crate::text::find_char_from;
use crate::text::first_occurrence;
use crate::text::has_prefix;
use crate::text::lemma_first_occurrence;
use crate::text::str_eq;

verus! {

/// What the observer reads off an activated anchor element.
#[derive(Clone, Debug)]
pub struct Anchor {
    /// The `role` attribute, when present.
    pub role: Option<String>,
    /// The effective target browsing context, e.g. `_blank`.
    pub target: String,
    /// The resolved address the anchor points at.
    pub href: String,
    /// The `download` attribute, when present.
    pub download: Option<String>,
}

/// An anchor is intercepted only when it is marked `role=link` and targets
/// a new browsing context.
pub open spec fn is_intercepted(a: Anchor) -> bool {
    a.role matches Some(r) && r@ == "link"@ && a.target@ == "_blank"@
}

/// An address with the in-memory-object scheme, whose content was generated
/// on the page side and cannot be fetched by the host itself.
pub open spec fn is_blob_address(u: Seq<char>) -> bool {
    "blob:"@.is_prefix_of(u)
}

/// The outcome of one anchor activation.
#[derive(Clone, Debug, PartialEq, Eq)]
pub enum Activation {
    /// Not an intercepted link: default navigation is preserved and no
    /// bridge request is made.
    PassThrough,
    /// Hand the address to the OS default external handler.
    OpenExternal { request: LinkOpenRequest },
    /// Fetch the in-memory resource on the page side, then forward a save
    /// request carrying its bytes.
    FetchAndSave { address: String },
}

/// Whether an activation outcome suppresses the anchor's default
/// navigation.
pub open spec fn spec_prevents_default(act: Activation) -> bool {
    !(act is PassThrough)
}

/// Whether the observer suppresses the default navigation for an outcome.
pub fn prevents_default(act: &Activation) -> (r: bool)
    ensures
        r == spec_prevents_default(*act),
{
    match act {
        Activation::PassThrough => false,
        _ => true,
    }
}

/// Classify one anchor activation. Anchors lacking the `role=link` mark or
/// not targeting a new browsing context produce no bridge request and keep
/// their default behavior; intercepted anchors are dispatched on whether
/// their address is an in-memory object.
pub fn classify_activation(a: &Anchor) -> (act: Activation)
    ensures
        !is_intercepted(*a) ==> act == Activation::PassThrough,
        is_intercepted(*a) && is_blob_address(a.href@) ==> (act
            matches Activation::FetchAndSave { address } && address@ == a.href@),
        is_intercepted(*a) && !is_blob_address(a.href@) ==> (act
            matches Activation::OpenExternal { request } && request.target@ == a.href@),
        spec_prevents_default(act) == is_intercepted(*a),
{
    let marked_link = match &a.role {
        Some(r) => str_eq(r.as_str(), "link"),
        None => false,
    };
    if !(marked_link && str_eq(a.target.as_str(), "_blank")) {
        return Activation::PassThrough;
    }
    if has_prefix(a.href.as_str(), "blob:") {
        Activation::FetchAndSave { address: a.href.clone() }
    } else {
        Activation::OpenExternal { request: LinkOpenRequest { target: a.href.clone() } }
    }
}

/// The fallback file name used when an anchor carries no usable `download`
/// attribute.
pub open spec fn spec_default_file_name() -> Seq<char> {
    "pobrany_plik"@
}

/// An optional attribute as an optional character sequence.
pub open spec fn attr_view(attr: Option<String>) -> Option<Seq<char>> {
    match attr {
        Some(s) => Some(s@),
        None => None,
    }
}

/// The name a save request starts from: the anchor's `download` attribute,
/// or the fallback when the attribute is absent or empty.
pub open spec fn base_file_name(download: Option<Seq<char>>) -> Seq<char> {
    match download {
        Some(d) => if d.len() == 0 {
            spec_default_file_name()
        } else {
            d
        },
        None => spec_default_file_name(),
    }
}

/// The subtype of a declared media type: the segment after the first `/`,
/// up to the next `/` or the end; empty when the media type has no `/`.
pub open spec fn media_subtype(media: Seq<char>) -> Seq<char> {
    let sep = first_occurrence(media, 0, '/');
    if sep == media.len() {
        Seq::empty()
    } else {
        media.subrange(sep + 1, first_occurrence(media, sep + 1, '/'))
    }
}

/// The file name a save request carries: the base name, with the media
/// subtype appended as an extension when the base name has no `.` and the
/// subtype is not empty.
pub open spec fn resolved_file_name(download: Option<Seq<char>>, media: Seq<char>) -> Seq<char> {
    let base = base_file_name(download);
    if base.contains('.') {
        base
    } else {
        let st = media_subtype(media);
        if st.len() == 0 {
            base
        } else {
            base + seq!['.'] + st
        }
    }
}

/// Derive the file name for a fetched resource from the anchor's `download`
/// attribute and the resource's declared media type.
pub fn resolve_file_name(download: &Option<String>, media_type: &str) -> (name: String)
    ensures
        name@ == resolved_file_name(attr_view(*download), media_type@),
{
    let mut name: String = match download {
        Some(d) => {
            if d.as_str().is_empty() {
                String::from_str("pobrany_plik")
            } else {
                d.clone()
            }
        },
        None => String::from_str("pobrany_plik"),
    };
    if contains_char(name.as_str(), '.') {
        return name;
    }
    let mlen = media_type.unicode_len();
    let sep = find_char_from(media_type, 0, '/');
    proof {
        lemma_first_occurrence(media_type@, 0, '/');
    }
    if sep == mlen {
        return name;
    }
    let sub_end = find_char_from(media_type, sep + 1, '/');
    proof {
        lemma_first_occurrence(media_type@, sep as int + 1, '/');
    }
    if sub_end == sep + 1 {
        return name;
    }
    let subtype = media_type.substring_char(sep + 1, sub_end);
    name.append(".");
    name.append(subtype);
    proof {
        reveal_strlit(".");
        assert("."@ =~= seq!['.']);
    }
    name
}

/// Assemble the save request for a fetched in-memory resource: the derived
/// file name and the fetched bytes, carried over byte-for-byte.
pub fn build_blob_save_request(
    download: &Option<String>,
    media_type: &str,
    file_bytes: Vec<u8>,
) -> (req: BlobSaveRequest)
    ensures
        req.file_name@ == resolved_file_name(attr_view(*download), media_type@),
        req.file_bytes@ == file_bytes@,
{
    let file_name = resolve_file_name(download, media_type);
    BlobSaveRequest { file_name, file_bytes }
}

} // verus!
