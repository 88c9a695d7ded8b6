//! Mod metadata assembly: choosing an icon entry and rendering it as an
//! embeddable data URL.
//!
//! The caller reads the mod archive and parses its descriptor; this module
//! holds the decisions: which icon path a descriptor selects, and how icon
//! bytes become the `icon` field of the returned metadata.

use vstd::prelude::*;

verus! {

/// The padded standard base64 rendering of a byte string.
pub uninterp spec fn base64_of(bytes: Seq<u8>) -> Seq<char>;

/// Relies on base64's STANDARD engine (Engine::encode): the padded
/// standard-alphabet base64 rendering, a function of the input bytes alone.
#[verifier::external_body]
fn base64_encode(data: &Vec<u8>) -> (r: String)
    ensures
        r@ == base64_of(data@),
        data@.len() == 0 ==> r@.len() == 0,
{
    base64::Engine::encode(&base64::engine::general_purpose::STANDARD, data.as_slice())
}

/// A mod's displayed metadata; the icon is an embeddable data URL.
#[derive(Clone, Debug, PartialEq, Eq)]
pub struct ModMetadata {
    pub name: Option<String>,
    pub description: Option<String>,
    pub version: Option<String>,
    pub icon: Option<String>,
}

/// What a mod descriptor says about its icon: a single archive path, a
/// table of paths by icon size, or something the launcher does not read.
#[derive(Clone, Debug, PartialEq, Eq)]
pub enum IconSpec {
    /// The descriptor names one icon path.
    Path(String),
    /// The descriptor maps icon sizes to paths; the launcher considers the
    /// 128, 64 and 32 pixel entries, largest first.
    Sizes { large: Option<String>, medium: Option<String>, small: Option<String> },
    /// Any other descriptor shape; no icon is extracted.
    Unsupported,
}

/// The archive path the icon is read from, by the descriptor's shape: the
/// named path, or the largest size present, or none.
pub open spec fn icon_path_of(icon: IconSpec) -> Option<String> {
    match icon {
        IconSpec::Path(p) => Some(p),
        IconSpec::Sizes { large, medium, small } => if large is Some {
            large
        } else if medium is Some {
            medium
        } else {
            small
        },
        IconSpec::Unsupported => None,
    }
}

/// Selects which archive path the icon is read from.
pub fn select_icon_path(icon: IconSpec) -> (r: Option<String>)
    ensures
        r == icon_path_of(icon),
{
    match icon {
        IconSpec::Path(p) => Some(p),
        IconSpec::Sizes { large, medium, small } => match large {
            Some(l) => Some(l),
            None => match medium {
                Some(m) => Some(m),
                None => small,
            },
        },
        IconSpec::Unsupported => None,
    }
}

/// Renders icon bytes as a PNG data URL for direct display.
pub fn icon_data_url(data: &Vec<u8>) -> (r: String)
    ensures
        r@ == "data:image/png;base64,"@ + base64_of(data@),
{
    let mut s = "data:image/png;base64,".to_owned();
    let b64 = base64_encode(data);
    s.append(b64.as_str());
    s
}

/// Assembles the metadata returned for one mod: the descriptor's fields,
/// and the icon bytes — when the archive held any — rendered as a data URL.
pub fn assemble_metadata(
    name: Option<String>,
    description: Option<String>,
    version: Option<String>,
    icon_bytes: Option<Vec<u8>>,
) -> (r: ModMetadata)
    ensures
        r.name == name,
        r.description == description,
        r.version == version,
        icon_bytes is None ==> r.icon is None,
        icon_bytes matches Some(b) ==> r.icon matches Some(u) && u@ == "data:image/png;base64,"@
            + base64_of(b@),
{
    let icon = match icon_bytes {
        Some(b) => Some(icon_data_url(&b)),
        None => None,
    };
    ModMetadata { name, description, version, icon }
}

} // verus!
