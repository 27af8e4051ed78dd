//! The filters that every kind of image shares.

use crate::queries::{QeuryValue, ToQueryValue};
use vstd::prelude::*;

verus! {

/// Mime types
#[derive(Debug, Clone, Hash, PartialEq, Eq, PartialOrd, Ord)]
pub enum MimeType {
    /// image/png
    Png,
    /// image/jpeg
    Jpeg,
    /// image/webp
    Webp,
}

impl ToQueryValue for MimeType {
    open spec fn query_name(&self) -> Seq<char> {
        "mimes"@
    }

    open spec fn query_value(&self) -> Seq<char> {
        match self {
            MimeType::Png => "image/png"@,
            MimeType::Jpeg => "image/jpeg"@,
            MimeType::Webp => "image/webp"@,
        }
    }

    fn to_query_value(&self) -> (q: QeuryValue) {
        let value: &str = match self {
            MimeType::Png => "image/png",
            MimeType::Jpeg => "image/jpeg",
            MimeType::Webp => "image/webp",
        };
        QeuryValue { name: "mimes".to_owned(), value: value.to_owned() }
    }
}

/// Two mime types with the same wire value are the same mime type.
pub proof fn lemma_mime_type_injective(a: MimeType, b: MimeType)
    requires
        a.query_value() == b.query_value(),
    ensures
        a == b,
{
    reveal_strlit("image/png");
    reveal_strlit("image/jpeg");
    reveal_strlit("image/webp");
    let (s, t) = (a.query_value(), b.query_value());
    assert(s.len() == t.len());
    assert(s[0] == t[0]);
    assert(s[1] == t[1]);
    assert(s[2] == t[2]);
    assert(s[3] == t[3]);
    assert(s[4] == t[4]);
    assert(s[5] == t[5]);
    assert(s[6] == t[6]);
    assert(s[7] == t[7]);
    assert(s[8] == t[8]);
    assert(s[9] == t[9]);
}

/// Mime types for logos
#[derive(Debug, Clone, Hash, PartialEq, Eq, PartialOrd, Ord)]
pub enum MimeTypeLogo {
    /// image/png
    Png,
    /// image/webp
    Webp,
}

impl ToQueryValue for MimeTypeLogo {
    open spec fn query_name(&self) -> Seq<char> {
        "mimes"@
    }

    open spec fn query_value(&self) -> Seq<char> {
        match self {
            MimeTypeLogo::Png => "image/png"@,
            MimeTypeLogo::Webp => "image/webp"@,
        }
    }

    fn to_query_value(&self) -> (q: QeuryValue) {
        let value: &str = match self {
            MimeTypeLogo::Png => "image/png",
            MimeTypeLogo::Webp => "image/webp",
        };
        QeuryValue { name: "mimes".to_owned(), value: value.to_owned() }
    }
}

/// Two logo mime types with the same wire value are the same mime type.
pub proof fn lemma_mime_type_logo_injective(a: MimeTypeLogo, b: MimeTypeLogo)
    requires
        a.query_value() == b.query_value(),
    ensures
        a == b,
{
    reveal_strlit("image/png");
    reveal_strlit("image/webp");
    let (s, t) = (a.query_value(), b.query_value());
    assert(s.len() == t.len());
    assert(s[0] == t[0]);
    assert(s[1] == t[1]);
    assert(s[2] == t[2]);
    assert(s[3] == t[3]);
    assert(s[4] == t[4]);
    assert(s[5] == t[5]);
    assert(s[6] == t[6]);
    assert(s[7] == t[7]);
    assert(s[8] == t[8]);
    assert(s[9] == t[9]);
}

/// Mime types for icons
#[derive(Debug, Clone, Hash, PartialEq, Eq, PartialOrd, Ord)]
pub enum MimeTypeIcon {
    /// image/png
    Png,
    /// image/vnd.microsoft.icon
    Icon,
}

impl ToQueryValue for MimeTypeIcon {
    open spec fn query_name(&self) -> Seq<char> {
        "mimes"@
    }

    open spec fn query_value(&self) -> Seq<char> {
        match self {
            MimeTypeIcon::Png => "image/png"@,
            MimeTypeIcon::Icon => "image/vnd.microsoft.icon"@,
        }
    }

    fn to_query_value(&self) -> (q: QeuryValue) {
        let value: &str = match self {
            MimeTypeIcon::Png => "image/png",
            MimeTypeIcon::Icon => "image/vnd.microsoft.icon",
        };
        QeuryValue { name: "mimes".to_owned(), value: value.to_owned() }
    }
}

/// Two icon mime types with the same wire value are the same mime type.
pub proof fn lemma_mime_type_icon_injective(a: MimeTypeIcon, b: MimeTypeIcon)
    requires
        a.query_value() == b.query_value(),
    ensures
        a == b,
{
    reveal_strlit("image/png");
    reveal_strlit("image/vnd.microsoft.icon");
    let (s, t) = (a.query_value(), b.query_value());
    assert(s.len() == t.len());
    assert(s[0] == t[0]);
    assert(s[1] == t[1]);
    assert(s[2] == t[2]);
    assert(s[3] == t[3]);
    assert(s[4] == t[4]);
    assert(s[5] == t[5]);
    assert(s[6] == t[6]);
    assert(s[7] == t[7]);
    assert(s[8] == t[8]);
    assert(s[9] == t[9]);
    assert(s[10] == t[10]);
    assert(s[11] == t[11]);
    assert(s[12] == t[12]);
    assert(s[13] == t[13]);
    assert(s[14] == t[14]);
    assert(s[15] == t[15]);
    assert(s[16] == t[16]);
    assert(s[17] == t[17]);
    assert(s[18] == t[18]);
    assert(s[19] == t[19]);
    assert(s[20] == t[20]);
    assert(s[21] == t[21]);
    assert(s[22] == t[22]);
    assert(s[23] == t[23]);
}

/// Image animation types
#[derive(Debug)]
pub enum ImageType {
    /// Still images
    Static,
    /// Animated images
    Animated,
}

impl ToQueryValue for ImageType {
    open spec fn query_name(&self) -> Seq<char> {
        "image_type"@
    }

    open spec fn query_value(&self) -> Seq<char> {
        match self {
            ImageType::Static => "static"@,
            ImageType::Animated => "animated"@,
        }
    }

    fn to_query_value(&self) -> (q: QeuryValue) {
        let value: &str = match self {
            ImageType::Static => "static",
            ImageType::Animated => "animated",
        };
        QeuryValue { name: "image_type".to_owned(), value: value.to_owned() }
    }
}

/// Two image types with the same wire value are the same image type.
pub proof fn lemma_image_type_injective(a: ImageType, b: ImageType)
    requires
        a.query_value() == b.query_value(),
    ensures
        a == b,
{
    reveal_strlit("static");
    reveal_strlit("animated");
    let (s, t) = (a.query_value(), b.query_value());
    assert(s.len() == t.len());
    assert(s[0] == t[0]);
    assert(s[1] == t[1]);
    assert(s[2] == t[2]);
    assert(s[3] == t[3]);
    assert(s[4] == t[4]);
    assert(s[5] == t[5]);
    assert(s[6] == t[6]);
    assert(s[7] == t[7]);
}

/// Is the image Not Safe For Work
#[derive(Debug, Clone, Hash, PartialEq, Eq, PartialOrd, Ord)]
pub enum Nsfw {
    /// Only images that are not safe for work
    True,
    /// Only images that are safe for work
    False,
    /// Images of both kinds
    Any,
}

impl ToQueryValue for Nsfw {
    open spec fn query_name(&self) -> Seq<char> {
        "nsfw"@
    }

    open spec fn query_value(&self) -> Seq<char> {
        match self {
            Nsfw::True => "true"@,
            Nsfw::False => "false"@,
            Nsfw::Any => "any"@,
        }
    }

    fn to_query_value(&self) -> (q: QeuryValue) {
        let value: &str = match self {
            Nsfw::True => "true",
            Nsfw::False => "false",
            Nsfw::Any => "any",
        };
        QeuryValue { name: "nsfw".to_owned(), value: value.to_owned() }
    }
}

/// Two nsfw filters with the same wire value are the same filter.
pub proof fn lemma_nsfw_injective(a: Nsfw, b: Nsfw)
    requires
        a.query_value() == b.query_value(),
    ensures
        a == b,
{
    reveal_strlit("true");
    reveal_strlit("false");
    reveal_strlit("any");
    let (s, t) = (a.query_value(), b.query_value());
    assert(s.len() == t.len());
    assert(s[0] == t[0]);
    assert(s[1] == t[1]);
    assert(s[2] == t[2]);
    assert(s[3] == t[3]);
    assert(s[4] == t[4]);
}

/// Is the image houmerous
#[derive(Debug, Clone, Hash, PartialEq, Eq, PartialOrd, Ord)]
pub enum Humor {
    /// Only humorous images
    True,
    /// Only images that are not humorous
    False,
    /// Images of both kinds
    Any,
}

impl ToQueryValue for Humor {
    open spec fn query_name(&self) -> Seq<char> {
        "humor"@
    }

    open spec fn query_value(&self) -> Seq<char> {
        match self {
            Humor::True => "true"@,
            Humor::False => "false"@,
            Humor::Any => "any"@,
        }
    }

    fn to_query_value(&self) -> (q: QeuryValue) {
        let value: &str = match self {
            Humor::True => "true",
            Humor::False => "false",
            Humor::Any => "any",
        };
        QeuryValue { name: "humor".to_owned(), value: value.to_owned() }
    }
}

/// Two humor filters with the same wire value are the same filter.
pub proof fn lemma_humor_injective(a: Humor, b: Humor)
    requires
        a.query_value() == b.query_value(),
    ensures
        a == b,
{
    reveal_strlit("true");
    reveal_strlit("false");
    reveal_strlit("any");
    let (s, t) = (a.query_value(), b.query_value());
    assert(s.len() == t.len());
    assert(s[0] == t[0]);
    assert(s[1] == t[1]);
    assert(s[2] == t[2]);
    assert(s[3] == t[3]);
    assert(s[4] == t[4]);
}

/// Image animation types
#[derive(Debug, Clone, Hash, PartialEq, Eq, PartialOrd, Ord)]
pub enum AnimtionType {
    /// Still images
    Static,
    /// Animated images
    Animated,
}

impl ToQueryValue for AnimtionType {
    open spec fn query_name(&self) -> Seq<char> {
        "types"@
    }

    open spec fn query_value(&self) -> Seq<char> {
        match self {
            AnimtionType::Static => "static"@,
            AnimtionType::Animated => "animated"@,
        }
    }

    fn to_query_value(&self) -> (q: QeuryValue) {
        let value: &str = match self {
            AnimtionType::Static => "static",
            AnimtionType::Animated => "animated",
        };
        QeuryValue { name: "types".to_owned(), value: value.to_owned() }
    }
}

/// Two animation types with the same wire value are the same animation type.
pub proof fn lemma_animation_type_injective(a: AnimtionType, b: AnimtionType)
    requires
        a.query_value() == b.query_value(),
    ensures
        a == b,
{
    reveal_strlit("static");
    reveal_strlit("animated");
    let (s, t) = (a.query_value(), b.query_value());
    assert(s.len() == t.len());
    assert(s[0] == t[0]);
    assert(s[1] == t[1]);
    assert(s[2] == t[2]);
    assert(s[3] == t[3]);
    assert(s[4] == t[4]);
    assert(s[5] == t[5]);
    assert(s[6] == t[6]);
    assert(s[7] == t[7]);
}

} // verus!
