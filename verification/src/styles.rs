//! The styles of an image, as the service names them.

use crate::queries::{QeuryValue, ToQueryValue};
use vstd::prelude::*;

verus! {

/// Image style
#[derive(Debug, Clone, Hash, PartialEq, Eq, PartialOrd, Ord)]
pub enum Style {
    /// alternate
    Alternate,
    /// blurred
    Blurred,
    /// white_logo
    WhiteLogo,
    /// material
    Material,
    /// no_logo
    NoLogo,
}

impl ToQueryValue for Style {
    open spec fn query_name(&self) -> Seq<char> {
        "styles"@
    }

    open spec fn query_value(&self) -> Seq<char> {
        match self {
            Style::Alternate => "alternate"@,
            Style::Blurred => "blurred"@,
            Style::WhiteLogo => "white_logo"@,
            Style::Material => "material"@,
            Style::NoLogo => "no_logo"@,
        }
    }

    fn to_query_value(&self) -> (q: QeuryValue) {
        let value: &str = match self {
            Style::Alternate => "alternate",
            Style::Blurred => "blurred",
            Style::WhiteLogo => "white_logo",
            Style::Material => "material",
            Style::NoLogo => "no_logo",
        };
        QeuryValue { name: "styles".to_owned(), value: value.to_owned() }
    }
}

/// Two styles with the same wire value are the same style.
pub proof fn lemma_style_injective(a: Style, b: Style)
    requires
        a.query_value() == b.query_value(),
    ensures
        a == b,
{
    reveal_strlit("alternate");
    reveal_strlit("blurred");
    reveal_strlit("white_logo");
    reveal_strlit("material");
    reveal_strlit("no_logo");
    let (s, t) = (a.query_value(), b.query_value());
    assert(s.len() == t.len());
    assert(s[0] == t[0]);
    assert(s[1] == t[1]);
    assert(s[2] == t[2]);
    assert(s[3] == t[3]);
    assert(s[4] == t[4]);
    assert(s[5] == t[5]);
    assert(s[6] == t[6]);
    assert(s[7] == t[7]);
    assert(s[8] == t[8]);
    assert(s[9] == t[9]);
}

/// Logo style
#[derive(Debug, Clone, Hash, PartialEq, Eq, PartialOrd, Ord)]
pub enum StyleLogo {
    /// official
    Official,
    /// white
    White,
    /// black
    Black,
    /// custom
    Custom,
}

impl ToQueryValue for StyleLogo {
    open spec fn query_name(&self) -> Seq<char> {
        "styles"@
    }

    open spec fn query_value(&self) -> Seq<char> {
        match self {
            StyleLogo::Official => "official"@,
            StyleLogo::White => "white"@,
            StyleLogo::Black => "black"@,
            StyleLogo::Custom => "custom"@,
        }
    }

    fn to_query_value(&self) -> (q: QeuryValue) {
        let value: &str = match self {
            StyleLogo::Official => "official",
            StyleLogo::White => "white",
            StyleLogo::Black => "black",
            StyleLogo::Custom => "custom",
        };
        QeuryValue { name: "styles".to_owned(), value: value.to_owned() }
    }
}

/// Two logo styles with the same wire value are the same style.
pub proof fn lemma_style_logo_injective(a: StyleLogo, b: StyleLogo)
    requires
        a.query_value() == b.query_value(),
    ensures
        a == b,
{
    reveal_strlit("official");
    reveal_strlit("white");
    reveal_strlit("black");
    reveal_strlit("custom");
    let (s, t) = (a.query_value(), b.query_value());
    assert(s.len() == t.len());
    assert(s[0] == t[0]);
    assert(s[1] == t[1]);
    assert(s[2] == t[2]);
    assert(s[3] == t[3]);
    assert(s[4] == t[4]);
    assert(s[5] == t[5]);
    assert(s[6] == t[6]);
    assert(s[7] == t[7]);
}

/// The style of an image of any kind: a logo has a style of its own family.
#[derive(Debug, Clone, Hash, PartialEq, Eq, PartialOrd, Ord)]
pub enum StyleType {
    /// The style of a grid, a hero or an icon.
    Normal(Style),
    /// The style of a logo.
    Logo(StyleLogo),
}

} // verus!
