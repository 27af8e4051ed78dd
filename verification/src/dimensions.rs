//! The image sizes that the service knows, per kind of image.

use crate::queries::{QeuryValue, ToQueryValue};
use vstd::prelude::*;

verus! {

/// Grid dimentions
#[derive(Debug, Clone, Hash, PartialEq, Eq, PartialOrd, Ord)]
pub enum GridDimentions {
    /// 460x215
    D460x215,
    /// 920x430
    D920x430,
    /// 600x900
    D600x900,
    /// 342x482
    D342x482,
    /// 660x930
    D660x930,
    /// 512x512
    D512x512,
    /// 1024x1024
    D1024x1024,
}

impl ToQueryValue for GridDimentions {
    open spec fn query_name(&self) -> Seq<char> {
        "dimensions"@
    }

    open spec fn query_value(&self) -> Seq<char> {
        match self {
            GridDimentions::D460x215 => "460x215"@,
            GridDimentions::D920x430 => "920x430"@,
            GridDimentions::D600x900 => "600x900"@,
            GridDimentions::D342x482 => "342x482"@,
            GridDimentions::D660x930 => "660x930"@,
            GridDimentions::D512x512 => "512x512"@,
            GridDimentions::D1024x1024 => "1024x1024"@,
        }
    }

    fn to_query_value(&self) -> (q: QeuryValue) {
        let value: &str = match self {
            GridDimentions::D460x215 => "460x215",
            GridDimentions::D920x430 => "920x430",
            GridDimentions::D600x900 => "600x900",
            GridDimentions::D342x482 => "342x482",
            GridDimentions::D660x930 => "660x930",
            GridDimentions::D512x512 => "512x512",
            GridDimentions::D1024x1024 => "1024x1024",
        };
        QeuryValue { name: "dimensions".to_owned(), value: value.to_owned() }
    }
}

/// Two grid sizes with the same wire value are the same size.
pub proof fn lemma_grid_dimensions_injective(a: GridDimentions, b: GridDimentions)
    requires
        a.query_value() == b.query_value(),
    ensures
        a == b,
{
    reveal_strlit("460x215");
    reveal_strlit("920x430");
    reveal_strlit("600x900");
    reveal_strlit("342x482");
    reveal_strlit("660x930");
    reveal_strlit("512x512");
    reveal_strlit("1024x1024");
    let (s, t) = (a.query_value(), b.query_value());
    assert(s.len() == t.len());
    assert(s[0] == t[0]);
    assert(s[1] == t[1]);
    assert(s[2] == t[2]);
    assert(s[3] == t[3]);
    assert(s[4] == t[4]);
    assert(s[5] == t[5]);
    assert(s[6] == t[6]);
    assert(s[7] == t[7]);
    assert(s[8] == t[8]);
}

/// Hero dimentions
#[derive(Debug, Clone, Hash, PartialEq, Eq, PartialOrd, Ord)]
pub enum HeroDimentions {
    /// 1920x620
    D1920x620,
    /// 3840x1240
    D3840x1240,
    /// 1600x650
    D1600x650,
}

impl ToQueryValue for HeroDimentions {
    open spec fn query_name(&self) -> Seq<char> {
        "dimensions"@
    }

    open spec fn query_value(&self) -> Seq<char> {
        match self {
            HeroDimentions::D1920x620 => "1920x620"@,
            HeroDimentions::D3840x1240 => "3840x1240"@,
            HeroDimentions::D1600x650 => "1600x650"@,
        }
    }

    fn to_query_value(&self) -> (q: QeuryValue) {
        let value: &str = match self {
            HeroDimentions::D1920x620 => "1920x620",
            HeroDimentions::D3840x1240 => "3840x1240",
            HeroDimentions::D1600x650 => "1600x650",
        };
        QeuryValue { name: "dimensions".to_owned(), value: value.to_owned() }
    }
}

/// Two hero sizes with the same wire value are the same size.
pub proof fn lemma_hero_dimensions_injective(a: HeroDimentions, b: HeroDimentions)
    requires
        a.query_value() == b.query_value(),
    ensures
        a == b,
{
    reveal_strlit("1920x620");
    reveal_strlit("3840x1240");
    reveal_strlit("1600x650");
    let (s, t) = (a.query_value(), b.query_value());
    assert(s.len() == t.len());
    assert(s[0] == t[0]);
    assert(s[1] == t[1]);
    assert(s[2] == t[2]);
    assert(s[3] == t[3]);
    assert(s[4] == t[4]);
    assert(s[5] == t[5]);
    assert(s[6] == t[6]);
    assert(s[7] == t[7]);
    assert(s[8] == t[8]);
}

/// Icon dimentions
#[derive(Debug, Clone, Hash, PartialEq, Eq, PartialOrd, Ord)]
pub enum IconDimensions {
    /// 16x16
    D16x16,
    /// 20x20
    D20x20,
    /// 24x24
    D24x24,
    /// 28x28
    D28x28,
    /// 32x32
    D32x32,
    /// 40x40
    D40x40,
    /// 48x48
    D48x48,
    /// 54x54
    D54x54,
    /// 57x57
    D57x57,
    /// 60x60
    D60x60,
    /// 64x64
    D64x64,
    /// 72x72
    D72x72,
    /// 76x76
    D76x76,
    /// 80x80
    D80x80,
    /// 96x96
    D96x96,
    /// 114x114
    D114x114,
    /// 120x120
    D120x120,
    /// 128x128
    D128x128,
    /// 144x144
    D144x144,
    /// 152x152
    D152x152,
    /// 160x160
    D160x160,
    /// 180x180
    D180x180,
    /// 192x192
    D192x192,
    /// 194x194
    D194x194,
    /// 256x256
    D256x256,
    /// 512x512
    D512x512,
    /// 768x768
    D768x768,
    /// 1024x1024
    D1024x1024,
}

impl ToQueryValue for IconDimensions {
    open spec fn query_name(&self) -> Seq<char> {
        "dimensions"@
    }

    open spec fn query_value(&self) -> Seq<char> {
        match self {
            IconDimensions::D16x16 => "16x16"@,
            IconDimensions::D20x20 => "20x20"@,
            IconDimensions::D24x24 => "24x24"@,
            IconDimensions::D28x28 => "28x28"@,
            IconDimensions::D32x32 => "32x32"@,
            IconDimensions::D40x40 => "40x40"@,
            IconDimensions::D48x48 => "48x48"@,
            IconDimensions::D54x54 => "54x54"@,
            IconDimensions::D57x57 => "57x57"@,
            IconDimensions::D60x60 => "60x60"@,
            IconDimensions::D64x64 => "64x64"@,
            IconDimensions::D72x72 => "72x72"@,
            IconDimensions::D76x76 => "76x76"@,
            IconDimensions::D80x80 => "80x80"@,
            IconDimensions::D96x96 => "96x96"@,
            IconDimensions::D114x114 => "114x114"@,
            IconDimensions::D120x120 => "120x120"@,
            IconDimensions::D128x128 => "128x128"@,
            IconDimensions::D144x144 => "144x144"@,
            IconDimensions::D152x152 => "152x152"@,
            IconDimensions::D160x160 => "160x160"@,
            IconDimensions::D180x180 => "180x180"@,
            IconDimensions::D192x192 => "192x192"@,
            IconDimensions::D194x194 => "194x194"@,
            IconDimensions::D256x256 => "256x256"@,
            IconDimensions::D512x512 => "512x512"@,
            IconDimensions::D768x768 => "768x768"@,
            IconDimensions::D1024x1024 => "1024x1024"@,
        }
    }

    fn to_query_value(&self) -> (q: QeuryValue) {
        let value: &str = match self {
            IconDimensions::D16x16 => "16x16",
            IconDimensions::D20x20 => "20x20",
            IconDimensions::D24x24 => "24x24",
            IconDimensions::D28x28 => "28x28",
            IconDimensions::D32x32 => "32x32",
            IconDimensions::D40x40 => "40x40",
            IconDimensions::D48x48 => "48x48",
            IconDimensions::D54x54 => "54x54",
            IconDimensions::D57x57 => "57x57",
            IconDimensions::D60x60 => "60x60",
            IconDimensions::D64x64 => "64x64",
            IconDimensions::D72x72 => "72x72",
            IconDimensions::D76x76 => "76x76",
            IconDimensions::D80x80 => "80x80",
            IconDimensions::D96x96 => "96x96",
            IconDimensions::D114x114 => "114x114",
            IconDimensions::D120x120 => "120x120",
            IconDimensions::D128x128 => "128x128",
            IconDimensions::D144x144 => "144x144",
            IconDimensions::D152x152 => "152x152",
            IconDimensions::D160x160 => "160x160",
            IconDimensions::D180x180 => "180x180",
            IconDimensions::D192x192 => "192x192",
            IconDimensions::D194x194 => "194x194",
            IconDimensions::D256x256 => "256x256",
            IconDimensions::D512x512 => "512x512",
            IconDimensions::D768x768 => "768x768",
            IconDimensions::D1024x1024 => "1024x1024",
        };
        QeuryValue { name: "dimensions".to_owned(), value: value.to_owned() }
    }
}

/// Two icon sizes with the same wire value are the same size.
pub proof fn lemma_icon_dimensions_injective(a: IconDimensions, b: IconDimensions)
    requires
        a.query_value() == b.query_value(),
    ensures
        a == b,
{
    reveal_strlit("16x16");
    reveal_strlit("20x20");
    reveal_strlit("24x24");
    reveal_strlit("28x28");
    reveal_strlit("32x32");
    reveal_strlit("40x40");
    reveal_strlit("48x48");
    reveal_strlit("54x54");
    reveal_strlit("57x57");
    reveal_strlit("60x60");
    reveal_strlit("64x64");
    reveal_strlit("72x72");
    reveal_strlit("76x76");
    reveal_strlit("80x80");
    reveal_strlit("96x96");
    reveal_strlit("114x114");
    reveal_strlit("120x120");
    reveal_strlit("128x128");
    reveal_strlit("144x144");
    reveal_strlit("152x152");
    reveal_strlit("160x160");
    reveal_strlit("180x180");
    reveal_strlit("192x192");
    reveal_strlit("194x194");
    reveal_strlit("256x256");
    reveal_strlit("512x512");
    reveal_strlit("768x768");
    reveal_strlit("1024x1024");
    let (s, t) = (a.query_value(), b.query_value());
    assert(s.len() == t.len());
    assert(s[0] == t[0]);
    assert(s[1] == t[1]);
    assert(s[2] == t[2]);
    assert(s[3] == t[3]);
    assert(s[4] == t[4]);
    assert(s[5] == t[5]);
    assert(s[6] == t[6]);
    assert(s[7] == t[7]);
    assert(s[8] == t[8]);
}

} // verus!
