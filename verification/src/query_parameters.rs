//! The filters of an image request, per kind of image.
//!
//! Each kind of image has its own set of filters. A set renders its filters
//! in one fixed order (styles, dimensions, mimes, types, nsfw, humor), so
//! the same set always gives the same query string.

pub use crate::dimensions::{GridDimentions, HeroDimentions, IconDimensions};
pub use crate::platforms::Platform;
use crate::queries::{
    leading, lemma_query_of_nothing, lemma_query_of_two_present, list_term, list_view,
    parameters_to_qeury, query_of, single_term, single_view, to_qeury_string,
    to_qeury_string_single, trailing, ToQuerys,
};
pub use crate::shared_settings::{
    AnimtionType, Humor, ImageType, MimeType, MimeTypeIcon, MimeTypeLogo, Nsfw,
};
pub use crate::styles::{Style, StyleLogo, StyleType};
use vstd::prelude::*;

verus! {

/// Query type for each image type
pub enum QueryType<'a> {
    /// Query for grid images
    Grid(Option<GridQueryParameters<'a>>),
    /// Query for hero images
    Hero(Option<HeroQueryParameters<'a>>),
    /// Query for logo images
    Logo(Option<LogoQueryParameters<'a>>),
    /// Query for icon images
    Icon(Option<IconQueryParameters<'a>>),
}

/// Qeury parameters for hero images
pub struct HeroQueryParameters<'a> {
    /// The hero styles
    pub styles: Option<&'a [Style]>,
    /// The Hero dimentions
    pub dimentions: Option<&'a [HeroDimentions]>,
    /// The mime types
    pub mimes: Option<&'a [MimeType]>,
    /// The image animation type
    pub types: Option<&'a [AnimtionType]>,
    /// If Not Safe For Work images are allowed
    pub nsfw: Option<&'a Nsfw>,
    /// If humor images are allowed
    pub humor: Option<&'a Humor>,
}

/// Qeury parameters for grid images
pub struct GridQueryParameters<'a> {
    /// The grid styles
    pub styles: Option<&'a [Style]>,
    /// The grid dimentions
    pub dimentions: Option<&'a [GridDimentions]>,
    /// The mime types
    pub mimes: Option<&'a [MimeType]>,
    /// The image animation type
    pub types: Option<&'a [AnimtionType]>,
    /// If Not Safe For Work images are allowed
    pub nsfw: Option<&'a Nsfw>,
    /// If humor images are allowed
    pub humor: Option<&'a Humor>,
}

/// Qeury parameters for logo images
pub struct LogoQueryParameters<'a> {
    /// The logo styles
    pub styles: Option<&'a [Style]>,
    /// The mime types
    pub mimes: Option<&'a [MimeTypeLogo]>,
    /// The image animation type
    pub types: Option<&'a [AnimtionType]>,
    /// If Not Safe For Work images are allowed
    pub nsfw: Option<&'a Nsfw>,
    /// If humor images are allowed
    pub humor: Option<&'a Humor>,
}

/// Qeury parameters for icon images
pub struct IconQueryParameters<'a> {
    /// The icon styles
    pub styles: Option<&'a [Style]>,
    /// The mime types
    pub mimes: Option<&'a [MimeTypeIcon]>,
    /// The image animation type
    pub types: Option<&'a [AnimtionType]>,
    /// If Not Safe For Work images are allowed
    pub nsfw: Option<&'a Nsfw>,
    /// If humor images are allowed
    pub humor: Option<&'a Humor>,
}

/// The filters of a hero request as plain values.
pub struct HeroFilters {
    pub styles: Option<Seq<Style>>,
    pub dimentions: Option<Seq<HeroDimentions>>,
    pub mimes: Option<Seq<MimeType>>,
    pub types: Option<Seq<AnimtionType>>,
    pub nsfw: Option<Nsfw>,
    pub humor: Option<Humor>,
}

/// The filters of a grid request as plain values.
pub struct GridFilters {
    pub styles: Option<Seq<Style>>,
    pub dimentions: Option<Seq<GridDimentions>>,
    pub mimes: Option<Seq<MimeType>>,
    pub types: Option<Seq<AnimtionType>>,
    pub nsfw: Option<Nsfw>,
    pub humor: Option<Humor>,
}

/// The filters of a logo request as plain values.
pub struct LogoFilters {
    pub styles: Option<Seq<Style>>,
    pub mimes: Option<Seq<MimeTypeLogo>>,
    pub types: Option<Seq<AnimtionType>>,
    pub nsfw: Option<Nsfw>,
    pub humor: Option<Humor>,
}

/// The filters of an icon request as plain values.
pub struct IconFilters {
    pub styles: Option<Seq<Style>>,
    pub mimes: Option<Seq<MimeTypeIcon>>,
    pub types: Option<Seq<AnimtionType>>,
    pub nsfw: Option<Nsfw>,
    pub humor: Option<Humor>,
}

/// The kind of image of a request with its filters, as plain values.
pub enum QueryFilters {
    Grid(Option<GridFilters>),
    Hero(Option<HeroFilters>),
    Logo(Option<LogoFilters>),
    Icon(Option<IconFilters>),
}

/// Tells whether a list filter is left out: absent, or present and empty.
pub open spec fn left_out<T>(items: Option<Seq<T>>) -> bool {
    items is None || items->0.len() == 0
}

impl HeroFilters {
    /// Tells whether no filter is set.
    pub open spec fn has_no_filter(self) -> bool {
        &&& left_out(self.styles)
        &&& left_out(self.dimentions)
        &&& left_out(self.mimes)
        &&& left_out(self.types)
        &&& self.nsfw is None
        &&& self.humor is None
    }

    /// The fragment of each filter, in the order in which they render.
    pub open spec fn fragments(self) -> Seq<Option<Seq<char>>> {
        seq![
            list_term(self.styles),
            list_term(self.dimentions),
            list_term(self.mimes),
            list_term(self.types),
            single_term(self.nsfw),
            single_term(self.humor),
        ]
    }

    /// The query string of these filters.
    pub open spec fn querys(self) -> Seq<char> {
        query_of(self.fragments())
    }
}

impl GridFilters {
    /// Tells whether no filter is set.
    pub open spec fn has_no_filter(self) -> bool {
        &&& left_out(self.styles)
        &&& left_out(self.dimentions)
        &&& left_out(self.mimes)
        &&& left_out(self.types)
        &&& self.nsfw is None
        &&& self.humor is None
    }

    /// The fragment of each filter, in the order in which they render.
    pub open spec fn fragments(self) -> Seq<Option<Seq<char>>> {
        seq![
            list_term(self.styles),
            list_term(self.dimentions),
            list_term(self.mimes),
            list_term(self.types),
            single_term(self.nsfw),
            single_term(self.humor),
        ]
    }

    /// The query string of these filters.
    pub open spec fn querys(self) -> Seq<char> {
        query_of(self.fragments())
    }
}

impl LogoFilters {
    /// Tells whether no filter is set.
    pub open spec fn has_no_filter(self) -> bool {
        &&& left_out(self.styles)
        &&& left_out(self.mimes)
        &&& left_out(self.types)
        &&& self.nsfw is None
        &&& self.humor is None
    }

    /// The fragment of each filter, in the order in which they render.
    pub open spec fn fragments(self) -> Seq<Option<Seq<char>>> {
        seq![
            list_term(self.styles),
            list_term(self.mimes),
            list_term(self.types),
            single_term(self.nsfw),
            single_term(self.humor),
        ]
    }

    /// The query string of these filters.
    pub open spec fn querys(self) -> Seq<char> {
        query_of(self.fragments())
    }
}

impl IconFilters {
    /// Tells whether no filter is set.
    pub open spec fn has_no_filter(self) -> bool {
        &&& left_out(self.styles)
        &&& left_out(self.mimes)
        &&& left_out(self.types)
        &&& self.nsfw is None
        &&& self.humor is None
    }

    /// The fragment of each filter, in the order in which they render.
    pub open spec fn fragments(self) -> Seq<Option<Seq<char>>> {
        seq![
            list_term(self.styles),
            list_term(self.mimes),
            list_term(self.types),
            single_term(self.nsfw),
            single_term(self.humor),
        ]
    }

    /// The query string of these filters.
    pub open spec fn querys(self) -> Seq<char> {
        query_of(self.fragments())
    }
}

impl QueryFilters {
    /// The query string of a request: that of its filters, and the empty
    /// string for a request without filters.
    pub open spec fn querys(self) -> Seq<char> {
        match self {
            QueryFilters::Grid(Some(filters)) => filters.querys(),
            QueryFilters::Hero(Some(filters)) => filters.querys(),
            QueryFilters::Logo(Some(filters)) => filters.querys(),
            QueryFilters::Icon(Some(filters)) => filters.querys(),
            _ => Seq::empty(),
        }
    }
}

impl<'a> View for QueryType<'a> {
    type V = QueryFilters;

    open spec fn view(&self) -> QueryFilters {
        match self {
            QueryType::Grid(Some(parameters)) => QueryFilters::Grid(Some(parameters@)),
            QueryType::Grid(None) => QueryFilters::Grid(None),
            QueryType::Hero(Some(parameters)) => QueryFilters::Hero(Some(parameters@)),
            QueryType::Hero(None) => QueryFilters::Hero(None),
            QueryType::Logo(Some(parameters)) => QueryFilters::Logo(Some(parameters@)),
            QueryType::Logo(None) => QueryFilters::Logo(None),
            QueryType::Icon(Some(parameters)) => QueryFilters::Icon(Some(parameters@)),
            QueryType::Icon(None) => QueryFilters::Icon(None),
        }
    }
}

impl<'a> View for HeroQueryParameters<'a> {
    type V = HeroFilters;

    open spec fn view(&self) -> HeroFilters {
        HeroFilters {
            styles: list_view(self.styles),
            dimentions: list_view(self.dimentions),
            mimes: list_view(self.mimes),
            types: list_view(self.types),
            nsfw: single_view(self.nsfw),
            humor: single_view(self.humor),
        }
    }
}

impl<'a> View for GridQueryParameters<'a> {
    type V = GridFilters;

    open spec fn view(&self) -> GridFilters {
        GridFilters {
            styles: list_view(self.styles),
            dimentions: list_view(self.dimentions),
            mimes: list_view(self.mimes),
            types: list_view(self.types),
            nsfw: single_view(self.nsfw),
            humor: single_view(self.humor),
        }
    }
}

impl<'a> View for LogoQueryParameters<'a> {
    type V = LogoFilters;

    open spec fn view(&self) -> LogoFilters {
        LogoFilters {
            styles: list_view(self.styles),
            mimes: list_view(self.mimes),
            types: list_view(self.types),
            nsfw: single_view(self.nsfw),
            humor: single_view(self.humor),
        }
    }
}

impl<'a> View for IconQueryParameters<'a> {
    type V = IconFilters;

    open spec fn view(&self) -> IconFilters {
        IconFilters {
            styles: list_view(self.styles),
            mimes: list_view(self.mimes),
            types: list_view(self.types),
            nsfw: single_view(self.nsfw),
            humor: single_view(self.humor),
        }
    }
}

impl<'a> Default for HeroQueryParameters<'a> {
    /// A request without any filter.
    fn default() -> (p: Self)
        ensures
            p.styles is None,
            p.dimentions is None,
            p.mimes is None,
            p.types is None,
            p.nsfw is None,
            p.humor is None,
    {
        HeroQueryParameters {
            styles: None,
            dimentions: None,
            mimes: None,
            types: None,
            nsfw: None,
            humor: None,
        }
    }
}

impl<'a> Default for GridQueryParameters<'a> {
    /// A request without any filter.
    fn default() -> (p: Self)
        ensures
            p.styles is None,
            p.dimentions is None,
            p.mimes is None,
            p.types is None,
            p.nsfw is None,
            p.humor is None,
    {
        GridQueryParameters {
            styles: None,
            dimentions: None,
            mimes: None,
            types: None,
            nsfw: None,
            humor: None,
        }
    }
}

impl<'a> Default for LogoQueryParameters<'a> {
    /// A request without any filter.
    fn default() -> (p: Self)
        ensures
            p.styles is None,
            p.mimes is None,
            p.types is None,
            p.nsfw is None,
            p.humor is None,
    {
        LogoQueryParameters { styles: None, mimes: None, types: None, nsfw: None, humor: None }
    }
}

impl<'a> Default for IconQueryParameters<'a> {
    /// A request without any filter.
    fn default() -> (p: Self)
        ensures
            p.styles is None,
            p.mimes is None,
            p.types is None,
            p.nsfw is None,
            p.humor is None,
    {
        IconQueryParameters { styles: None, mimes: None, types: None, nsfw: None, humor: None }
    }
}

impl ToQuerys for HeroQueryParameters<'_> {
    open spec fn querys(&self) -> Seq<char> {
        self@.querys()
    }

    fn to_querys(&self) -> (s: String) {
        let parameters = [
            to_qeury_string(self.styles),
            to_qeury_string(self.dimentions),
            to_qeury_string(self.mimes),
            to_qeury_string(self.types),
            to_qeury_string_single(self.nsfw),
            to_qeury_string_single(self.humor),
        ];
        let parameters: &[Option<String>] = &parameters;
        assert(parameters.deep_view() =~= self@.fragments());
        assert(self.querys() == query_of(self@.fragments()));
        parameters_to_qeury(parameters)
    }
}

impl ToQuerys for GridQueryParameters<'_> {
    open spec fn querys(&self) -> Seq<char> {
        self@.querys()
    }

    fn to_querys(&self) -> (s: String) {
        let parameters = [
            to_qeury_string(self.styles),
            to_qeury_string(self.dimentions),
            to_qeury_string(self.mimes),
            to_qeury_string(self.types),
            to_qeury_string_single(self.nsfw),
            to_qeury_string_single(self.humor),
        ];
        let parameters: &[Option<String>] = &parameters;
        assert(parameters.deep_view() =~= self@.fragments());
        assert(self.querys() == query_of(self@.fragments()));
        parameters_to_qeury(parameters)
    }
}

impl ToQuerys for LogoQueryParameters<'_> {
    open spec fn querys(&self) -> Seq<char> {
        self@.querys()
    }

    fn to_querys(&self) -> (s: String) {
        let parameters = [
            to_qeury_string(self.styles),
            to_qeury_string(self.mimes),
            to_qeury_string(self.types),
            to_qeury_string_single(self.nsfw),
            to_qeury_string_single(self.humor),
        ];
        let parameters: &[Option<String>] = &parameters;
        assert(parameters.deep_view() =~= self@.fragments());
        assert(self.querys() == query_of(self@.fragments()));
        parameters_to_qeury(parameters)
    }
}

impl ToQuerys for IconQueryParameters<'_> {
    open spec fn querys(&self) -> Seq<char> {
        self@.querys()
    }

    fn to_querys(&self) -> (s: String) {
        let parameters = [
            to_qeury_string(self.styles),
            to_qeury_string(self.mimes),
            to_qeury_string(self.types),
            to_qeury_string_single(self.nsfw),
            to_qeury_string_single(self.humor),
        ];
        let parameters: &[Option<String>] = &parameters;
        assert(parameters.deep_view() =~= self@.fragments());
        assert(self.querys() == query_of(self@.fragments()));
        parameters_to_qeury(parameters)
    }
}

impl ToQuerys for QueryType<'_> {
    open spec fn querys(&self) -> Seq<char> {
        self@.querys()
    }

    fn to_querys(&self) -> (s: String) {
        match self {
            QueryType::Grid(Some(grid_query_parameters)) => grid_query_parameters.to_querys(),
            QueryType::Hero(Some(hero_query_parameters)) => hero_query_parameters.to_querys(),
            QueryType::Logo(Some(logo_query_parameters)) => logo_query_parameters.to_querys(),
            QueryType::Icon(Some(icon_query_parameters)) => icon_query_parameters.to_querys(),
            _ => String::new(),
        }
    }
}

/// Rendering depends on the filters alone: two requests with the same kind
/// of image and the same filters have the same query string.
pub proof fn lemma_querys_deterministic(first: QueryType, second: QueryType)
    requires
        first@ == second@,
    ensures
        first.querys() == second.querys(),
{
}

/// A request in which no filter is set has the empty query string. A list
/// filter that is present and empty counts as not set.
pub proof fn lemma_no_filter_no_query(request: QueryType)
    requires
        match request@ {
            QueryFilters::Grid(Some(filters)) => filters.has_no_filter(),
            QueryFilters::Hero(Some(filters)) => filters.has_no_filter(),
            QueryFilters::Logo(Some(filters)) => filters.has_no_filter(),
            QueryFilters::Icon(Some(filters)) => filters.has_no_filter(),
            _ => true,
        },
    ensures
        request.querys() == Seq::<char>::empty(),
{
    match request@ {
        QueryFilters::Grid(Some(filters)) => lemma_query_of_nothing(filters.fragments()),
        QueryFilters::Hero(Some(filters)) => lemma_query_of_nothing(filters.fragments()),
        QueryFilters::Logo(Some(filters)) => lemma_query_of_nothing(filters.fragments()),
        QueryFilters::Icon(Some(filters)) => lemma_query_of_nothing(filters.fragments()),
        _ => {},
    }
}

/// In a grid request with styles and an nsfw filter, the styles come first
/// and the nsfw filter follows them: the query string is the styles, `&`,
/// the dimensions, mimes and types that are set, the nsfw filter, and the
/// humor filter where it is set.
pub proof fn lemma_grid_styles_before_nsfw(filters: GridFilters)
    requires
        !left_out(filters.styles),
        filters.nsfw is Some,
    ensures
        filters.querys() == list_term(filters.styles)->0 + "&"@ + leading(
            seq![
                list_term(filters.dimentions),
                list_term(filters.mimes),
                list_term(filters.types),
            ],
        ) + single_term(filters.nsfw)->0 + trailing(seq![single_term(filters.humor)]),
{
    let between = seq![
        list_term(filters.dimentions),
        list_term(filters.mimes),
        list_term(filters.types),
    ];
    let after = seq![single_term(filters.humor)];
    let styles = list_term(filters.styles)->0;
    let nsfw = single_term(filters.nsfw)->0;
    assert(filters.fragments() =~= seq![Some(styles)] + between + seq![Some(nsfw)] + after);
    lemma_query_of_two_present(styles, between, nsfw, after);
}

/// In a hero request with styles and an nsfw filter, the styles come first
/// and the nsfw filter follows them: the query string is the styles, `&`,
/// the dimensions, mimes and types that are set, the nsfw filter, and the
/// humor filter where it is set.
pub proof fn lemma_hero_styles_before_nsfw(filters: HeroFilters)
    requires
        !left_out(filters.styles),
        filters.nsfw is Some,
    ensures
        filters.querys() == list_term(filters.styles)->0 + "&"@ + leading(
            seq![
                list_term(filters.dimentions),
                list_term(filters.mimes),
                list_term(filters.types),
            ],
        ) + single_term(filters.nsfw)->0 + trailing(seq![single_term(filters.humor)]),
{
    let between = seq![
        list_term(filters.dimentions),
        list_term(filters.mimes),
        list_term(filters.types),
    ];
    let after = seq![single_term(filters.humor)];
    let styles = list_term(filters.styles)->0;
    let nsfw = single_term(filters.nsfw)->0;
    assert(filters.fragments() =~= seq![Some(styles)] + between + seq![Some(nsfw)] + after);
    lemma_query_of_two_present(styles, between, nsfw, after);
}

/// In a logo request with styles and an nsfw filter, the styles come first
/// and the nsfw filter follows them: the query string is the styles, `&`,
/// the mimes and types that are set, the nsfw filter, and the humor filter
/// where it is set.
pub proof fn lemma_logo_styles_before_nsfw(filters: LogoFilters)
    requires
        !left_out(filters.styles),
        filters.nsfw is Some,
    ensures
        filters.querys() == list_term(filters.styles)->0 + "&"@ + leading(
            seq![list_term(filters.mimes), list_term(filters.types)],
        ) + single_term(filters.nsfw)->0 + trailing(seq![single_term(filters.humor)]),
{
    let between = seq![list_term(filters.mimes), list_term(filters.types)];
    let after = seq![single_term(filters.humor)];
    let styles = list_term(filters.styles)->0;
    let nsfw = single_term(filters.nsfw)->0;
    assert(filters.fragments() =~= seq![Some(styles)] + between + seq![Some(nsfw)] + after);
    lemma_query_of_two_present(styles, between, nsfw, after);
}

/// In an icon request with styles and an nsfw filter, the styles come first
/// and the nsfw filter follows them: the query string is the styles, `&`,
/// the mimes and types that are set, the nsfw filter, and the humor filter
/// where it is set.
pub proof fn lemma_icon_styles_before_nsfw(filters: IconFilters)
    requires
        !left_out(filters.styles),
        filters.nsfw is Some,
    ensures
        filters.querys() == list_term(filters.styles)->0 + "&"@ + leading(
            seq![list_term(filters.mimes), list_term(filters.types)],
        ) + single_term(filters.nsfw)->0 + trailing(seq![single_term(filters.humor)]),
{
    let between = seq![list_term(filters.mimes), list_term(filters.types)];
    let after = seq![single_term(filters.humor)];
    let styles = list_term(filters.styles)->0;
    let nsfw = single_term(filters.nsfw)->0;
    assert(filters.fragments() =~= seq![Some(styles)] + between + seq![Some(nsfw)] + after);
    lemma_query_of_two_present(styles, between, nsfw, after);
}

} // verus!
