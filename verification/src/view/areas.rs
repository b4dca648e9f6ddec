//! How the screen is divided: the rows of the frame, the artwork column, and
//! the parts of each screen.

use ratatui::layout::{Constraint, Layout, Rect as Area};
use vstd::prelude::*;
use crate::layout::Rect;
use crate::state::Screen;
use crate::view::geometry::{shows_artwork, ARTWORK_MIN_TOTAL};

verus! {

/// How much of a division a part asks for.
#[derive(Debug, Clone, Copy, PartialEq, Eq, Structural)]
pub enum Extent {
    /// Exactly so many cells.
    Length(u16),
    /// At least so many cells.
    Min(u16),
    /// A share of what is left, by weight.
    Fill(u16),
}

/// The cells that an extent asks for; a share asks for none of its own.
pub open spec fn asked_by(extent: Extent) -> int {
    match extent {
        Extent::Length(cells) => cells as int,
        Extent::Min(cells) => cells as int,
        Extent::Fill(_) => 0,
    }
}

/// The cells that the first `count` extents ask for.
pub open spec fn asked(extents: Seq<Extent>, count: int) -> int
    decreases count,
{
    if count <= 0 {
        0
    } else {
        asked(extents, count - 1) + asked_by(extents[count - 1])
    }
}

/// How many of the first `count` extents are minimums.
pub open spec fn minimums(extents: Seq<Extent>, count: int) -> int
    decreases count,
{
    if count <= 0 {
        0
    } else {
        minimums(extents, count - 1) + if extents[count - 1] is Min {
            1int
        } else {
            0
        }
    }
}

/// Whether lengths and at most one minimum fit into `size` cells, so that there
/// is one way to lay them out.
pub open spec fn fits(extents: Seq<Extent>, size: int) -> bool {
    &&& forall|i: int| 0 <= i < extents.len() ==> !((#[trigger] extents[i]) is Fill)
    &&& minimums(extents, extents.len() as int) <= 1
    &&& asked(extents, extents.len() as int) <= size
}

/// The cells that part `i` of `size` cells is given: a length exactly its own,
/// a minimum what the lengths leave.
pub open spec fn given(extents: Seq<Extent>, size: int, i: int) -> int {
    match extents[i] {
        Extent::Min(cells) => cells + (size - asked(extents, extents.len() as int)),
        other => asked_by(other),
    }
}

/// The cells that the first `count` parts of `size` cells are given.
pub open spec fn given_before(extents: Seq<Extent>, size: int, count: int) -> int
    decreases count,
{
    if count <= 0 {
        0
    } else {
        given_before(extents, size, count - 1) + given(extents, size, count - 1)
    }
}

/// The cells of a part with a weight of two beside one with a weight of one:
/// two thirds of what both have, to the nearest cell.
pub open spec fn two_thirds(cells: int) -> int {
    (2 * cells + 1) / 3
}

/// Whether `part` spans the columns of `area`.
pub open spec fn spans_columns(area: Rect, part: Rect) -> bool {
    part.x == area.x && part.width == area.width
}

/// Whether `part` spans the rows of `area`.
pub open spec fn spans_rows(area: Rect, part: Rect) -> bool {
    part.y == area.y && part.height == area.height
}

/// Whether `part` lies between the first and the last row of `area`.
pub open spec fn within_rows(area: Rect, part: Rect) -> bool {
    area.y <= part.y && part.y + part.height <= area.y + area.height
}

/// Whether `part` lies between the first and the last column of `area`.
pub open spec fn within_columns(area: Rect, part: Rect) -> bool {
    area.x <= part.x && part.x + part.width <= area.x + area.width
}

/// Whether `part` takes `height` rows from row `y` on, across `area`.
pub open spec fn rows_at(area: Rect, part: Rect, y: int, height: int) -> bool {
    spans_columns(area, part) && part.y == y && part.height == height
}

/// Whether `part` takes `width` columns from column `x` on, across `area`.
pub open spec fn columns_at(area: Rect, part: Rect, x: int, width: int) -> bool {
    spans_rows(area, part) && part.x == x && part.width == width
}

/// Whether the extents are two shares, of weights two and one, around a length
/// that fits into `size` cells.
pub open spec fn shares_around(extents: Seq<Extent>, size: int) -> bool {
    &&& extents.len() == 3
    &&& extents[0] == Extent::Fill(2)
    &&& extents[1] is Length && asked_by(extents[1]) <= size
    &&& extents[2] == Extent::Fill(1)
}

/// Whether two shares around a length took the columns of `area`: the length its
/// own, and the first share two thirds of the others.
pub open spec fn shared_out(area: Rect, extents: Seq<Extent>, parts: Seq<Rect>) -> bool {
    let gap = asked_by(extents[1]);
    let first = two_thirds(area.width - gap);
    &&& columns_at(area, parts[0], area.x as int, first)
    &&& columns_at(area, parts[1], area.x + first, gap)
    &&& columns_at(area, parts[2], area.x + first + gap, area.width - first - gap)
}

/// ratatui's `Layout::vertical` and `split` divide an area into one part below
/// the other, one for each extent, each as wide as the area and within it.
///
/// Parts are packed from the start. Where lengths and at most one minimum fit, a
/// length is given exactly its rows and the minimum the rows that are left. Of
/// extents that do not fit, and of shares, the claim leaves open where the parts
/// begin and end: there the solver, which works in floating point over hash
/// maps that each process seeds anew, may have several solutions to choose from.
#[verifier::external_body]
fn split_rows(area: Rect, extents: &Vec<Extent>) -> (parts: Vec<Rect>)
    ensures
        parts@.len() == extents@.len(),
        forall|i: int|
            0 <= i < parts@.len() ==> spans_columns(area, #[trigger] parts@[i]) && within_rows(
                area,
                parts@[i],
            ),
        area.y + area.height <= u16::MAX && fits(extents@, area.height as int) ==> forall|i: int|
            0 <= i < parts@.len() ==> rows_at(
                area,
                #[trigger] parts@[i],
                area.y + given_before(extents@, area.height as int, i),
                given(extents@, area.height as int, i),
            ),
{
    let constraints = extents.iter().map(|extent| match *extent {
        Extent::Length(cells) => Constraint::Length(cells),
        Extent::Min(cells) => Constraint::Min(cells),
        Extent::Fill(weight) => Constraint::Fill(weight),
    });
    let whole = Area { x: area.x, y: area.y, width: area.width, height: area.height };
    let parts = Layout::vertical(constraints).split(whole);
    parts.iter().map(|p| Rect { x: p.x, y: p.y, width: p.width, height: p.height }).collect()
}

/// ratatui's `Layout::horizontal` and `split` divide an area into one part
/// beside the other, one for each extent, each as high as the area and within
/// it.
///
/// Lengths and a minimum that fit are laid out as by [`split_rows`]. Two shares
/// of weights two and one around a length that fits take what it leaves in that
/// proportion: the edge between them lies at two thirds, to the nearest column.
/// Of other extents the claim leaves open where the parts begin and end.
#[verifier::external_body]
fn split_columns(area: Rect, extents: &Vec<Extent>) -> (parts: Vec<Rect>)
    ensures
        parts@.len() == extents@.len(),
        forall|i: int|
            0 <= i < parts@.len() ==> spans_rows(area, #[trigger] parts@[i]) && within_columns(
                area,
                parts@[i],
            ),
        area.x + area.width <= u16::MAX && fits(extents@, area.width as int) ==> forall|i: int|
            0 <= i < parts@.len() ==> columns_at(
                area,
                #[trigger] parts@[i],
                area.x + given_before(extents@, area.width as int, i),
                given(extents@, area.width as int, i),
            ),
        area.x + area.width <= u16::MAX && shares_around(extents@, area.width as int)
            ==> shared_out(area, extents@, parts@),
{
    let constraints = extents.iter().map(|extent| match *extent {
        Extent::Length(cells) => Constraint::Length(cells),
        Extent::Min(cells) => Constraint::Min(cells),
        Extent::Fill(weight) => Constraint::Fill(weight),
    });
    let whole = Area { x: area.x, y: area.y, width: area.width, height: area.height };
    let parts = Layout::horizontal(constraints).split(whole);
    parts.iter().map(|p| Rect { x: p.x, y: p.y, width: p.width, height: p.height }).collect()
}

/// The rows of the frame.
#[derive(Debug, Clone, Copy, PartialEq, Eq, Structural)]
pub struct FrameAreas {
    pub header: Rect,
    pub body: Rect,
    pub footer: Rect,
    pub help: Rect,
}

/// The rows of the frame: a header and a footer of three rows, a help bar of
/// one, and the body between them.
pub fn frame_extents() -> (extents: Vec<Extent>)
    ensures
        extents@ == seq![Extent::Length(3), Extent::Min(1), Extent::Length(3), Extent::Length(1)],
{
    let extents = vec![Extent::Length(3), Extent::Min(1), Extent::Length(3), Extent::Length(1)];
    assert(extents@ =~= seq![
        Extent::Length(3),
        Extent::Min(1),
        Extent::Length(3),
        Extent::Length(1),
    ]);
    extents
}

/// Names the rows that [`frame_extents`] divided the frame into, in order.
pub fn frame_of(parts: &Vec<Rect>) -> (frame: FrameAreas)
    requires
        parts@.len() == 4,
    ensures
        frame == (FrameAreas {
            header: parts@[0],
            body: parts@[1],
            footer: parts@[2],
            help: parts@[3],
        }),
{
    FrameAreas { header: parts[0], body: parts[1], footer: parts[2], help: parts[3] }
}

/// The rows that the frame needs: one for the body beside those of the header,
/// the footer and the help bar.
pub const FRAME_MIN_ROWS: u16 = 8;

/// Divides the app surface into the rows of the frame: from the top the header,
/// at the bottom the footer over the help bar, and the body with all that is
/// left between them. On a surface too low for that, each part still lies on it.
pub fn frame_areas(area: Rect) -> (frame: FrameAreas)
    ensures
        area.y + area.height <= u16::MAX && area.height >= FRAME_MIN_ROWS ==> {
            let end = area.y + area.height;
            &&& rows_at(area, frame.header, area.y as int, 3)
            &&& rows_at(area, frame.body, area.y + 3, area.height - 7)
            &&& rows_at(area, frame.footer, end - 4, 3)
            &&& rows_at(area, frame.help, end - 1, 1)
        },
        spans_columns(area, frame.header) && within_rows(area, frame.header),
        spans_columns(area, frame.body) && within_rows(area, frame.body),
        spans_columns(area, frame.footer) && within_rows(area, frame.footer),
        spans_columns(area, frame.help) && within_rows(area, frame.help),
{
    proof {
        reveal_with_fuel(asked, 5);
        reveal_with_fuel(minimums, 5);
        reveal_with_fuel(given_before, 5);
    }
    frame_of(&split_rows(area, &frame_extents()))
}

/// The parts of the body.
#[derive(Debug, Clone, Copy, PartialEq, Eq, Structural)]
pub struct BodyAreas {
    pub main: Rect,
    /// The artwork column, where the body is wide enough for one.
    pub artwork: Option<Rect>,
}

/// The columns of a wide body: two thirds for the screen, a gap, and a third
/// for artwork.
pub fn body_extents() -> (extents: Vec<Extent>)
    ensures
        extents@ == seq![Extent::Fill(2), Extent::Length(1), Extent::Fill(1)],
{
    let extents = vec![Extent::Fill(2), Extent::Length(1), Extent::Fill(1)];
    assert(extents@ =~= seq![Extent::Fill(2), Extent::Length(1), Extent::Fill(1)]);
    extents
}

/// Names the parts of a body, given the columns that [`body_extents`] divided it
/// into: a narrow body is not divided.
pub fn body_of(body: Rect, parts: &Vec<Rect>) -> (areas: BodyAreas)
    requires
        parts@.len() == 3,
    ensures
        body.width >= ARTWORK_MIN_TOTAL ==> areas == (BodyAreas {
            main: parts@[0],
            artwork: Some(parts@[2]),
        }),
        body.width < ARTWORK_MIN_TOTAL ==> areas == (BodyAreas { main: body, artwork: None }),
{
    if shows_artwork(body.width) {
        BodyAreas { main: parts[0], artwork: Some(parts[2]) }
    } else {
        BodyAreas { main: body, artwork: None }
    }
}

/// Divides the body. A wide one has the screen on its first two thirds and the
/// artwork on the rest, with a column between them; a narrow one is the screen.
pub fn body_areas(body: Rect) -> (areas: BodyAreas)
    ensures
        areas.artwork is Some == (body.width >= ARTWORK_MIN_TOTAL),
        areas.artwork is None ==> areas.main == body,
        areas.artwork is Some && body.x + body.width <= u16::MAX ==> {
            let main = two_thirds(body.width - 1);
            &&& columns_at(body, areas.main, body.x as int, main)
            &&& columns_at(body, areas.artwork->0, body.x + main + 1, body.width - main - 1)
        },
        spans_rows(body, areas.main) && within_columns(body, areas.main),
        areas.artwork is Some ==> spans_rows(body, areas.artwork->0) && within_columns(
            body,
            areas.artwork->0,
        ),
{
    body_of(body, &split_columns(body, &body_extents()))
}

/// The parts of a screen.
#[derive(Debug, Clone, Copy, PartialEq, Eq, Structural)]
pub struct ScreenAreas {
    pub search_box: Option<Rect>,
    pub tabs: Option<Rect>,
    pub list: Rect,
}

/// The rows of a screen: Search has its input box and lane tabs above the list,
/// Library its tabs, the others the list alone.
pub open spec fn screen_rows(screen: Screen) -> Seq<Extent> {
    match screen {
        Screen::Search => seq![Extent::Length(3), Extent::Length(1), Extent::Min(1)],
        Screen::Library => seq![Extent::Length(1), Extent::Min(1)],
        Screen::Playlists | Screen::Tracks | Screen::Queue => seq![Extent::Min(1)],
    }
}

/// The rows of a screen.
pub fn screen_extents(screen: Screen) -> (extents: Vec<Extent>)
    ensures
        extents@ == screen_rows(screen),
{
    let extents: Vec<Extent> = match screen {
        Screen::Search => vec![Extent::Length(3), Extent::Length(1), Extent::Min(1)],
        Screen::Library => vec![Extent::Length(1), Extent::Min(1)],
        Screen::Playlists | Screen::Tracks | Screen::Queue => vec![Extent::Min(1)],
    };
    assert(extents@ =~= screen_rows(screen));
    extents
}

/// Names the parts of a screen in `area`, given the rows that
/// [`screen_extents`] divided it into: a list alone takes the whole area.
pub open spec fn screen_parts(screen: Screen, area: Rect, parts: Seq<Rect>) -> ScreenAreas {
    match screen {
        Screen::Search => ScreenAreas {
            search_box: Some(parts[0]),
            tabs: Some(parts[1]),
            list: parts[2],
        },
        Screen::Library => ScreenAreas { search_box: None, tabs: Some(parts[0]), list: parts[1] },
        Screen::Playlists | Screen::Tracks | Screen::Queue => ScreenAreas {
            search_box: None,
            tabs: None,
            list: area,
        },
    }
}

/// Names the parts of a screen.
pub fn screen_of(screen: Screen, area: Rect, parts: &Vec<Rect>) -> (areas: ScreenAreas)
    requires
        parts@.len() == screen_rows(screen).len(),
    ensures
        areas == screen_parts(screen, area, parts@),
{
    match screen {
        Screen::Search => ScreenAreas {
            search_box: Some(parts[0]),
            tabs: Some(parts[1]),
            list: parts[2],
        },
        Screen::Library => ScreenAreas { search_box: None, tabs: Some(parts[0]), list: parts[1] },
        Screen::Playlists | Screen::Tracks | Screen::Queue => ScreenAreas {
            search_box: None,
            tabs: None,
            list: area,
        },
    }
}

/// Divides the area of a screen: the search box and the tabs at the top, each
/// where the screen has them, and the list with all that is left below. On an
/// area too low for that, each part still lies on it.
pub fn screen_areas(screen: Screen, area: Rect) -> (areas: ScreenAreas)
    ensures
        areas.search_box is Some == (screen == Screen::Search),
        areas.tabs is Some == (screen == Screen::Search || screen == Screen::Library),
        areas.tabs is None ==> areas.list == area,
        area.y + area.height <= u16::MAX && screen == Screen::Search && area.height >= 5 ==> {
            &&& rows_at(area, areas.search_box->0, area.y as int, 3)
            &&& rows_at(area, areas.tabs->0, area.y + 3, 1)
            &&& rows_at(area, areas.list, area.y + 4, area.height - 4)
        },
        area.y + area.height <= u16::MAX && screen == Screen::Library && area.height >= 2 ==> {
            &&& rows_at(area, areas.tabs->0, area.y as int, 1)
            &&& rows_at(area, areas.list, area.y + 1, area.height - 1)
        },
        areas.search_box is Some ==> spans_columns(area, areas.search_box->0) && within_rows(
            area,
            areas.search_box->0,
        ),
        areas.tabs is Some ==> spans_columns(area, areas.tabs->0) && within_rows(
            area,
            areas.tabs->0,
        ),
        spans_columns(area, areas.list) && within_rows(area, areas.list),
{
    proof {
        reveal_with_fuel(asked, 4);
        reveal_with_fuel(minimums, 4);
        reveal_with_fuel(given_before, 4);
    }
    screen_of(screen, area, &split_rows(area, &screen_extents(screen)))
}

/// The rows of the volume popup.
#[derive(Debug, Clone, Copy, PartialEq, Eq, Structural)]
pub struct PopupAreas {
    pub label: Rect,
    pub gauge: Rect,
}

/// The rows of the volume popup: the label, and the gauge below it.
pub fn popup_extents() -> (extents: Vec<Extent>)
    ensures
        extents@ == seq![Extent::Length(1), Extent::Length(1)],
{
    let extents = vec![Extent::Length(1), Extent::Length(1)];
    assert(extents@ =~= seq![Extent::Length(1), Extent::Length(1)]);
    extents
}

/// Names the rows that [`popup_extents`] divided the popup into.
pub fn popup_of(parts: &Vec<Rect>) -> (areas: PopupAreas)
    requires
        parts@.len() == 2,
    ensures
        areas == (PopupAreas { label: parts@[0], gauge: parts@[1] }),
{
    PopupAreas { label: parts[0], gauge: parts[1] }
}

/// Divides the inside of the volume popup: the label on its first row, the gauge
/// on its second. In a lower popup, both still lie in it.
pub fn popup_areas(area: Rect) -> (areas: PopupAreas)
    ensures
        area.y + area.height <= u16::MAX && area.height >= 2 ==> {
            &&& rows_at(area, areas.label, area.y as int, 1)
            &&& rows_at(area, areas.gauge, area.y + 1, 1)
        },
        spans_columns(area, areas.label) && within_rows(area, areas.label),
        spans_columns(area, areas.gauge) && within_rows(area, areas.gauge),
{
    proof {
        reveal_with_fuel(asked, 3);
        reveal_with_fuel(minimums, 3);
        reveal_with_fuel(given_before, 3);
    }
    popup_of(&split_rows(area, &popup_extents()))
}

} // verus!
