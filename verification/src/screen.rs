use vstd::prelude::*;

verus! {

/// A rectangle in screen pixel coordinates: an origin and a size, as
/// `euclid::Rect<isize, _>` holds them.
#[derive(Debug, Clone, Copy, PartialEq, Eq, Structural)]
pub struct ScreenRect {
    pub x: isize,
    pub y: isize,
    pub width: isize,
    pub height: isize,
}

/// Half of `v`, rounded toward zero as integer division does.
pub open spec fn half_toward_zero(v: int) -> int {
    if v >= 0 {
        v / 2
    } else {
        -((-v) / 2)
    }
}

pub open spec fn fits_isize(v: int) -> bool {
    isize::MIN <= v <= isize::MAX
}

impl ScreenRect {
    pub open spec fn center_x(self) -> int {
        self.x + half_toward_zero(self.width as int)
    }

    pub open spec fn center_y(self) -> int {
        self.y + half_toward_zero(self.height as int)
    }

    /// The center can be computed without overflow.
    pub open spec fn center_fits(self) -> bool {
        fits_isize(self.center_x()) && fits_isize(self.center_y())
    }

    /// The far edges can be computed without overflow.
    pub open spec fn edges_fit(self) -> bool {
        fits_isize(self.x + self.width) && fits_isize(self.y + self.height)
    }

    /// Points on the left and top edges are inside, those on the right and
    /// bottom edges are outside.
    pub open spec fn contains_point(self, px: int, py: int) -> bool {
        &&& self.x <= px < self.x + self.width
        &&& self.y <= py < self.y + self.height
    }
}

/// `euclid::Rect::center`: the origin plus half the size, each half
/// rounded toward zero.
#[verifier::external_body]
fn rect_center(r: &ScreenRect) -> (c: (isize, isize))
    requires
        r.center_fits(),
    ensures
        c.0 == r.center_x(),
        c.1 == r.center_y(),
{
    let p = euclid::rect::<isize, euclid::UnknownUnit>(r.x, r.y, r.width, r.height).center();
    (p.x, p.y)
}

/// `euclid::Rect::contains`: `min <= p < origin + size` on both axes.
#[verifier::external_body]
fn rect_contains(r: &ScreenRect, px: isize, py: isize) -> (b: bool)
    requires
        r.edges_fit(),
    ensures
        b == r.contains_point(px as int, py as int),
{
    euclid::rect::<isize, euclid::UnknownUnit>(r.x, r.y, r.width, r.height).contains(
        euclid::point2(px, py),
    )
}

/// One display attached to the machine. Its scale factor and effective DPI
/// are floating point values and are kept by the GUI layer beside it.
#[derive(Debug, Clone)]
pub struct ScreenInfo {
    pub name: String,
    pub rect: ScreenRect,
    pub max_fps: Option<usize>,
}

/// The displays known to the GUI: `by_name` holds the (name, screen) pairs
/// of the map of displays, in the order in which that map is walked; as in
/// that map, no name occurs twice (`Screens::wf`).
#[derive(Debug, Clone)]
pub struct Screens {
    pub main: ScreenInfo,
    pub active: ScreenInfo,
    pub by_name: Vec<(String, ScreenInfo)>,
    pub virtual_rect: ScreenRect,
}

/// No name occurs twice among the (name, screen) pairs.
pub open spec fn names_distinct(screens: Seq<(String, ScreenInfo)>) -> bool {
    forall|i: int, j: int|
        0 <= i < screens.len() && 0 <= j < screens.len() && i != j ==> (#[trigger] screens[i]).0@
            != (#[trigger] screens[j]).0@
}

impl Screens {
    /// The pairs of `by_name` form a map: each name names one display.
    pub open spec fn wf(&self) -> bool {
        names_distinct(self.by_name@)
    }
}

/// The name of the first screen, in the order given, whose rectangle
/// contains the point `(px, py)`.
pub open spec fn first_screen_name(screens: Seq<(String, ScreenInfo)>, px: int, py: int) -> Option<
    Seq<char>,
>
    decreases screens.len(),
{
    if screens.len() == 0 {
        None
    } else if screens[0].1.rect.contains_point(px, py) {
        Some(screens[0].1.name@)
    } else {
        first_screen_name(screens.drop_first(), px, py)
    }
}

pub open spec fn name_view(r: Option<String>) -> Option<Seq<char>> {
    match r {
        Some(n) => Some(n@),
        None => None,
    }
}

/// `moved` is `screens` with every rectangle moved by `(dx, dy)`.
pub open spec fn screens_translated(
    screens: Seq<(String, ScreenInfo)>,
    moved: Seq<(String, ScreenInfo)>,
    dx: int,
    dy: int,
) -> bool {
    &&& moved.len() == screens.len()
    &&& forall|i: int|
        0 <= i < screens.len() ==> {
            let a = (#[trigger] screens[i]).1;
            let b = moved[i].1;
            &&& b.name@ == a.name@
            &&& b.rect.x == a.rect.x + dx
            &&& b.rect.y == a.rect.y + dy
            &&& b.rect.width == a.rect.width
            &&& b.rect.height == a.rect.height
        }
}

/// Moving the window and every display by the same vector does not change
/// which display holds the window.
pub proof fn lemma_lookup_ignores_translation(
    window: ScreenRect,
    moved_window: ScreenRect,
    screens: Seq<(String, ScreenInfo)>,
    moved: Seq<(String, ScreenInfo)>,
    dx: int,
    dy: int,
)
    requires
        moved_window.x == window.x + dx,
        moved_window.y == window.y + dy,
        moved_window.width == window.width,
        moved_window.height == window.height,
        screens_translated(screens, moved, dx, dy),
    ensures
        first_screen_name(moved, moved_window.center_x(), moved_window.center_y())
            == first_screen_name(screens, window.center_x(), window.center_y()),
    decreases screens.len(),
{
    if screens.len() > 0 {
        assert(screens_translated(screens.drop_first(), moved.drop_first(), dx, dy)) by {
            assert forall|i: int| 0 <= i < screens.drop_first().len() implies {
                let a = (#[trigger] screens.drop_first()[i]).1;
                let b = moved.drop_first()[i].1;
                &&& b.name@ == a.name@
                &&& b.rect.x == a.rect.x + dx
                &&& b.rect.y == a.rect.y + dy
                &&& b.rect.width == a.rect.width
                &&& b.rect.height == a.rect.height
            } by {
                assert(screens.drop_first()[i] == screens[i + 1]);
                assert(moved.drop_first()[i] == moved[i + 1]);
            }
        }
        lemma_lookup_ignores_translation(
            window,
            moved_window,
            screens.drop_first(),
            moved.drop_first(),
            dx,
            dy,
        );
    }
}

/// Every screen rectangle in `screens` has edges that fit in `isize`.
pub open spec fn screens_fit(screens: Seq<(String, ScreenInfo)>) -> bool {
    forall|i: int| 0 <= i < screens.len() ==> (#[trigger] screens[i]).1.rect.edges_fit()
}

/// The name of the display that holds the center of `window_rect`: the first
/// screen, in the order given, whose rectangle contains that point; `None`
/// when no screen does.
pub fn screen_name_for_rect(window_rect: ScreenRect, screens: &Vec<(String, ScreenInfo)>) -> (r:
    Option<String>)
    requires
        window_rect.center_fits(),
        screens_fit(screens@),
    ensures
        name_view(r) == first_screen_name(screens@, window_rect.center_x(), window_rect.center_y()),
        r is None <==> forall|i: int|
            0 <= i < screens@.len() ==> !(#[trigger] screens@[i]).1.rect.contains_point(
                window_rect.center_x(),
                window_rect.center_y(),
            ),
        r matches Some(name) ==> exists|i: int|
            0 <= i < screens@.len() && (#[trigger] screens@[i]).1.rect.contains_point(
                window_rect.center_x(),
                window_rect.center_y(),
            ) && screens@[i].1.name@ == name@ && forall|j: int|
                0 <= j < i ==> !(#[trigger] screens@[j]).1.rect.contains_point(
                    window_rect.center_x(),
                    window_rect.center_y(),
                ),
{
    let center = rect_center(&window_rect);
    let mut i: usize = 0;
    assert(screens@.skip(0) =~= screens@);
    while i < screens.len()
        invariant
            i <= screens@.len(),
            center.0 == window_rect.center_x(),
            center.1 == window_rect.center_y(),
            screens_fit(screens@),
            first_screen_name(screens@, window_rect.center_x(), window_rect.center_y())
                == first_screen_name(screens@.skip(i as int), window_rect.center_x(), window_rect.center_y()),
            forall|j: int|
                0 <= j < i ==> !(#[trigger] screens@[j]).1.rect.contains_point(
                    window_rect.center_x(),
                    window_rect.center_y(),
                ),
        decreases screens@.len() - i,
    {
        let screen = &screens[i].1;
        assert(screens@[i as int].1.rect.edges_fit());
        assert(screens@.skip(i as int)[0] == screens@[i as int]);
        assert(screens@.skip(i as int).drop_first() =~= screens@.skip(i + 1));
        if rect_contains(&screen.rect, center.0, center.1) {
            return Some(screen.name.clone());
        }
        i = i + 1;
    }
    assert(screens@.skip(i as int).len() == 0);
    None
}

} // verus!
