//! The compositor's state and the operations on it.

use super::display::Display;
use super::model::{
    accepted_target, first_position, lemma_first_position_at, lemma_first_position_none,
    lemma_mapped_ids_grow, mapped_ids, mapped_ids_among, output_ids, primary_flags, refocused,
    seat_names, tile_width, tile_x, tiled_windows, tiling_area, window_ids, Area, CompositorView,
    FALLBACK_HEIGHT, FALLBACK_WIDTH,
};
use super::output::{Output, OutputView};
use super::seat::{Seat, SeatView};
use super::window::{Window, WindowState, WindowView};
use crate::input::event::InputEvent;
use vstd::prelude::*;

verus! {

/// The state of the compositor: its outputs, windows and seats.
///
/// Outputs and windows are kept in the order in which they were added, and
/// the layout and focus operations go by that order. Window and output ids
/// come from two counters that start at 1. Only
/// [`CompositorState::next_window_id`] and
/// [`CompositorState::next_output_id`] advance them, so an id that was
/// handed out is never handed out again, whatever is removed.
#[derive(Debug)]
pub struct CompositorState {
    pub running: bool,
    pub display: Display,
    pub outputs: Vec<Output>,
    pub windows: Vec<Window>,
    pub seats: Vec<Seat>,
    /// The id that the next window gets.
    pub next_window_id: u32,
    /// The id that the next output gets.
    pub next_output_id: u32,
}

/// The values of `outputs`, in order.
pub open spec fn output_views(outputs: Seq<Output>) -> Seq<OutputView> {
    outputs.map_values(|o: Output| o@)
}

/// The values of `windows`, in order.
pub open spec fn window_views(windows: Seq<Window>) -> Seq<WindowView> {
    windows.map_values(|w: Window| w@)
}

/// The values of `seats`, in order.
pub open spec fn seat_views(seats: Seq<Seat>) -> Seq<SeatView> {
    seats.map_values(|s: Seat| s@)
}

impl View for CompositorState {
    type V = CompositorView;

    open spec fn view(&self) -> CompositorView {
        CompositorView {
            running: self.running,
            display: self.display@,
            outputs: output_views(self.outputs@),
            windows: window_views(self.windows@),
            seats: seat_views(self.seats@),
            next_window_id: self.next_window_id,
            next_output_id: self.next_output_id,
        }
    }
}

impl Default for CompositorState {
    fn default() -> (state: CompositorState)
        ensures
            state@ == CompositorView::initial(),
    {
        CompositorState::new()
    }
}

impl CompositorState {
    /// Whether `self` and `other` differ in their windows at most.
    pub open spec fn same_but_windows(&self, other: &CompositorState) -> bool {
        &&& self.running == other.running
        &&& self.display == other.display
        &&& self.outputs == other.outputs
        &&& self.seats == other.seats
        &&& self.next_window_id == other.next_window_id
        &&& self.next_output_id == other.next_output_id
    }

    /// The state at start: one seat named "seat0", no window, and a primary
    /// and a secondary output side by side.
    pub fn new() -> (state: CompositorState)
        ensures
            state@ == CompositorView::initial(),
    {
        let mut state = CompositorState {
            running: true,
            display: Display::new("default_display".to_owned()),
            outputs: Vec::new(),
            windows: Vec::new(),
            seats: Vec::new(),
            next_window_id: 1,
            next_output_id: 1,
        };
        state.seats.push(Seat::new("seat0".to_owned()));
        let primary_id = state.next_output_id();
        state.add_output(
            Output::new(primary_id, "Primary-1920x1080".to_owned(), 1920, 1080, 0, 0, true),
        );
        let secondary_id = state.next_output_id();
        state.add_output(
            Output::new(secondary_id, "Secondary-1280x720".to_owned(), 1280, 720, 1920, 0, false),
        );
        assert(state@.outputs =~= CompositorView::initial().outputs);
        assert(state@.windows =~= CompositorView::initial().windows);
        assert(state@.seats =~= CompositorView::initial().seats);
        state
    }

    /// Hands out the next output id.
    pub fn next_output_id(&mut self) -> (id: u32)
        requires
            old(self).next_output_id < u32::MAX,
        ensures
            id == old(self).next_output_id,
            final(self)@ == old(self)@.after_output_id(),
    {
        let id = self.next_output_id;
        self.next_output_id += 1;
        id
    }

    /// Adds `output` behind the outputs that are there.
    pub fn add_output(&mut self, output: Output)
        ensures
            final(self)@ == old(self)@.with_output(output@),
    {
        self.outputs.push(output);
        assert(self@.outputs =~= old(self)@.outputs.push(output@));
    }

    /// Where the first output with `id` stands.
    fn output_index(&self, id: u32) -> (found: Option<usize>)
        ensures
            found matches Some(i) ==> i < self.outputs@.len() && self@.output_position(id) == Some(
                i as int,
            ),
            found is None ==> self@.output_position(id) is None,
    {
        let ghost ids = output_ids(self@.outputs);
        let mut i: usize = 0;
        while i < self.outputs.len()
            invariant
                i <= self.outputs@.len(),
                ids == output_ids(self@.outputs),
                forall|j: int| 0 <= j < i ==> ids[j] != id,
            decreases self.outputs@.len() - i,
        {
            if self.outputs[i].id == id {
                proof {
                    lemma_first_position_at(ids, id, i as int);
                }
                return Some(i);
            }
            i += 1;
        }
        proof {
            lemma_first_position_none(ids, id);
        }
        None
    }

    /// Removes the first output with `id`, and says whether there was one.
    pub fn remove_output(&mut self, output_id: u32) -> (removed: bool)
        ensures
            removed == (old(self)@.output_position(output_id) is Some),
            final(self)@ == old(self)@.without_output(output_id),
    {
        match self.output_index(output_id) {
            Some(i) => {
                self.outputs.remove(i);
                assert(self@.outputs =~= old(self)@.outputs.remove(i as int));
                true
            },
            None => false,
        }
    }

    /// Hands out the next window id.
    pub fn next_window_id(&mut self) -> (id: u32)
        requires
            old(self).next_window_id < u32::MAX,
        ensures
            id == old(self).next_window_id,
            final(self)@ == old(self)@.after_window_id(),
    {
        let id = self.next_window_id;
        self.next_window_id += 1;
        id
    }

    /// Adds `window` behind the windows that are there.
    pub fn add_window(&mut self, window: Window)
        ensures
            final(self)@ == old(self)@.with_window(window@),
    {
        self.windows.push(window);
        assert(self@.windows =~= old(self)@.windows.push(window@));
    }

    /// Where the first window with `id` stands.
    fn window_index(&self, id: u32) -> (found: Option<usize>)
        ensures
            found matches Some(i) ==> i < self.windows@.len() && self@.window_position(id) == Some(
                i as int,
            ),
            found is None ==> self@.window_position(id) is None,
    {
        let ghost ids = window_ids(self@.windows);
        let mut i: usize = 0;
        while i < self.windows.len()
            invariant
                i <= self.windows@.len(),
                ids == window_ids(self@.windows),
                forall|j: int| 0 <= j < i ==> ids[j] != id,
            decreases self.windows@.len() - i,
        {
            if self.windows[i].id == id {
                proof {
                    lemma_first_position_at(ids, id, i as int);
                }
                return Some(i);
            }
            i += 1;
        }
        proof {
            lemma_first_position_none(ids, id);
        }
        None
    }

    /// Removes the first window with `id`, and says whether there was one.
    pub fn remove_window(&mut self, window_id: u32) -> (removed: bool)
        ensures
            removed == (old(self)@.window_position(window_id) is Some),
            final(self)@ == old(self)@.without_window(window_id),
    {
        match self.window_index(window_id) {
            Some(i) => {
                self.windows.remove(i);
                assert(self@.windows =~= old(self)@.windows.remove(i as int));
                true
            },
            None => false,
        }
    }

    /// The first window with `id`, for reading.
    pub fn find_window(&self, window_id: u32) -> (found: Option<&Window>)
        ensures
            found matches Some(w) ==> self@.find_window(window_id) == Some(w@),
            found is None ==> self@.find_window(window_id) is None,
            found matches Some(w) ==> self@.window_position(window_id) matches Some(i) && 0 <= i
                < self.windows@.len() && *w == self.windows@[i],
    {
        match self.window_index(window_id) {
            Some(i) => Some(&self.windows[i]),
            None => None,
        }
    }

    /// The first window with `id`, for changing in place.
    ///
    /// Whatever the caller does to the window is what happens to the state:
    /// the window is replaced where it stands and nothing else changes.
    pub fn find_window_mut(&mut self, window_id: u32) -> (found: Option<&mut Window>)
        ensures
            found matches Some(w) ==> old(self)@.find_window(window_id) == Some(w@),
            found matches Some(w) ==> final(self)@ == old(self)@.with_window_replaced(
                window_id,
                final(w)@,
            ),
            found is None ==> old(self)@.find_window(window_id) is None,
            found is None ==> *final(self) == *old(self),
            found matches Some(w) ==> old(self)@.window_position(window_id) matches Some(i)
                && 0 <= i < old(self).windows@.len()
                && *w == old(self).windows@[i]
                && final(self).windows@ == old(self).windows@.update(i, *final(w))
                && final(self).same_but_windows(old(self)),
    {
        match self.window_index(window_id) {
            Some(i) => {
                let w = &mut self.windows[i];
                proof {
                    assert(window_views(old(self).windows@.update(i as int, *final(w)))
                        =~= window_views(old(self).windows@).update(i as int, final(w)@));
                }
                Some(w)
            },
            None => None,
        }
    }

    /// Where the first seat named `name` stands.
    fn seat_index(&self, name: &str) -> (found: Option<usize>)
        ensures
            found matches Some(s) ==> s < self.seats@.len() && self@.seat_position(name@) == Some(
                s as int,
            ),
            found is None ==> self@.seat_position(name@) is None,
    {
        let ghost names = seat_names(self@.seats);
        let wanted: String = name.to_owned();
        let mut i: usize = 0;
        while i < self.seats.len()
            invariant
                i <= self.seats@.len(),
                names == seat_names(self@.seats),
                wanted@ == name@,
                forall|j: int| 0 <= j < i ==> names[j] != name@,
            decreases self.seats@.len() - i,
        {
            if self.seats[i].name == wanted {
                proof {
                    lemma_first_position_at(names, name@, i as int);
                }
                return Some(i);
            }
            i += 1;
        }
        proof {
            lemma_first_position_none(names, name@);
        }
        None
    }

    /// The focus that a seat takes when asked for `target`.
    fn accepted_focus(&self, target: Option<u32>) -> (accepted: Option<u32>)
        ensures
            accepted == accepted_target(self@.windows, target),
    {
        match target {
            Some(id) => match self.window_index(id) {
                Some(i) => if self.windows[i].is_mapped {
                    Some(id)
                } else {
                    None
                },
                None => None,
            },
            None => None,
        }
    }

    /// Asks the seat named `seat_name` to focus `window_id`, and says
    /// whether there is such a seat.
    ///
    /// The seat takes the target only if it is a window that is present and
    /// mapped; asked for anything else, or for nothing, it ends without
    /// focus. Every window's focus flag is then set to whether the window
    /// is the seat's focus. Without such a seat nothing changes.
    pub fn set_focused_window_for_seat(
        &mut self,
        seat_name: &str,
        window_id: Option<u32>,
    ) -> (found: bool)
        ensures
            found == (old(self)@.seat_position(seat_name@) is Some),
            final(self)@ == old(self)@.with_focus(seat_name@, window_id),
    {
        let accepted = self.accepted_focus(window_id);
        match self.seat_index(seat_name) {
            Some(s) => {
                self.seats[s].focused_window = accepted;
                let ghost seats = self.seats;
                let n = self.windows.len();
                for i in 0..n
                    invariant
                        n == self.windows@.len(),
                        self.windows@.len() == old(self).windows@.len(),
                        self.seats == seats,
                        self.running == old(self).running,
                        self.display == old(self).display,
                        self.outputs == old(self).outputs,
                        self.next_window_id == old(self).next_window_id,
                        self.next_output_id == old(self).next_output_id,
                        forall|j: int|
                            0 <= j < i ==> (#[trigger] self.windows@[j])@ == old(
                                self,
                            ).windows@[j]@.with_focus(Some(old(self).windows@[j].id) == accepted),
                        forall|j: int| i <= j < n ==> self.windows@[j] == old(self).windows@[j],
                {
                    let focused = match accepted {
                        Some(id) => self.windows[i].id == id,
                        None => false,
                    };
                    self.windows[i].focused = focused;
                }
                assert(self@.windows =~= refocused(old(self)@.windows, accepted));
                assert(self@.seats =~= old(self)@.seats.update(
                    s as int,
                    SeatView { focused_window: accepted, ..old(self)@.seats[s as int] },
                ));
                true
            },
            None => false,
        }
    }

    /// Gives the first window with `window_id` the size `new_width` by
    /// `new_height`, and says whether it did.
    ///
    /// A width or height of zero is refused, and so is a window that does
    /// not exist; then nothing changes. How the window is arranged is not
    /// touched: a tiled window stays marked as tiled.
    pub fn resize_window(
        &mut self,
        window_id: u32,
        new_width: u32,
        new_height: u32,
    ) -> (resized: bool)
        ensures
            resized == old(self)@.can_resize(window_id, new_width, new_height),
            final(self)@ == old(self)@.resized(window_id, new_width, new_height),
    {
        if new_width == 0 || new_height == 0 {
            return false;
        }
        let ghost before = self@;
        match self.find_window_mut(window_id) {
            Some(window) => {
                assert(before.find_window(window_id) == Some(window@));
                window.width = new_width;
                window.height = new_height;
                true
            },
            None => false,
        }
    }

    /// Moves the first window with `window_id` to (`new_x`, `new_y`), and
    /// says whether there is such a window.
    ///
    /// Any point is accepted. How the window is arranged is not touched.
    pub fn move_window(&mut self, window_id: u32, new_x: i32, new_y: i32) -> (moved: bool)
        ensures
            moved == (old(self)@.window_position(window_id) is Some),
            final(self)@ == old(self)@.moved(window_id, new_x, new_y),
    {
        let ghost before = self@;
        match self.find_window_mut(window_id) {
            Some(window) => {
                assert(before.find_window(window_id) == Some(window@));
                window.x = new_x;
                window.y = new_y;
                true
            },
            None => false,
        }
    }

    /// Queues `event` for the window that has the focus of the seat named
    /// `seat_name`, and says whether it did.
    ///
    /// The event is queued only if there is such a seat, the seat has a
    /// focus, a window with that id exists, and that window is mapped.
    /// Otherwise nothing changes.
    pub fn dispatch_input_event(
        &mut self,
        event: &InputEvent,
        seat_name: &str,
    ) -> (dispatched: bool)
        ensures
            dispatched == (old(self)@.input_target(seat_name@) is Some),
            final(self)@ == old(self)@.with_dispatched(*event, seat_name@),
    {
        let focus = match self.seat_index(seat_name) {
            Some(s) => self.seats[s].focused_window,
            None => None,
        };
        match focus {
            Some(id) => match self.window_index(id) {
                Some(i) => {
                    if self.windows[i].is_mapped {
                        self.windows[i].queue_event(*event);
                        assert(self@.windows =~= old(self)@.windows.update(
                            i as int,
                            old(self)@.windows[i as int].with_event(*event),
                        ));
                        true
                    } else {
                        false
                    }
                },
                None => false,
            },
            None => false,
        }
    }

    /// How many windows are mapped.
    fn mapped_count(&self) -> (count: usize)
        ensures
            count == mapped_ids(self@.windows).len(),
    {
        let mut count: usize = 0;
        let n = self.windows.len();
        for i in 0..n
            invariant
                n == self.windows@.len(),
                count == mapped_ids_among(self@.windows, i as int).len(),
                count <= i,
        {
            if self.windows[i].is_mapped {
                count += 1;
            }
        }
        count
    }

    /// The rectangle that the tiling layout fills.
    fn target_area(&self) -> (area: Area)
        ensures
            area == tiling_area(self@.outputs),
    {
        let ghost flags = primary_flags(self@.outputs);
        let n = self.outputs.len();
        for i in 0..n
            invariant
                n == self.outputs@.len(),
                flags == primary_flags(self@.outputs),
                forall|j: int| 0 <= j < i ==> flags[j] != true,
        {
            if self.outputs[i].is_primary {
                proof {
                    lemma_first_position_at(flags, true, i as int);
                }
                let o = &self.outputs[i];
                return Area { x: o.x, y: o.y, width: o.width, height: o.height };
            }
        }
        proof {
            lemma_first_position_none(flags, true);
        }
        if n > 0 {
            let o = &self.outputs[0];
            Area { x: o.x, y: o.y, width: o.width, height: o.height }
        } else {
            Area { x: 0, y: 0, width: FALLBACK_WIDTH, height: FALLBACK_HEIGHT }
        }
    }

    /// Arranges the mapped windows side by side on one output.
    ///
    /// The output is the first primary one, else the first one; with no
    /// output at all an area of 1920 by 1080 at the origin takes its place.
    /// Its width is divided evenly among the mapped windows, and pixels
    /// that remain are left unused. In collection order, each mapped window
    /// is placed to the right of the one before, starting at the output's
    /// left edge, is given the output's top edge and full height, and is
    /// marked as tiled. A left edge beyond the coordinate range is held at
    /// the range's end. Windows that are not mapped are not touched, and
    /// with no mapped window nothing changes.
    pub fn tile_windows(&mut self)
        ensures
            final(self)@ == old(self)@.tiled(),
    {
        let count = self.mapped_count();
        let area = self.target_area();
        if count == 0 {
            proof {
                let ws = self@.windows;
                assert forall|i: int| 0 <= i < ws.len() implies !ws[i].is_mapped by {
                    lemma_mapped_ids_grow(ws, i + 1, ws.len() as int);
                }
                assert(tiled_windows(ws, area) =~= ws);
            }
            return ;
        }
        let width = tile_extent(area, count);
        let mut rank: usize = 0;
        let n = self.windows.len();
        for i in 0..n
            invariant
                n == self.windows@.len(),
                self.windows@.len() == old(self).windows@.len(),
                self.same_but_windows(old(self)),
                count > 0,
                count == mapped_ids(old(self)@.windows).len(),
                area == tiling_area(old(self)@.outputs),
                width == tile_width(area, count as int),
                rank == mapped_ids_among(old(self)@.windows, i as int).len(),
                forall|j: int|
                    0 <= j < i ==> (#[trigger] self.windows@[j])@ == tiled_windows(
                        old(self)@.windows,
                        area,
                    )[j],
                forall|j: int| i <= j < n ==> self.windows@[j] == old(self).windows@[j],
        {
            if self.windows[i].is_mapped {
                proof {
                    lemma_mapped_ids_grow(old(self)@.windows, i + 1, n as int);
                }
                let x = tile_left(area, count, width, rank);
                let window = &mut self.windows[i];
                window.x = x;
                window.y = area.y;
                window.width = width;
                window.height = area.height;
                window.state = WindowState::Tiled;
                rank += 1;
            }
        }
        assert(self@.windows =~= tiled_windows(old(self)@.windows, area));
    }

    /// The ids of the mapped windows, in collection order.
    fn mapped_window_ids(&self) -> (ids: Vec<u32>)
        ensures
            ids@ == mapped_ids(self@.windows),
    {
        let mut ids: Vec<u32> = Vec::new();
        let n = self.windows.len();
        for i in 0..n
            invariant
                n == self.windows@.len(),
                ids@ == mapped_ids_among(self@.windows, i as int),
        {
            if self.windows[i].is_mapped {
                ids.push(self.windows[i].id);
            }
        }
        ids
    }

    /// Moves the focus of the seat named `seat_name` to the next mapped
    /// window, and says whether there is such a seat.
    ///
    /// The next window is the mapped window that follows the seat's focus
    /// in collection order, and the first mapped window after the last one.
    /// Where the seat has no focus, or one that is no mapped window, the
    /// first mapped window is next. The seat is then asked to focus that
    /// window as by [`CompositorState::set_focused_window_for_seat`]. With
    /// no mapped window the seat loses its focus.
    pub fn focus_next_window(&mut self, seat_name: &str) -> (found: bool)
        ensures
            found == (old(self)@.seat_position(seat_name@) is Some),
            final(self)@ == old(self)@.with_next_focus(seat_name@),
    {
        let ids = self.mapped_window_ids();
        if ids.len() == 0 {
            return self.set_focused_window_for_seat(seat_name, None);
        }
        match self.seat_index(seat_name) {
            Some(s) => {
                let mut next: usize = 0;
                match self.seats[s].focused_window {
                    Some(id) => match position_of(&ids, id) {
                        Some(k) => {
                            next = (k + 1) % ids.len();
                        },
                        None => {},
                    },
                    None => {},
                }
                let target = ids[next];
                self.set_focused_window_for_seat(seat_name, Some(target))
            },
            None => false,
        }
    }
}

/// Where the first element of `ids` that equals `id` stands.
fn position_of(ids: &Vec<u32>, id: u32) -> (found: Option<usize>)
    ensures
        found matches Some(k) ==> k < ids@.len() && first_position(ids@, id) == Some(k as int),
        found is None ==> first_position(ids@, id) is None,
{
    let n = ids.len();
    for k in 0..n
        invariant
            n == ids@.len(),
            forall|j: int| 0 <= j < k ==> ids@[j] != id,
    {
        if ids[k] == id {
            proof {
                lemma_first_position_at(ids@, id, k as int);
            }
            return Some(k);
        }
    }
    proof {
        lemma_first_position_none(ids@, id);
    }
    None
}

/// The width of one tile when `area` is divided among `count` windows.
fn tile_extent(area: Area, count: usize) -> (width: u32)
    requires
        count > 0,
    ensures
        width == tile_width(area, count as int),
{
    if count > area.width as usize {
        assert(area.width as int / count as int == 0) by (nonlinear_arith)
            requires
                0 <= area.width < count,
        ;
        0
    } else {
        area.width / (count as u32)
    }
}

/// The left edge of the tile with `rank` tiles to its left.
fn tile_left(area: Area, count: usize, width: u32, rank: usize) -> (x: i32)
    requires
        rank < count,
        width == tile_width(area, count as int),
    ensures
        x == tile_x(area, count as int, rank as int),
{
    assert(rank * width <= area.width) by (nonlinear_arith)
        requires
            0 <= rank < count,
            width == area.width as int / count as int,
    ;
    let offset: u64 = (rank as u64) * (width as u64);
    let left: i64 = area.x as i64 + offset as i64;
    if left > i32::MAX as i64 {
        i32::MAX
    } else {
        left as i32
    }
}

} // verus!
