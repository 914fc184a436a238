//! The mathematical model of the compositor's state.
//!
//! [`CompositorView`] is the value of a compositor state: sequences of
//! outputs, windows and seats, and the two identifier counters. Every
//! operation of the state is a function here, and the executable
//! operations are specified by these functions.

use super::output::OutputView;
use super::seat::SeatView;
use super::window::WindowView;
use crate::input::event::InputEvent;
use vstd::prelude::*;

verus! {

/// Width of the area that is tiled when there is no output.
pub const FALLBACK_WIDTH: u32 = 1920;

/// Height of the area that is tiled when there is no output.
pub const FALLBACK_HEIGHT: u32 = 1080;

/// The position of the first element of `s` that equals `x`.
pub open spec fn first_position<T>(s: Seq<T>, x: T) -> Option<int>
    decreases s.len(),
{
    if s.len() == 0 {
        None
    } else if s[0] == x {
        Some(0int)
    } else {
        match first_position(s.drop_first(), x) {
            Some(i) => Some(i + 1),
            None => None,
        }
    }
}

/// `first_position` finds an element equal to `x` with no such element
/// before it, and finds nothing only where no element equals `x`.
pub proof fn lemma_first_position<T>(s: Seq<T>, x: T)
    ensures
        first_position(s, x) matches Some(i) ==> 0 <= i < s.len() && s[i] == x && forall|j: int|
            0 <= j < i ==> s[j] != x,
        first_position(s, x) is None ==> forall|j: int| 0 <= j < s.len() ==> s[j] != x,
    decreases s.len(),
{
    if s.len() != 0 && s[0] != x {
        let rest = s.drop_first();
        lemma_first_position(rest, x);
        match first_position(rest, x) {
            Some(i) => {
                assert forall|j: int| 0 <= j < i + 1 implies s[j] != x by {
                    if j > 0 {
                        assert(rest[j - 1] == s[j]);
                    }
                }
            },
            None => {
                assert forall|j: int| 0 <= j < s.len() implies s[j] != x by {
                    if j > 0 {
                        assert(rest[j - 1] == s[j]);
                    }
                }
            },
        }
    }
}

/// An element equal to `x` with no such element before it is where
/// `first_position` points.
pub proof fn lemma_first_position_at<T>(s: Seq<T>, x: T, i: int)
    requires
        0 <= i < s.len(),
        s[i] == x,
        forall|j: int| 0 <= j < i ==> s[j] != x,
    ensures
        first_position(s, x) == Some(i),
{
    lemma_first_position(s, x);
}

/// Where no element equals `x`, `first_position` finds nothing.
pub proof fn lemma_first_position_none<T>(s: Seq<T>, x: T)
    requires
        forall|j: int| 0 <= j < s.len() ==> s[j] != x,
    ensures
        first_position(s, x) is None,
{
    lemma_first_position(s, x);
}

/// The ids of `windows`, in order.
pub open spec fn window_ids(windows: Seq<WindowView>) -> Seq<u32> {
    windows.map_values(|w: WindowView| w.id)
}

/// The ids of `outputs`, in order.
pub open spec fn output_ids(outputs: Seq<OutputView>) -> Seq<u32> {
    outputs.map_values(|o: OutputView| o.id)
}

/// The names of `seats`, in order.
pub open spec fn seat_names(seats: Seq<SeatView>) -> Seq<Seq<char>> {
    seats.map_values(|s: SeatView| s.name)
}

/// For each of `outputs`, whether it is primary.
pub open spec fn primary_flags(outputs: Seq<OutputView>) -> Seq<bool> {
    outputs.map_values(|o: OutputView| o.is_primary)
}

/// The ids of the mapped windows among the first `n` of `windows`, in order.
pub open spec fn mapped_ids_among(windows: Seq<WindowView>, n: int) -> Seq<u32>
    decreases n,
{
    if n <= 0 {
        Seq::empty()
    } else if windows[n - 1].is_mapped {
        mapped_ids_among(windows, n - 1).push(windows[n - 1].id)
    } else {
        mapped_ids_among(windows, n - 1)
    }
}

/// The ids of the mapped windows, in order.
pub open spec fn mapped_ids(windows: Seq<WindowView>) -> Seq<u32> {
    mapped_ids_among(windows, windows.len() as int)
}

/// The mapped windows among the first `a` are among those of the first `b`.
pub proof fn lemma_mapped_ids_grow(windows: Seq<WindowView>, a: int, b: int)
    requires
        a <= b,
    ensures
        mapped_ids_among(windows, a).len() <= mapped_ids_among(windows, b).len(),
    decreases b - a,
{
    if a < b {
        lemma_mapped_ids_grow(windows, a, b - 1);
    }
}

/// Whether a seat may focus `id`: the first window with that id is mapped.
pub open spec fn accepts_focus(windows: Seq<WindowView>, id: u32) -> bool {
    match first_position(window_ids(windows), id) {
        Some(i) => windows[i].is_mapped,
        None => false,
    }
}

/// The focus that a seat takes when asked for `target`: the target where it
/// is a present, mapped window, and no focus otherwise.
pub open spec fn accepted_target(windows: Seq<WindowView>, target: Option<u32>) -> Option<u32> {
    match target {
        Some(id) => if accepts_focus(windows, id) {
            Some(id)
        } else {
            None
        },
        None => None,
    }
}

/// `windows` with each focus flag saying whether the window is `focus`.
pub open spec fn refocused(windows: Seq<WindowView>, focus: Option<u32>) -> Seq<WindowView> {
    windows.map_values(|w: WindowView| w.with_focus(Some(w.id) == focus))
}

/// A rectangle of the global coordinate space.
#[derive(Debug, Clone, Copy, PartialEq, Eq, Structural)]
pub struct Area {
    pub x: i32,
    pub y: i32,
    pub width: u32,
    pub height: u32,
}

/// The rectangle that an output covers.
pub open spec fn area_of(output: OutputView) -> Area {
    Area { x: output.x, y: output.y, width: output.width, height: output.height }
}

/// The rectangle that the tiling layout fills: the first primary output,
/// else the first output, else 1920 by 1080 at the origin.
pub open spec fn tiling_area(outputs: Seq<OutputView>) -> Area {
    match first_position(primary_flags(outputs), true) {
        Some(i) => area_of(outputs[i]),
        None => if outputs.len() > 0 {
            area_of(outputs[0])
        } else {
            Area { x: 0, y: 0, width: FALLBACK_WIDTH, height: FALLBACK_HEIGHT }
        },
    }
}

/// `v`, held at the nearest bound of `i32` where it leaves the range.
pub open spec fn clamp_to_i32(v: int) -> i32 {
    if v > i32::MAX {
        i32::MAX
    } else if v < i32::MIN {
        i32::MIN
    } else {
        v as i32
    }
}

/// The width of one tile: the area's width divided evenly among `count`
/// windows, the remainder left unused.
pub open spec fn tile_width(area: Area, count: int) -> u32
    recommends
        count > 0,
{
    (area.width as int / count) as u32
}

/// The left edge of the tile with `rank` tiles to its left.
pub open spec fn tile_x(area: Area, count: int, rank: int) -> i32
    recommends
        count > 0,
{
    clamp_to_i32(area.x + rank * tile_width(area, count))
}

/// `windows` after tiling into `area`: each mapped window takes the tile
/// of its rank among the mapped windows and the area's full height, and is
/// marked tiled. Windows that are not mapped stay as they are, and so does
/// everything when no window is mapped.
pub open spec fn tiled_windows(windows: Seq<WindowView>, area: Area) -> Seq<WindowView> {
    let count = mapped_ids(windows).len() as int;
    Seq::new(
        windows.len(),
        |i: int|
            if windows[i].is_mapped {
                windows[i].tiled_at(
                    tile_x(area, count, mapped_ids_among(windows, i).len() as int),
                    area.y,
                    tile_width(area, count),
                    area.height,
                )
            } else {
                windows[i]
            },
    )
}

/// The mathematical value of a compositor state.
pub struct CompositorView {
    pub running: bool,
    pub display: Seq<char>,
    pub outputs: Seq<OutputView>,
    pub windows: Seq<WindowView>,
    pub seats: Seq<SeatView>,
    /// The id that the next window gets.
    pub next_window_id: u32,
    /// The id that the next output gets.
    pub next_output_id: u32,
}

impl CompositorView {
    /// The state at start: running, one seat named "seat0" without focus, no
    /// window, and two outputs side by side, a primary one of 1920 by 1080
    /// at the origin and a secondary one of 1280 by 720 to its right.
    pub open spec fn initial() -> CompositorView {
        CompositorView {
            running: true,
            display: "default_display"@,
            outputs: seq![
                OutputView {
                    id: 1,
                    name: "Primary-1920x1080"@,
                    width: 1920,
                    height: 1080,
                    x: 0,
                    y: 0,
                    is_primary: true,
                },
                OutputView {
                    id: 2,
                    name: "Secondary-1280x720"@,
                    width: 1280,
                    height: 720,
                    x: 1920,
                    y: 0,
                    is_primary: false,
                },
            ],
            windows: Seq::empty(),
            seats: seq![SeatView { name: "seat0"@, focused_window: None }],
            next_window_id: 1,
            next_output_id: 3,
        }
    }

    /// Where the first window with `id` stands.
    pub open spec fn window_position(self, id: u32) -> Option<int> {
        first_position(window_ids(self.windows), id)
    }

    /// Where the first output with `id` stands.
    pub open spec fn output_position(self, id: u32) -> Option<int> {
        first_position(output_ids(self.outputs), id)
    }

    /// Where the first seat named `name` stands.
    pub open spec fn seat_position(self, name: Seq<char>) -> Option<int> {
        first_position(seat_names(self.seats), name)
    }

    /// The first window with `id`.
    pub open spec fn find_window(self, id: u32) -> Option<WindowView> {
        match self.window_position(id) {
            Some(i) => Some(self.windows[i]),
            None => None,
        }
    }

    /// The focus of the first seat named `name`; none where there is no
    /// such seat.
    pub open spec fn focus_of(self, name: Seq<char>) -> Option<u32> {
        match self.seat_position(name) {
            Some(s) => self.seats[s].focused_window,
            None => None,
        }
    }

    /// The state after one window id was handed out.
    pub open spec fn after_window_id(self) -> CompositorView
        recommends
            self.next_window_id < u32::MAX,
    {
        CompositorView { next_window_id: (self.next_window_id + 1) as u32, ..self }
    }

    /// The state after one output id was handed out.
    pub open spec fn after_output_id(self) -> CompositorView
        recommends
            self.next_output_id < u32::MAX,
    {
        CompositorView { next_output_id: (self.next_output_id + 1) as u32, ..self }
    }

    /// The state with `output` added behind the others.
    pub open spec fn with_output(self, output: OutputView) -> CompositorView {
        CompositorView { outputs: self.outputs.push(output), ..self }
    }

    /// The state without the first output that has `id`.
    pub open spec fn without_output(self, id: u32) -> CompositorView {
        match self.output_position(id) {
            Some(i) => CompositorView { outputs: self.outputs.remove(i), ..self },
            None => self,
        }
    }

    /// The state with `window` added behind the others.
    pub open spec fn with_window(self, window: WindowView) -> CompositorView {
        CompositorView { windows: self.windows.push(window), ..self }
    }

    /// The state without the first window that has `id`.
    pub open spec fn without_window(self, id: u32) -> CompositorView {
        match self.window_position(id) {
            Some(i) => CompositorView { windows: self.windows.remove(i), ..self },
            None => self,
        }
    }

    /// The state with the first window that has `id` replaced by `window`.
    pub open spec fn with_window_replaced(self, id: u32, window: WindowView) -> CompositorView {
        match self.window_position(id) {
            Some(i) => CompositorView { windows: self.windows.update(i, window), ..self },
            None => self,
        }
    }

    /// The state after the first window with `id` was mapped in place.
    pub open spec fn with_window_mapped(self, id: u32) -> CompositorView {
        match self.find_window(id) {
            Some(w) => self.with_window_replaced(id, w.mapped()),
            None => self,
        }
    }

    /// The state after the first window with `id` was unmapped in place.
    /// The seats are not touched: a seat that focused the window still names
    /// it until it is next asked for a focus.
    pub open spec fn with_window_unmapped(self, id: u32) -> CompositorView {
        match self.find_window(id) {
            Some(w) => self.with_window_replaced(id, w.unmapped()),
            None => self,
        }
    }

    /// The state after the seat named `seat_name` was asked to focus
    /// `target`.
    ///
    /// The seat takes the target where it is a present, mapped window, and
    /// loses its focus otherwise. Every window's focus flag then says
    /// whether it is the seat's focus. Without such a seat nothing changes.
    pub open spec fn with_focus(self, seat_name: Seq<char>, target: Option<u32>) -> CompositorView {
        match self.seat_position(seat_name) {
            Some(s) => {
                let accepted = accepted_target(self.windows, target);
                CompositorView {
                    seats: self.seats.update(
                        s,
                        SeatView { focused_window: accepted, ..self.seats[s] },
                    ),
                    windows: refocused(self.windows, accepted),
                    ..self
                }
            },
            None => self,
        }
    }

    /// The window that focus cycling turns to from `current`: the mapped
    /// window after `current` in collection order, the first one after the
    /// last, and the first one where `current` is no mapped window.
    pub open spec fn cycle_target(self, current: Option<u32>) -> u32
        recommends
            mapped_ids(self.windows).len() > 0,
    {
        let ids = mapped_ids(self.windows);
        match current {
            Some(id) => match first_position(ids, id) {
                Some(k) => ids[(k + 1) % (ids.len() as int)],
                None => ids[0],
            },
            None => ids[0],
        }
    }

    /// The state after the seat named `seat_name` moved its focus to the
    /// next mapped window.
    ///
    /// With no mapped window the seat loses its focus. Without such a seat
    /// nothing changes.
    pub open spec fn with_next_focus(self, seat_name: Seq<char>) -> CompositorView {
        if mapped_ids(self.windows).len() == 0 {
            self.with_focus(seat_name, None)
        } else {
            match self.seat_position(seat_name) {
                Some(s) => self.with_focus(
                    seat_name,
                    Some(self.cycle_target(self.seats[s].focused_window)),
                ),
                None => self,
            }
        }
    }

    /// Where the window stands that takes input from the seat named
    /// `seat_name`: the first window with the id that the seat focuses,
    /// provided it is mapped.
    pub open spec fn input_target(self, seat_name: Seq<char>) -> Option<int> {
        match self.focus_of(seat_name) {
            Some(id) => match self.window_position(id) {
                Some(i) => if self.windows[i].is_mapped {
                    Some(i)
                } else {
                    None
                },
                None => None,
            },
            None => None,
        }
    }

    /// The state after `event` came in on the seat named `seat_name`: the
    /// event stands at the end of the input target's queue; without a
    /// target nothing changes.
    pub open spec fn with_dispatched(
        self,
        event: InputEvent,
        seat_name: Seq<char>,
    ) -> CompositorView {
        match self.input_target(seat_name) {
            Some(i) => CompositorView {
                windows: self.windows.update(i, self.windows[i].with_event(event)),
                ..self
            },
            None => self,
        }
    }

    /// The state after the mapped windows were tiled.
    pub open spec fn tiled(self) -> CompositorView {
        CompositorView { windows: tiled_windows(self.windows, tiling_area(self.outputs)), ..self }
    }

    /// Whether a request to give the window `id` the size `width` by
    /// `height` is carried out: both are positive and the window exists.
    pub open spec fn can_resize(self, id: u32, width: u32, height: u32) -> bool {
        width != 0 && height != 0 && self.window_position(id) is Some
    }

    /// The state after a request to give the window `id` the size `width`
    /// by `height`. A request that is not carried out changes nothing.
    pub open spec fn resized(self, id: u32, width: u32, height: u32) -> CompositorView {
        if self.can_resize(id, width, height) {
            self.with_window_replaced(id, self.find_window(id).unwrap().resized(width, height))
        } else {
            self
        }
    }

    /// The state after a request to move the window `id` to (`x`, `y`).
    /// Without such a window nothing changes.
    pub open spec fn moved(self, id: u32, x: i32, y: i32) -> CompositorView {
        match self.find_window(id) {
            Some(w) => self.with_window_replaced(id, w.moved(x, y)),
            None => self,
        }
    }

    /// The state after every window's queue was emptied.
    pub open spec fn drained(self) -> CompositorView {
        CompositorView { windows: self.windows.map_values(|w: WindowView| w.drained()), ..self }
    }
}

/// One operation on the compositor's state.
pub enum Operation {
    TakeOutputId,
    AddOutput(OutputView),
    RemoveOutput(u32),
    TakeWindowId,
    AddWindow(WindowView),
    RemoveWindow(u32),
    /// Mapping the first window with the id, in place.
    MapWindow(u32),
    /// Unmapping the first window with the id, in place.
    UnmapWindow(u32),
    SetFocus { seat_name: Seq<char>, target: Option<u32> },
    FocusNext { seat_name: Seq<char> },
    Dispatch { event: InputEvent, seat_name: Seq<char> },
    Tile,
    Resize { id: u32, width: u32, height: u32 },
    Move { id: u32, x: i32, y: i32 },
    Drain,
}

impl CompositorView {
    /// Whether every seat's focus is a window that is present and mapped.
    pub open spec fn focus_is_valid(self) -> bool {
        forall|s: int|
            0 <= s < self.seats.len() ==> match (#[trigger] self.seats[s]).focused_window {
                Some(id) => accepts_focus(self.windows, id),
                None => true,
            }
    }

    /// Whether every window that holds the focus flag is mapped.
    pub open spec fn focused_windows_are_mapped(self) -> bool {
        forall|i: int|
            0 <= i < self.windows.len() ==> (#[trigger] self.windows[i]).focused
                ==> self.windows[i].is_mapped
    }

    /// Whether some seat focuses `id`.
    pub open spec fn is_focused(self, id: u32) -> bool {
        exists|s: int|
            0 <= s < self.seats.len() && (#[trigger] self.seats[s]).focused_window == Some(id)
    }

    /// The state after `operation`.
    pub open spec fn after(self, operation: Operation) -> CompositorView {
        match operation {
            Operation::TakeOutputId => self.after_output_id(),
            Operation::AddOutput(output) => self.with_output(output),
            Operation::RemoveOutput(id) => self.without_output(id),
            Operation::TakeWindowId => self.after_window_id(),
            Operation::AddWindow(window) => self.with_window(window),
            Operation::RemoveWindow(id) => self.without_window(id),
            Operation::MapWindow(id) => self.with_window_mapped(id),
            Operation::UnmapWindow(id) => self.with_window_unmapped(id),
            Operation::SetFocus { seat_name, target } => self.with_focus(seat_name, target),
            Operation::FocusNext { seat_name } => self.with_next_focus(seat_name),
            Operation::Dispatch { event, seat_name } => self.with_dispatched(event, seat_name),
            Operation::Tile => self.tiled(),
            Operation::Resize { id, width, height } => self.resized(id, width, height),
            Operation::Move { id, x, y } => self.moved(id, x, y),
            Operation::Drain => self.drained(),
        }
    }

    /// The state after each of `operations` in turn.
    pub open spec fn after_all(self, operations: Seq<Operation>) -> CompositorView
        decreases operations.len(),
    {
        if operations.len() == 0 {
            self
        } else {
            self.after_all(operations.drop_last()).after(operations.last())
        }
    }

    /// The state after the seat named `seat_name` moved its focus to the
    /// next mapped window `times` times in a row.
    pub open spec fn after_focus_cycles(self, seat_name: Seq<char>, times: nat) -> CompositorView
        decreases times,
    {
        if times == 0 {
            self
        } else {
            self.after_focus_cycles(seat_name, (times - 1) as nat).with_next_focus(seat_name)
        }
    }
}

} // verus!
