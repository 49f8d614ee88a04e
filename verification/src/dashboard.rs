//! The dashboard mode's state machine and what it draws: a cursor over the
//! controller list, one labeled percentage gauge per controller, and the
//! four navigation effects. Key events, timing and the actual terminal
//! drawing stay with the caller, which hands write outcomes back in.

use vstd::prelude::*;

use crate::controller::{Controller, LightError};
use crate::utils::{dec_str, u64_to_string};

verus! {

/// The palette the gauges use: the cursor row swaps foreground and
/// background, the others alternate between the two background shades.
#[derive(Clone, Copy, Debug, PartialEq, Eq, Structural)]
pub enum GaugeColor {
    Black,
    Yellow,
    LightYellow,
}

/// Everything the caller needs to draw one gauge row: its label text, its
/// fill percentage, and its two colors.
pub struct GaugeRow {
    pub label: String,
    pub percent: u64,
    pub fg: GaugeColor,
    pub bg: GaugeColor,
}

/// The outer frame: a bordered box with this centered title.
pub struct MainBlock {
    pub title: String,
}

/// One full frame of the dashboard: the outer frame and the gauge rows,
/// one per controller in list order.
pub struct Screen {
    pub main_block: MainBlock,
    pub gauges: Vec<GaugeRow>,
}

/// The gauge fill for a controller, as an integer percentage: the floor of
/// `brightness * 100 / max_brightness`, rendered as 0 when the ceiling is 0
/// rather than dividing by zero, and capped at 100 should the mirrored
/// value exceed the ceiling.
pub open spec fn gauge_percent(brightness: u64, max_brightness: u64) -> int {
    if max_brightness == 0 {
        0
    } else if (brightness as int) * 100 / (max_brightness as int) > 100 {
        100
    } else {
        (brightness as int) * 100 / (max_brightness as int)
    }
}

/// The label of a controller's gauge row:
/// `<path> (<brightness> / <max_brightness> = <percent> %)`.
pub open spec fn gauge_label(c: Controller) -> Seq<char> {
    c.path@ + " ("@ + dec_str(c.brightness as nat) + " / "@ + dec_str(c.max_brightness as nat)
        + " = "@ + dec_str(gauge_percent(c.brightness, c.max_brightness) as nat) + " %)"@
}

/// The foreground of row `i` when the cursor is on row `cursor`.
pub open spec fn row_fg(i: int, cursor: int) -> GaugeColor {
    if i == cursor {
        if i % 2 == 0 {
            GaugeColor::Yellow
        } else {
            GaugeColor::LightYellow
        }
    } else {
        GaugeColor::Black
    }
}

/// The background of row `i` when the cursor is on row `cursor`.
pub open spec fn row_bg(i: int, cursor: int) -> GaugeColor {
    if i == cursor {
        GaugeColor::Black
    } else if i % 2 == 0 {
        GaugeColor::Yellow
    } else {
        GaugeColor::LightYellow
    }
}

/// Whether `r` is the row the dashboard draws at position `i` for
/// controller `c` with the cursor on row `cursor`.
pub open spec fn row_matches(r: GaugeRow, i: int, cursor: int, c: Controller) -> bool {
    r.label@ == gauge_label(c) && r.percent == gauge_percent(c.brightness, c.max_brightness)
        && r.fg == row_fg(i, cursor) && r.bg == row_bg(i, cursor)
}

/// The dashboard state: the controller list and the cursor into it.
pub struct App {
    pub controllers: Vec<Controller>,
    pub cursor: usize,
}

impl App {
    /// The cursor always points at a controller, except over an empty list,
    /// where it rests at 0.
    pub open spec fn wf(self) -> bool {
        if self.controllers@.len() == 0 {
            self.cursor == 0
        } else {
            self.cursor < self.controllers@.len()
        }
    }

    /// Starts the dashboard over `controllers` with the cursor on row 0;
    /// construction itself cannot fail.
    pub fn new(controllers: Vec<Controller>) -> (r: Result<App, LightError>)
        ensures
            r matches Ok(a) && a.controllers == controllers && a.cursor == 0,
            r matches Ok(a) ==> a.wf(),
    {
        Ok(App { controllers, cursor: 0 })
    }

    /// Moves the cursor one row down, wrapping from the last row to the
    /// first; over an empty list nothing moves.
    pub fn down(&mut self)
        requires
            old(self).wf(),
        ensures
            final(self).wf(),
            final(self).controllers == old(self).controllers,
            old(self).controllers@.len() > 0 ==> final(self).cursor == (old(self).cursor + 1) % (
            old(self).controllers@.len() as int),
            old(self).controllers@.len() == 0 ==> final(self).cursor == old(self).cursor,
    {
        if self.controllers.len() > 0 {
            self.cursor = (self.cursor + 1) % self.controllers.len();
        }
    }

    /// Moves the cursor one row up, wrapping from the first row to the
    /// last; over an empty list nothing moves.
    pub fn up(&mut self)
        requires
            old(self).wf(),
        ensures
            final(self).wf(),
            final(self).controllers == old(self).controllers,
            old(self).controllers@.len() > 0 && old(self).cursor == 0 ==> final(self).cursor == (
            old(self).controllers@.len() - 1) as int,
            old(self).cursor > 0 ==> final(self).cursor == old(self).cursor - 1,
            old(self).controllers@.len() == 0 ==> final(self).cursor == old(self).cursor,
    {
        if self.controllers.len() == 0 {
        } else if self.cursor == 0 {
            self.cursor = self.controllers.len() - 1;
        } else {
            self.cursor = self.cursor - 1;
        }
    }

    /// The value a decrease-key press would write: one below the selected
    /// controller's brightness, or nothing (and so no write at all) when
    /// the brightness is already 0 or no controller is selected.
    pub fn left_target(&self) -> (r: Option<u64>)
        ensures
            r is Some <==> self.cursor < self.controllers@.len() && self.controllers@[self.cursor
                as int].brightness > 0,
            r matches Some(v) ==> v == self.controllers@[self.cursor as int].brightness - 1,
    {
        if self.cursor < self.controllers.len() && self.controllers[self.cursor].brightness > 0 {
            Some(self.controllers[self.cursor].brightness - 1)
        } else {
            None
        }
    }

    /// The value an increase-key press would write: one above the selected
    /// controller's brightness, or nothing when it already sits at its
    /// `max_brightness` or no controller is selected.
    pub fn right_target(&self) -> (r: Option<u64>)
        ensures
            r is Some <==> self.cursor < self.controllers@.len() && self.controllers@[self.cursor
                as int].brightness < self.controllers@[self.cursor as int].max_brightness,
            r matches Some(v) ==> v == self.controllers@[self.cursor as int].brightness + 1,
    {
        if self.cursor < self.controllers.len() && self.controllers[self.cursor].brightness
            < self.controllers[self.cursor].max_brightness {
            Some(self.controllers[self.cursor].brightness + 1)
        } else {
            None
        }
    }

    /// Commits a decrease-key press after the caller attempted the write
    /// `left_target` asked for, `write_done` reporting its outcome. Only a
    /// decrement that was actually written lands in the mirrored value: at
    /// brightness 0, or on a failed write, the state is exactly unchanged.
    pub fn left(&mut self, write_done: bool)
        requires
            old(self).wf(),
        ensures
            final(self).wf(),
            final(self).cursor == old(self).cursor,
            ({
                let cur = old(self).cursor as int;
                if old(self).cursor < old(self).controllers@.len() && old(
                    self,
                ).controllers@[cur].brightness > 0 && write_done {
                    final(self).controllers@ == old(self).controllers@.update(
                        cur,
                        (Controller {
                            path: old(self).controllers@[cur].path,
                            brightness: (old(self).controllers@[cur].brightness - 1) as u64,
                            max_brightness: old(self).controllers@[cur].max_brightness,
                        }),
                    )
                } else {
                    *final(self) == *old(self)
                }
            }),
    {
        if self.cursor < self.controllers.len() && write_done {
            let b = self.controllers[self.cursor].brightness;
            if b > 0 {
                let updated = Controller {
                    path: self.controllers[self.cursor].path.clone(),
                    brightness: b - 1,
                    max_brightness: self.controllers[self.cursor].max_brightness,
                };
                self.controllers[self.cursor] = updated;
            }
        }
    }

    /// Commits an increase-key press after the caller attempted the write
    /// `right_target` asked for, `write_done` reporting its outcome. Only
    /// an increment that was actually written lands in the mirrored value:
    /// at `max_brightness`, or on a failed write, the state is exactly
    /// unchanged.
    pub fn right(&mut self, write_done: bool)
        requires
            old(self).wf(),
        ensures
            final(self).wf(),
            final(self).cursor == old(self).cursor,
            ({
                let cur = old(self).cursor as int;
                if old(self).cursor < old(self).controllers@.len() && old(
                    self,
                ).controllers@[cur].brightness < old(self).controllers@[cur].max_brightness
                    && write_done {
                    final(self).controllers@ == old(self).controllers@.update(
                        cur,
                        (Controller {
                            path: old(self).controllers@[cur].path,
                            brightness: (old(self).controllers@[cur].brightness + 1) as u64,
                            max_brightness: old(self).controllers@[cur].max_brightness,
                        }),
                    )
                } else {
                    *final(self) == *old(self)
                }
            }),
    {
        if self.cursor < self.controllers.len() && write_done {
            let b = self.controllers[self.cursor].brightness;
            if b < self.controllers[self.cursor].max_brightness {
                let updated = Controller {
                    path: self.controllers[self.cursor].path.clone(),
                    brightness: b + 1,
                    max_brightness: self.controllers[self.cursor].max_brightness,
                };
                self.controllers[self.cursor] = updated;
            }
        }
    }

    /// The gauge fill percentage for one controller, capped at 100 and 0
    /// for a ceiling of 0.
    pub fn percent_of(c: &Controller) -> (r: u64)
        ensures
            r == gauge_percent(c.brightness, c.max_brightness),
            r <= 100,
    {
        if c.max_brightness == 0 {
            0
        } else {
            let q: u128 = (c.brightness as u128) * 100 / (c.max_brightness as u128);
            if q > 100 {
                100
            } else {
                q as u64
            }
        }
    }

    /// The outer frame of the dashboard, titled `light mixer`.
    pub fn render_main_block(&self) -> (r: MainBlock)
        ensures
            r.title@ == "light mixer"@,
    {
        MainBlock { title: String::from_str("light mixer") }
    }

    /// One gauge row per controller, in list order: each row carries the
    /// `gauge_label` text, the capped fill percentage, and the palette for
    /// its position relative to the cursor.
    pub fn render_gauges(&self) -> (r: Vec<GaugeRow>)
        ensures
            r@.len() == self.controllers@.len(),
            forall|i: int|
                0 <= i < r@.len() ==> row_matches(
                    #[trigger] r@[i],
                    i,
                    self.cursor as int,
                    self.controllers@[i],
                ),
    {
        let mut rows: Vec<GaugeRow> = Vec::new();
        let mut i: usize = 0;
        while i < self.controllers.len()
            invariant
                i <= self.controllers@.len(),
                rows@.len() == i,
                forall|j: int|
                    0 <= j < i ==> row_matches(
                        #[trigger] rows@[j],
                        j,
                        self.cursor as int,
                        self.controllers@[j],
                    ),
            decreases self.controllers@.len() - i,
        {
            let c = &self.controllers[i];
            let percent = Self::percent_of(c);
            let mut label = c.path.clone();
            label.append(" (");
            let b = u64_to_string(c.brightness);
            label.append(b.as_str());
            label.append(" / ");
            let m = u64_to_string(c.max_brightness);
            label.append(m.as_str());
            label.append(" = ");
            let p = u64_to_string(percent);
            label.append(p.as_str());
            label.append(" %)");
            proof {
                assert(label@ =~= gauge_label(self.controllers@[i as int]));
            }
            let fg = if i == self.cursor {
                if i % 2 == 0 {
                    GaugeColor::Yellow
                } else {
                    GaugeColor::LightYellow
                }
            } else {
                GaugeColor::Black
            };
            let bg = if i == self.cursor {
                GaugeColor::Black
            } else if i % 2 == 0 {
                GaugeColor::Yellow
            } else {
                GaugeColor::LightYellow
            };
            rows.push(GaugeRow { label, percent, fg, bg });
            i = i + 1;
        }
        rows
    }

    /// The full frame to draw: the titled outer block and the gauge rows.
    pub fn render(&self) -> (r: Screen)
        ensures
            r.main_block.title@ == "light mixer"@,
            r.gauges@.len() == self.controllers@.len(),
            forall|i: int|
                0 <= i < r.gauges@.len() ==> row_matches(
                    #[trigger] r.gauges@[i],
                    i,
                    self.cursor as int,
                    self.controllers@[i],
                ),
    {
        Screen { main_block: self.render_main_block(), gauges: self.render_gauges() }
    }
}

} // verus!
