//! Progress bars for the terminal: single bars that count, time and draw
//! themselves, and a coordinator that paints several bars, each updated from
//! its own thread, as one block of lines.
mod bar;
mod format;
mod layout;
mod multi;
mod style;
mod sys;
mod term;
mod text;
mod util;

pub use self::bar::{
    BarStatus, BarView, ProgressBar, ProgressBarContext, ProgressBarDrawInfo, ProgressBarTarget,
    ProgressBarTargetKind, TargetModel, DEFAULT_REFRESH_MILLIS,
};
pub use self::format::{FormattedTime, FormattedUnit, TimeFormat, UnitFormat};
pub use self::layout::{LayoutAlignment, LayoutElement};
pub use self::multi::{MultiProgressBar, MultiView};
pub use self::style::{Component, ProgressBarStyle, DEFAULT_BAR_WIDTH};
pub use self::term::{
    move_cursor_down, move_cursor_up, Term, TERM_DEFAULT_HEIGHT, TERM_DEFAULT_WIDTH,
};
pub use self::util::{duration_to_datetime, TimeSpan, MAX_SPAN_NANOS, NANOS_PER_SEC};
