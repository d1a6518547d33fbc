//! Client-side input and surface logic of a Wayland session: the keyboard
//! repeat context, pointer translation, global binding decisions and the
//! ordered event queue that the event loop drains once per wake.
pub mod keyboard;
pub mod pointer;
pub mod events;
pub mod registry;
pub mod session;

pub use keyboard::{KeyboardContext, RepeatInfo, TimerSpec, WaylandKeyState};
pub use pointer::{button_from_code, scroll_delta, wl_fixed_join, wl_fixed_split, FixedParts, MouseButton};
pub use events::{EventQueue, WaylandEvent};
pub use registry::{
    configure_sizes, global_kind, seat_devices, str_equals, BindRequest, DecorationMargins,
    GlobalKind, Globals, Resize, SeatDevices,
};
pub use session::{should_prompt_quit, HandlerCall, KeyInfo, KeyMods, Modifier, Request, Session};
