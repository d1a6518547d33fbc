use vstd::prelude::*;

verus! {

/// Bit of `wl_seat.capabilities` announcing a pointer.
pub const SEAT_CAPABILITY_POINTER: u32 = 1;

/// Bit of `wl_seat.capabilities` announcing a keyboard.
pub const SEAT_CAPABILITY_KEYBOARD: u32 = 2;

/// Highest seat version this client speaks.
pub const SEAT_VERSION: u32 = 4;

/// Version at which the data-device manager is bound.
pub const DATA_DEVICE_MANAGER_VERSION: u32 = 3;

/// A global interface that this client binds.
#[derive(Clone, Copy, Debug, PartialEq, Eq, Structural)]
pub enum GlobalKind {
    Compositor,
    Subcompositor,
    WmBase,
    DecorationManager,
    Viewporter,
    Shm,
    Seat,
    DataDeviceManager,
}

/// What to do for one advertised global: bind registry name `name` as
/// `kind` at `version`. Binding the seat also registers its listener.
#[derive(Clone, Copy, Debug, PartialEq, Eq, Structural)]
pub struct BindRequest {
    pub kind: GlobalKind,
    pub name: u32,
    pub version: u32,
}

impl BindRequest {
    pub open spec fn spec_adds_listener(self) -> bool {
        self.kind is Seat
    }

    /// Whether the bound object gets its capability listener right away.
    pub fn adds_listener(&self) -> (r: bool)
        ensures
            r == self.spec_adds_listener(),
    {
        matches!(self.kind, GlobalKind::Seat)
    }
}

/// The kind bound for an interface name; `None` for one this client ignores.
pub open spec fn kind_of(interface: Seq<char>) -> Option<GlobalKind> {
    if interface == "wl_compositor"@ {
        Some(GlobalKind::Compositor)
    } else if interface == "wl_subcompositor"@ {
        Some(GlobalKind::Subcompositor)
    } else if interface == "xdg_wm_base"@ {
        Some(GlobalKind::WmBase)
    } else if interface == "zxdg_decoration_manager"@ || interface
        == "zxdg_decoration_manager_v1"@ {
        Some(GlobalKind::DecorationManager)
    } else if interface == "wp_viewporter"@ {
        Some(GlobalKind::Viewporter)
    } else if interface == "wl_shm"@ {
        Some(GlobalKind::Shm)
    } else if interface == "wl_seat"@ {
        Some(GlobalKind::Seat)
    } else if interface == "wl_data_device_manager"@ {
        Some(GlobalKind::DataDeviceManager)
    } else {
        None
    }
}

/// The fixed version at which `kind` is bound when `offered` is advertised.
pub open spec fn version_for(kind: GlobalKind, offered: u32) -> u32 {
    match kind {
        GlobalKind::Seat => if offered < SEAT_VERSION {
            offered
        } else {
            SEAT_VERSION
        },
        GlobalKind::DataDeviceManager => DATA_DEVICE_MANAGER_VERSION,
        _ => 1,
    }
}

/// Whether two strings hold the same characters.
pub fn str_equals(a: &str, b: &str) -> (r: bool)
    ensures
        r == (a@ == b@),
{
    let n = a.unicode_len();
    if n != b.unicode_len() {
        return false;
    }
    let mut i: usize = 0;
    while i < n
        invariant
            n == a@.len() == b@.len(),
            i <= n,
            forall|j: int| 0 <= j < i ==> a@[j] == b@[j],
        decreases n - i,
    {
        if a.get_char(i) != b.get_char(i) {
            return false;
        }
        i = i + 1;
    }
    assert(a@ =~= b@);
    true
}

pub fn global_kind(interface: &str) -> (r: Option<GlobalKind>)
    ensures
        r == kind_of(interface@),
{
    if str_equals(interface, "wl_compositor") {
        Some(GlobalKind::Compositor)
    } else if str_equals(interface, "wl_subcompositor") {
        Some(GlobalKind::Subcompositor)
    } else if str_equals(interface, "xdg_wm_base") {
        Some(GlobalKind::WmBase)
    } else if str_equals(interface, "zxdg_decoration_manager") || str_equals(
        interface,
        "zxdg_decoration_manager_v1",
    ) {
        Some(GlobalKind::DecorationManager)
    } else if str_equals(interface, "wp_viewporter") {
        Some(GlobalKind::Viewporter)
    } else if str_equals(interface, "wl_shm") {
        Some(GlobalKind::Shm)
    } else if str_equals(interface, "wl_seat") {
        Some(GlobalKind::Seat)
    } else if str_equals(interface, "wl_data_device_manager") {
        Some(GlobalKind::DataDeviceManager)
    } else {
        None
    }
}

/// Registry names of the globals bound so far; `None` where the
/// compositor has not offered the interface.
#[derive(Clone, Copy, Debug, PartialEq, Eq, Structural)]
pub struct Globals {
    pub compositor: Option<u32>,
    pub subcompositor: Option<u32>,
    pub wm_base: Option<u32>,
    pub decoration_manager: Option<u32>,
    pub viewporter: Option<u32>,
    pub shm: Option<u32>,
    pub seat: Option<u32>,
    pub data_device_manager: Option<u32>,
}

/// `g` with the global of `kind` recorded as `name` (last one wins).
pub open spec fn with_bound(g: Globals, kind: GlobalKind, name: u32) -> Globals {
    match kind {
        GlobalKind::Compositor => Globals { compositor: Some(name), ..g },
        GlobalKind::Subcompositor => Globals { subcompositor: Some(name), ..g },
        GlobalKind::WmBase => Globals { wm_base: Some(name), ..g },
        GlobalKind::DecorationManager => Globals { decoration_manager: Some(name), ..g },
        GlobalKind::Viewporter => Globals { viewporter: Some(name), ..g },
        GlobalKind::Shm => Globals { shm: Some(name), ..g },
        GlobalKind::Seat => Globals { seat: Some(name), ..g },
        GlobalKind::DataDeviceManager => Globals { data_device_manager: Some(name), ..g },
    }
}

/// The bind for an advertised global, if this client knows its interface.
pub open spec fn bind_of(name: u32, interface: Seq<char>, version: u32) -> Option<BindRequest> {
    match kind_of(interface) {
        Some(kind) => Some(BindRequest { kind, name, version: version_for(kind, version) }),
        None => None,
    }
}

impl Globals {
    /// The objects required to make a surface: a compositor and a shell.
    pub open spec fn spec_has_required(self) -> bool {
        self.compositor is Some && self.wm_base is Some
    }

    /// Nothing bound.
    pub open spec fn new_spec() -> Globals {
        Globals {
            compositor: None,
            subcompositor: None,
            wm_base: None,
            decoration_manager: None,
            viewporter: None,
            shm: None,
            seat: None,
            data_device_manager: None,
        }
    }

    pub fn new() -> (r: Globals)
        ensures
            r == Globals::new_spec(),
    {
        Globals {
            compositor: None,
            subcompositor: None,
            wm_base: None,
            decoration_manager: None,
            viewporter: None,
            shm: None,
            seat: None,
            data_device_manager: None,
        }
    }

    /// A global was advertised: record it and return the bind to make, or
    /// ignore an unknown interface.
    pub fn add_object(&mut self, name: u32, interface: &str, version: u32) -> (r: Option<
        BindRequest,
    >)
        ensures
            r == bind_of(name, interface@, version),
            r matches Some(b) ==> *final(self) == with_bound(*old(self), b.kind, name),
            r is None ==> *final(self) == *old(self),
    {
        match global_kind(interface) {
            Some(kind) => {
                match kind {
                    GlobalKind::Compositor => self.compositor = Some(name),
                    GlobalKind::Subcompositor => self.subcompositor = Some(name),
                    GlobalKind::WmBase => self.wm_base = Some(name),
                    GlobalKind::DecorationManager => self.decoration_manager = Some(name),
                    GlobalKind::Viewporter => self.viewporter = Some(name),
                    GlobalKind::Shm => self.shm = Some(name),
                    GlobalKind::Seat => self.seat = Some(name),
                    GlobalKind::DataDeviceManager => self.data_device_manager = Some(name),
                }
                let v = match kind {
                    GlobalKind::Seat => if version < SEAT_VERSION {
                        version
                    } else {
                        SEAT_VERSION
                    },
                    GlobalKind::DataDeviceManager => DATA_DEVICE_MANAGER_VERSION,
                    _ => 1,
                };
                Some(BindRequest { kind, name, version: v })
            },
            None => None,
        }
    }

    /// Whether the compositor and the shell were both offered.
    pub fn has_required(&self) -> (r: bool)
        ensures
            r == self.spec_has_required(),
    {
        self.compositor.is_some() && self.wm_base.is_some()
    }
}

/// Which input devices to create for a seat's capability bits.
#[derive(Clone, Copy, Debug, PartialEq, Eq, Structural)]
pub struct SeatDevices {
    pub pointer: bool,
    pub keyboard: bool,
}

pub fn seat_devices(caps: u32) -> (r: SeatDevices)
    ensures
        r.pointer == (caps & SEAT_CAPABILITY_POINTER != 0),
        r.keyboard == (caps & SEAT_CAPABILITY_KEYBOARD != 0),
{
    SeatDevices {
        pointer: caps & SEAT_CAPABILITY_POINTER != 0,
        keyboard: caps & SEAT_CAPABILITY_KEYBOARD != 0,
    }
}

/// Margins that client-drawn decorations take from the window: a border
/// `width` on the left, right and bottom, and a title bar of `bar_height`.
#[derive(Clone, Copy, Debug, PartialEq, Eq, Structural)]
pub struct DecorationMargins {
    pub width: i32,
    pub bar_height: i32,
}

/// Sizes for a toplevel configure: the rendering surface gets
/// `surface_width` by `surface_height`; the display state, decorations and
/// application get `width` by `height`.
#[derive(Clone, Copy, Debug, PartialEq, Eq, Structural)]
pub struct Resize {
    pub surface_width: i64,
    pub surface_height: i64,
    pub width: i32,
    pub height: i32,
}

pub open spec fn resize_of(width: i32, height: i32, margins: Option<DecorationMargins>) -> Option<
    Resize,
> {
    if width == 0 || height == 0 {
        None
    } else {
        match margins {
            Some(m) => Some(
                Resize {
                    surface_width: (width - 2 * m.width) as i64,
                    surface_height: (height - m.bar_height - m.width) as i64,
                    width,
                    height,
                },
            ),
            None => Some(
                Resize { surface_width: width as i64, surface_height: height as i64, width, height },
            ),
        }
    }
}

/// The resize that a toplevel configure of `width` by `height` asks for;
/// none when either is zero (the compositor leaves the size to the client).
pub fn configure_sizes(width: i32, height: i32, margins: Option<DecorationMargins>) -> (r: Option<
    Resize,
>)
    ensures
        r == resize_of(width, height, margins),
{
    if width == 0 || height == 0 {
        return None;
    }
    match margins {
        Some(m) => Some(
            Resize {
                surface_width: width as i64 - 2 * m.width as i64,
                surface_height: height as i64 - m.bar_height as i64 - m.width as i64,
                width,
                height,
            },
        ),
        None => Some(
            Resize { surface_width: width as i64, surface_height: height as i64, width, height },
        ),
    }
}

} // verus!
