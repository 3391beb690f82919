//! Adapter lifecycle: the state machine that the host's callbacks drive.
//!
//! A session moves from `Uninitialized` to `Ready` when a game loads, and to
//! `Failed` when any step of loading fails; `Ready` tracks separately
//! whether the GL render context is currently live, because the host owns
//! the context and may revoke and restore it at any time relative to the
//! session. Decoupling "engine exists" from "render context is live" lets a
//! context loss be survived without a full reload.
//!
//! The host performs the outside work of loading — parsing the media image
//! to a region, asking the frontend for the system directory, walking that
//! directory with the locator, and building the GL backend — and reports
//! each outcome here; every decision over those outcomes is made in this
//! module. No operation here aborts: every failure path returns an explicit
//! error to the host.

use vstd::prelude::*;

use crate::firmware::{FirmwareImage, Region};

verus! {

/// Reported output geometry bound: widest mode.
pub const MAX_WIDTH: u32 = 640;

/// Reported output geometry bound: tallest mode.
pub const MAX_HEIGHT: u32 = 576;

/// Fixed video timing, in frames per second.
pub const FPS_HZ: u32 = 60;

/// Fixed audio timing, in samples per second.
pub const SAMPLE_RATE_HZ: u32 = 44100;

/// Why a load failed. Configuration errors (no system directory, an
/// unreadable one) and engine errors end the load; candidate errors never
/// reach this level — the locator just moves to the next entry.
#[derive(Clone, Copy, Debug, PartialEq, Eq, Structural)]
pub enum LoadError {
    /// The media image could not be parsed, so no region is known.
    MediaUnreadable,
    /// The frontend supplied no system directory; no fallback is searched.
    NoSystemDirectory,
    /// The system directory exists but could not be read.
    DirectoryUnreadable,
    /// The directory was scanned and no acceptable firmware image was found.
    NoFirmware,
    /// The render backend could not be constructed.
    ContextSetupFailed,
}

/// An operation was invoked in a state its contract forbids; reported to the
/// host, never fatal.
#[derive(Clone, Copy, Debug, PartialEq, Eq, Structural)]
pub enum SessionError {
    /// No game session is loaded.
    NotReady,
    /// The session is live but the host holds no GL context right now.
    NoRenderContext,
}

/// The frame-completion signal: carried back to the host exactly once per
/// successful frame, with the current output geometry.
#[derive(Clone, Copy, Debug, PartialEq, Eq, Structural)]
pub struct FrameDone {
    pub width: u32,
    pub height: u32,
}

/// Audio/video description handed to the host. Timing is fixed; the aspect
/// ratio is not prescribed here — `aspect_from_geometry` tells the host to
/// infer it from width and height (the wire format encodes that choice as a
/// negative sentinel).
#[derive(Clone, Copy, Debug, PartialEq, Eq, Structural)]
pub struct AvInfo {
    pub base_width: u32,
    pub base_height: u32,
    pub max_width: u32,
    pub max_height: u32,
    pub fps_hz: u32,
    pub sample_rate_hz: u32,
    pub aspect_from_geometry: bool,
}

/// Outcome of the firmware search, as the host reports it after driving the
/// locator.
pub enum SearchOutcome {
    /// The system directory could not be read at all.
    DirectoryUnreadable,
    /// The directory was walked and no candidate was accepted.
    NoMatch,
    /// The first accepted image.
    Found(FirmwareImage),
}

/// The session state; exactly one per adapter, owned by it exclusively.
pub enum AdapterState {
    /// No game has been loaded.
    Uninitialized,
    /// A game is loaded: the engine was built over `firmware`, reports
    /// `xres` by `yres` output, and `context_live` says whether the host's
    /// GL context currently backs rendering.
    Ready { firmware: FirmwareImage, context_live: bool, xres: u32, yres: u32 },
    /// A load failed; no session is active.
    Failed,
}

/// The adapter: holds the session state and lets it change only through the
/// lifecycle operations below.
pub struct Adapter {
    state: AdapterState,
}

impl Adapter {
    /// The current session state.
    pub closed spec fn state(self) -> AdapterState {
        self.state
    }

    /// A live session always holds a well-formed firmware image.
    pub closed spec fn wf(self) -> bool {
        self.state matches AdapterState::Ready { firmware, .. } ==> firmware.wf()
    }
}

/// A fresh adapter, before any game was loaded. Called once when the core
/// is brought up.
pub fn init() -> (a: Adapter)
    ensures
        a.wf(),
        a.state() is Uninitialized,
{
    Adapter { state: AdapterState::Uninitialized }
}

/// What the first step of a load decides from the media parse and the presence of a
/// system directory: the region to search for, or the first failure.
pub open spec fn spec_load_step(media_region: Option<Region>, have_system_dir: bool) -> Result<
    Region,
    LoadError,
> {
    match media_region {
        None => Err(LoadError::MediaUnreadable),
        Some(r) => if have_system_dir {
            Ok(r)
        } else {
            Err(LoadError::NoSystemDirectory)
        },
    }
}

/// Begin loading a game. `media_region` is the outcome of the external
/// media-image parse; `have_system_dir` says whether the frontend supplied a
/// system directory. On failure the adapter holds no session and the host
/// treats the game as failed to load — no retry, no fallback directory. On
/// success the returned region drives the firmware search, and the session
/// is not yet live: `finish_load` completes it.
pub fn load_game(a: &mut Adapter, media_region: Option<Region>, have_system_dir: bool) -> (r:
    Result<Region, LoadError>)
    requires
        old(a).wf(),
    ensures
        final(a).wf(),
        r == spec_load_step(media_region, have_system_dir),
        r is Ok ==> final(a).state() is Uninitialized,
        r is Err ==> final(a).state() is Failed,
{
    match media_region {
        None => {
            a.state = AdapterState::Failed;
            Err(LoadError::MediaUnreadable)
        },
        Some(region) => {
            if have_system_dir {
                a.state = AdapterState::Uninitialized;
                Ok(region)
            } else {
                a.state = AdapterState::Failed;
                Err(LoadError::NoSystemDirectory)
            }
        },
    }
}

/// Complete a load from the firmware search outcome and the attempt to build
/// the render backend (`context_built`, reporting `xres` by `yres` when it
/// stands). Only a found image and a built backend yield a `Ready` session;
/// its GL context starts out absent until the host's first context reset.
/// Every failure leaves the adapter with no active session.
pub fn finish_load(
    a: &mut Adapter,
    search: SearchOutcome,
    context_built: bool,
    xres: u32,
    yres: u32,
) -> (r: Result<(), LoadError>)
    requires
        old(a).wf(),
        search matches SearchOutcome::Found(img) ==> img.wf(),
    ensures
        final(a).wf(),
        match search {
            SearchOutcome::DirectoryUnreadable => {
                &&& r == Err::<(), LoadError>(LoadError::DirectoryUnreadable)
                &&& final(a).state() is Failed
            },
            SearchOutcome::NoMatch => {
                &&& r == Err::<(), LoadError>(LoadError::NoFirmware)
                &&& final(a).state() is Failed
            },
            SearchOutcome::Found(img) => if context_built {
                &&& r == Ok::<(), LoadError>(())
                &&& final(a).state() == (AdapterState::Ready {
                    firmware: img,
                    context_live: false,
                    xres,
                    yres,
                })
            } else {
                &&& r == Err::<(), LoadError>(LoadError::ContextSetupFailed)
                &&& final(a).state() is Failed
            },
        },
{
    match search {
        SearchOutcome::DirectoryUnreadable => {
            a.state = AdapterState::Failed;
            Err(LoadError::DirectoryUnreadable)
        },
        SearchOutcome::NoMatch => {
            a.state = AdapterState::Failed;
            Err(LoadError::NoFirmware)
        },
        SearchOutcome::Found(img) => {
            if context_built {
                a.state = AdapterState::Ready { firmware: img, context_live: false, xres, yres };
                Ok(())
            } else {
                a.state = AdapterState::Failed;
                Err(LoadError::ContextSetupFailed)
            }
        },
    }
}

/// What a frame request yields in each state: the completion signal with the
/// current geometry when a session is live and the GL context is present,
/// otherwise the matching error — and then no completion signal exists at
/// all.
pub open spec fn spec_render(s: AdapterState) -> Result<FrameDone, SessionError> {
    match s {
        AdapterState::Ready { context_live, xres, yres, .. } => if context_live {
            Ok(FrameDone { width: xres, height: yres })
        } else {
            Err(SessionError::NoRenderContext)
        },
        _ => Err(SessionError::NotReady),
    }
}

/// Whether a frame request would succeed.
pub open spec fn spec_can_render(s: AdapterState) -> bool {
    s matches AdapterState::Ready { context_live: true, .. }
}

/// Ask for one frame. On success the returned `FrameDone` is the one
/// completion signal the host receives for this frame; on error no signal
/// is produced. Calling this without a live GL context (before the first
/// context reset, or after a context destroy) is an error, never silently
/// ignored and never fatal.
pub fn render_frame(a: &Adapter) -> (r: Result<FrameDone, SessionError>)
    ensures
        r == spec_render(a.state()),
{
    match &a.state {
        AdapterState::Ready { context_live, xres, yres, .. } => {
            if *context_live {
                Ok(FrameDone { width: *xres, height: *yres })
            } else {
                Err(SessionError::NoRenderContext)
            }
        },
        _ => Err(SessionError::NotReady),
    }
}

/// The audio/video description in each state: engine-reported geometry with
/// fixed bounds and timing once a session exists, an error before that —
/// querying before a load succeeds is a contract violation.
pub open spec fn spec_av_info(s: AdapterState) -> Result<AvInfo, SessionError> {
    match s {
        AdapterState::Ready { xres, yres, .. } => Ok(
            AvInfo {
                base_width: xres,
                base_height: yres,
                max_width: MAX_WIDTH,
                max_height: MAX_HEIGHT,
                fps_hz: FPS_HZ,
                sample_rate_hz: SAMPLE_RATE_HZ,
                aspect_from_geometry: true,
            },
        ),
        _ => Err(SessionError::NotReady),
    }
}

/// Query the audio/video description of the running session.
pub fn get_av_info(a: &Adapter) -> (r: Result<AvInfo, SessionError>)
    ensures
        r == spec_av_info(a.state()),
{
    match &a.state {
        AdapterState::Ready { xres, yres, .. } => Ok(
            AvInfo {
                base_width: *xres,
                base_height: *yres,
                max_width: MAX_WIDTH,
                max_height: MAX_HEIGHT,
                fps_hz: FPS_HZ,
                sample_rate_hz: SAMPLE_RATE_HZ,
                aspect_from_geometry: true,
            },
        ),
        _ => Err(SessionError::NotReady),
    }
}

/// A context reset marks the GL context live; outside a session it changes
/// nothing.
pub open spec fn spec_reset(s: AdapterState) -> AdapterState {
    match s {
        AdapterState::Ready { firmware, context_live, xres, yres } => AdapterState::Ready {
            firmware,
            context_live: true,
            xres,
            yres,
        },
        _ => s,
    }
}

/// A context destroy marks the GL context absent; outside a session it
/// changes nothing.
pub open spec fn spec_destroy(s: AdapterState) -> AdapterState {
    match s {
        AdapterState::Ready { firmware, context_live, xres, yres } => AdapterState::Ready {
            firmware,
            context_live: false,
            xres,
            yres,
        },
        _ => s,
    }
}

/// The host (re)acquired GL resources. May come any number of times across
/// a session; the session itself is untouched, so nothing held under it is
/// lost or duplicated.
pub fn gl_context_reset(a: &mut Adapter)
    requires
        old(a).wf(),
    ensures
        final(a).wf(),
        final(a).state() == spec_reset(old(a).state()),
{
    match &mut a.state {
        AdapterState::Ready { context_live, .. } => {
            *context_live = true;
        },
        _ => {},
    }
}

/// The host revoked the GL context. After this, a frame request fails
/// cleanly instead of touching freed resources, until the next reset.
pub fn gl_context_destroy(a: &mut Adapter)
    requires
        old(a).wf(),
    ensures
        final(a).wf(),
        final(a).state() == spec_destroy(old(a).state()),
{
    match &mut a.state {
        AdapterState::Ready { context_live, .. } => {
            *context_live = false;
        },
        _ => {},
    }
}

/// Record the output geometry the engine currently reports; meaningful only
/// within a session.
pub fn set_geometry(a: &mut Adapter, xres: u32, yres: u32)
    requires
        old(a).wf(),
    ensures
        final(a).wf(),
        old(a).state() matches AdapterState::Ready { firmware, context_live, .. }
            ==> final(a).state() == (AdapterState::Ready { firmware, context_live, xres, yres }),
        !(old(a).state() is Ready) ==> final(a).state() == old(a).state(),
{
    match &mut a.state {
        AdapterState::Ready { xres: x, yres: y, .. } => {
            *x = xres;
            *y = yres;
        },
        _ => {},
    }
}

/// Whether a session is live.
pub fn is_ready(a: &Adapter) -> (r: bool)
    ensures
        r == (a.state() is Ready),
{
    match &a.state {
        AdapterState::Ready { .. } => true,
        _ => false,
    }
}

/// Whether a frame request would succeed right now.
pub fn has_live_context(a: &Adapter) -> (r: bool)
    ensures
        r == spec_can_render(a.state()),
{
    match &a.state {
        AdapterState::Ready { context_live, .. } => *context_live,
        _ => false,
    }
}

/// Without a live render context a frame request yields an error, so no
/// frame-completion signal is produced.
pub proof fn lemma_render_without_context_fails(s: AdapterState)
    requires
        !spec_can_render(s),
    ensures
        spec_render(s) is Err,
{
}

/// Destroying the GL context and then resetting it restores rendering: for
/// any live session the frame request succeeds again, with the same
/// geometry as before the loss.
pub proof fn lemma_destroy_then_reset_restores(s: AdapterState)
    requires
        s is Ready,
    ensures
        spec_can_render(spec_reset(spec_destroy(s))),
        spec_render(spec_reset(spec_destroy(s))) == spec_render(spec_reset(s)),
{
}

/// A context reset is idempotent with respect to the session state.
pub proof fn lemma_reset_idempotent(s: AdapterState)
    ensures
        spec_reset(spec_reset(s)) == spec_reset(s),
{
}

} // verus!
