//! What the window does in each frame, apart from input: what it takes over, says
//! and draws again.
use crate::connection;
use crate::connection::connection_error_is_terminal;
use crate::frames::VideoFrameBuffer;
use crate::text;
use crate::text::{chars_of, concat, decimal_string, string_of};
use crate::time::{Duration, Instant};
use vstd::prelude::*;
use vstd::string::*;

verus! {

/// Takes over the frame that the decoder has left, if it is new. The buffers
/// change places, so that the decoder can fill the other one.
pub fn take_pending_frame(shared: &mut VideoFrameBuffer, upload: &mut VideoFrameBuffer) -> (taken:
    bool)
    ensures
        taken == (old(shared).dirty && old(shared).width > 0),
        taken ==> {
            &&& *final(upload) == (VideoFrameBuffer { dirty: false, ..*old(shared) })
            &&& *final(shared) == (VideoFrameBuffer { dirty: false, ..*old(upload) })
        },
        !taken ==> *final(upload) == *old(upload) && *final(shared) == *old(shared),
{
    if shared.dirty && shared.width > 0 {
        std::mem::swap(upload, shared);
        shared.dirty = false;
        upload.dirty = false;
        true
    } else {
        false
    }
}

/// The error when a frame could not be brought to the screen.
pub fn upload_failed_text(cause: &str) -> (s: String)
    ensures
        s@ == "GL upload failed: "@ + cause@,
{
    concat("GL upload failed: ", cause)
}

/// Whether the pointer has moved in the last three seconds.
pub open spec fn recently_active(last_move: Option<Instant>, now: Instant) -> bool {
    last_move matches Some(at) && now.since(at).nanos < 3_000_000_000
}

pub fn recent_pointer_activity(last_move: Option<Instant>, now: Instant) -> (r: bool)
    ensures
        r == recently_active(last_move, now),
{
    match last_move {
        Some(at) => now.saturating_duration_since(at).nanos < 3_000_000_000,
        None => false,
    }
}

/// When the window is drawn again at the latest, if nothing else happens.
pub fn periodic_repaint(
    connected: bool,
    debug_enabled: bool,
    menu_open: bool,
    recently_active: bool,
    update_busy: bool,
) -> (wait: Option<Duration>)
    ensures
        wait == if update_busy {
            Some(Duration { nanos: 100_000_000 })
        } else if connected && (debug_enabled || menu_open || recently_active) {
            Some(Duration { nanos: 250_000_000 })
        } else {
            None
        },
{
    if update_busy {
        Some(Duration::from_millis(100))
    } else if connected && (debug_enabled || menu_open || recently_active) {
        Some(Duration::from_millis(250))
    } else {
        None
    }
}

/// How strongly the menu's button is drawn.
pub fn launcher_alpha(menu_open: bool, recently_active: bool) -> (alpha: u8)
    ensures
        alpha == if menu_open {
            220u8
        } else if recently_active {
            170u8
        } else {
            96u8
        },
{
    if menu_open {
        220
    } else if recently_active {
        170
    } else {
        96
    }
}

/// Whether the frames go to the screen without the client's own panels.
pub fn prefers_windows_overlayless_present(
    windows: bool,
    captured: bool,
    menu_open: bool,
    debug_enabled: bool,
) -> (r: bool)
    ensures
        r == (windows && captured && !menu_open && !debug_enabled),
{
    windows && captured && !menu_open && !debug_enabled
}

/// What the user sees after an error.
#[derive(Clone, Debug)]
pub struct ErrorScreen {
    /// The client is trying again by itself.
    pub reconnecting: bool,
    pub title: String,
    pub attempt: Option<String>,
    pub button: String,
}

/// Makes up the screen that is shown after an error: the client tries again
/// unless the server has refused it.
pub fn error_screen(message: &str, has_address: bool, attempts: u32) -> (screen: ErrorScreen)
    ensures
        screen.reconnecting == (!connection::terminal(message@) && has_address),
        screen.title@ == if screen.reconnecting {
            "Connection lost — reconnecting…"@
        } else {
            "Connection Failed"@
        },
        match screen.attempt {
            Some(text) => screen.reconnecting && attempts > 0 && text@ == "attempt "@
                + text::decimal((attempts + 1) as nat),
            None => !screen.reconnecting || attempts == 0,
        },
        screen.button@ == if screen.reconnecting {
            "Cancel"@
        } else {
            "Back"@
        },
{
    let reconnecting = !connection_error_is_terminal(message) && has_address;
    if reconnecting {
        let attempt = if attempts > 0 {
            Some(concat("attempt ", decimal_string(attempts as u64 + 1).as_str()))
        } else {
            None
        };
        ErrorScreen {
            reconnecting,
            title: "Connection lost — reconnecting…".to_owned(),
            attempt,
            button: "Cancel".to_owned(),
        }
    } else {
        ErrorScreen {
            reconnecting,
            title: "Connection Failed".to_owned(),
            attempt: None,
            button: "Back".to_owned(),
        }
    }
}

/// Whether the lines of the debug view are made up anew: about six times a second.
pub fn debug_lines_due(empty: bool, built_at: Instant, now: Instant) -> (r: bool)
    ensures
        r == (empty || now.since(built_at).nanos >= 150_000_000),
{
    empty || now.saturating_duration_since(built_at).nanos >= 150_000_000
}

/// The areas of the client's own panels. Those that are drawn in one frame count
/// in the next, in whatever order they are drawn.
#[derive(Clone, Debug)]
pub struct OverlayRects<R> {
    pub active: Vec<R>,
    pub pending: Vec<R>,
}

impl<R> OverlayRects<R> {
    pub fn new() -> (rects: OverlayRects<R>)
        ensures
            rects.active@.len() == 0,
            rects.pending@.len() == 0,
    {
        OverlayRects { active: Vec::new(), pending: Vec::new() }
    }

    pub fn register_overlay_rect(&mut self, rect: R)
        ensures
            final(self).active@ == old(self).active@,
            final(self).pending@ == old(self).pending@.push(rect),
    {
        self.pending.push(rect);
    }

    /// A new frame begins.
    pub fn next_frame(&mut self)
        ensures
            final(self).active@ == old(self).pending@,
            final(self).pending@.len() == 0,
    {
        let mut pending: Vec<R> = Vec::new();
        std::mem::swap(&mut pending, &mut self.pending);
        self.active = pending;
    }

    /// No panel is drawn over the video.
    pub fn clear_active(&mut self)
        ensures
            final(self).active@.len() == 0,
            final(self).pending@ == old(self).pending@,
    {
        self.active.clear();
    }

    pub fn clear(&mut self)
        ensures
            final(self).active@.len() == 0,
            final(self).pending@.len() == 0,
    {
        self.active.clear();
        self.pending.clear();
    }
}

/// Whether the menu stays open.
pub fn menu_stays_open(open: bool, escape_pressed: bool, pressed_elsewhere: bool) -> (r: bool)
    ensures
        r == (open && !escape_pressed && !pressed_elsewhere),
{
    open && !escape_pressed && !pressed_elsewhere
}

/// One of the server's screens, as it stands in the menu.
pub fn output_label(name: &str, width: u32, height: u32, selected: bool) -> (s: String)
    ensures
        s@ == (if selected {
            "● "@
        } else {
            "   "@
        }) + name@ + " ("@ + text::decimal(width as nat) + "×"@ + text::decimal(height as nat)
            + ")"@,
{
    let mut s = if selected {
        "● ".to_owned()
    } else {
        "   ".to_owned()
    };
    s.append(name);
    s.append(" (");
    s.append(decimal_string(width as u64).as_str());
    s.append("×");
    s.append(decimal_string(height as u64).as_str());
    s.append(")");
    s
}

/// How a file transfer stands.
#[derive(Clone, Copy, Debug, PartialEq, Eq, Structural)]
pub enum TransferStatus {
    AwaitingAccept,
    Active,
    Verifying,
    Completed,
    Cancelled,
    Failed,
}

impl TransferStatus {
    /// A bar shows how far it has come.
    pub fn shows_progress(self) -> (r: bool)
        ensures
            r == (self == TransferStatus::Active || self == TransferStatus::Verifying),
    {
        self == TransferStatus::Active || self == TransferStatus::Verifying
    }

    pub fn label(self) -> (s: &'static str)
        ensures
            s@ == match self {
                TransferStatus::AwaitingAccept => "waiting..."@,
                TransferStatus::Completed => "completed"@,
                TransferStatus::Cancelled => "cancelled"@,
                TransferStatus::Failed => "failed"@,
                _ => ""@,
            },
    {
        match self {
            TransferStatus::AwaitingAccept => "waiting...",
            TransferStatus::Completed => "completed",
            TransferStatus::Cancelled => "cancelled",
            TransferStatus::Failed => "failed",
            _ => "",
        }
    }
}

/// A place where a text can be cut: so many bytes stand before it.
pub open spec fn cuts_at(s: Seq<char>, bytes: nat, k: int) -> bool {
    0 <= k <= s.len() && text::text_bytes(s.take(k)) == bytes
}

proof fn longer_texts_take_more(s: Seq<char>, j: int, k: int)
    requires
        0 <= j < k <= s.len(),
    ensures
        text::text_bytes(s.take(j)) < text::text_bytes(s.take(k)),
    decreases k - j,
{
    assert(s.take(k).drop_last() =~= s.take(k - 1));
    if j < k - 1 {
        longer_texts_take_more(s, j, k - 1);
    }
}

/// The name of a file that has to fit: cut after `kept` bytes if it takes more
/// than `max`.
pub fn short_file_name(name: &str, max: usize, kept: usize) -> (s: String)
    requires
        text::text_bytes(name@) > max ==> exists|k: int| cuts_at(name@, kept as nat, k),
    ensures
        text::text_bytes(name@) <= max ==> s@ == name@,
        text::text_bytes(name@) > max ==> exists|k: int|
            #[trigger] cuts_at(name@, kept as nat, k) && s@ == name@.take(k) + "..."@,
{
    let v = chars_of(name);
    if text::fits(&v, max) {
        return name.to_owned();
    }
    let ghost cut = choose|k: int| cuts_at(name@, kept as nat, k);
    let mut i: usize = 0;
    let mut bytes: usize = 0;
    while bytes < kept
        invariant
            v@ == name@,
            cuts_at(name@, kept as nat, cut),
            i <= cut,
            bytes == text::text_bytes(name@.take(i as int)),
            bytes <= kept,
        decreases kept - bytes,
    {
        proof {
            if i == cut {
                assert(bytes == kept);
            }
            assert(i < cut);
            assert(name@.take(i as int + 1).drop_last() =~= name@.take(i as int));
            if i + 1 < cut {
                longer_texts_take_more(name@, i as int + 1, cut);
            }
        }
        let size: usize = text::char_size(v[i]);
        bytes = bytes + size;
        i = i + 1;
    }
    proof {
        if i < cut {
            longer_texts_take_more(name@, i as int, cut);
        }
        assert(cuts_at(name@, kept as nat, i as int));
        assert(v@.subrange(0, i as int) =~= name@.take(i as int));
    }
    concat(string_of(&v, 0, i).as_str(), "...")
}

/// What is said of files that the other side offers. `size` is their size, all
/// told.
pub fn offer_label(first_name: &str, count: usize, size: &str) -> (s: String)
    ensures
        s@ == if count == 1 {
            first_name@ + " ("@ + size@ + ")"@
        } else {
            text::decimal(count as nat) + " files ("@ + size@ + ")"@
        },
{
    let mut s = if count == 1 {
        concat(first_name, " (")
    } else {
        concat(decimal_string(count as u64).as_str(), " files (")
    };
    s.append(size);
    s.append(")");
    s
}

} // verus!
