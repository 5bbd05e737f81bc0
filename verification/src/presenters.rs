//! Presenters: they keep the newest frame that the graphics hardware can show as it
//! is, and give up for good at the first failure.
use vstd::prelude::*;

verus! {

/// Shows frames from the driver's buffers inside the window.
#[derive(Clone, Debug)]
pub struct LinuxDirectVideoPresenter<F> {
    pub enabled: bool,
    pub logged_success: bool,
    pub frame: Option<F>,
    /// What imports frames exists.
    pub importer: bool,
    /// What draws them exists.
    pub pipeline: bool,
}

/// What to do when the window asks for the frame.
#[derive(Clone, Copy, Debug, PartialEq, Eq, Structural)]
pub enum DrawWork {
    MakeImporter,
    MakePipeline,
    Draw,
}

impl<F> LinuxDirectVideoPresenter<F> {
    pub fn new() -> (p: LinuxDirectVideoPresenter<F>)
        ensures
            p == (LinuxDirectVideoPresenter::<F> {
                enabled: true,
                logged_success: false,
                frame: None,
                importer: false,
                pipeline: false,
            }),
    {
        LinuxDirectVideoPresenter {
            enabled: true,
            logged_success: false,
            frame: None,
            importer: false,
            pipeline: false,
        }
    }

    pub fn is_enabled(&self) -> (r: bool)
        ensures
            r == self.enabled,
    {
        self.enabled
    }

    pub open spec fn shows(self) -> bool {
        self.enabled && self.frame is Some
    }

    pub fn has_frame(&self) -> (r: bool)
        ensures
            r == self.shows(),
    {
        self.enabled && self.frame.is_some()
    }

    pub fn clear(&mut self)
        ensures
            *final(self) == (LinuxDirectVideoPresenter { frame: None, ..*old(self) }),
    {
        self.frame = None;
    }

    pub open spec fn off(self) -> LinuxDirectVideoPresenter<F> {
        LinuxDirectVideoPresenter {
            enabled: false,
            logged_success: false,
            frame: None,
            importer: false,
            pipeline: false,
        }
    }

    pub fn disable(&mut self)
        ensures
            *final(self) == old(self).off(),
    {
        self.enabled = false;
        self.logged_success = false;
        self.frame = None;
        self.importer = false;
        self.pipeline = false;
    }

    /// Takes a copy of a frame. Without the copy (its descriptors could not be
    /// duplicated) the presenter gives up.
    pub fn stage_frame(&mut self, copy: Option<F>) -> (staged: bool)
        ensures
            staged == (old(self).enabled && copy is Some),
            *final(self) == if !old(self).enabled {
                *old(self)
            } else if copy is Some {
                LinuxDirectVideoPresenter { frame: copy, ..*old(self) }
            } else {
                old(self).off()
            },
    {
        if !self.enabled {
            return false;
        }
        if copy.is_none() {
            self.disable();
            return false;
        }
        self.frame = copy;
        true
    }

    pub open spec fn next_work(self) -> Option<DrawWork> {
        if !self.shows() {
            None
        } else if !self.importer {
            Some(DrawWork::MakeImporter)
        } else if !self.pipeline {
            Some(DrawWork::MakePipeline)
        } else {
            Some(DrawWork::Draw)
        }
    }

    /// What has to be done next to draw the frame, if there is one.
    pub fn render(&self) -> (work: Option<DrawWork>)
        ensures
            work == self.next_work(),
    {
        if !self.enabled || self.frame.is_none() {
            None
        } else if !self.importer {
            Some(DrawWork::MakeImporter)
        } else if !self.pipeline {
            Some(DrawWork::MakePipeline)
        } else {
            Some(DrawWork::Draw)
        }
    }

    pub open spec fn after_work(self, work: DrawWork, ok: bool) -> LinuxDirectVideoPresenter<F> {
        if !ok {
            self.off()
        } else {
            match work {
                DrawWork::MakeImporter => LinuxDirectVideoPresenter { importer: true, ..self },
                DrawWork::MakePipeline => LinuxDirectVideoPresenter { pipeline: true, ..self },
                DrawWork::Draw => LinuxDirectVideoPresenter { logged_success: true, ..self },
            }
        }
    }

    /// Notes how a piece of work went. Returns whether the path has just been shown
    /// to work, which is worth a line in the log.
    pub fn note_work(&mut self, work: DrawWork, ok: bool) -> (first: bool)
        ensures
            *final(self) == old(self).after_work(work, ok),
            first == (ok && work == DrawWork::Draw && !old(self).logged_success),
    {
        if !ok {
            self.disable();
            return false;
        }
        match work {
            DrawWork::MakeImporter => {
                self.importer = true;
                false
            },
            DrawWork::MakePipeline => {
                self.pipeline = true;
                false
            },
            DrawWork::Draw => {
                let first = !self.logged_success;
                self.logged_success = true;
                first
            },
        }
    }
}

/// Draws the decoder's surfaces inside the window.
#[derive(Clone, Debug)]
pub struct MacosDirectVideoPresenter<F> {
    pub enabled: bool,
    pub logged_success: bool,
    pub frame: Option<F>,
    pub importer: bool,
    pub pipeline: bool,
}

impl<F> MacosDirectVideoPresenter<F> {
    pub fn new() -> (p: MacosDirectVideoPresenter<F>)
        ensures
            p == (MacosDirectVideoPresenter::<F> {
                enabled: true,
                logged_success: false,
                frame: None,
                importer: false,
                pipeline: false,
            }),
    {
        MacosDirectVideoPresenter {
            enabled: true,
            logged_success: false,
            frame: None,
            importer: false,
            pipeline: false,
        }
    }

    pub fn is_enabled(&self) -> (r: bool)
        ensures
            r == self.enabled,
    {
        self.enabled
    }

    pub open spec fn shows(self) -> bool {
        self.enabled && self.frame is Some
    }

    pub fn has_frame(&self) -> (r: bool)
        ensures
            r == self.shows(),
    {
        self.enabled && self.frame.is_some()
    }

    pub fn clear(&mut self)
        ensures
            *final(self) == (MacosDirectVideoPresenter { frame: None, ..*old(self) }),
    {
        self.frame = None;
    }

    pub open spec fn off(self) -> MacosDirectVideoPresenter<F> {
        MacosDirectVideoPresenter {
            enabled: false,
            logged_success: false,
            frame: None,
            importer: false,
            pipeline: false,
        }
    }

    pub fn disable(&mut self)
        ensures
            *final(self) == old(self).off(),
    {
        self.enabled = false;
        self.logged_success = false;
        self.frame = None;
        self.importer = false;
        self.pipeline = false;
    }

    pub fn stage_frame(&mut self, frame: F)
        ensures
            *final(self) == if old(self).enabled {
                MacosDirectVideoPresenter { frame: Some(frame), ..*old(self) }
            } else {
                *old(self)
            },
    {
        if self.enabled {
            self.frame = Some(frame);
        }
    }

    pub open spec fn next_work(self) -> Option<DrawWork> {
        if !self.shows() {
            None
        } else if !self.importer {
            Some(DrawWork::MakeImporter)
        } else if !self.pipeline {
            Some(DrawWork::MakePipeline)
        } else {
            Some(DrawWork::Draw)
        }
    }

    /// What has to be done next to draw the frame, if there is one.
    pub fn render(&self) -> (work: Option<DrawWork>)
        ensures
            work == self.next_work(),
    {
        if !self.enabled || self.frame.is_none() {
            None
        } else if !self.importer {
            Some(DrawWork::MakeImporter)
        } else if !self.pipeline {
            Some(DrawWork::MakePipeline)
        } else {
            Some(DrawWork::Draw)
        }
    }

    pub open spec fn after_work(self, work: DrawWork, ok: bool) -> MacosDirectVideoPresenter<F> {
        if !ok {
            self.off()
        } else {
            match work {
                DrawWork::MakeImporter => MacosDirectVideoPresenter { importer: true, ..self },
                DrawWork::MakePipeline => MacosDirectVideoPresenter { pipeline: true, ..self },
                DrawWork::Draw => MacosDirectVideoPresenter { logged_success: true, ..self },
            }
        }
    }

    /// Notes how a piece of work went. Returns whether the path has just been shown
    /// to work, which is worth a line in the log.
    pub fn note_work(&mut self, work: DrawWork, ok: bool) -> (first: bool)
        ensures
            *final(self) == old(self).after_work(work, ok),
            first == (ok && work == DrawWork::Draw && !old(self).logged_success),
    {
        if !ok {
            self.disable();
            return false;
        }
        match work {
            DrawWork::MakeImporter => {
                self.importer = true;
                false
            },
            DrawWork::MakePipeline => {
                self.pipeline = true;
                false
            },
            DrawWork::Draw => {
                let first = !self.logged_success;
                self.logged_success = true;
                first
            },
        }
    }
}

/// Shows the decoder's surfaces in a view of its own below the window's.
#[derive(Clone, Debug)]
pub struct MacosMetalVideoPresenter<F> {
    pub enabled: bool,
    pub logged_success: bool,
    pub frame: Option<F>,
    pub staged_serial: u64,
    pub rendered_serial: u64,
    /// What draws frames exists.
    pub renderer: bool,
}

/// What to do when the window asks for the frame.
#[derive(Clone, Copy, Debug, PartialEq, Eq, Structural)]
pub enum PresentWork {
    /// Make what draws frames, then ask again.
    MakeRenderer,
    /// Show the frame. It is `dirty` if it has not been drawn yet.
    Present { dirty: bool },
}

impl<F> MacosMetalVideoPresenter<F> {
    pub fn new() -> (p: MacosMetalVideoPresenter<F>)
        ensures
            p == (MacosMetalVideoPresenter::<F> {
                enabled: true,
                logged_success: false,
                frame: None,
                staged_serial: 0,
                rendered_serial: 0,
                renderer: false,
            }),
    {
        MacosMetalVideoPresenter {
            enabled: true,
            logged_success: false,
            frame: None,
            staged_serial: 0,
            rendered_serial: 0,
            renderer: false,
        }
    }

    pub fn is_enabled(&self) -> (r: bool)
        ensures
            r == self.enabled,
    {
        self.enabled
    }

    pub open spec fn shows(self) -> bool {
        self.enabled && self.frame is Some
    }

    pub fn has_frame(&self) -> (r: bool)
        ensures
            r == self.shows(),
    {
        self.enabled && self.frame.is_some()
    }

    /// Forgets the frame. Returns whether there is a view to hide.
    pub fn clear(&mut self) -> (hides: bool)
        ensures
            hides == old(self).renderer,
            *final(self) == (MacosMetalVideoPresenter {
                frame: None,
                staged_serial: 0,
                rendered_serial: 0,
                ..*old(self)
            }),
    {
        self.frame = None;
        self.staged_serial = 0;
        self.rendered_serial = 0;
        self.renderer
    }

    pub open spec fn staged(self, frame: F) -> MacosMetalVideoPresenter<F> {
        if self.enabled {
            MacosMetalVideoPresenter {
                frame: Some(frame),
                staged_serial: if self.staged_serial == u64::MAX {
                    0u64
                } else {
                    (self.staged_serial + 1) as u64
                },
                ..self
            }
        } else {
            self
        }
    }

    pub fn stage_frame(&mut self, frame: F) -> (staged: bool)
        ensures
            staged == old(self).enabled,
            *final(self) == old(self).staged(frame),
    {
        if !self.enabled {
            return false;
        }
        self.frame = Some(frame);
        self.staged_serial = self.staged_serial.wrapping_add(1);
        true
    }

    /// The newest frame has not been drawn yet.
    pub open spec fn dirty(self) -> bool {
        self.staged_serial != self.rendered_serial
    }

    /// What has to be done to show the frame, if there is one.
    pub fn present(&self) -> (work: Option<PresentWork>)
        ensures
            work == if !self.shows() {
                None::<PresentWork>
            } else if !self.renderer {
                Some(PresentWork::MakeRenderer)
            } else {
                Some(PresentWork::Present { dirty: self.dirty() })
            },
    {
        if !self.enabled || self.frame.is_none() {
            None
        } else if !self.renderer {
            Some(PresentWork::MakeRenderer)
        } else {
            Some(PresentWork::Present { dirty: self.staged_serial != self.rendered_serial })
        }
    }

    /// What draws frames has been made.
    pub fn renderer_made(&mut self)
        ensures
            *final(self) == (MacosMetalVideoPresenter { renderer: true, ..*old(self) }),
    {
        self.renderer = true;
    }

    pub open spec fn shown(self) -> MacosMetalVideoPresenter<F> {
        MacosMetalVideoPresenter {
            rendered_serial: self.staged_serial,
            logged_success: true,
            ..self
        }
    }

    /// The frame is on the screen. Returns whether that has just been shown to work.
    pub fn presented(&mut self) -> (first: bool)
        ensures
            first == !old(self).logged_success,
            *final(self) == old(self).shown(),
    {
        let first = !self.logged_success;
        self.rendered_serial = self.staged_serial;
        self.logged_success = true;
        first
    }

    pub open spec fn off(self) -> MacosMetalVideoPresenter<F> {
        MacosMetalVideoPresenter {
            enabled: false,
            logged_success: false,
            frame: None,
            renderer: false,
            ..self
        }
    }

    pub fn disable(&mut self)
        ensures
            *final(self) == old(self).off(),
    {
        self.enabled = false;
        self.logged_success = false;
        self.frame = None;
        self.renderer = false;
    }
}

/// What the view below the window has to do.
#[derive(Clone, Copy, Debug, PartialEq, Eq, Structural)]
pub enum ViewStep {
    Hide,
    Keep,
    Draw,
}

/// Chooses what the view has to do: nothing is drawn twice in the same place.
pub fn view_step(visible: bool, frame_dirty: bool, view_changed: bool) -> (step: ViewStep)
    ensures
        step == if !visible {
            ViewStep::Hide
        } else if frame_dirty || view_changed {
            ViewStep::Draw
        } else {
            ViewStep::Keep
        },
{
    if !visible {
        ViewStep::Hide
    } else if !frame_dirty && !view_changed {
        ViewStep::Keep
    } else {
        ViewStep::Draw
    }
}

/// How many of the submissions, oldest first, are over and can be given back: those
/// before the first that is still running.
pub fn reap_pending_submissions(over: &Vec<bool>) -> (count: usize)
    ensures
        count <= over@.len(),
        forall|i: int| 0 <= i < count ==> #[trigger] over@[i],
        count < over@.len() ==> !over@[count as int],
{
    let mut count: usize = 0;
    while count < over.len()
        invariant
            count <= over@.len(),
            forall|i: int| 0 <= i < count ==> #[trigger] over@[i],
        decreases over@.len() - count,
    {
        if !over[count] {
            return count;
        }
        count = count + 1;
    }
    count
}

/// A presenter that has given up shows nothing, takes no frame and has no work,
/// whatever it is offered.
pub proof fn presenters_give_up_for_good<F>(
    linux: LinuxDirectVideoPresenter<F>,
    direct: MacosDirectVideoPresenter<F>,
    metal: MacosMetalVideoPresenter<F>,
    frame: F,
)
    ensures
        !linux.off().shows() && linux.off().next_work() is None,
        !direct.off().shows() && direct.off().next_work() is None,
        !metal.off().shows() && metal.off().staged(frame) == metal.off(),
{
}

/// A frame that was staged is drawn: it counts as new until it has been shown, and
/// not after.
pub proof fn staged_frames_are_drawn_once<F>(metal: MacosMetalVideoPresenter<F>, frame: F)
    requires
        metal.enabled,
        !metal.dirty(),
    ensures
        metal.staged(frame).dirty(),
        !metal.staged(frame).shown().dirty(),
{
}

/// A presenter needs at most two preparations before it draws.
pub proof fn drawing_starts_soon<F>(linux: LinuxDirectVideoPresenter<F>)
    requires
        linux.shows(),
        linux.next_work() != Some(DrawWork::Draw),
    ensures
        ({
            let once = linux.after_work(linux.next_work()->0, true);
            let twice = once.after_work(once.next_work()->0, true);
            once.next_work() == Some(DrawWork::Draw) || twice.next_work() == Some(DrawWork::Draw)
        }),
{
}

} // verus!
