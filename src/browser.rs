use vstd::prelude::*;

use crate::geometry::{lemma_rectangle_spans_ratio, rectangle, spans_ratio, ImageSize, Shape, Vertex};
use crate::selection::{step_back, step_forward, Selection};

verus! {

/// The buttons of the overlay panel that were clicked during one frame.
#[derive(Clone, Copy, Debug, PartialEq, Eq, Structural)]
pub struct Clicks {
    pub back: bool,
    pub forward: bool,
    pub quit: bool,
}

/// What the host has to do after a frame's clicks: load the image file at
/// `load`, if any, and leave the event loop if `exit` is set.
#[derive(Debug)]
pub struct Step {
    pub load: Option<String>,
    pub exit: bool,
}

/// A decoded and uploaded image: its pixel size and the host's texture handle.
#[derive(Debug)]
pub struct Shown<T> {
    pub size: ImageSize,
    pub texture: T,
}

/// What is on show: nothing, or the image that was last loaded.
#[derive(Debug)]
pub struct Dis<T> {
    pub data: Option<Shown<T>>,
}

/// The views of an optional string.
pub open spec fn opt_view(o: Option<String>) -> Option<Seq<char>> {
    match o {
        Some(s) => Some(s@),
        None => None,
    }
}

/// The position after one frame's clicks: "<" is handled before ">".
pub open spec fn clicked_index(i: nat, len: nat, c: Clicks) -> nat {
    let after_back = if c.back { step_back(i) } else { i };
    if c.forward { step_forward(after_back, len) } else { after_back }
}

/// The state of the image browser: the list of images, which one is selected,
/// what is on show, and whether the user asked to quit.
pub struct Browser<T> {
    selection: Selection,
    base: String,
    images: Vec<String>,
    display: Dis<T>,
    exit_requested: bool,
}

impl<T> Browser<T> {
    pub closed spec fn index_spec(&self) -> nat {
        self.selection.index_spec()
    }

    pub closed spec fn base_spec(&self) -> Seq<char> {
        self.base@
    }

    pub closed spec fn images_spec(&self) -> Seq<Seq<char>> {
        self.images@.map_values(|s: String| s@)
    }

    pub closed spec fn display_spec(&self) -> Option<Shown<T>> {
        self.display.data
    }

    pub closed spec fn exit_requested_spec(&self) -> bool {
        self.exit_requested
    }

    /// The position is that of an image of the list whenever the list holds any.
    pub closed spec fn wf(&self) -> bool {
        &&& self.selection.wf()
        &&& self.selection.len_spec() == self.images@.len()
    }

    /// The corners handed to the draw call of a frame: none once the user asked
    /// to quit or while nothing is on show.
    pub open spec fn frame_spec(&self) -> Option<Seq<Vertex>> {
        if self.exit_requested_spec() {
            None
        } else {
            match self.display_spec() {
                Some(s) => Some(rectangle(s.size)),
                None => None,
            }
        }
    }

    /// The file to load after one frame's clicks: the base directory followed by
    /// the selected file name, whenever a button moved or tried to move the
    /// selection.
    pub open spec fn load_spec(&self, c: Clicks, index: nat) -> Option<Seq<char>> {
        if (c.back || c.forward) && self.images_spec().len() > 0 {
            Some(self.base_spec() + self.images_spec()[index as int])
        } else {
            None
        }
    }

    /// One frame's clicks take `before` to `after`, and the host is told to load
    /// `load` and to leave the event loop when `exit` holds.
    pub open spec fn clicked(
        before: Self,
        c: Clicks,
        after: Self,
        load: Option<Seq<char>>,
        exit: bool,
    ) -> bool {
        &&& after.wf()
        &&& after.base_spec() == before.base_spec()
        &&& after.images_spec() == before.images_spec()
        &&& after.display_spec() == before.display_spec()
        &&& if before.exit_requested_spec() {
            &&& after == before
            &&& load is None
            &&& exit
        } else {
            &&& after.index_spec() == clicked_index(
                before.index_spec(),
                before.images_spec().len(),
                c,
            )
            &&& after.exit_requested_spec() == c.quit
            &&& exit == c.quit
            &&& load == before.load_spec(c, after.index_spec())
        }
    }

    /// A browser over `images`, files of the directory `base`, at the first
    /// image, with nothing on show.
    pub fn new(base: String, images: Vec<String>) -> (r: Browser<T>)
        ensures
            r.wf(),
            r.index_spec() == 0,
            r.base_spec() == base@,
            r.images_spec() == images@.map_values(|s: String| s@),
            r.display_spec() is None,
            !r.exit_requested_spec(),
    {
        let selection = Selection::new(images.len());
        Browser { selection, base, images, display: Dis { data: None }, exit_requested: false }
    }

    /// The position of the selected image.
    pub fn selected(&self) -> (r: usize)
        ensures
            r == self.index_spec(),
    {
        self.selection.index()
    }

    /// What is on show.
    pub fn display(&self) -> (r: &Dis<T>)
        ensures
            r.data == self.display_spec(),
    {
        &self.display
    }

    /// Whether the user asked to quit.
    pub fn exit_requested(&self) -> (r: bool)
        ensures
            r == self.exit_requested_spec(),
    {
        self.exit_requested
    }

    /// Handles the clicks of one frame.
    pub fn on_clicks(&mut self, clicks: Clicks) -> (r: Step)
        requires
            old(self).wf(),
        ensures
            Self::clicked(*old(self), clicks, *final(self), opt_view(r.load), r.exit),
    {
        if self.exit_requested {
            return Step { load: None, exit: true };
        }
        if clicks.back {
            self.selection.step_back();
        }
        if clicks.forward {
            self.selection.step_forward();
        }
        let mut load: Option<String> = None;
        if (clicks.back || clicks.forward) && self.images.len() > 0 {
            let i = self.selection.index();
            let path = self.base.clone().concat(self.images[i].as_str());
            load = Some(path);
        }
        if clicks.quit {
            self.exit_requested = true;
        }
        Step { load, exit: clicks.quit }
    }

    /// Records the outcome of loading the selected file: the decoded image, or
    /// nothing where reading, decoding or uploading failed.
    pub fn finish_load(&mut self, result: Option<Shown<T>>)
        requires
            old(self).wf(),
        ensures
            final(self).wf(),
            final(self).display_spec() == result,
            final(self).index_spec() == old(self).index_spec(),
            final(self).base_spec() == old(self).base_spec(),
            final(self).images_spec() == old(self).images_spec(),
            final(self).exit_requested_spec() == old(self).exit_requested_spec(),
    {
        self.display = Dis { data: result };
    }

    /// The quad to draw this frame, if any.
    pub fn frame(&self) -> (r: Option<Shape>)
        ensures
            match r {
                Some(s) => self.frame_spec() == Some(s@),
                None => self.frame_spec() is None,
            },
    {
        if self.exit_requested {
            return None;
        }
        match &self.display.data {
            Some(shown) => Some(Shape::new_rectangle(shown.size)),
            None => None,
        }
    }
}

/// Once an image has been loaded, the quad drawn for it spans, on each side of
/// the centre, the image's width over its height.
pub proof fn lemma_loaded_frame_spans_ratio<T>(b: Browser<T>, shown: Shown<T>)
    requires
        b.display_spec() == Some(shown),
        !b.exit_requested_spec(),
    ensures
        b.frame_spec() == Some(rectangle(shown.size)),
        spans_ratio(rectangle(shown.size), shown.size.width as int, shown.size.height as int),
{
    lemma_rectangle_spans_ratio(shown.size);
}

/// A click on "quit" ends the event loop in the frame that handles it: that
/// frame already reports the exit, nothing is drawn from then on, and any later
/// clicks change nothing and load nothing.
pub proof fn lemma_quit_stops<T>(
    b0: Browser<T>,
    c1: Clicks,
    b1: Browser<T>,
    load1: Option<Seq<char>>,
    exit1: bool,
    c2: Clicks,
    b2: Browser<T>,
    load2: Option<Seq<char>>,
    exit2: bool,
)
    requires
        c1.quit,
        Browser::clicked(b0, c1, b1, load1, exit1),
        Browser::clicked(b1, c2, b2, load2, exit2),
    ensures
        exit1,
        b1.frame_spec() is None,
        exit2,
        load2 is None,
        b2 == b1,
        b2.frame_spec() is None,
{
}

} // verus!
